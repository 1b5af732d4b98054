//! The platform's system colors, in the four appearance variants, for the
//! status icon tinting done outside the library.

use vstd::prelude::*;

verus! {

/// One system color in its four appearance variants, as RGB triples.
#[derive(Clone, Copy, Debug)]
pub struct Color {
    pub default_light: (u8, u8, u8),
    pub default_dark: (u8, u8, u8),
    pub accessible_light: (u8, u8, u8),
    pub accessible_dark: (u8, u8, u8),
}

} // verus!
