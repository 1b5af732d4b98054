//! A small JSON reader for the transcription response envelope: it walks
//! one top-level object and hands back the decoded value of its `text`
//! member. The grammar covered is what response envelopes hold: objects,
//! arrays, strings with the standard escapes (`\uXXXX` only up to ASCII),
//! numbers, `true`, `false` and `null`. Anything else is rejected with
//! `None`, never a panic. Parsing works on the UTF-8 bytes; multi-byte
//! characters pass through strings untouched.

use vstd::prelude::*;

use vstd::string::StringSliceAdditionalSpecFns;

verus! {

/// JSON insignificant whitespace.
pub open spec fn is_ws_byte(b: u8) -> bool {
    b == 0x20 || b == 0x09 || b == 0x0a || b == 0x0d
}

/// The first position at or after `i` that does not hold whitespace.
pub open spec fn spec_skip_ws(s: Seq<u8>, i: int) -> int
    decreases s.len() - i,
{
    if i < 0 || i >= s.len() {
        i
    } else if is_ws_byte(s[i]) {
        spec_skip_ws(s, i + 1)
    } else {
        i
    }
}

/// The value of a hex digit, or `None`.
pub open spec fn hex_nibble(b: u8) -> Option<u8> {
    if 0x30 <= b <= 0x39 {
        Some((b - 0x30) as u8)
    } else if 0x61 <= b <= 0x66 {
        Some((b - 0x61 + 10) as u8)
    } else if 0x41 <= b <= 0x46 {
        Some((b - 0x41 + 10) as u8)
    } else {
        None
    }
}

/// The byte a one-character escape stands for, or `None` when the
/// character does not name an escape.
pub open spec fn escape_byte(b: u8) -> Option<u8> {
    if b == 0x22 {  // quote
        Some(0x22u8)
    } else if b == 0x5c {  // backslash
        Some(0x5cu8)
    } else if b == 0x2f {  // slash
        Some(0x2fu8)
    } else if b == 0x62 {  // b
        Some(0x08u8)
    } else if b == 0x66 {  // f
        Some(0x0cu8)
    } else if b == 0x6e {  // n
        Some(0x0au8)
    } else if b == 0x72 {  // r
        Some(0x0du8)
    } else if b == 0x74 {  // t
        Some(0x09u8)
    } else {
        None
    }
}

/// Reads a string body starting after the opening quote: the decoded
/// content and the position after the closing quote. `\uXXXX` escapes
/// are accepted for ASCII code points only; envelopes produced by the
/// usual serializers escape only control characters, which are ASCII.
pub open spec fn spec_string_body(s: Seq<u8>, i: int, fuel: nat) -> Option<(Seq<u8>, int)>
    decreases fuel,
{
    if fuel == 0 || i < 0 || i >= s.len() {
        None
    } else {
        let c = s[i];
        if c == 0x22 {
            Some((Seq::<u8>::empty(), i + 1))
        } else if c == 0x5c {
            if i + 1 >= s.len() {
                None
            } else {
                let e = s[i + 1];
                if e == 0x75 {  // u
                    if i + 6 > s.len() {
                        None
                    } else {
                        match (hex_nibble(s[i + 2]), hex_nibble(s[i + 3]), hex_nibble(s[i + 4]),
                            hex_nibble(s[i + 5])) {
                            (Some(h3), Some(h2), Some(h1), Some(h0)) => {
                                let v = 4096 * (h3 as int) + 256 * (h2 as int) + 16 * (h1 as int)
                                    + (h0 as int);
                                if v > 0x7f {
                                    None
                                } else {
                                    match spec_string_body(s, i + 6, (fuel - 1) as nat) {
                                        Some((rest, j)) => Some((seq![v as u8] + rest, j)),
                                        None => None,
                                    }
                                }
                            },
                            _ => None,
                        }
                    }
                } else {
                    match escape_byte(e) {
                        Some(d) => match spec_string_body(s, i + 2, (fuel - 1) as nat) {
                            Some((rest, j)) => Some((seq![d] + rest, j)),
                            None => None,
                        },
                        None => None,
                    }
                }
            }
        } else if c < 0x20 {
            None
        } else {
            match spec_string_body(s, i + 1, (fuel - 1) as nat) {
                Some((rest, j)) => Some((seq![c] + rest, j)),
                None => None,
            }
        }
    }
}

/// True for a byte that may appear in a number token.
pub open spec fn is_number_byte(b: u8) -> bool {
    (0x30 <= b <= 0x39) || b == 0x2d || b == 0x2b || b == 0x2e || b == 0x65 || b == 0x45
}

/// The position after a run of number bytes.
pub open spec fn spec_skip_number(s: Seq<u8>, i: int) -> int
    decreases s.len() - i,
{
    if i < 0 || i >= s.len() {
        i
    } else if is_number_byte(s[i]) {
        spec_skip_number(s, i + 1)
    } else {
        i
    }
}

/// True when the literal `lit` stands at `i`.
pub open spec fn has_lit(s: Seq<u8>, i: int, lit: Seq<u8>) -> bool {
    0 <= i && i + lit.len() <= s.len() && s.subrange(i, i + lit.len()) == lit
}

/// Skips one JSON value starting exactly at `i`; the position after it.
pub open spec fn spec_skip_value(s: Seq<u8>, i: int, fuel: nat) -> Option<int>
    decreases fuel,
{
    if fuel == 0 || i < 0 || i >= s.len() {
        None
    } else {
        let c = s[i];
        if c == 0x22 {  // string
            match spec_string_body(s, i + 1, (fuel - 1) as nat) {
                Some((_content, j)) => Some(j),
                None => None,
            }
        } else if c == 0x7b {  // object
            match spec_object_items(s, i + 1, (fuel - 1) as nat, None) {
                Some((_found, j)) => Some(j),
                None => None,
            }
        } else if c == 0x5b {  // array
            spec_array_items(s, i + 1, (fuel - 1) as nat)
        } else if has_lit(s, i, seq![0x74u8, 0x72u8, 0x75u8, 0x65u8]) {  // true
            Some(i + 4)
        } else if has_lit(s, i, seq![0x66u8, 0x61u8, 0x6cu8, 0x73u8, 0x65u8]) {  // false
            Some(i + 5)
        } else if has_lit(s, i, seq![0x6eu8, 0x75u8, 0x6cu8, 0x6cu8]) {  // null
            Some(i + 4)
        } else if is_number_byte(c) {
            Some(spec_skip_number(s, i))
        } else {
            None
        }
    }
}

/// Walks an object's members starting after the opening brace (or after
/// a comma): the decoded `text` member seen last, and the position after
/// the closing brace. Member values are themselves validated; a `text`
/// member must hold a string.
pub open spec fn spec_object_items(s: Seq<u8>, i: int, fuel: nat, found: Option<Seq<u8>>) -> Option<
    (Option<Seq<u8>>, int),
>
    decreases fuel,
{
    if fuel == 0 {
        None
    } else {
        let k = spec_skip_ws(s, i);
        if k >= s.len() {
            None
        } else if s[k] == 0x7d {  // closing brace
            Some((found, k + 1))
        } else if s[k] != 0x22 {
            None
        } else {
            // a member: "key" : value
            match spec_string_body(s, k + 1, (fuel - 1) as nat) {
                None => None,
                Some((key, after_key)) => {
                    let colon = spec_skip_ws(s, after_key);
                    if colon >= s.len() || s[colon] != 0x3a {
                        None
                    } else {
                        let v = spec_skip_ws(s, colon + 1);
                        let is_text = key == seq![0x74u8, 0x65u8, 0x78u8, 0x74u8];
                        if is_text {
                            if v >= s.len() || s[v] != 0x22 {
                                None
                            } else {
                                match spec_string_body(s, v + 1, (fuel - 1) as nat) {
                                    None => None,
                                    Some((content, after_v)) => spec_object_tail(
                                        s,
                                        after_v,
                                        (fuel - 1) as nat,
                                        Some(content),
                                    ),
                                }
                            }
                        } else {
                            match spec_skip_value(s, v, (fuel - 1) as nat) {
                                None => None,
                                Some(after_v) => spec_object_tail(
                                    s,
                                    after_v,
                                    (fuel - 1) as nat,
                                    found,
                                ),
                            }
                        }
                    }
                },
            }
        }
    }
}

/// After one member: either a comma and more members, or the closing
/// brace.
pub open spec fn spec_object_tail(s: Seq<u8>, i: int, fuel: nat, found: Option<Seq<u8>>) -> Option<
    (Option<Seq<u8>>, int),
>
    decreases fuel,
{
    if fuel == 0 {
        None
    } else {
        let k = spec_skip_ws(s, i);
        if k >= s.len() {
            None
        } else if s[k] == 0x7d {
            Some((found, k + 1))
        } else if s[k] == 0x2c {  // comma
            spec_object_items(s, k + 1, (fuel - 1) as nat, found)
        } else {
            None
        }
    }
}

/// Walks an array's elements starting after the opening bracket: the
/// position after the closing bracket.
pub open spec fn spec_array_items(s: Seq<u8>, i: int, fuel: nat) -> Option<int>
    decreases fuel,
{
    if fuel == 0 {
        None
    } else {
        let k = spec_skip_ws(s, i);
        if k >= s.len() {
            None
        } else if s[k] == 0x5d {  // closing bracket
            Some(k + 1)
        } else {
            match spec_skip_value(s, k, (fuel - 1) as nat) {
                None => None,
                Some(after) => spec_array_tail(s, after, (fuel - 1) as nat),
            }
        }
    }
}

/// After one element: either a comma and more elements, or the closing
/// bracket.
pub open spec fn spec_array_tail(s: Seq<u8>, i: int, fuel: nat) -> Option<int>
    decreases fuel,
{
    if fuel == 0 {
        None
    } else {
        let k = spec_skip_ws(s, i);
        if k >= s.len() {
            None
        } else if s[k] == 0x5d {
            Some(k + 1)
        } else if s[k] == 0x2c {
            spec_array_items(s, k + 1, (fuel - 1) as nat)
        } else {
            None
        }
    }
}

/// The decoded `text` member of the body, when the body is one JSON
/// object that carries one: whitespace, the object, whitespace, nothing
/// else.
pub open spec fn spec_text_field(s: Seq<u8>) -> Option<Seq<u8>> {
    let i = spec_skip_ws(s, 0);
    if i >= s.len() || s[i] != 0x7b {
        None
    } else {
        match spec_object_items(s, i + 1, (2 * s.len() + 2) as nat, None) {
            None => None,
            Some((found, j)) => {
                if spec_skip_ws(s, j) == s.len() {
                    found
                } else {
                    None
                }
            },
        }
    }
}

fn skip_ws(s: &Vec<u8>, i: usize) -> (r: usize)
    requires
        i <= s@.len(),
    ensures
        r == spec_skip_ws(s@, i as int),
        i <= r <= s@.len(),
{
    let n = s.len();
    let mut j = i;
    while j < n && (s[j] == 0x20 || s[j] == 0x09 || s[j] == 0x0a || s[j] == 0x0d)
        invariant
            i <= j <= n,
            n == s@.len(),
            spec_skip_ws(s@, i as int) == spec_skip_ws(s@, j as int),
        decreases n - j,
    {
        j = j + 1;
    }
    j
}

fn skip_number(s: &Vec<u8>, i: usize) -> (r: usize)
    requires
        i <= s@.len(),
    ensures
        r == spec_skip_number(s@, i as int),
        i <= r <= s@.len(),
{
    let n = s.len();
    let mut j = i;
    while j < n && (0x30 <= s[j] && s[j] <= 0x39 || s[j] == 0x2d || s[j] == 0x2b || s[j] == 0x2e
        || s[j] == 0x65 || s[j] == 0x45)
        invariant
            i <= j <= n,
            n == s@.len(),
            spec_skip_number(s@, i as int) == spec_skip_number(s@, j as int),
        decreases n - j,
    {
        j = j + 1;
    }
    j
}

fn hex_nibble_at(b: u8) -> (r: Option<u8>)
    ensures
        r == hex_nibble(b),
{
    if 0x30 <= b && b <= 0x39 {
        Some(b - 0x30)
    } else if 0x61 <= b && b <= 0x66 {
        Some(b - 0x61 + 10)
    } else if 0x41 <= b && b <= 0x46 {
        Some(b - 0x41 + 10)
    } else {
        None
    }
}

fn string_body(s: &Vec<u8>, i: usize, fuel: usize) -> (r: Option<(Vec<u8>, usize)>)
    requires
        i <= s@.len(),
    ensures
        match r {
            Some(t) => spec_string_body(s@, i as int, fuel as nat) == Some((t.0@, t.1 as int))
                && i < t.1 <= s@.len(),
            None => spec_string_body(s@, i as int, fuel as nat) is None,
        },
    decreases fuel,
{
    let n = s.len();
    if fuel == 0 || i >= n {
        return None;
    }
    let c = s[i];
    if c == 0x22 {
        let empty: Vec<u8> = Vec::new();
        proof {
            assert(empty@ =~= Seq::<u8>::empty());
        }
        Some((empty, i + 1))
    } else if c == 0x5c {
        if i + 1 >= n {
            return None;
        }
        let e = s[i + 1];
        if e == 0x75 {
            if n - i < 6 {
                return None;
            }
            let h3 = hex_nibble_at(s[i + 2]);
            let h2 = hex_nibble_at(s[i + 3]);
            let h1 = hex_nibble_at(s[i + 4]);
            let h0 = hex_nibble_at(s[i + 5]);
            match (h3, h2, h1, h0) {
                (Some(a3), Some(a2), Some(a1), Some(a0)) => {
                    let v: u32 = 4096 * (a3 as u32) + 256 * (a2 as u32) + 16 * (a1 as u32) + (
                    a0 as u32);
                    if v > 0x7f {
                        return None;
                    }
                    match string_body(s, i + 6, fuel - 1) {
                        Some((mut rest, j)) => {
                            let ghost tail = rest@;
                            rest.insert(0, v as u8);
                            proof {
                                assert(rest@ =~= seq![(v as u8)] + tail);
                            }
                            Some((rest, j))
                        },
                        None => None,
                    }
                },
                _ => None,
            }
        } else {
            let d: Option<u8> = if e == 0x22 {
                Some(0x22)
            } else if e == 0x5c {
                Some(0x5c)
            } else if e == 0x2f {
                Some(0x2f)
            } else if e == 0x62 {
                Some(0x08)
            } else if e == 0x66 {
                Some(0x0c)
            } else if e == 0x6e {
                Some(0x0a)
            } else if e == 0x72 {
                Some(0x0d)
            } else if e == 0x74 {
                Some(0x09)
            } else {
                None
            };
            match d {
                Some(db) => match string_body(s, i + 2, fuel - 1) {
                    Some((mut rest, j)) => {
                        let ghost tail = rest@;
                        rest.insert(0, db);
                        proof {
                            assert(rest@ =~= seq![db] + tail);
                        }
                        Some((rest, j))
                    },
                    None => None,
                },
                None => None,
            }
        }
    } else if c < 0x20 {
        None
    } else {
        match string_body(s, i + 1, fuel - 1) {
            Some((mut rest, j)) => {
                let ghost tail = rest@;
                rest.insert(0, c);
                proof {
                    assert(rest@ =~= seq![c] + tail);
                }
                Some((rest, j))
            },
            None => None,
        }
    }
}

fn lit_at(s: &Vec<u8>, i: usize, l0: u8, l1: u8, l2: u8, l3: u8) -> (r: bool)
    requires
        i <= s@.len(),
    ensures
        r == has_lit(s@, i as int, seq![l0, l1, l2, l3]),
{
    let n = s.len();
    if n - i < 4 {
        proof {
            assert(!has_lit(s@, i as int, seq![l0, l1, l2, l3]));
        }
        return false;
    }
    let r = s[i] == l0 && s[i + 1] == l1 && s[i + 2] == l2 && s[i + 3] == l3;
    proof {
        let lit = seq![l0, l1, l2, l3];
        let sub = s@.subrange(i as int, i as int + 4);
        assert(sub[0] == s@[i as int] && sub[1] == s@[i as int + 1] && sub[2] == s@[i as int + 2]
            && sub[3] == s@[i as int + 3]);
        if r {
            assert(sub =~= lit);
        }
    }
    r
}

fn lit5_at(s: &Vec<u8>, i: usize, l0: u8, l1: u8, l2: u8, l3: u8, l4: u8) -> (r: bool)
    requires
        i <= s@.len(),
    ensures
        r == has_lit(s@, i as int, seq![l0, l1, l2, l3, l4]),
{
    let n = s.len();
    if n - i < 5 {
        proof {
            assert(!has_lit(s@, i as int, seq![l0, l1, l2, l3, l4]));
        }
        return false;
    }
    let r = s[i] == l0 && s[i + 1] == l1 && s[i + 2] == l2 && s[i + 3] == l3 && s[i + 4] == l4;
    proof {
        let lit = seq![l0, l1, l2, l3, l4];
        let sub = s@.subrange(i as int, i as int + 5);
        assert(sub[0] == s@[i as int] && sub[1] == s@[i as int + 1] && sub[2] == s@[i as int + 2]
            && sub[3] == s@[i as int + 3] && sub[4] == s@[i as int + 4]);
        if r {
            assert(sub =~= lit);
        }
    }
    r
}

fn skip_value(s: &Vec<u8>, i: usize, fuel: usize) -> (r: Option<usize>)
    requires
        i <= s@.len(),
    ensures
        match r {
            Some(j) => spec_skip_value(s@, i as int, fuel as nat) == Some(j as int) && j
                <= s@.len(),
            None => spec_skip_value(s@, i as int, fuel as nat) is None,
        },
    decreases fuel,
{
    let n = s.len();
    if fuel == 0 || i >= n {
        return None;
    }
    let c = s[i];
    if c == 0x22 {
        match string_body(s, i + 1, fuel - 1) {
            Some((_content, j)) => Some(j),
            None => None,
        }
    } else if c == 0x7b {
        match object_items(s, i + 1, fuel - 1, None) {
            Some((_found, j)) => Some(j),
            None => None,
        }
    } else if c == 0x5b {
        array_items(s, i + 1, fuel - 1)
    } else if lit_at(s, i, 0x74, 0x72, 0x75, 0x65) {
        Some(i + 4)
    } else if lit5_at(s, i, 0x66, 0x61, 0x6c, 0x73, 0x65) {
        Some(i + 5)
    } else if lit_at(s, i, 0x6e, 0x75, 0x6c, 0x6c) {
        Some(i + 4)
    } else if 0x30 <= c && c <= 0x39 || c == 0x2d || c == 0x2b || c == 0x2e || c == 0x65 || c
        == 0x45 {
        Some(skip_number(s, i))
    } else {
        None
    }
}

fn object_items(s: &Vec<u8>, i: usize, fuel: usize, found: Option<Vec<u8>>) -> (r: Option<
    (Option<Vec<u8>>, usize),
>)
    requires
        i <= s@.len(),
    ensures
        match r {
            Some(t) => spec_object_items(s@, i as int, fuel as nat, found_view(&found)) == Some(
                (found_view(&t.0), t.1 as int),
            ) && t.1 <= s@.len(),
            None => spec_object_items(s@, i as int, fuel as nat, found_view(&found)) is None,
        },
    decreases fuel,
{
    if fuel == 0 {
        return None;
    }
    let n = s.len();
    let k = skip_ws(s, i);
    if k >= n {
        return None;
    }
    if s[k] == 0x7d {
        return Some((found, k + 1));
    }
    if s[k] != 0x22 {
        return None;
    }
    match string_body(s, k + 1, fuel - 1) {
        None => None,
        Some((key, after_key)) => {
            let colon = skip_ws(s, after_key);
            if colon >= n || s[colon] != 0x3a {
                return None;
            }
            let v = skip_ws(s, colon + 1);
            let is_text = key.len() == 4 && key[0] == 0x74 && key[1] == 0x65 && key[2] == 0x78
                && key[3] == 0x74;
            proof {
                let tk = seq![0x74u8, 0x65u8, 0x78u8, 0x74u8];
                if is_text {
                    assert(key@ =~= tk);
                } else {
                    assert(key@ != tk) by {
                        if key@ == tk {
                            assert(key@.len() == 4);
                            assert(key@[0] == 0x74 && key@[1] == 0x65 && key@[2] == 0x78 && key@[3]
                                == 0x74);
                        }
                    }
                }
            }
            if is_text {
                if v >= n || s[v] != 0x22 {
                    return None;
                }
                match string_body(s, v + 1, fuel - 1) {
                    None => None,
                    Some((content, after_v)) => object_tail(s, after_v, fuel - 1, Some(content)),
                }
            } else {
                match skip_value(s, v, fuel - 1) {
                    None => None,
                    Some(after_v) => object_tail(s, after_v, fuel - 1, found),
                }
            }
        },
    }
}

fn object_tail(s: &Vec<u8>, i: usize, fuel: usize, found: Option<Vec<u8>>) -> (r: Option<
    (Option<Vec<u8>>, usize),
>)
    requires
        i <= s@.len(),
    ensures
        match r {
            Some(t) => spec_object_tail(s@, i as int, fuel as nat, found_view(&found)) == Some(
                (found_view(&t.0), t.1 as int),
            ) && t.1 <= s@.len(),
            None => spec_object_tail(s@, i as int, fuel as nat, found_view(&found)) is None,
        },
    decreases fuel,
{
    if fuel == 0 {
        return None;
    }
    let n = s.len();
    let k = skip_ws(s, i);
    if k >= n {
        return None;
    }
    if s[k] == 0x7d {
        return Some((found, k + 1));
    }
    if s[k] == 0x2c {
        object_items(s, k + 1, fuel - 1, found)
    } else {
        None
    }
}

fn array_items(s: &Vec<u8>, i: usize, fuel: usize) -> (r: Option<usize>)
    requires
        i <= s@.len(),
    ensures
        match r {
            Some(j) => spec_array_items(s@, i as int, fuel as nat) == Some(j as int) && j
                <= s@.len(),
            None => spec_array_items(s@, i as int, fuel as nat) is None,
        },
    decreases fuel,
{
    if fuel == 0 {
        return None;
    }
    let n = s.len();
    let k = skip_ws(s, i);
    if k >= n {
        return None;
    }
    if s[k] == 0x5d {
        return Some(k + 1);
    }
    match skip_value(s, k, fuel - 1) {
        None => None,
        Some(after) => array_tail(s, after, fuel - 1),
    }
}

fn array_tail(s: &Vec<u8>, i: usize, fuel: usize) -> (r: Option<usize>)
    requires
        i <= s@.len(),
    ensures
        match r {
            Some(j) => spec_array_tail(s@, i as int, fuel as nat) == Some(j as int) && j
                <= s@.len(),
            None => spec_array_tail(s@, i as int, fuel as nat) is None,
        },
    decreases fuel,
{
    if fuel == 0 {
        return None;
    }
    let n = s.len();
    let k = skip_ws(s, i);
    if k >= n {
        return None;
    }
    if s[k] == 0x5d {
        return Some(k + 1);
    }
    if s[k] == 0x2c {
        array_items(s, k + 1, fuel - 1)
    } else {
        None
    }
}

/// The view of an optional byte buffer.
pub open spec fn found_view(f: &Option<Vec<u8>>) -> Option<Seq<u8>> {
    match f {
        Some(v) => Some(v@),
        None => None,
    }
}

/// Relies on `String::from_utf8`: the bytes decoded as text exactly when
/// they are valid UTF-8, unchanged.
#[verifier::external_body]
fn string_from_utf8(v: Vec<u8>) -> (r: Option<String>)
    ensures
        r matches Some(s) ==> vstd::utf8::encode_utf8(s@) == v@,
        r is Some <==> vstd::utf8::valid_utf8(v@),
{
    String::from_utf8(v).ok()
}

/// Extracts the decoded `text` member of a JSON response body. `None`
/// when the body is not an object carrying one, or when the decoded
/// member is not text.
pub fn text_field(body: &str) -> (r: Option<String>)
    requires
        body.spec_bytes().len() <= 0x1000_0000,
    ensures
        r matches Some(t) ==> spec_text_field(body.spec_bytes()) == Some(
            vstd::utf8::encode_utf8(t@),
        ),
        spec_text_field(body.spec_bytes()) is None ==> r is None,
        (spec_text_field(body.spec_bytes()) matches Some(bs) && vstd::utf8::valid_utf8(bs)) ==> r
            is Some,
{
    let bytes = body.as_bytes_vec();
    let n = bytes.len();
    let i = skip_ws(&bytes, 0);
    if i >= n {
        return None;
    }
    if bytes[i] != 0x7b {
        return None;
    }
    let fuel = 2 * n + 2;
    match object_items(&bytes, i + 1, fuel, None) {
        None => None,
        Some((found, j)) => {
            let k = skip_ws(&bytes, j);
            if k != n {
                return None;
            }
            match found {
                None => None,
                Some(content) => string_from_utf8(content),
            }
        },
    }
}

} // verus!
