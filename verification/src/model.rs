//! The catalog of speech-model variants: canonical names, artifact file
//! names, download locations, sizes and expected digests, together with the
//! case-insensitive name resolver.

use vstd::prelude::*;

verus! {

broadcast use vstd::string::group_string_axioms;

/// One entry of the fixed model catalog. The set of variants is decided at
/// build time; a user-supplied name is mapped onto it by [`WhisperModel::from_name`].
#[derive(Clone, Copy, PartialEq, Eq, Structural, Debug)]
pub enum WhisperModel {
    Tiny,
    TinyQ5_1,
    TinyQ8_0,
    TinyEn,
    TinyEnQ5_1,
    TinyEnQ8_0,
    Base,
    BaseQ5_1,
    BaseQ8_0,
    BaseEn,
    BaseEnQ5_1,
    BaseEnQ8_0,
    Small,
    SmallQ5_1,
    SmallQ8_0,
    SmallEn,
    SmallEnQ5_1,
    SmallEnQ8_0,
    SmallEnTdrz,
    Medium,
    MediumQ5_0,
    MediumQ8_0,
    MediumEn,
    MediumEnQ5_0,
    MediumEnQ8_0,
    LargeV1,
    LargeV2,
    LargeV2Q5_0,
    LargeV2Q8_0,
    LargeV3,
    LargeV3Q5_0,
    LargeV3Turbo,
    LargeV3TurboQ5_0,
    LargeV3TurboQ8_0,
}

/// ASCII lowercase of one character, given and returned as its scalar value.
pub open spec fn lower32(x: u32) -> u32 {
    if 65 <= x && x <= 90 {
        (x + 32) as u32
    } else {
        x
    }
}

/// Case-insensitive match of a candidate name `a` against a canonical
/// catalog name `b`: equal lengths, and every character of `a`, lowered if
/// it is an ASCII capital, has the scalar value of the character of `b`.
pub open spec fn ci_eq(a: Seq<char>, b: Seq<char>) -> bool {
    a.len() == b.len() && (forall|i: int|
        0 <= i < a.len() ==> lower32(a[i] as u32) == b[i] as u32)
}

/// The variant whose canonical name the given characters spell, compared
/// case-insensitively; `None` when no catalog entry matches.
pub open spec fn resolve_name(s: Seq<char>) -> Option<WhisperModel> {
        if ci_eq(s, "tiny"@) {
            Some(WhisperModel::Tiny)
        } else if ci_eq(s, "tiny-q5_1"@) {
            Some(WhisperModel::TinyQ5_1)
        } else if ci_eq(s, "tiny-q8_0"@) {
            Some(WhisperModel::TinyQ8_0)
        } else if ci_eq(s, "tiny.en"@) {
            Some(WhisperModel::TinyEn)
        } else if ci_eq(s, "tiny.en-q5_1"@) {
            Some(WhisperModel::TinyEnQ5_1)
        } else if ci_eq(s, "tiny.en-q8_0"@) {
            Some(WhisperModel::TinyEnQ8_0)
        } else if ci_eq(s, "base"@) {
            Some(WhisperModel::Base)
        } else if ci_eq(s, "base-q5_1"@) {
            Some(WhisperModel::BaseQ5_1)
        } else if ci_eq(s, "base-q8_0"@) {
            Some(WhisperModel::BaseQ8_0)
        } else if ci_eq(s, "base.en"@) {
            Some(WhisperModel::BaseEn)
        } else if ci_eq(s, "base.en-q5_1"@) {
            Some(WhisperModel::BaseEnQ5_1)
        } else if ci_eq(s, "base.en-q8_0"@) {
            Some(WhisperModel::BaseEnQ8_0)
        } else if ci_eq(s, "small"@) {
            Some(WhisperModel::Small)
        } else if ci_eq(s, "small-q5_1"@) {
            Some(WhisperModel::SmallQ5_1)
        } else if ci_eq(s, "small-q8_0"@) {
            Some(WhisperModel::SmallQ8_0)
        } else if ci_eq(s, "small.en"@) {
            Some(WhisperModel::SmallEn)
        } else if ci_eq(s, "small.en-q5_1"@) {
            Some(WhisperModel::SmallEnQ5_1)
        } else if ci_eq(s, "small.en-q8_0"@) {
            Some(WhisperModel::SmallEnQ8_0)
        } else if ci_eq(s, "small.en-tdrz"@) {
            Some(WhisperModel::SmallEnTdrz)
        } else if ci_eq(s, "medium"@) {
            Some(WhisperModel::Medium)
        } else if ci_eq(s, "medium-q5_0"@) {
            Some(WhisperModel::MediumQ5_0)
        } else if ci_eq(s, "medium-q8_0"@) {
            Some(WhisperModel::MediumQ8_0)
        } else if ci_eq(s, "medium.en"@) {
            Some(WhisperModel::MediumEn)
        } else if ci_eq(s, "medium.en-q5_0"@) {
            Some(WhisperModel::MediumEnQ5_0)
        } else if ci_eq(s, "medium.en-q8_0"@) {
            Some(WhisperModel::MediumEnQ8_0)
        } else if ci_eq(s, "large-v1"@) {
            Some(WhisperModel::LargeV1)
        } else if ci_eq(s, "large-v2"@) {
            Some(WhisperModel::LargeV2)
        } else if ci_eq(s, "large-v2-q5_0"@) {
            Some(WhisperModel::LargeV2Q5_0)
        } else if ci_eq(s, "large-v2-q8_0"@) {
            Some(WhisperModel::LargeV2Q8_0)
        } else if ci_eq(s, "large-v3"@) {
            Some(WhisperModel::LargeV3)
        } else if ci_eq(s, "large-v3-q5_0"@) {
            Some(WhisperModel::LargeV3Q5_0)
        } else if ci_eq(s, "large-v3-turbo"@) {
            Some(WhisperModel::LargeV3Turbo)
        } else if ci_eq(s, "large-v3-turbo-q5_0"@) {
            Some(WhisperModel::LargeV3TurboQ5_0)
        } else if ci_eq(s, "large-v3-turbo-q8_0"@) {
            Some(WhisperModel::LargeV3TurboQ8_0)
        } else {
            None
        }
}

/// The canonical names of the catalog, in catalog order.
pub open spec fn catalog_names() -> Seq<Seq<char>> {
    seq![
        "tiny"@,
        "tiny-q5_1"@,
        "tiny-q8_0"@,
        "tiny.en"@,
        "tiny.en-q5_1"@,
        "tiny.en-q8_0"@,
        "base"@,
        "base-q5_1"@,
        "base-q8_0"@,
        "base.en"@,
        "base.en-q5_1"@,
        "base.en-q8_0"@,
        "small"@,
        "small-q5_1"@,
        "small-q8_0"@,
        "small.en"@,
        "small.en-q5_1"@,
        "small.en-q8_0"@,
        "small.en-tdrz"@,
        "medium"@,
        "medium-q5_0"@,
        "medium-q8_0"@,
        "medium.en"@,
        "medium.en-q5_0"@,
        "medium.en-q8_0"@,
        "large-v1"@,
        "large-v2"@,
        "large-v2-q5_0"@,
        "large-v2-q8_0"@,
        "large-v3"@,
        "large-v3-q5_0"@,
        "large-v3-turbo"@,
        "large-v3-turbo-q5_0"@,
        "large-v3-turbo-q8_0"@
    ]
}

/// Base location all model artifacts are fetched from.
pub open spec fn model_base_url() -> Seq<char> {
    "https://huggingface.co/ggerganov/whisper.cpp/resolve/main"@
}

/// Decimal digit `d` (0 to 9) as a one-character sequence.
pub open spec fn dec_digit(d: nat) -> Seq<char> {
    if d == 0 {
        "0"@
    } else if d == 1 {
        "1"@
    } else if d == 2 {
        "2"@
    } else if d == 3 {
        "3"@
    } else if d == 4 {
        "4"@
    } else if d == 5 {
        "5"@
    } else if d == 6 {
        "6"@
    } else if d == 7 {
        "7"@
    } else if d == 8 {
        "8"@
    } else {
        "9"@
    }
}

/// Decimal rendering of a non-negative number, most significant digit first.
pub open spec fn dec_str(n: nat) -> Seq<char>
    decreases n,
{
    if n < 10 {
        dec_digit(n)
    } else {
        dec_str(n / 10) + dec_digit(n % 10)
    }
}

/// Human-readable size: tenths of GiB for a mebibyte count of 1024 or more
/// (rounded to the nearest tenth), else the plain mebibyte count.
pub open spec fn size_human_spec(mib: int) -> Seq<char> {
    if mib >= 1024 {
        let tenths = (mib * 10 + 512) / 1024;
        dec_str((tenths / 10) as nat) + "."@ + dec_str((tenths % 10) as nat) + " GiB"@
    } else {
        dec_str(mib as nat) + " MiB"@
    }
}

/// Renders `n` in decimal.
pub fn u32_dec(n: u32) -> (r: String)
    ensures
        r@ == dec_str(n as nat),
    decreases n,
{
    let d = n % 10;
    let ds: &'static str = match d {
        0 => "0",
        1 => "1",
        2 => "2",
        3 => "3",
        4 => "4",
        5 => "5",
        6 => "6",
        7 => "7",
        8 => "8",
        _ => "9",
    };
    if n < 10 {
        String::from_str(ds)
    } else {
        let mut s = u32_dec(n / 10);
        s.append(ds);
        s
    }
}

/// Compares a candidate name against a canonical catalog name, ignoring
/// ASCII case in the candidate.
fn str_ci_eq(a: &str, b: &str) -> (r: bool)
    ensures
        r == ci_eq(a@, b@),
{
    let alen = a.unicode_len();
    let blen = b.unicode_len();
    if alen != blen {
        return false;
    }
    let mut i: usize = 0;
    while i < alen
        invariant
            alen == a@.len(),
            blen == b@.len(),
            alen == blen,
            i <= alen,
            forall|j: int| 0 <= j < i ==> lower32(a@[j] as u32) == b@[j] as u32,
        decreases alen - i,
    {
        let ca = a.get_char(i) as u32;
        let cb = b.get_char(i) as u32;
        let la = if 65 <= ca && ca <= 90 {
            ca + 32
        } else {
            ca
        };
        if la != cb {
            assert(lower32(a@[i as int] as u32) != b@[i as int] as u32);
            return false;
        }
        i = i + 1;
    }
    true
}

impl WhisperModel {
    /// The canonical, lower-case name of this variant.
    pub open spec fn name_spec(self) -> Seq<char> {
        match self {
            WhisperModel::Tiny => "tiny"@,
            WhisperModel::TinyQ5_1 => "tiny-q5_1"@,
            WhisperModel::TinyQ8_0 => "tiny-q8_0"@,
            WhisperModel::TinyEn => "tiny.en"@,
            WhisperModel::TinyEnQ5_1 => "tiny.en-q5_1"@,
            WhisperModel::TinyEnQ8_0 => "tiny.en-q8_0"@,
            WhisperModel::Base => "base"@,
            WhisperModel::BaseQ5_1 => "base-q5_1"@,
            WhisperModel::BaseQ8_0 => "base-q8_0"@,
            WhisperModel::BaseEn => "base.en"@,
            WhisperModel::BaseEnQ5_1 => "base.en-q5_1"@,
            WhisperModel::BaseEnQ8_0 => "base.en-q8_0"@,
            WhisperModel::Small => "small"@,
            WhisperModel::SmallQ5_1 => "small-q5_1"@,
            WhisperModel::SmallQ8_0 => "small-q8_0"@,
            WhisperModel::SmallEn => "small.en"@,
            WhisperModel::SmallEnQ5_1 => "small.en-q5_1"@,
            WhisperModel::SmallEnQ8_0 => "small.en-q8_0"@,
            WhisperModel::SmallEnTdrz => "small.en-tdrz"@,
            WhisperModel::Medium => "medium"@,
            WhisperModel::MediumQ5_0 => "medium-q5_0"@,
            WhisperModel::MediumQ8_0 => "medium-q8_0"@,
            WhisperModel::MediumEn => "medium.en"@,
            WhisperModel::MediumEnQ5_0 => "medium.en-q5_0"@,
            WhisperModel::MediumEnQ8_0 => "medium.en-q8_0"@,
            WhisperModel::LargeV1 => "large-v1"@,
            WhisperModel::LargeV2 => "large-v2"@,
            WhisperModel::LargeV2Q5_0 => "large-v2-q5_0"@,
            WhisperModel::LargeV2Q8_0 => "large-v2-q8_0"@,
            WhisperModel::LargeV3 => "large-v3"@,
            WhisperModel::LargeV3Q5_0 => "large-v3-q5_0"@,
            WhisperModel::LargeV3Turbo => "large-v3-turbo"@,
            WhisperModel::LargeV3TurboQ5_0 => "large-v3-turbo-q5_0"@,
            WhisperModel::LargeV3TurboQ8_0 => "large-v3-turbo-q8_0"@,
        }
    }

    /// The file name the model artifact is stored under.
    pub open spec fn filename_spec(self) -> Seq<char> {
        match self {
            WhisperModel::Tiny => "ggml-tiny.bin"@,
            WhisperModel::TinyQ5_1 => "ggml-tiny-q5_1.bin"@,
            WhisperModel::TinyQ8_0 => "ggml-tiny-q8_0.bin"@,
            WhisperModel::TinyEn => "ggml-tiny.en.bin"@,
            WhisperModel::TinyEnQ5_1 => "ggml-tiny.en-q5_1.bin"@,
            WhisperModel::TinyEnQ8_0 => "ggml-tiny.en-q8_0.bin"@,
            WhisperModel::Base => "ggml-base.bin"@,
            WhisperModel::BaseQ5_1 => "ggml-base-q5_1.bin"@,
            WhisperModel::BaseQ8_0 => "ggml-base-q8_0.bin"@,
            WhisperModel::BaseEn => "ggml-base.en.bin"@,
            WhisperModel::BaseEnQ5_1 => "ggml-base.en-q5_1.bin"@,
            WhisperModel::BaseEnQ8_0 => "ggml-base.en-q8_0.bin"@,
            WhisperModel::Small => "ggml-small.bin"@,
            WhisperModel::SmallQ5_1 => "ggml-small-q5_1.bin"@,
            WhisperModel::SmallQ8_0 => "ggml-small-q8_0.bin"@,
            WhisperModel::SmallEn => "ggml-small.en.bin"@,
            WhisperModel::SmallEnQ5_1 => "ggml-small.en-q5_1.bin"@,
            WhisperModel::SmallEnQ8_0 => "ggml-small.en-q8_0.bin"@,
            WhisperModel::SmallEnTdrz => "ggml-small.en-tdrz.bin"@,
            WhisperModel::Medium => "ggml-medium.bin"@,
            WhisperModel::MediumQ5_0 => "ggml-medium-q5_0.bin"@,
            WhisperModel::MediumQ8_0 => "ggml-medium-q8_0.bin"@,
            WhisperModel::MediumEn => "ggml-medium.en.bin"@,
            WhisperModel::MediumEnQ5_0 => "ggml-medium.en-q5_0.bin"@,
            WhisperModel::MediumEnQ8_0 => "ggml-medium.en-q8_0.bin"@,
            WhisperModel::LargeV1 => "ggml-large-v1.bin"@,
            WhisperModel::LargeV2 => "ggml-large-v2.bin"@,
            WhisperModel::LargeV2Q5_0 => "ggml-large-v2-q5_0.bin"@,
            WhisperModel::LargeV2Q8_0 => "ggml-large-v2-q8_0.bin"@,
            WhisperModel::LargeV3 => "ggml-large-v3.bin"@,
            WhisperModel::LargeV3Q5_0 => "ggml-large-v3-q5_0.bin"@,
            WhisperModel::LargeV3Turbo => "ggml-large-v3-turbo.bin"@,
            WhisperModel::LargeV3TurboQ5_0 => "ggml-large-v3-turbo-q5_0.bin"@,
            WhisperModel::LargeV3TurboQ8_0 => "ggml-large-v3-turbo-q8_0.bin"@,
        }
    }

    /// The expected hex digest of the model artifact.
    pub open spec fn sha1_spec(self) -> Seq<char> {
        match self {
            WhisperModel::Tiny => "bd577a113a864445d4c299885e0cb97d4ba92b5f"@,
            WhisperModel::TinyQ5_1 => "2827a03e495b1ed3048ef28a6a4620537db4ee51"@,
            WhisperModel::TinyQ8_0 => "19e8118f6652a650569f5a949d962154e01571d9"@,
            WhisperModel::TinyEn => "c78c86eb1a8faa21b369bcd33207cc90d64ae9df"@,
            WhisperModel::TinyEnQ5_1 => "3fb92ec865cbbc769f08137f22470d6b66e071b6"@,
            WhisperModel::TinyEnQ8_0 => "802d6668e7d411123e672abe4cb6c18f12306abb"@,
            WhisperModel::Base => "465707469ff3a37a2b9b8d8f89f2f99de7299dac"@,
            WhisperModel::BaseQ5_1 => "a3733eda680ef76256db5fc5dd9de8629e62c5e7"@,
            WhisperModel::BaseQ8_0 => "7bb89bb49ed6955013b166f1b6a6c04584a20fbe"@,
            WhisperModel::BaseEn => "137c40403d78fd54d454da0f9bd998f78703390c"@,
            WhisperModel::BaseEnQ5_1 => "d26d7ce5a1b6e57bea5d0431b9c20ae49423c94a"@,
            WhisperModel::BaseEnQ8_0 => "bb1574182e9b924452bf0cd1510ac034d323e948"@,
            WhisperModel::Small => "55356645c2b361a969dfd0ef2c5a50d530afd8d5"@,
            WhisperModel::SmallQ5_1 => "6fe57ddcfdd1c6b07cdcc73aaf620810ce5fc771"@,
            WhisperModel::SmallQ8_0 => "bcad8a2083f4e53d648d586b7dbc0cd673d8afad"@,
            WhisperModel::SmallEn => "db8a495a91d927739e50b3fc1cc4c6b8f6c2d022"@,
            WhisperModel::SmallEnQ5_1 => "20f54878d608f94e4a8ee3ae56016571d47cba34"@,
            WhisperModel::SmallEnQ8_0 => "9d75ff4ccfa0a8217870d7405cf8cef0a5579852"@,
            WhisperModel::SmallEnTdrz => "b6c6e7e89af1a35c08e6de56b66ca6a02a2fdfa1"@,
            WhisperModel::Medium => "fd9727b6e1217c2f614f9b698455c4ffd82463b4"@,
            WhisperModel::MediumQ5_0 => "7718d4c1ec62ca96998f058114db98236937490e"@,
            WhisperModel::MediumQ8_0 => "e66645948aff4bebbec71b3485c576f3d63af5d6"@,
            WhisperModel::MediumEn => "8c30f0e44ce9560643ebd10bbe50cd20eafd3723"@,
            WhisperModel::MediumEnQ5_0 => "bb3b5281bddd61605d6fc76bc5b92d8f20284c3b"@,
            WhisperModel::MediumEnQ8_0 => "b1cf48c12c807e14881f634fb7b6c6ca867f6b38"@,
            WhisperModel::LargeV1 => "b1caaf735c4cc1429223d5a74f0f4d0b9b59a299"@,
            WhisperModel::LargeV2 => "0f4c8e34f21cf1a914c59d8b3ce882345ad349d6"@,
            WhisperModel::LargeV2Q5_0 => "00e39f2196344e901b3a2bd5814807a769bd1630"@,
            WhisperModel::LargeV2Q8_0 => "da97d6ca8f8ffbeeb5fd147f79010eeea194ba38"@,
            WhisperModel::LargeV3 => "ad82bf6a9043ceed055076d0fd39f5f186ff8062"@,
            WhisperModel::LargeV3Q5_0 => "e6e2ed78495d403bef4b7cff42ef4aaadcfea8de"@,
            WhisperModel::LargeV3Turbo => "4af2b29d7ec73d781377bfd1758ca957a807e941"@,
            WhisperModel::LargeV3TurboQ5_0 => "e050f7970618a659205450ad97eb95a18d69c9ee"@,
            WhisperModel::LargeV3TurboQ8_0 => "01bf15bedffe9f39d65c1b6ff9b687ea91f59e0e"@,
        }
    }

    /// The approximate artifact size in mebibytes.
    pub open spec fn size_mib_spec(self) -> u32 {
        match self {
            WhisperModel::Tiny => 75,
            WhisperModel::TinyQ5_1 => 31,
            WhisperModel::TinyQ8_0 => 42,
            WhisperModel::TinyEn => 75,
            WhisperModel::TinyEnQ5_1 => 31,
            WhisperModel::TinyEnQ8_0 => 42,
            WhisperModel::Base => 142,
            WhisperModel::BaseQ5_1 => 57,
            WhisperModel::BaseQ8_0 => 78,
            WhisperModel::BaseEn => 142,
            WhisperModel::BaseEnQ5_1 => 57,
            WhisperModel::BaseEnQ8_0 => 78,
            WhisperModel::Small => 466,
            WhisperModel::SmallQ5_1 => 181,
            WhisperModel::SmallQ8_0 => 252,
            WhisperModel::SmallEn => 466,
            WhisperModel::SmallEnQ5_1 => 181,
            WhisperModel::SmallEnQ8_0 => 252,
            WhisperModel::SmallEnTdrz => 465,
            WhisperModel::Medium => 1536,
            WhisperModel::MediumQ5_0 => 514,
            WhisperModel::MediumQ8_0 => 785,
            WhisperModel::MediumEn => 1536,
            WhisperModel::MediumEnQ5_0 => 514,
            WhisperModel::MediumEnQ8_0 => 785,
            WhisperModel::LargeV1 => 2969,
            WhisperModel::LargeV2 => 2969,
            WhisperModel::LargeV2Q5_0 => 1126,
            WhisperModel::LargeV2Q8_0 => 1536,
            WhisperModel::LargeV3 => 2969,
            WhisperModel::LargeV3Q5_0 => 1126,
            WhisperModel::LargeV3Turbo => 1536,
            WhisperModel::LargeV3TurboQ5_0 => 547,
            WhisperModel::LargeV3TurboQ8_0 => 834,
        }
    }

    /// The accelerator encoder family this variant shares, with any
    /// quantization suffix stripped from the canonical name.
    pub open spec fn coreml_base_name_spec(self) -> Seq<char> {
        match self {
            WhisperModel::Tiny => "tiny"@,
            WhisperModel::TinyQ5_1 => "tiny"@,
            WhisperModel::TinyQ8_0 => "tiny"@,
            WhisperModel::TinyEn => "tiny.en"@,
            WhisperModel::TinyEnQ5_1 => "tiny.en"@,
            WhisperModel::TinyEnQ8_0 => "tiny.en"@,
            WhisperModel::Base => "base"@,
            WhisperModel::BaseQ5_1 => "base"@,
            WhisperModel::BaseQ8_0 => "base"@,
            WhisperModel::BaseEn => "base.en"@,
            WhisperModel::BaseEnQ5_1 => "base.en"@,
            WhisperModel::BaseEnQ8_0 => "base.en"@,
            WhisperModel::Small => "small"@,
            WhisperModel::SmallQ5_1 => "small"@,
            WhisperModel::SmallQ8_0 => "small"@,
            WhisperModel::SmallEn => "small.en"@,
            WhisperModel::SmallEnQ5_1 => "small.en"@,
            WhisperModel::SmallEnQ8_0 => "small.en"@,
            WhisperModel::SmallEnTdrz => "small.en"@,
            WhisperModel::Medium => "medium"@,
            WhisperModel::MediumQ5_0 => "medium"@,
            WhisperModel::MediumQ8_0 => "medium"@,
            WhisperModel::MediumEn => "medium.en"@,
            WhisperModel::MediumEnQ5_0 => "medium.en"@,
            WhisperModel::MediumEnQ8_0 => "medium.en"@,
            WhisperModel::LargeV1 => "large-v1"@,
            WhisperModel::LargeV2 => "large-v2"@,
            WhisperModel::LargeV2Q5_0 => "large-v2"@,
            WhisperModel::LargeV2Q8_0 => "large-v2"@,
            WhisperModel::LargeV3 => "large-v3"@,
            WhisperModel::LargeV3Q5_0 => "large-v3"@,
            WhisperModel::LargeV3Turbo => "large-v3-turbo"@,
            WhisperModel::LargeV3TurboQ5_0 => "large-v3-turbo"@,
            WhisperModel::LargeV3TurboQ8_0 => "large-v3-turbo"@,
        }
    }

    /// The approximate accelerator-encoder size in mebibytes.
    pub open spec fn coreml_encoder_size_mib_spec(self) -> u32 {
        match self {
            WhisperModel::Tiny => 15,
            WhisperModel::TinyQ5_1 => 15,
            WhisperModel::TinyQ8_0 => 15,
            WhisperModel::TinyEn => 15,
            WhisperModel::TinyEnQ5_1 => 15,
            WhisperModel::TinyEnQ8_0 => 15,
            WhisperModel::Base => 38,
            WhisperModel::BaseQ5_1 => 38,
            WhisperModel::BaseQ8_0 => 38,
            WhisperModel::BaseEn => 38,
            WhisperModel::BaseEnQ5_1 => 38,
            WhisperModel::BaseEnQ8_0 => 38,
            WhisperModel::Small => 163,
            WhisperModel::SmallQ5_1 => 163,
            WhisperModel::SmallQ8_0 => 163,
            WhisperModel::SmallEn => 163,
            WhisperModel::SmallEnQ5_1 => 163,
            WhisperModel::SmallEnQ8_0 => 163,
            WhisperModel::SmallEnTdrz => 163,
            WhisperModel::Medium => 568,
            WhisperModel::MediumQ5_0 => 568,
            WhisperModel::MediumQ8_0 => 568,
            WhisperModel::MediumEn => 568,
            WhisperModel::MediumEnQ5_0 => 568,
            WhisperModel::MediumEnQ8_0 => 568,
            WhisperModel::LargeV1 => 1200,
            WhisperModel::LargeV2 => 1200,
            WhisperModel::LargeV2Q5_0 => 1200,
            WhisperModel::LargeV2Q8_0 => 1200,
            WhisperModel::LargeV3 => 1200,
            WhisperModel::LargeV3Q5_0 => 1200,
            WhisperModel::LargeV3Turbo => 1200,
            WhisperModel::LargeV3TurboQ5_0 => 1200,
            WhisperModel::LargeV3TurboQ8_0 => 1200,
        }
    }

    /// The name of the extracted accelerator-encoder directory.
    pub open spec fn coreml_encoder_dirname_spec(self) -> Seq<char> {
        "ggml-"@ + self.coreml_base_name_spec() + "-encoder.mlmodelc"@
    }

    /// Returns the canonical name for this model.
    pub fn name(&self) -> (r: &'static str)
        ensures
            r@ == self.name_spec(),
    {
        match self {
            WhisperModel::Tiny => "tiny",
            WhisperModel::TinyQ5_1 => "tiny-q5_1",
            WhisperModel::TinyQ8_0 => "tiny-q8_0",
            WhisperModel::TinyEn => "tiny.en",
            WhisperModel::TinyEnQ5_1 => "tiny.en-q5_1",
            WhisperModel::TinyEnQ8_0 => "tiny.en-q8_0",
            WhisperModel::Base => "base",
            WhisperModel::BaseQ5_1 => "base-q5_1",
            WhisperModel::BaseQ8_0 => "base-q8_0",
            WhisperModel::BaseEn => "base.en",
            WhisperModel::BaseEnQ5_1 => "base.en-q5_1",
            WhisperModel::BaseEnQ8_0 => "base.en-q8_0",
            WhisperModel::Small => "small",
            WhisperModel::SmallQ5_1 => "small-q5_1",
            WhisperModel::SmallQ8_0 => "small-q8_0",
            WhisperModel::SmallEn => "small.en",
            WhisperModel::SmallEnQ5_1 => "small.en-q5_1",
            WhisperModel::SmallEnQ8_0 => "small.en-q8_0",
            WhisperModel::SmallEnTdrz => "small.en-tdrz",
            WhisperModel::Medium => "medium",
            WhisperModel::MediumQ5_0 => "medium-q5_0",
            WhisperModel::MediumQ8_0 => "medium-q8_0",
            WhisperModel::MediumEn => "medium.en",
            WhisperModel::MediumEnQ5_0 => "medium.en-q5_0",
            WhisperModel::MediumEnQ8_0 => "medium.en-q8_0",
            WhisperModel::LargeV1 => "large-v1",
            WhisperModel::LargeV2 => "large-v2",
            WhisperModel::LargeV2Q5_0 => "large-v2-q5_0",
            WhisperModel::LargeV2Q8_0 => "large-v2-q8_0",
            WhisperModel::LargeV3 => "large-v3",
            WhisperModel::LargeV3Q5_0 => "large-v3-q5_0",
            WhisperModel::LargeV3Turbo => "large-v3-turbo",
            WhisperModel::LargeV3TurboQ5_0 => "large-v3-turbo-q5_0",
            WhisperModel::LargeV3TurboQ8_0 => "large-v3-turbo-q8_0",
        }
    }

    /// Returns the filename for this model.
    pub fn filename(&self) -> (r: &'static str)
        ensures
            r@ == self.filename_spec(),
    {
        match self {
            WhisperModel::Tiny => "ggml-tiny.bin",
            WhisperModel::TinyQ5_1 => "ggml-tiny-q5_1.bin",
            WhisperModel::TinyQ8_0 => "ggml-tiny-q8_0.bin",
            WhisperModel::TinyEn => "ggml-tiny.en.bin",
            WhisperModel::TinyEnQ5_1 => "ggml-tiny.en-q5_1.bin",
            WhisperModel::TinyEnQ8_0 => "ggml-tiny.en-q8_0.bin",
            WhisperModel::Base => "ggml-base.bin",
            WhisperModel::BaseQ5_1 => "ggml-base-q5_1.bin",
            WhisperModel::BaseQ8_0 => "ggml-base-q8_0.bin",
            WhisperModel::BaseEn => "ggml-base.en.bin",
            WhisperModel::BaseEnQ5_1 => "ggml-base.en-q5_1.bin",
            WhisperModel::BaseEnQ8_0 => "ggml-base.en-q8_0.bin",
            WhisperModel::Small => "ggml-small.bin",
            WhisperModel::SmallQ5_1 => "ggml-small-q5_1.bin",
            WhisperModel::SmallQ8_0 => "ggml-small-q8_0.bin",
            WhisperModel::SmallEn => "ggml-small.en.bin",
            WhisperModel::SmallEnQ5_1 => "ggml-small.en-q5_1.bin",
            WhisperModel::SmallEnQ8_0 => "ggml-small.en-q8_0.bin",
            WhisperModel::SmallEnTdrz => "ggml-small.en-tdrz.bin",
            WhisperModel::Medium => "ggml-medium.bin",
            WhisperModel::MediumQ5_0 => "ggml-medium-q5_0.bin",
            WhisperModel::MediumQ8_0 => "ggml-medium-q8_0.bin",
            WhisperModel::MediumEn => "ggml-medium.en.bin",
            WhisperModel::MediumEnQ5_0 => "ggml-medium.en-q5_0.bin",
            WhisperModel::MediumEnQ8_0 => "ggml-medium.en-q8_0.bin",
            WhisperModel::LargeV1 => "ggml-large-v1.bin",
            WhisperModel::LargeV2 => "ggml-large-v2.bin",
            WhisperModel::LargeV2Q5_0 => "ggml-large-v2-q5_0.bin",
            WhisperModel::LargeV2Q8_0 => "ggml-large-v2-q8_0.bin",
            WhisperModel::LargeV3 => "ggml-large-v3.bin",
            WhisperModel::LargeV3Q5_0 => "ggml-large-v3-q5_0.bin",
            WhisperModel::LargeV3Turbo => "ggml-large-v3-turbo.bin",
            WhisperModel::LargeV3TurboQ5_0 => "ggml-large-v3-turbo-q5_0.bin",
            WhisperModel::LargeV3TurboQ8_0 => "ggml-large-v3-turbo-q8_0.bin",
        }
    }

    /// Returns the expected SHA-1 hex digest for this model's artifact.
    pub fn sha1(&self) -> (r: &'static str)
        ensures
            r@ == self.sha1_spec(),
    {
        match self {
            WhisperModel::Tiny => "bd577a113a864445d4c299885e0cb97d4ba92b5f",
            WhisperModel::TinyQ5_1 => "2827a03e495b1ed3048ef28a6a4620537db4ee51",
            WhisperModel::TinyQ8_0 => "19e8118f6652a650569f5a949d962154e01571d9",
            WhisperModel::TinyEn => "c78c86eb1a8faa21b369bcd33207cc90d64ae9df",
            WhisperModel::TinyEnQ5_1 => "3fb92ec865cbbc769f08137f22470d6b66e071b6",
            WhisperModel::TinyEnQ8_0 => "802d6668e7d411123e672abe4cb6c18f12306abb",
            WhisperModel::Base => "465707469ff3a37a2b9b8d8f89f2f99de7299dac",
            WhisperModel::BaseQ5_1 => "a3733eda680ef76256db5fc5dd9de8629e62c5e7",
            WhisperModel::BaseQ8_0 => "7bb89bb49ed6955013b166f1b6a6c04584a20fbe",
            WhisperModel::BaseEn => "137c40403d78fd54d454da0f9bd998f78703390c",
            WhisperModel::BaseEnQ5_1 => "d26d7ce5a1b6e57bea5d0431b9c20ae49423c94a",
            WhisperModel::BaseEnQ8_0 => "bb1574182e9b924452bf0cd1510ac034d323e948",
            WhisperModel::Small => "55356645c2b361a969dfd0ef2c5a50d530afd8d5",
            WhisperModel::SmallQ5_1 => "6fe57ddcfdd1c6b07cdcc73aaf620810ce5fc771",
            WhisperModel::SmallQ8_0 => "bcad8a2083f4e53d648d586b7dbc0cd673d8afad",
            WhisperModel::SmallEn => "db8a495a91d927739e50b3fc1cc4c6b8f6c2d022",
            WhisperModel::SmallEnQ5_1 => "20f54878d608f94e4a8ee3ae56016571d47cba34",
            WhisperModel::SmallEnQ8_0 => "9d75ff4ccfa0a8217870d7405cf8cef0a5579852",
            WhisperModel::SmallEnTdrz => "b6c6e7e89af1a35c08e6de56b66ca6a02a2fdfa1",
            WhisperModel::Medium => "fd9727b6e1217c2f614f9b698455c4ffd82463b4",
            WhisperModel::MediumQ5_0 => "7718d4c1ec62ca96998f058114db98236937490e",
            WhisperModel::MediumQ8_0 => "e66645948aff4bebbec71b3485c576f3d63af5d6",
            WhisperModel::MediumEn => "8c30f0e44ce9560643ebd10bbe50cd20eafd3723",
            WhisperModel::MediumEnQ5_0 => "bb3b5281bddd61605d6fc76bc5b92d8f20284c3b",
            WhisperModel::MediumEnQ8_0 => "b1cf48c12c807e14881f634fb7b6c6ca867f6b38",
            WhisperModel::LargeV1 => "b1caaf735c4cc1429223d5a74f0f4d0b9b59a299",
            WhisperModel::LargeV2 => "0f4c8e34f21cf1a914c59d8b3ce882345ad349d6",
            WhisperModel::LargeV2Q5_0 => "00e39f2196344e901b3a2bd5814807a769bd1630",
            WhisperModel::LargeV2Q8_0 => "da97d6ca8f8ffbeeb5fd147f79010eeea194ba38",
            WhisperModel::LargeV3 => "ad82bf6a9043ceed055076d0fd39f5f186ff8062",
            WhisperModel::LargeV3Q5_0 => "e6e2ed78495d403bef4b7cff42ef4aaadcfea8de",
            WhisperModel::LargeV3Turbo => "4af2b29d7ec73d781377bfd1758ca957a807e941",
            WhisperModel::LargeV3TurboQ5_0 => "e050f7970618a659205450ad97eb95a18d69c9ee",
            WhisperModel::LargeV3TurboQ8_0 => "01bf15bedffe9f39d65c1b6ff9b687ea91f59e0e",
        }
    }

    /// Returns the size in MiB.
    fn size_mib(&self) -> (r: u32)
        ensures
            r == self.size_mib_spec(),
    {
        match self {
            WhisperModel::Tiny => 75,
            WhisperModel::TinyQ5_1 => 31,
            WhisperModel::TinyQ8_0 => 42,
            WhisperModel::TinyEn => 75,
            WhisperModel::TinyEnQ5_1 => 31,
            WhisperModel::TinyEnQ8_0 => 42,
            WhisperModel::Base => 142,
            WhisperModel::BaseQ5_1 => 57,
            WhisperModel::BaseQ8_0 => 78,
            WhisperModel::BaseEn => 142,
            WhisperModel::BaseEnQ5_1 => 57,
            WhisperModel::BaseEnQ8_0 => 78,
            WhisperModel::Small => 466,
            WhisperModel::SmallQ5_1 => 181,
            WhisperModel::SmallQ8_0 => 252,
            WhisperModel::SmallEn => 466,
            WhisperModel::SmallEnQ5_1 => 181,
            WhisperModel::SmallEnQ8_0 => 252,
            WhisperModel::SmallEnTdrz => 465,
            WhisperModel::Medium => 1536,
            WhisperModel::MediumQ5_0 => 514,
            WhisperModel::MediumQ8_0 => 785,
            WhisperModel::MediumEn => 1536,
            WhisperModel::MediumEnQ5_0 => 514,
            WhisperModel::MediumEnQ8_0 => 785,
            WhisperModel::LargeV1 => 2969,
            WhisperModel::LargeV2 => 2969,
            WhisperModel::LargeV2Q5_0 => 1126,
            WhisperModel::LargeV2Q8_0 => 1536,
            WhisperModel::LargeV3 => 2969,
            WhisperModel::LargeV3Q5_0 => 1126,
            WhisperModel::LargeV3Turbo => 1536,
            WhisperModel::LargeV3TurboQ5_0 => 547,
            WhisperModel::LargeV3TurboQ8_0 => 834,
        }
    }

    /// Returns the download URL for this model.
    pub fn url(&self) -> (r: String)
        ensures
            r@ == model_base_url() + "/"@ + self.filename_spec(),
    {
        let mut s = String::from_str(
            "https://huggingface.co/ggerganov/whisper.cpp/resolve/main",
        );
        s.append("/");
        s.append(self.filename());
        s
    }

    /// Returns the approximate size of this model in bytes.
    pub fn size_bytes(&self) -> (r: u64)
        ensures
            r == self.size_mib_spec() * 1024 * 1024,
    {
        (self.size_mib() as u64) * 1024 * 1024
    }

    /// Returns a human-readable size string.
    pub fn size_human(&self) -> (r: String)
        ensures
            r@ == size_human_spec(self.size_mib_spec() as int),
    {
        let mib = self.size_mib();
        if mib >= 1024 {
            let tenths = (mib * 10 + 512) / 1024;
            let mut s = u32_dec(tenths / 10);
            s.append(".");
            let frac = u32_dec(tenths % 10);
            s.append(frac.as_str());
            s.append(" GiB");
            s
        } else {
            let mut s = u32_dec(mib);
            s.append(" MiB");
            s
        }
    }

    /// Parses a model name into a catalog variant. Names must match a
    /// canonical catalog name exactly, up to ASCII case.
    pub fn from_name(name: &str) -> (r: Option<WhisperModel>)
        ensures
            r == resolve_name(name@),
    {
        if str_ci_eq(name, "tiny") {
            Some(WhisperModel::Tiny)
        } else if str_ci_eq(name, "tiny-q5_1") {
            Some(WhisperModel::TinyQ5_1)
        } else if str_ci_eq(name, "tiny-q8_0") {
            Some(WhisperModel::TinyQ8_0)
        } else if str_ci_eq(name, "tiny.en") {
            Some(WhisperModel::TinyEn)
        } else if str_ci_eq(name, "tiny.en-q5_1") {
            Some(WhisperModel::TinyEnQ5_1)
        } else if str_ci_eq(name, "tiny.en-q8_0") {
            Some(WhisperModel::TinyEnQ8_0)
        } else if str_ci_eq(name, "base") {
            Some(WhisperModel::Base)
        } else if str_ci_eq(name, "base-q5_1") {
            Some(WhisperModel::BaseQ5_1)
        } else if str_ci_eq(name, "base-q8_0") {
            Some(WhisperModel::BaseQ8_0)
        } else if str_ci_eq(name, "base.en") {
            Some(WhisperModel::BaseEn)
        } else if str_ci_eq(name, "base.en-q5_1") {
            Some(WhisperModel::BaseEnQ5_1)
        } else if str_ci_eq(name, "base.en-q8_0") {
            Some(WhisperModel::BaseEnQ8_0)
        } else if str_ci_eq(name, "small") {
            Some(WhisperModel::Small)
        } else if str_ci_eq(name, "small-q5_1") {
            Some(WhisperModel::SmallQ5_1)
        } else if str_ci_eq(name, "small-q8_0") {
            Some(WhisperModel::SmallQ8_0)
        } else if str_ci_eq(name, "small.en") {
            Some(WhisperModel::SmallEn)
        } else if str_ci_eq(name, "small.en-q5_1") {
            Some(WhisperModel::SmallEnQ5_1)
        } else if str_ci_eq(name, "small.en-q8_0") {
            Some(WhisperModel::SmallEnQ8_0)
        } else if str_ci_eq(name, "small.en-tdrz") {
            Some(WhisperModel::SmallEnTdrz)
        } else if str_ci_eq(name, "medium") {
            Some(WhisperModel::Medium)
        } else if str_ci_eq(name, "medium-q5_0") {
            Some(WhisperModel::MediumQ5_0)
        } else if str_ci_eq(name, "medium-q8_0") {
            Some(WhisperModel::MediumQ8_0)
        } else if str_ci_eq(name, "medium.en") {
            Some(WhisperModel::MediumEn)
        } else if str_ci_eq(name, "medium.en-q5_0") {
            Some(WhisperModel::MediumEnQ5_0)
        } else if str_ci_eq(name, "medium.en-q8_0") {
            Some(WhisperModel::MediumEnQ8_0)
        } else if str_ci_eq(name, "large-v1") {
            Some(WhisperModel::LargeV1)
        } else if str_ci_eq(name, "large-v2") {
            Some(WhisperModel::LargeV2)
        } else if str_ci_eq(name, "large-v2-q5_0") {
            Some(WhisperModel::LargeV2Q5_0)
        } else if str_ci_eq(name, "large-v2-q8_0") {
            Some(WhisperModel::LargeV2Q8_0)
        } else if str_ci_eq(name, "large-v3") {
            Some(WhisperModel::LargeV3)
        } else if str_ci_eq(name, "large-v3-q5_0") {
            Some(WhisperModel::LargeV3Q5_0)
        } else if str_ci_eq(name, "large-v3-turbo") {
            Some(WhisperModel::LargeV3Turbo)
        } else if str_ci_eq(name, "large-v3-turbo-q5_0") {
            Some(WhisperModel::LargeV3TurboQ5_0)
        } else if str_ci_eq(name, "large-v3-turbo-q8_0") {
            Some(WhisperModel::LargeV3TurboQ8_0)
        } else {
            None
        }
    }

    /// Returns a list of all canonical model names, in catalog order.
    pub fn all_names() -> (r: Vec<&'static str>)
        ensures
            r.deep_view() == catalog_names(),
    {
        let mut names: Vec<&'static str> = Vec::new();
        names.push("tiny");
    names.push("tiny-q5_1");
    names.push("tiny-q8_0");
    names.push("tiny.en");
    names.push("tiny.en-q5_1");
    names.push("tiny.en-q8_0");
    names.push("base");
    names.push("base-q5_1");
    names.push("base-q8_0");
    names.push("base.en");
    names.push("base.en-q5_1");
    names.push("base.en-q8_0");
    names.push("small");
    names.push("small-q5_1");
    names.push("small-q8_0");
    names.push("small.en");
    names.push("small.en-q5_1");
    names.push("small.en-q8_0");
    names.push("small.en-tdrz");
    names.push("medium");
    names.push("medium-q5_0");
    names.push("medium-q8_0");
    names.push("medium.en");
    names.push("medium.en-q5_0");
    names.push("medium.en-q8_0");
    names.push("large-v1");
    names.push("large-v2");
    names.push("large-v2-q5_0");
    names.push("large-v2-q8_0");
    names.push("large-v3");
    names.push("large-v3-q5_0");
    names.push("large-v3-turbo");
    names.push("large-v3-turbo-q5_0");
    names.push("large-v3-turbo-q8_0");
        proof {
            assert(names.deep_view() =~~= catalog_names());
        }
        names
    }

    /// The base model name used for accelerator-encoder lookup.
    ///
    /// Accelerator encoders are full-precision and are shared by the
    /// quantized variants of a model, so the quantization suffix is
    /// stripped from the canonical name.
    pub fn coreml_base_name(&self) -> (r: &'static str)
        ensures
            r@ == self.coreml_base_name_spec(),
    {
        match self {
            WhisperModel::Tiny => "tiny",
            WhisperModel::TinyQ5_1 => "tiny",
            WhisperModel::TinyQ8_0 => "tiny",
            WhisperModel::TinyEn => "tiny.en",
            WhisperModel::TinyEnQ5_1 => "tiny.en",
            WhisperModel::TinyEnQ8_0 => "tiny.en",
            WhisperModel::Base => "base",
            WhisperModel::BaseQ5_1 => "base",
            WhisperModel::BaseQ8_0 => "base",
            WhisperModel::BaseEn => "base.en",
            WhisperModel::BaseEnQ5_1 => "base.en",
            WhisperModel::BaseEnQ8_0 => "base.en",
            WhisperModel::Small => "small",
            WhisperModel::SmallQ5_1 => "small",
            WhisperModel::SmallQ8_0 => "small",
            WhisperModel::SmallEn => "small.en",
            WhisperModel::SmallEnQ5_1 => "small.en",
            WhisperModel::SmallEnQ8_0 => "small.en",
            WhisperModel::SmallEnTdrz => "small.en",
            WhisperModel::Medium => "medium",
            WhisperModel::MediumQ5_0 => "medium",
            WhisperModel::MediumQ8_0 => "medium",
            WhisperModel::MediumEn => "medium.en",
            WhisperModel::MediumEnQ5_0 => "medium.en",
            WhisperModel::MediumEnQ8_0 => "medium.en",
            WhisperModel::LargeV1 => "large-v1",
            WhisperModel::LargeV2 => "large-v2",
            WhisperModel::LargeV2Q5_0 => "large-v2",
            WhisperModel::LargeV2Q8_0 => "large-v2",
            WhisperModel::LargeV3 => "large-v3",
            WhisperModel::LargeV3Q5_0 => "large-v3",
            WhisperModel::LargeV3Turbo => "large-v3-turbo",
            WhisperModel::LargeV3TurboQ5_0 => "large-v3-turbo",
            WhisperModel::LargeV3TurboQ8_0 => "large-v3-turbo",
        }
    }

    /// Returns the accelerator-encoder directory name.
    pub fn coreml_encoder_dirname(&self) -> (r: String)
        ensures
            r@ == self.coreml_encoder_dirname_spec(),
    {
        let mut s = String::from_str("ggml-");
        s.append(self.coreml_base_name());
        s.append("-encoder.mlmodelc");
        s
    }

    /// Returns the accelerator-encoder archive name used for download.
    pub fn coreml_encoder_zip_filename(&self) -> (r: String)
        ensures
            r@ == self.coreml_encoder_dirname_spec() + ".zip"@,
    {
        let mut s = self.coreml_encoder_dirname();
        s.append(".zip");
        s
    }

    /// Returns the download URL for the accelerator encoder.
    pub fn coreml_encoder_url(&self) -> (r: String)
        ensures
            r@ == model_base_url() + "/"@ + self.coreml_encoder_dirname_spec() + ".zip"@,
    {
        let mut s = String::from_str(
            "https://huggingface.co/ggerganov/whisper.cpp/resolve/main",
        );
        s.append("/");
        let z = self.coreml_encoder_zip_filename();
        s.append(z.as_str());
        s
    }

    /// Returns the approximate size of the accelerator encoder in MiB.
    pub fn coreml_encoder_size_mib(&self) -> (r: u32)
        ensures
            r == self.coreml_encoder_size_mib_spec(),
    {
        match self {
            WhisperModel::Tiny => 15,
            WhisperModel::TinyQ5_1 => 15,
            WhisperModel::TinyQ8_0 => 15,
            WhisperModel::TinyEn => 15,
            WhisperModel::TinyEnQ5_1 => 15,
            WhisperModel::TinyEnQ8_0 => 15,
            WhisperModel::Base => 38,
            WhisperModel::BaseQ5_1 => 38,
            WhisperModel::BaseQ8_0 => 38,
            WhisperModel::BaseEn => 38,
            WhisperModel::BaseEnQ5_1 => 38,
            WhisperModel::BaseEnQ8_0 => 38,
            WhisperModel::Small => 163,
            WhisperModel::SmallQ5_1 => 163,
            WhisperModel::SmallQ8_0 => 163,
            WhisperModel::SmallEn => 163,
            WhisperModel::SmallEnQ5_1 => 163,
            WhisperModel::SmallEnQ8_0 => 163,
            WhisperModel::SmallEnTdrz => 163,
            WhisperModel::Medium => 568,
            WhisperModel::MediumQ5_0 => 568,
            WhisperModel::MediumQ8_0 => 568,
            WhisperModel::MediumEn => 568,
            WhisperModel::MediumEnQ5_0 => 568,
            WhisperModel::MediumEnQ8_0 => 568,
            WhisperModel::LargeV1 => 1200,
            WhisperModel::LargeV2 => 1200,
            WhisperModel::LargeV2Q5_0 => 1200,
            WhisperModel::LargeV2Q8_0 => 1200,
            WhisperModel::LargeV3 => 1200,
            WhisperModel::LargeV3Q5_0 => 1200,
            WhisperModel::LargeV3Turbo => 1200,
            WhisperModel::LargeV3TurboQ5_0 => 1200,
            WhisperModel::LargeV3TurboQ8_0 => 1200,
        }
    }
}

impl Default for WhisperModel {
    /// The variant used when the configuration names none.
    fn default() -> (r: Self)
        ensures
            r == WhisperModel::LargeV3TurboQ8_0,
    {
        WhisperModel::LargeV3TurboQ8_0
    }
}

/// Every canonical name in the catalog is resolved by the name resolver to
/// its own variant: no catalog entry is unreachable by name.
pub proof fn lemma_catalog_names_resolve(m: WhisperModel)
    ensures
        resolve_name(m.name_spec()) == Some(m),
{
        reveal_strlit("tiny");
        reveal_strlit("tiny-q5_1");
        reveal_strlit("tiny-q8_0");
        reveal_strlit("tiny.en");
        reveal_strlit("tiny.en-q5_1");
        reveal_strlit("tiny.en-q8_0");
        reveal_strlit("base");
        reveal_strlit("base-q5_1");
        reveal_strlit("base-q8_0");
        reveal_strlit("base.en");
        reveal_strlit("base.en-q5_1");
        reveal_strlit("base.en-q8_0");
        reveal_strlit("small");
        reveal_strlit("small-q5_1");
        reveal_strlit("small-q8_0");
        reveal_strlit("small.en");
        reveal_strlit("small.en-q5_1");
        reveal_strlit("small.en-q8_0");
        reveal_strlit("small.en-tdrz");
        reveal_strlit("medium");
        reveal_strlit("medium-q5_0");
        reveal_strlit("medium-q8_0");
        reveal_strlit("medium.en");
        reveal_strlit("medium.en-q5_0");
        reveal_strlit("medium.en-q8_0");
        reveal_strlit("large-v1");
        reveal_strlit("large-v2");
        reveal_strlit("large-v2-q5_0");
        reveal_strlit("large-v2-q8_0");
        reveal_strlit("large-v3");
        reveal_strlit("large-v3-q5_0");
        reveal_strlit("large-v3-turbo");
        reveal_strlit("large-v3-turbo-q5_0");
        reveal_strlit("large-v3-turbo-q8_0");
    match m {
            WhisperModel::Tiny => {
            },
            WhisperModel::TinyQ5_1 => {
            },
            WhisperModel::TinyQ8_0 => {
                assert(lower32("tiny-q8_0"@[6] as u32) != "tiny-q5_1"@[6] as u32);
            },
            WhisperModel::TinyEn => {
            },
            WhisperModel::TinyEnQ5_1 => {
            },
            WhisperModel::TinyEnQ8_0 => {
                assert(lower32("tiny.en-q8_0"@[9] as u32) != "tiny.en-q5_1"@[9] as u32);
            },
            WhisperModel::Base => {
                assert(lower32("base"@[0] as u32) != "tiny"@[0] as u32);
            },
            WhisperModel::BaseQ5_1 => {
                assert(lower32("base-q5_1"@[0] as u32) != "tiny-q5_1"@[0] as u32);
                assert(lower32("base-q5_1"@[0] as u32) != "tiny-q8_0"@[0] as u32);
            },
            WhisperModel::BaseQ8_0 => {
                assert(lower32("base-q8_0"@[0] as u32) != "tiny-q5_1"@[0] as u32);
                assert(lower32("base-q8_0"@[0] as u32) != "tiny-q8_0"@[0] as u32);
                assert(lower32("base-q8_0"@[6] as u32) != "base-q5_1"@[6] as u32);
            },
            WhisperModel::BaseEn => {
                assert(lower32("base.en"@[0] as u32) != "tiny.en"@[0] as u32);
            },
            WhisperModel::BaseEnQ5_1 => {
                assert(lower32("base.en-q5_1"@[0] as u32) != "tiny.en-q5_1"@[0] as u32);
                assert(lower32("base.en-q5_1"@[0] as u32) != "tiny.en-q8_0"@[0] as u32);
            },
            WhisperModel::BaseEnQ8_0 => {
                assert(lower32("base.en-q8_0"@[0] as u32) != "tiny.en-q5_1"@[0] as u32);
                assert(lower32("base.en-q8_0"@[0] as u32) != "tiny.en-q8_0"@[0] as u32);
                assert(lower32("base.en-q8_0"@[9] as u32) != "base.en-q5_1"@[9] as u32);
            },
            WhisperModel::Small => {
            },
            WhisperModel::SmallQ5_1 => {
            },
            WhisperModel::SmallQ8_0 => {
                assert(lower32("small-q8_0"@[7] as u32) != "small-q5_1"@[7] as u32);
            },
            WhisperModel::SmallEn => {
            },
            WhisperModel::SmallEnQ5_1 => {
            },
            WhisperModel::SmallEnQ8_0 => {
                assert(lower32("small.en-q8_0"@[10] as u32) != "small.en-q5_1"@[10] as u32);
            },
            WhisperModel::SmallEnTdrz => {
                assert(lower32("small.en-tdrz"@[9] as u32) != "small.en-q5_1"@[9] as u32);
                assert(lower32("small.en-tdrz"@[9] as u32) != "small.en-q8_0"@[9] as u32);
            },
            WhisperModel::Medium => {
            },
            WhisperModel::MediumQ5_0 => {
            },
            WhisperModel::MediumQ8_0 => {
                assert(lower32("medium-q8_0"@[8] as u32) != "medium-q5_0"@[8] as u32);
            },
            WhisperModel::MediumEn => {
                assert(lower32("medium.en"@[0] as u32) != "tiny-q5_1"@[0] as u32);
                assert(lower32("medium.en"@[0] as u32) != "tiny-q8_0"@[0] as u32);
                assert(lower32("medium.en"@[0] as u32) != "base-q5_1"@[0] as u32);
                assert(lower32("medium.en"@[0] as u32) != "base-q8_0"@[0] as u32);
            },
            WhisperModel::MediumEnQ5_0 => {
            },
            WhisperModel::MediumEnQ8_0 => {
                assert(lower32("medium.en-q8_0"@[11] as u32) != "medium.en-q5_0"@[11] as u32);
            },
            WhisperModel::LargeV1 => {
                assert(lower32("large-v1"@[0] as u32) != "small.en"@[0] as u32);
            },
            WhisperModel::LargeV2 => {
                assert(lower32("large-v2"@[0] as u32) != "small.en"@[0] as u32);
                assert(lower32("large-v2"@[7] as u32) != "large-v1"@[7] as u32);
            },
            WhisperModel::LargeV2Q5_0 => {
                assert(lower32("large-v2-q5_0"@[0] as u32) != "small.en-q5_1"@[0] as u32);
                assert(lower32("large-v2-q5_0"@[0] as u32) != "small.en-q8_0"@[0] as u32);
                assert(lower32("large-v2-q5_0"@[0] as u32) != "small.en-tdrz"@[0] as u32);
            },
            WhisperModel::LargeV2Q8_0 => {
                assert(lower32("large-v2-q8_0"@[0] as u32) != "small.en-q5_1"@[0] as u32);
                assert(lower32("large-v2-q8_0"@[0] as u32) != "small.en-q8_0"@[0] as u32);
                assert(lower32("large-v2-q8_0"@[0] as u32) != "small.en-tdrz"@[0] as u32);
                assert(lower32("large-v2-q8_0"@[10] as u32) != "large-v2-q5_0"@[10] as u32);
            },
            WhisperModel::LargeV3 => {
                assert(lower32("large-v3"@[0] as u32) != "small.en"@[0] as u32);
                assert(lower32("large-v3"@[7] as u32) != "large-v1"@[7] as u32);
                assert(lower32("large-v3"@[7] as u32) != "large-v2"@[7] as u32);
            },
            WhisperModel::LargeV3Q5_0 => {
                assert(lower32("large-v3-q5_0"@[0] as u32) != "small.en-q5_1"@[0] as u32);
                assert(lower32("large-v3-q5_0"@[0] as u32) != "small.en-q8_0"@[0] as u32);
                assert(lower32("large-v3-q5_0"@[0] as u32) != "small.en-tdrz"@[0] as u32);
                assert(lower32("large-v3-q5_0"@[7] as u32) != "large-v2-q5_0"@[7] as u32);
                assert(lower32("large-v3-q5_0"@[7] as u32) != "large-v2-q8_0"@[7] as u32);
            },
            WhisperModel::LargeV3Turbo => {
                assert(lower32("large-v3-turbo"@[0] as u32) != "medium.en-q5_0"@[0] as u32);
                assert(lower32("large-v3-turbo"@[0] as u32) != "medium.en-q8_0"@[0] as u32);
            },
            WhisperModel::LargeV3TurboQ5_0 => {
            },
            WhisperModel::LargeV3TurboQ8_0 => {
                assert(lower32("large-v3-turbo-q8_0"@[16] as u32) != "large-v3-turbo-q5_0"@[16] as u32);
            },
    }
}

} // verus!
