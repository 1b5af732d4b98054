//! The model store: where model artifacts live on disk, how their
//! integrity is checked, and the decisions of the download/ensure cycle.
//! File and network traffic happen outside the library; the store names
//! the paths, checks the digests, and decides each step, so that nothing
//! corrupt is ever promoted to a model's canonical name.

use vstd::prelude::*;

use sha1::Digest;

use crate::model::WhisperModel;

verus! {

broadcast use vstd::string::group_string_axioms;

/// Why a store operation failed.
#[derive(Clone, PartialEq, Eq, Debug)]
pub enum StoreError {
    /// The platform defines no local-data directory.
    NoDataDir,
    /// A downloaded artifact did not hash to the catalog's digest; the
    /// corrupt file was discarded.
    DigestMismatch { expected: String, actual: String },
}

/// The SHA-1 digest of a byte sequence, as its 20 bytes. The digest is a
/// fixed function of the input alone; its definition is not written out
/// here, the outside implementation computes it.
pub uninterp spec fn sha1_of(data: Seq<u8>) -> Seq<u8>;

/// Relies on `sha1::Sha1` through `digest::Digest::digest`: the SHA-1
/// digest of the input bytes, 20 bytes, a function of the input alone.
#[verifier::external_body]
fn sha1_digest(data: &Vec<u8>) -> (r: Vec<u8>)
    ensures
        r@ == sha1_of(data@),
        r@.len() == 20,
{
    sha1::Sha1::digest(data.as_slice()).to_vec()
}

/// The lower-case hex character for a value below 16.
pub open spec fn hex_digit(d: int) -> char {
    if d == 0 {
        '0'
    } else if d == 1 {
        '1'
    } else if d == 2 {
        '2'
    } else if d == 3 {
        '3'
    } else if d == 4 {
        '4'
    } else if d == 5 {
        '5'
    } else if d == 6 {
        '6'
    } else if d == 7 {
        '7'
    } else if d == 8 {
        '8'
    } else if d == 9 {
        '9'
    } else if d == 10 {
        'a'
    } else if d == 11 {
        'b'
    } else if d == 12 {
        'c'
    } else if d == 13 {
        'd'
    } else if d == 14 {
        'e'
    } else {
        'f'
    }
}

/// Lower-case hex of a byte sequence, two characters per byte.
pub open spec fn hex_of(b: Seq<u8>) -> Seq<char>
    decreases b.len(),
{
    if b.len() == 0 {
        Seq::<char>::empty()
    } else {
        hex_of(b.drop_last()) + seq![
            hex_digit(b.last() as int / 16),
            hex_digit(b.last() as int % 16),
        ]
    }
}

fn nibble_str(d: u8) -> (r: &'static str)
    requires
        d < 16,
    ensures
        r@ == seq![hex_digit(d as int)],
{
    let r: &'static str = match d {
        0 => "0",
        1 => "1",
        2 => "2",
        3 => "3",
        4 => "4",
        5 => "5",
        6 => "6",
        7 => "7",
        8 => "8",
        9 => "9",
        10 => "a",
        11 => "b",
        12 => "c",
        13 => "d",
        14 => "e",
        _ => "f",
    };
    proof {
        reveal_strlit("0");
        reveal_strlit("1");
        reveal_strlit("2");
        reveal_strlit("3");
        reveal_strlit("4");
        reveal_strlit("5");
        reveal_strlit("6");
        reveal_strlit("7");
        reveal_strlit("8");
        reveal_strlit("9");
        reveal_strlit("a");
        reveal_strlit("b");
        reveal_strlit("c");
        reveal_strlit("d");
        reveal_strlit("e");
        reveal_strlit("f");
    }
    r
}

/// Renders bytes as lower-case hex.
pub fn hex_encode(bytes: &Vec<u8>) -> (r: String)
    ensures
        r@ == hex_of(bytes@),
{
    let mut s = String::new();
    let n = bytes.len();
    let mut i: usize = 0;
    while i < n
        invariant
            i <= n,
            n == bytes@.len(),
            s@ == hex_of(bytes@.subrange(0, i as int)),
        decreases n - i,
    {
        let b = bytes[i];
        s.append(nibble_str(b / 16));
        s.append(nibble_str(b % 16));
        proof {
            let pre = bytes@.subrange(0, i as int + 1);
            assert(pre.drop_last() =~= bytes@.subrange(0, i as int));
            assert(pre.last() == bytes@[i as int]);
        }
        i = i + 1;
    }
    proof {
        assert(bytes@.subrange(0, bytes@.len() as int) =~= bytes@);
    }
    s
}

/// The hex SHA-1 digest of the given bytes. The caller streams a file's
/// contents in; hashing over bytes keeps the check free of any file
/// handling.
pub fn compute_sha1(data: &Vec<u8>) -> (r: String)
    ensures
        r@ == hex_of(sha1_of(data@)),
{
    let digest = sha1_digest(data);
    hex_encode(&digest)
}

/// True when the bytes hash to the given lower-case hex digest.
pub fn digest_matches(expected: &String, data: &Vec<u8>) -> (r: bool)
    ensures
        r == (hex_of(sha1_of(data@)) == expected@),
{
    let actual = compute_sha1(data);
    actual == *expected
}

/// Verifies a model artifact's bytes against the catalog's expected
/// digest.
pub fn verify_model(model: WhisperModel, data: &Vec<u8>) -> (r: bool)
    ensures
        r == (hex_of(sha1_of(data@)) == model.sha1_spec()),
{
    let expected = String::from_str(model.sha1());
    digest_matches(&expected, data)
}

/// Relies on `dirs::data_local_dir`: the platform's local-data directory,
/// when the platform defines one and its path is text. The answer depends
/// on the environment, so nothing more is promised of it.
#[verifier::external_body]
fn data_local_dir_string() -> (r: Option<String>) {
    dirs::data_local_dir().and_then(|p| p.to_str().map(|s| s.to_string()))
}

/// The models directory under a given data directory.
pub fn models_dir_under(data_dir: &str) -> (r: String)
    ensures
        r@ == data_dir@ + "/whisp/models"@,
{
    let mut s = String::from_str(data_dir);
    s.append("/whisp/models");
    s
}

/// The models directory, resolved from the platform's local-data
/// directory. Whatever the platform answered, the result is the models
/// directory under it; the error comes exactly when the platform defines
/// none.
pub fn models_dir() -> (r: Result<String, StoreError>)
    ensures
        r matches Ok(p) ==> p@.len() > 13 && p@.subrange(
            p@.len() - 13,
            p@.len() as int,
        ) == "/whisp/models"@,
        r matches Err(e) ==> e == StoreError::NoDataDir,
{
    match data_local_dir_string() {
        None => Err(StoreError::NoDataDir),
        Some(dir) => {
            if dir.as_str().unicode_len() == 0 {
                return Err(StoreError::NoDataDir);
            }
            let p = models_dir_under(dir.as_str());
            proof {
                reveal_strlit("/whisp/models");
                assert(p@.subrange(p@.len() - 13, p@.len() as int) =~= "/whisp/models"@);
            }
            Ok(p)
        },
    }
}

/// The path where a model artifact is stored: the canonical filename
/// under the models directory.
pub fn model_path(models_dir: &str, model: WhisperModel) -> (r: String)
    ensures
        r@ == models_dir@ + "/"@ + model.filename_spec(),
{
    let mut s = String::from_str(models_dir);
    s.append("/");
    s.append(model.filename());
    s
}

/// The path where a model's accelerator-encoder directory is stored.
pub fn coreml_encoder_path(models_dir: &str, model: WhisperModel) -> (r: String)
    ensures
        r@ == models_dir@ + "/"@ + model.coreml_encoder_dirname_spec(),
{
    let mut s = String::from_str(models_dir);
    s.append("/");
    let d = model.coreml_encoder_dirname();
    s.append(d.as_str());
    s
}

/// Existence check over the models-directory listing the caller read:
/// the model is present exactly when its canonical filename is among the
/// entries.
pub fn model_exists(entries: &Vec<String>, model: WhisperModel) -> (r: bool)
    ensures
        r == (exists|i: int| 0 <= i < entries@.len() && entries@[i]@ == model.filename_spec()),
{
    let filename = String::from_str(model.filename());
    let n = entries.len();
    let mut i: usize = 0;
    while i < n
        invariant
            i <= n,
            n == entries@.len(),
            filename@ == model.filename_spec(),
            forall|j: int| 0 <= j < i ==> entries@[j]@ != model.filename_spec(),
        decreases n - i,
    {
        if entries[i] == filename {
            return true;
        }
        i = i + 1;
    }
    false
}

/// Existence check for an accelerator-encoder directory: it counts as
/// present when the directory exists and holds at least one entry.
pub fn coreml_encoder_exists(dir_entries: &Option<Vec<String>>) -> (r: bool)
    ensures
        r == (dir_entries matches Some(es) && es@.len() > 0),
{
    match dir_entries {
        Some(es) => es.len() > 0,
        None => false,
    }
}

/// The first step of the ensure cycle for one model.
#[derive(Clone, Copy, PartialEq, Eq, Structural, Debug)]
pub enum EnsureAction {
    /// The canonical file exists and verifies: use it, no network work.
    UseExisting,
    /// The canonical file exists but is corrupt: delete it, then
    /// download.
    DeleteAndDownload,
    /// No canonical file: download.
    Download,
}

/// One model's slot in the store, seen through the digests of what stands
/// on disk: the file under the canonical name, if any, and the temporary
/// download sibling, if any. The caller performs the file operations this
/// machine decides, and reports downloads back; only a verified artifact
/// is ever promoted to the canonical name, so after the first ensure step
/// whatever stands under the canonical name hashes to the catalog value.
pub struct ModelSlot {
    model: WhisperModel,
    canonical: Option<String>,
    temp: Option<String>,
}

impl ModelSlot {
    pub closed spec fn model_spec(self) -> WhisperModel {
        self.model
    }

    /// The hex digest of the file under the canonical name, if one
    /// stands there.
    pub closed spec fn canonical_spec(self) -> Option<Seq<char>> {
        match self.canonical {
            Some(d) => Some(d@),
            None => None,
        }
    }

    /// The hex digest of the temporary download, if one stands there.
    pub closed spec fn temp_spec(self) -> Option<Seq<char>> {
        match self.temp {
            Some(d) => Some(d@),
            None => None,
        }
    }

    /// The integrity invariant: whatever stands under the canonical name
    /// verifies against the catalog.
    pub open spec fn canonical_verified(self) -> bool {
        self.canonical_spec() matches Some(d) ==> d == self.model_spec().sha1_spec()
    }

    /// True when a file stands under the canonical name.
    pub fn is_present(&self) -> (r: bool)
        ensures
            r == (self.canonical_spec() is Some),
    {
        self.canonical.is_some()
    }

    /// Opens the slot over what the caller found on disk: the digest of
    /// the file under the canonical name, if the file exists.
    pub fn open(model: WhisperModel, existing_digest: Option<String>) -> (r: ModelSlot)
        ensures
            r.model_spec() == model,
            r.canonical_spec() == match existing_digest {
                Some(d) => Some(d@),
                None => None::<Seq<char>>,
            },
            r.temp_spec() is None,
    {
        ModelSlot { model, canonical: existing_digest, temp: None }
    }

    /// Decides the first ensure step: short-circuit on a verified file,
    /// delete-and-redownload a corrupt one, download a missing one. A
    /// corrupt canonical file is dropped from the slot here, so the
    /// invariant holds from this step on.
    pub fn ensure_action(&mut self) -> (a: EnsureAction)
        ensures
            final(self).model_spec() == old(self).model_spec(),
            final(self).temp_spec() == old(self).temp_spec(),
            final(self).canonical_verified(),
            match old(self).canonical_spec() {
                Some(d) => {
                    if d == old(self).model_spec().sha1_spec() {
                        a == EnsureAction::UseExisting && final(self).canonical_spec() == old(
                            self,
                        ).canonical_spec()
                    } else {
                        a == EnsureAction::DeleteAndDownload && final(self).canonical_spec()
                            is None
                    }
                },
                None => a == EnsureAction::Download && final(self).canonical_spec() is None,
            },
    {
        let expected = String::from_str(self.model.sha1());
        match &self.canonical {
            Some(d) => {
                if *d == expected {
                    EnsureAction::UseExisting
                } else {
                    self.canonical = None;
                    EnsureAction::DeleteAndDownload
                }
            },
            None => EnsureAction::Download,
        }
    }

    /// Reports that a download finished into the temporary sibling with
    /// the given digest. The canonical name is untouched.
    pub fn downloaded(&mut self, digest: String)
        ensures
            final(self).model_spec() == old(self).model_spec(),
            final(self).canonical_spec() == old(self).canonical_spec(),
            final(self).temp_spec() == Some(digest@),
    {
        self.temp = Some(digest);
    }

    /// Decides what becomes of a finished download: only a verified
    /// artifact is renamed onto the canonical name; a corrupt one is
    /// deleted and the failure surfaced, leaving the canonical name as it
    /// was. Either way the temporary sibling is gone afterwards.
    pub fn finish_download(&mut self) -> (r: Result<(), StoreError>)
        requires
            old(self).temp_spec() is Some,
        ensures
            final(self).model_spec() == old(self).model_spec(),
            final(self).temp_spec() is None,
            old(self).canonical_verified() ==> final(self).canonical_verified(),
            if old(self).temp_spec() == Some(old(self).model_spec().sha1_spec()) {
                r is Ok && final(self).canonical_spec() == old(self).temp_spec()
            } else {
                r matches Err(e) && e matches StoreError::DigestMismatch { expected, actual }
                    && expected@ == old(self).model_spec().sha1_spec() && Some(actual@) == old(
                    self,
                ).temp_spec() && final(self).canonical_spec() == old(self).canonical_spec()
            },
    {
        let expected = String::from_str(self.model.sha1());
        let mut temp: Option<String> = None;
        core::mem::swap(&mut temp, &mut self.temp);
        let actual = match temp {
            Some(d) => d,
            None => {
                proof {
                    assert(false);
                }
                expected.clone()
            },
        };
        if actual == expected {
            self.canonical = Some(actual);
            Ok(())
        } else {
            Err(StoreError::DigestMismatch { expected, actual })
        }
    }
}

} // verus!
