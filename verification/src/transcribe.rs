//! The transcription backends' decision logic. The HTTP client and the
//! inference engine live outside the library; what is decided here is the
//! exact request the remote backend sends, what each response status
//! means, and how the local backend's lazy model load and segment output
//! are handled.

use vstd::prelude::*;

use vstd::string::StringSliceAdditionalSpecFns;

use crate::model::WhisperModel;

verus! {

broadcast use vstd::string::group_string_axioms;

/// Errors that can occur during transcription.
#[derive(Clone, PartialEq, Eq, Debug)]
pub enum TranscribeError {
    /// The service answered with a non-success status; carries status and
    /// body.
    ApiError(String),
    /// No API key configured.
    NoApiKey,
    /// The audio could not be read; carries the reason.
    InvalidAudioFormat(String),
    /// The transport failed; carries its message.
    NetworkError(String),
    /// The backend failed to produce text; carries the engine's message.
    TranscriptionFailed(String),
}

/// Configuration for the remote transcription client.
pub struct OpenAIConfig {
    /// API key.
    pub api_key: String,
    /// Model to use; when unset the default model is sent.
    pub model: Option<String>,
}

/// The model name sent when the configuration names none.
pub open spec fn openai_default_model() -> Seq<char> {
    "gpt-4o-mini-transcribe"@
}

impl OpenAIConfig {
    /// A configuration with the given API key and the default model.
    pub fn new(api_key: String) -> (r: OpenAIConfig)
        ensures
            r.api_key == api_key,
            r.model is None,
    {
        OpenAIConfig { api_key, model: None }
    }

    /// Sets the model to use.
    pub fn with_model(self, model: String) -> (r: OpenAIConfig)
        ensures
            r.api_key == self.api_key,
            r.model == Some(model),
    {
        OpenAIConfig { api_key: self.api_key, model: Some(model) }
    }

    /// The model name that will be sent: the configured one, or the
    /// default.
    pub fn model(&self) -> (r: &str)
        ensures
            r@ == match self.model {
                Some(m) => m@,
                None => openai_default_model(),
            },
    {
        match &self.model {
            Some(m) => m.as_str(),
            None => "gpt-4o-mini-transcribe",
        }
    }
}

/// Configuration for the local transcriber.
pub struct LocalWhisperConfig {
    /// The model to use.
    pub model: WhisperModel,
    /// Optional override path to the model file.
    pub model_path: Option<String>,
}

impl LocalWhisperConfig {
    /// A configuration for the given model, loading from its canonical
    /// path.
    pub fn new(model: WhisperModel) -> (r: LocalWhisperConfig)
        ensures
            r.model == model,
            r.model_path is None,
    {
        LocalWhisperConfig { model, model_path: None }
    }

    /// Overrides the model file's path.
    pub fn with_model_path(self, path: String) -> (r: LocalWhisperConfig)
        ensures
            r.model == self.model,
            r.model_path == Some(path),
    {
        LocalWhisperConfig { model: self.model, model_path: Some(path) }
    }
}

impl Default for LocalWhisperConfig {
    /// The default local configuration: the catalog's default model, no
    /// path override.
    fn default() -> (r: Self)
        ensures
            r.model == WhisperModel::LargeV3TurboQ8_0,
            r.model_path is None,
    {
        LocalWhisperConfig { model: WhisperModel::LargeV3TurboQ8_0, model_path: None }
    }
}

/// The decoded envelope a successful remote response carries.
pub struct WhisperResponse {
    /// The transcribed text.
    pub text: String,
    /// Response headers the caller chose to keep, if any.
    pub headers: Option<Vec<(String, String)>>,
}

/// One part of the multipart request body.
#[derive(Clone, PartialEq, Eq, Debug)]
pub enum FormPart {
    /// A file part: field name, file name, mime type, and the bytes.
    Bytes { name: String, filename: String, mime: String, data: Vec<u8> },
    /// A plain text part: field name and value.
    Text { name: String, value: String },
}

/// The exact multipart request the remote backend sends: the audio as a
/// `file` part named `recording.wav` of type `audio/wav`, the model name,
/// and a `language` part exactly when a hint is given.
pub fn build_request_parts(audio: Vec<u8>, model: &str, language: Option<&str>) -> (parts: Vec<
    FormPart,
>)
    ensures
        parts@.len() == if language is Some {
            3int
        } else {
            2int
        },
        parts@[0] matches FormPart::Bytes { name, filename, mime, data } && name@ == "file"@
            && filename@ == "recording.wav"@ && mime@ == "audio/wav"@ && data@ == audio@,
        parts@[1] matches FormPart::Text { name, value } && name@ == "model"@ && value@ == model@,
        language matches Some(l) ==> parts@[2] matches FormPart::Text { name, value } && name@
            == "language"@ && value@ == l@,
{
    let mut parts: Vec<FormPart> = Vec::new();
    parts.push(
        FormPart::Bytes {
            name: String::from_str("file"),
            filename: String::from_str("recording.wav"),
            mime: String::from_str("audio/wav"),
            data: audio,
        },
    );
    parts.push(FormPart::Text { name: String::from_str("model"), value: String::from_str(model) });
    if let Some(l) = language {
        parts.push(
            FormPart::Text { name: String::from_str("language"), value: String::from_str(l) },
        );
    }
    parts
}

/// What a transcription response means. Any non-success status is an
/// `ApiError` carrying the status and the body; a success body must carry
/// the text envelope, and one that does not is a `TranscriptionFailed`.
pub fn interpret_response(status: u16, body: &str) -> (r: Result<String, TranscribeError>)
    requires
        body.spec_bytes().len() <= 0x1000_0000,
    ensures
        !(200 <= status < 300) ==> (r matches Err(e) && e matches TranscribeError::ApiError(m)
            && m@ == "API returned "@ + crate::model::dec_str(status as nat) + ": "@ + body@),
        (200 <= status < 300) ==> match r {
            Ok(t) => crate::json::spec_text_field(body.spec_bytes()) == Some(
                vstd::utf8::encode_utf8(t@),
            ),
            Err(e) => e matches TranscribeError::TranscriptionFailed(_) && !(
            crate::json::spec_text_field(body.spec_bytes()) matches Some(bs)
                && vstd::utf8::valid_utf8(bs)),
        },
{
    if !(200 <= status && status < 300) {
        let mut m = String::from_str("API returned ");
        let st = crate::model::u32_dec(status as u32);
        m.append(st.as_str());
        m.append(": ");
        m.append(body);
        return Err(TranscribeError::ApiError(m));
    }
    match crate::json::text_field(body) {
        Some(t) => Ok(t),
        None => Err(
            TranscribeError::TranscriptionFailed(
                String::from_str("response body held no text field"),
            ),
        ),
    }
}

/// Whitespace as the segment trim sees it.
pub open spec fn is_trim_ws(c: char) -> bool {
    c == ' ' || c == '\t' || c == '\n' || c == '\r'
}

/// The sequence with leading whitespace removed.
pub open spec fn trim_front(s: Seq<char>) -> Seq<char>
    decreases s.len(),
{
    if s.len() > 0 && is_trim_ws(s[0]) {
        trim_front(s.drop_first())
    } else {
        s
    }
}

/// The sequence with trailing whitespace removed.
pub open spec fn trim_back(s: Seq<char>) -> Seq<char>
    decreases s.len(),
{
    if s.len() > 0 && is_trim_ws(s.last()) {
        trim_back(s.drop_last())
    } else {
        s
    }
}

/// The sequence with whitespace removed from both ends.
pub open spec fn trim_spec(s: Seq<char>) -> Seq<char> {
    trim_back(trim_front(s))
}

fn is_ws_char(c: char) -> (r: bool)
    ensures
        r == is_trim_ws(c),
{
    c == ' ' || c == '\t' || c == '\n' || c == '\r'
}

/// Removes leading and trailing whitespace.
pub fn trim(s: &str) -> (r: String)
    ensures
        r@ == trim_spec(s@),
{
    let n = s.unicode_len();
    proof {
        assert(s@.subrange(0, n as int) =~= s@);
    }
    let mut start: usize = 0;
    while start < n && is_ws_char(s.get_char(start))
        invariant
            start <= n,
            n == s@.len(),
            forall|j: int| 0 <= j < start ==> is_trim_ws(s@[j]),
            trim_front(s@) == trim_front(s@.subrange(start as int, n as int)),
        decreases n - start,
    {
        proof {
            let tail = s@.subrange(start as int, n as int);
            assert(tail.len() > 0 && is_trim_ws(tail[0]));
            assert(tail.drop_first() =~= s@.subrange(start as int + 1, n as int));
        }
        start = start + 1;
    }
    proof {
        let tail = s@.subrange(start as int, n as int);
        if start < n {
            assert(!is_trim_ws(tail[0]));
        }
        assert(trim_front(s@) == tail);
    }
    let mut end: usize = n;
    while end > start && is_ws_char(s.get_char(end - 1))
        invariant
            start <= end <= n,
            n == s@.len(),
            trim_front(s@) == s@.subrange(start as int, n as int),
            trim_back(s@.subrange(start as int, n as int)) == trim_back(
                s@.subrange(start as int, end as int),
            ),
        decreases end,
    {
        proof {
            let cur = s@.subrange(start as int, end as int);
            assert(cur.len() > 0 && is_trim_ws(cur.last()));
            assert(cur.drop_last() =~= s@.subrange(start as int, end as int - 1));
        }
        end = end - 1;
    }
    proof {
        let cur = s@.subrange(start as int, end as int);
        if end > start {
            assert(!is_trim_ws(cur.last()));
        }
        assert(trim_back(s@.subrange(start as int, n as int)) == cur);
    }
    let out = s.substring_char(start, end);
    String::from_str(out)
}

/// The concatenation of all the sequences.
pub open spec fn concat_all(segments: Seq<Seq<char>>) -> Seq<char>
    decreases segments.len(),
{
    if segments.len() == 0 {
        Seq::<char>::empty()
    } else {
        concat_all(segments.drop_last()) + segments.last()
    }
}

/// What the local backend returns: all produced segments, concatenated in
/// order, with surrounding whitespace trimmed.
pub fn join_segments(segments: &Vec<String>) -> (r: String)
    ensures
        r@ == trim_spec(concat_all(segments.deep_view())),
{
    let mut joined = String::new();
    let n = segments.len();
    let mut i: usize = 0;
    while i < n
        invariant
            i <= n,
            n == segments@.len(),
            joined@ == concat_all(segments.deep_view().subrange(0, i as int)),
        decreases n - i,
    {
        joined.append(segments[i].as_str());
        proof {
            let pre = segments.deep_view().subrange(0, i as int + 1);
            assert(pre.drop_last() =~= segments.deep_view().subrange(0, i as int));
            assert(pre.last() == segments.deep_view()[i as int]);
        }
        i = i + 1;
    }
    proof {
        assert(segments.deep_view().subrange(0, segments.deep_view().len() as int)
            =~= segments.deep_view());
    }
    trim(joined.as_str())
}

/// The local backend's lazy model load: nothing when the context is
/// already loaded; otherwise the file to load, the override path when one
/// is set, else the model's canonical path under the models directory.
#[derive(Clone, PartialEq, Eq, Debug)]
pub enum ContextAction {
    /// The model context is already initialized.
    AlreadyLoaded,
    /// Load the model from this path.
    LoadFrom(String),
}

/// Decides the lazy-load step for the local backend.
pub fn context_action(loaded: bool, config: &LocalWhisperConfig, models_dir: &str) -> (r:
    ContextAction)
    ensures
        loaded ==> r == ContextAction::AlreadyLoaded,
        !loaded ==> match config.model_path {
            Some(p) => r matches ContextAction::LoadFrom(q) && q@ == p@,
            None => r matches ContextAction::LoadFrom(q) && q@ == models_dir@ + "/"@
                + config.model.filename_spec(),
        },
{
    if loaded {
        return ContextAction::AlreadyLoaded;
    }
    match &config.model_path {
        Some(p) => ContextAction::LoadFrom(p.clone()),
        None => ContextAction::LoadFrom(crate::store::model_path(models_dir, config.model)),
    }
}

} // verus!
