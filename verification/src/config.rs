//! Configuration values the capture and pipeline components consume, and
//! the location of the configuration file. Reading and writing the file
//! itself (and its serialized form) happens outside the library; the
//! library owns the values, their defaults, and the path arithmetic.

use vstd::prelude::*;

verus! {

broadcast use vstd::string::group_string_axioms;

/// Why the configuration location could not be resolved.
#[derive(Clone, Copy, PartialEq, Eq, Structural, Debug)]
pub enum ConfigError {
    /// The platform defines no configuration directory.
    NoConfigDir,
}

/// Transcription backend to use.
#[derive(Clone, Copy, PartialEq, Eq, Structural, Debug)]
pub enum TranscriptionBackend {
    /// The remote transcription service (requires an API key).
    OpenAI,
    /// A local model run in-process.
    Local,
}

impl Default for TranscriptionBackend {
    /// The backend used when the configuration names none.
    fn default() -> (r: Self)
        ensures
            r == TranscriptionBackend::OpenAI,
    {
        TranscriptionBackend::OpenAI
    }
}

/// True when the value is the default backend.
pub fn is_default_backend(v: &TranscriptionBackend) -> (r: bool)
    ensures
        r == (*v == TranscriptionBackend::OpenAI),
{
    match v {
        TranscriptionBackend::OpenAI => true,
        TranscriptionBackend::Local => false,
    }
}

/// Core configuration for the application: policy values consumed, not
/// owned, by the capture and pipeline components.
pub struct Config {
    /// Transcription backend to use.
    pub backend: TranscriptionBackend,
    /// API key for the remote backend.
    pub openai_key: Option<String>,
    /// Local model to use when the backend is local.
    pub local_model: Option<String>,
    /// Whether to use the platform's accelerator for local encoding.
    pub coreml: bool,
    /// Preferred language for transcription (ISO 639-1 code).
    pub language: Option<String>,
    /// Model name for remote transcriptions.
    pub model: Option<String>,
    /// Restore the clipboard contents after pasting.
    pub restore_clipboard: bool,
    /// Paste contents automatically after transcribing.
    pub auto_paste: bool,
    /// Discard recordings under this duration, in milliseconds.
    pub discard_duration_ms: u32,
    /// Number of retries for failed transcription requests.
    pub retries: u8,
    /// Hotkey, as the string form the surrounding application parses.
    pub hotkey: Option<String>,
}

impl Default for Config {
    /// The configuration used when no file exists: remote backend, no
    /// key, auto-paste on, half a second of discard filter, five
    /// retries.
    fn default() -> (r: Self)
        ensures
            r.backend == TranscriptionBackend::OpenAI,
            r.openai_key is None,
            r.local_model is None,
            r.coreml,
            r.language is None,
            r.model is None,
            !r.restore_clipboard,
            r.auto_paste,
            r.discard_duration_ms == 500,
            r.retries == 5,
            r.hotkey is None,
    {
        Config {
            backend: TranscriptionBackend::OpenAI,
            openai_key: None,
            local_model: None,
            coreml: true,
            language: None,
            model: None,
            restore_clipboard: false,
            auto_paste: true,
            discard_duration_ms: 500,
            retries: 5,
            hotkey: None,
        }
    }
}

impl Config {
    /// The API key for the remote backend, if set.
    pub fn key_openai(&self) -> (r: Option<&str>)
        ensures
            match r {
                Some(s) => self.openai_key matches Some(k) && s@ == k@,
                None => self.openai_key is None,
            },
    {
        match &self.openai_key {
            Some(k) => Some(k.as_str()),
            None => None,
        }
    }

    /// Sets a new API key for the remote backend.
    pub fn set_key_openai(&mut self, key: &str)
        ensures
            final(self).openai_key matches Some(k) && k@ == key@,
            final(self).backend == old(self).backend,
            final(self).local_model == old(self).local_model,
            final(self).coreml == old(self).coreml,
            final(self).language == old(self).language,
            final(self).model == old(self).model,
            final(self).restore_clipboard == old(self).restore_clipboard,
            final(self).auto_paste == old(self).auto_paste,
            final(self).discard_duration_ms == old(self).discard_duration_ms,
            final(self).retries == old(self).retries,
            final(self).hotkey == old(self).hotkey,
    {
        self.openai_key = Some(String::from_str(key));
    }

    /// The preferred language, if set.
    pub fn language(&self) -> (r: Option<&str>)
        ensures
            match r {
                Some(s) => self.language matches Some(l) && s@ == l@,
                None => self.language is None,
            },
    {
        match &self.language {
            Some(l) => Some(l.as_str()),
            None => None,
        }
    }

    /// The remote model name, if set.
    pub fn model(&self) -> (r: Option<&str>)
        ensures
            match r {
                Some(s) => self.model matches Some(m) && s@ == m@,
                None => self.model is None,
            },
    {
        match &self.model {
            Some(m) => Some(m.as_str()),
            None => None,
        }
    }

    /// The discard threshold in milliseconds.
    pub fn discard_duration(&self) -> (r: u32)
        ensures
            r == self.discard_duration_ms,
    {
        self.discard_duration_ms
    }

    /// The retry budget.
    pub fn retries(&self) -> (r: u8)
        ensures
            r == self.retries,
    {
        self.retries
    }
}

/// Relies on `dirs::config_dir`: the platform's configuration directory,
/// when the platform defines one and its path is text. The answer depends
/// on the environment, so nothing more is promised of it.
#[verifier::external_body]
fn config_base_dir_string() -> (r: Option<String>) {
    dirs::config_dir().and_then(|p| p.to_str().map(|s| s.to_string()))
}

/// Knows where the configuration file lives. Loading and saving the file
/// are the surrounding application's work.
pub struct ConfigManager {
    config_path: String,
}

impl ConfigManager {
    pub closed spec fn config_path_spec(self) -> Seq<char> {
        self.config_path@
    }

    /// A manager over a specific directory: the file is `whisp.toml`
    /// inside it.
    pub fn with_config_dir(dir: &str) -> (r: ConfigManager)
        ensures
            r.config_path_spec() == dir@ + "/whisp.toml"@,
    {
        let mut p = String::from_str(dir);
        p.append("/whisp.toml");
        ConfigManager { config_path: p }
    }

    /// The default path of the configuration file: `whisp/whisp.toml`
    /// under the platform's configuration directory. The error comes
    /// exactly when the platform defines none.
    pub fn default_config_path() -> (r: Result<String, ConfigError>)
        ensures
            r matches Ok(p) ==> p@.len() > 17 && p@.subrange(
                p@.len() - 17,
                p@.len() as int,
            ) == "/whisp/whisp.toml"@,
            r matches Err(e) ==> e == ConfigError::NoConfigDir,
    {
        match config_base_dir_string() {
            None => Err(ConfigError::NoConfigDir),
            Some(dir) => {
                if dir.as_str().unicode_len() == 0 {
                    return Err(ConfigError::NoConfigDir);
                }
                let mut p = dir;
                p.append("/whisp/whisp.toml");
                proof {
                    reveal_strlit("/whisp/whisp.toml");
                    assert(p@.subrange(p@.len() - 17, p@.len() as int) =~= "/whisp/whisp.toml"@);
                }
                Ok(p)
            },
        }
    }

    /// A manager over the platform's default location.
    pub fn new() -> (r: Result<ConfigManager, ConfigError>)
        ensures
            r matches Ok(m) ==> m.config_path_spec().len() > 17 && m.config_path_spec().subrange(
                m.config_path_spec().len() - 17,
                m.config_path_spec().len() as int,
            ) == "/whisp/whisp.toml"@,
            r matches Err(e) ==> e == ConfigError::NoConfigDir,
    {
        match Self::default_config_path() {
            Ok(p) => Ok(ConfigManager { config_path: p }),
            Err(e) => Err(e),
        }
    }

    /// The path of the configuration file.
    pub fn config_path(&self) -> (r: &str)
        ensures
            r@ == self.config_path_spec(),
    {
        self.config_path.as_str()
    }
}

} // verus!
