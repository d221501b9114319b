//! The configuration model: what the config file holds, its defaults, the
//! override of the API key by the environment, and where the file lives.

use vstd::prelude::*;

verus! {

/// Which key combination starts dictation.
#[derive(Debug, Clone)]
pub struct HotkeyConfig {
    /// Modifier keys: "super", "ctrl", "alt", "shift".
    pub modifiers: Vec<String>,
    /// Key name (evdev key name, e.g. "space").
    pub key: String,
}

/// Speech-to-text settings.
#[derive(Debug, Clone)]
pub struct SttConfig {
    /// Deepgram API key.
    pub api_key: Option<String>,
    /// Deepgram model (default: nova-2-general).
    pub model: String,
    /// Language code (e.g. "en", "fr", "auto").
    pub language: String,
}

/// Audio capture settings.
#[derive(Debug, Clone)]
pub struct AudioConfig {
    /// Sample rate (default: 16000).
    pub sample_rate: u32,
    /// Channels (default: 1).
    pub channels: u16,
}

/// The whole configuration.
#[derive(Debug, Clone)]
pub struct Config {
    pub hotkey: HotkeyConfig,
    pub stt: SttConfig,
    pub audio: AudioConfig,
}

/// The modifiers of the default hotkey.
pub open spec fn default_modifiers_spec() -> Seq<Seq<char>> {
    seq!["ctrl"@]
}

pub fn default_modifiers() -> (r: Vec<String>)
    ensures
        r@.map_values(|s: String| s@) == default_modifiers_spec(),
{
    let r = vec!["ctrl".to_owned()];
    assert(r@.map_values(|s: String| s@) =~= default_modifiers_spec());
    r
}

pub fn default_key() -> (r: String)
    ensures
        r@ == "space"@,
{
    "space".to_owned()
}

pub fn default_model() -> (r: String)
    ensures
        r@ == "nova-2-general"@,
{
    "nova-2-general".to_owned()
}

pub fn default_language() -> (r: String)
    ensures
        r@ == "en"@,
{
    "en".to_owned()
}

pub fn default_sample_rate() -> (r: u32)
    ensures
        r == 16000,
{
    16000
}

pub fn default_channels() -> (r: u16)
    ensures
        r == 1,
{
    1
}

impl Config {
    /// The configuration with every field at its default and no API key.
    pub open spec fn is_default(&self) -> bool {
        &&& self.hotkey.modifiers@.map_values(|s: String| s@) == default_modifiers_spec()
        &&& self.hotkey.key@ == "space"@
        &&& self.stt.api_key.is_none()
        &&& self.stt.model@ == "nova-2-general"@
        &&& self.stt.language@ == "en"@
        &&& self.audio.sample_rate == 16000
        &&& self.audio.channels == 1
    }

    /// Replaces the configured API key with the one from the environment,
    /// when there is one: the environment takes precedence.
    pub fn apply_env_api_key(&mut self, env_key: Option<String>)
        ensures
            final(self).stt.api_key == (match env_key {
                Some(k) => Some(k),
                None => old(self).stt.api_key,
            }),
            final(self).hotkey == old(self).hotkey,
            final(self).stt.model == old(self).stt.model,
            final(self).stt.language == old(self).stt.language,
            final(self).audio == old(self).audio,
    {
        if let Some(k) = env_key {
            self.stt.api_key = Some(k);
        }
    }
}

impl Default for Config {
    fn default() -> (r: Self)
        ensures
            r.is_default(),
    {
        Config {
            hotkey: HotkeyConfig { modifiers: default_modifiers(), key: default_key() },
            stt: SttConfig { api_key: None, model: default_model(), language: default_language() },
            audio: AudioConfig { sample_rate: default_sample_rate(), channels: default_channels() },
        }
    }
}

/// Appends a path component to a path, as `PathBuf::push` does for a relative
/// component: a `/` is put between them unless the path is empty or already
/// ends with one.
pub open spec fn path_join(base: Seq<char>, component: Seq<char>) -> Seq<char> {
    if base.len() == 0 || base.last() == '/' {
        base + component
    } else {
        base + "/"@ + component
    }
}

/// The path of the config file under a configuration directory; without
/// one, `~/.config` stands in.
pub open spec fn config_file_path_spec(config_dir: Option<Seq<char>>) -> Seq<char> {
    let base = match config_dir {
        Some(d) => d,
        None => "~/.config"@,
    };
    path_join(path_join(base, "whisp-rs"@), "config.toml"@)
}

/// The table of the config file that holds the API key.
pub fn api_key_table() -> (r: String)
    ensures
        r@ == "stt"@,
{
    String::from_str("stt")
}

/// The field of that table that holds the API key.
pub fn api_key_field() -> (r: String)
    ensures
        r@ == "api_key"@,
{
    String::from_str("api_key")
}

/// The directory of the config file under the configuration directory.
pub fn config_dir_name() -> (r: String)
    ensures
        r@ == "whisp-rs"@,
{
    String::from_str("whisp-rs")
}

/// The name of the config file.
pub fn config_file_name() -> (r: String)
    ensures
        r@ == "config.toml"@,
{
    String::from_str("config.toml")
}

fn push_component(path: &mut String, component: &str)
    ensures
        final(path)@ == path_join(old(path)@, component@),
{
    let n: usize = path.as_str().unicode_len();
    if n > 0 && path.as_str().get_char(n - 1) != '/' {
        path.append("/");
    }
    path.append(component);
}

/// Where the config file lives, given the user's configuration directory.
pub fn config_file_path(config_dir: Option<String>) -> (r: String)
    ensures
        r@ == config_file_path_spec(match config_dir {
            Some(d) => Some(d@),
            None => None,
        }),
{
    let mut p = match config_dir {
        Some(d) => d,
        None => String::from_str("~/.config"),
    };
    push_component(&mut p, "whisp-rs");
    push_component(&mut p, "config.toml");
    p
}

} // verus!
