//! Process settings, read from the environment.

use vstd::prelude::*;
use vstd::string::StringExecFns;

verus! {

/// What the environment has been read into.
#[verifier::external_type_specification]
#[verifier::external_body]
pub struct ExConfig(config::Config);

/// Process settings.
#[derive(Debug, Clone)]
pub struct Settings {
    pub promql_base: Option<String>,
    pub tempo_base: Option<String>,
    pub http_bind: Option<String>,
}

/// Mathematical model of [`Settings`].
pub struct SettingsView {
    pub promql_base: Option<Seq<char>>,
    pub tempo_base: Option<Seq<char>>,
    pub http_bind: Option<Seq<char>>,
}

/// The characters of an optional setting.
pub open spec fn setting_view(s: Option<String>) -> Option<Seq<char>> {
    match s {
        Some(t) => Some(t@),
        None => None,
    }
}

impl View for Settings {
    type V = SettingsView;

    open spec fn view(&self) -> SettingsView {
        SettingsView {
            promql_base: setting_view(self.promql_base),
            tempo_base: setting_view(self.tempo_base),
            http_bind: setting_view(self.http_bind),
        }
    }
}

/// The settings of a process whose environment sets nothing: no backends,
/// and the HTTP server bound to port 8080 on every interface.
pub open spec fn default_settings() -> SettingsView {
    SettingsView { promql_base: None, tempo_base: None, http_bind: Some("0.0.0.0:8080"@) }
}

/// The settings that come of what was read: the defaults where nothing
/// could be read, else what was read, with the default address where none
/// is set.
pub open spec fn settled(read: Option<SettingsView>) -> SettingsView {
    match read {
        None => default_settings(),
        Some(s) => SettingsView {
            http_bind: if s.http_bind is Some {
                s.http_bind
            } else {
                Some("0.0.0.0:8080"@)
            },
            ..s
        },
    }
}

/// The model of settings that may be missing.
pub open spec fn read_view(read: Option<Settings>) -> Option<SettingsView> {
    match read {
        Some(s) => Some(s@),
        None => None,
    }
}

impl Default for Settings {
    fn default() -> (s: Self)
        ensures
            s@ == default_settings(),
    {
        Settings {
            promql_base: None,
            tempo_base: None,
            http_bind: Some(String::from_str("0.0.0.0:8080")),
        }
    }
}

/// `config::Config::builder`, with `config::Environment::with_prefix("CHAOS")`
/// and `separator("__")` as its one source, then `build`: the variables of
/// the environment whose names begin with the prefix. Nothing is claimed of
/// what comes back: it depends on the environment.
#[verifier::external_body]
fn environment() -> Option<config::Config> {
    config::Config::builder()
        .add_source(config::Environment::with_prefix("CHAOS").separator("__"))
        .build()
        .ok()
}

/// What a source holds, as far as it can be read as text: for each key,
/// what `config::Config::get` gives for an optional text under it. A key is
/// missing from the map where there is no value under it, it maps to the
/// text where there is one, and to `None` where what is under it cannot be
/// read as text.
pub uninterp spec fn texts_of(source: config::Config) -> Map<Seq<char>, Option<Seq<char>>>;

/// What looking up `key` gives: the outer `None` says that what is under
/// the key cannot be read as text, an inner `None` that there is nothing
/// under it.
pub open spec fn lookup(texts: Map<Seq<char>, Option<Seq<char>>>, key: Seq<char>) -> Option<
    Option<Seq<char>>,
> {
    if !texts.contains_key(key) {
        Some(None)
    } else {
        match texts[key] {
            Some(text) => Some(Some(text)),
            None => None,
        }
    }
}

/// The model of what a lookup has found.
pub open spec fn lookup_view(found: Option<Option<String>>) -> Option<Option<Seq<char>>> {
    match found {
        Some(text) => Some(setting_view(text)),
        None => None,
    }
}

/// The settings that three lookups come to: none where one of them could
/// not be read, else the three as they were found.
pub open spec fn gathered(
    promql_base: Option<Option<Seq<char>>>,
    tempo_base: Option<Option<Seq<char>>>,
    http_bind: Option<Option<Seq<char>>>,
) -> Option<SettingsView> {
    match (promql_base, tempo_base, http_bind) {
        (Some(promql_base), Some(tempo_base), Some(http_bind)) => Some(
            SettingsView { promql_base, tempo_base, http_bind },
        ),
        _ => None,
    }
}

/// The settings that a source holds: what is under the keys `promql_base`,
/// `tempo_base` and `http_bind`, or none where one of the three cannot be
/// read as text.
pub open spec fn settings_in(texts: Map<Seq<char>, Option<Seq<char>>>) -> Option<SettingsView> {
    gathered(
        lookup(texts, "promql_base"@),
        lookup(texts, "tempo_base"@),
        lookup(texts, "http_bind"@),
    )
}

/// `config::Config::get` for an optional text under `key`. The outer
/// `None` says that there is a value under the key that cannot be read as
/// text; an inner `None` that there is no value. What comes back is what the
/// source holds under the key: the source is read, not changed, so the same
/// source gives the same under the same key.
#[verifier::external_body]
fn text_setting(source: &config::Config, key: &str) -> (found: Option<Option<String>>)
    ensures
        lookup_view(found) == lookup(texts_of(*source), key@),
{
    match source.get::<Option<String>>(key) {
        Ok(value) => Some(value),
        Err(config::ConfigError::NotFound(_)) => Some(None),
        Err(_) => None,
    }
}

/// Reads the three settings; none where one of them cannot be read.
fn read_settings(source: &config::Config) -> (read: Option<Settings>)
    ensures
        read_view(read) == settings_in(texts_of(*source)),
{
    let promql_base = text_setting(source, "promql_base");
    let tempo_base = text_setting(source, "tempo_base");
    let http_bind = text_setting(source, "http_bind");
    gather(promql_base, tempo_base, http_bind)
}

/// Makes settings of three lookups: none where one of them could not be
/// read, else the three as they were found.
pub fn gather(
    promql_base: Option<Option<String>>,
    tempo_base: Option<Option<String>>,
    http_bind: Option<Option<String>>,
) -> (read: Option<Settings>)
    ensures
        read_view(read) == gathered(
            lookup_view(promql_base),
            lookup_view(tempo_base),
            lookup_view(http_bind),
        ),
{
    match (promql_base, tempo_base, http_bind) {
        (Some(promql_base), Some(tempo_base), Some(http_bind)) => Some(
            Settings { promql_base, tempo_base, http_bind },
        ),
        _ => None,
    }
}

/// Makes settings of what was read from the environment: the defaults where
/// nothing could be read, and the default address where none is set.
pub fn settle(read: Option<Settings>) -> (s: Settings)
    ensures
        s@ == settled(read_view(read)),
        s.http_bind is Some,
{
    match read {
        None => Settings::default(),
        Some(s) => {
            let http_bind = match s.http_bind {
                Some(bind) => Some(bind),
                None => Some(String::from_str("0.0.0.0:8080")),
            };
            Settings { promql_base: s.promql_base, tempo_base: s.tempo_base, http_bind }
        },
    }
}

/// Loads the settings of this process from its environment. Whatever the
/// environment holds, the settings are what comes of something read, or of
/// nothing, and so name an address to bind to.
pub fn load() -> (s: Settings)
    ensures
        exists|read: Option<SettingsView>| s@ == settled(read),
        s.http_bind is Some,
{
    let read = match environment() {
        Some(source) => read_settings(&source),
        None => None,
    };
    let ghost seen = read_view(read);
    let s = settle(read);
    assert(s@ == settled(seen));
    s
}

} // verus!
