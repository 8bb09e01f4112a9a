//! What is kept on disk: the credential, the sync token, the interface
//! settings. Reading and writing the files is left to the caller; what the
//! files hold is decided here.

use crate::json::{
    json_parsed, json_quoted, member_text, member_text_of, member_u64, member_u64_of, parse_json,
    quote_json,
};
use crate::text::{digits, joined, render_uint};
use vstd::prelude::*;

verus! {

/// A TOML value of the crate `toml`. The library looks into one only
/// through the functions below.
#[verifier::external_type_specification]
#[verifier::external_body]
pub struct ExTomlValue(toml::Value);

/// The TOML value that `toml::from_str` reads from `text`; `None` where it
/// reports an error.
pub uninterp spec fn toml_parsed(text: Seq<char>) -> Option<toml::Value>;

/// The member `key` of the TOML value `v`, as `Value::get` finds it.
pub uninterp spec fn toml_member(v: toml::Value, key: Seq<char>) -> Option<toml::Value>;

/// The text of the TOML value `v`, as `Value::as_str` gives it.
pub uninterp spec fn toml_text(v: toml::Value) -> Option<Seq<char>>;

/// `toml::from_str` at the type `Value`: reads `text` as a TOML document.
#[verifier::external_body]
pub(crate) fn parse_toml(text: &str) -> (r: Option<toml::Value>)
    ensures
        r == toml_parsed(text@),
{
    match toml::from_str::<toml::Value>(text) {
        Ok(v) => Some(v),
        Err(_) => None,
    }
}

/// `toml::Value::get` with a text index: the member of a table.
#[verifier::external_body]
pub(crate) fn toml_member_of<'a>(v: &'a toml::Value, key: &str) -> (r: Option<&'a toml::Value>)
    ensures
        match r {
            Some(m) => toml_member(*v, key@) == Some(*m),
            None => toml_member(*v, key@) is None,
        },
{
    v.get(key)
}

/// `toml::Value::as_str`: the text of a TOML string.
#[verifier::external_body]
pub(crate) fn toml_text_of(v: &toml::Value) -> (r: Option<String>)
    ensures
        r.deep_view() == toml_text(*v),
{
    match v.as_str() {
        Some(s) => Some(s.to_owned()),
        None => None,
    }
}

/// The credential.
pub struct Config {
    api_token: String,
}

/// Why no credential could be had.
#[derive(Debug, Clone, Copy, PartialEq, Eq, Structural)]
pub enum ConfigError {
    /// The configuration file is no TOML document, or its `api_token` is
    /// no text.
    Unreadable,
    /// Neither the environment nor the file names a token.
    Missing,
}

/// What the configuration file says of the token: `None` where the file
/// cannot be read as a document or names a token that is no text; otherwise
/// the token, or nothing where the file names none.
pub open spec fn file_token(text: Seq<char>) -> Option<Option<Seq<char>>> {
    match toml_parsed(text) {
        None => None,
        Some(v) => match toml_member(v, "api_token"@) {
            None => Some(None),
            Some(m) => match toml_text(m) {
                Some(t) => Some(Some(t)),
                None => None,
            },
        },
    }
}

/// What the configuration file `text` says of the token.
pub fn read_file_token(text: &str) -> (r: Option<Option<String>>)
    ensures
        r.deep_view() == file_token(text@),
{
    match parse_toml(text) {
        None => None,
        Some(v) => match toml_member_of(&v, "api_token") {
            None => Some(None),
            Some(m) => match toml_text_of(m) {
                Some(t) => Some(Some(t)),
                None => None,
            },
        },
    }
}

/// The token that is used, given the token of the environment and what the
/// configuration file says: the environment wins where it names a token
/// that is not empty; then the file is asked; a file that cannot be read is
/// an error, and so is the lack of any token.
pub open spec fn chosen_token(env: Option<Seq<char>>, file: Option<Option<Option<Seq<char>>>>) -> Result<
    Seq<char>,
    ConfigError,
> {
    match env {
        Some(t) => if t.len() > 0 {
            Ok(t)
        } else {
            token_of_file(file)
        },
        None => token_of_file(file),
    }
}

/// The token that the configuration file gives, where there is a file.
pub open spec fn token_of_file(file: Option<Option<Option<Seq<char>>>>) -> Result<Seq<char>, ConfigError> {
    match file {
        None => Err(ConfigError::Missing),
        Some(None) => Err(ConfigError::Unreadable),
        Some(Some(None)) => Err(ConfigError::Missing),
        Some(Some(Some(t))) => if t.len() > 0 {
            Ok(t)
        } else {
            Err(ConfigError::Missing)
        },
    }
}

/// The view of the result of [`Config::select`].
pub open spec fn config_view(r: Result<Config, ConfigError>) -> Result<Seq<char>, ConfigError> {
    match r {
        Ok(c) => Ok(c.token_text()),
        Err(e) => Err(e),
    }
}

impl Config {
    /// The token.
    pub closed spec fn token_text(&self) -> Seq<char> {
        self.api_token@
    }

    /// The token.
    pub fn token(&self) -> (r: &str)
        ensures
            r@ == self.token_text(),
    {
        self.api_token.as_str()
    }

    /// A credential with the token `token`.
    pub fn with_token(token: String) -> (c: Self)
        ensures
            c.token_text() == token@,
    {
        Config { api_token: token }
    }

    /// Chooses the credential, given the token of the environment and what
    /// the configuration file says, where there is a file.
    pub fn select(env: Option<String>, file: Option<Option<Option<String>>>) -> (r: Result<
        Config,
        ConfigError,
    >)
        ensures
            config_view(r) == chosen_token(env.deep_view(), file.deep_view()),
    {
        match env {
            Some(t) => {
                if !t.as_str().is_empty() {
                    return Ok(Config { api_token: t });
                }
            },
            None => {},
        }
        match file {
            None => Err(ConfigError::Missing),
            Some(None) => Err(ConfigError::Unreadable),
            Some(Some(None)) => Err(ConfigError::Missing),
            Some(Some(Some(t))) => if !t.as_str().is_empty() {
                Ok(Config { api_token: t })
            } else {
                Err(ConfigError::Missing)
            },
        }
    }

    /// Loads the credential from the token of the environment and the text
    /// of the configuration file, where there is a file.
    pub fn load(env: Option<String>, file_text: Option<&str>) -> (r: Result<Config, ConfigError>)
        ensures
            config_view(r) == chosen_token(
                env.deep_view(),
                match file_text {
                    Some(t) => Some(file_token(t@)),
                    None => None,
                },
            ),
    {
        let file = match file_text {
            Some(t) => Some(read_file_token(t)),
            None => None,
        };
        Self::select(env, file)
    }

    /// The path of the configuration file inside the directory
    /// `config_dir`.
    pub fn config_path(config_dir: &str) -> (r: String)
        ensures
            r@ == config_dir@ + "/config.toml"@,
    {
        joined(config_dir, "/config.toml")
    }

    /// The directory that is looked for first under the home directory
    /// `home`.
    pub fn home_config_dir(home: &str) -> (r: String)
        ensures
            r@ == home@ + "/.config/ratatoist"@,
    {
        joined(home, "/.config/ratatoist")
    }

    /// The directory of the configuration: under `xdg` where that is set;
    /// else under the home directory, where that directory exists; else
    /// under the platform's directory for configurations; else under the
    /// home directory all the same, or under `~` where no home is known.
    pub open spec fn config_dir_text(
        xdg: Option<Seq<char>>,
        home: Option<Seq<char>>,
        home_dir_exists: bool,
        platform: Option<Seq<char>>,
    ) -> Seq<char> {
        match xdg {
            Some(x) => x + "/ratatoist"@,
            None => match home {
                Some(h) => if home_dir_exists {
                    h + "/.config/ratatoist"@
                } else {
                    match platform {
                        Some(p) => p + "/ratatoist"@,
                        None => h + "/.config/ratatoist"@,
                    }
                },
                None => match platform {
                    Some(p) => p + "/ratatoist"@,
                    None => "~/.config/ratatoist"@,
                },
            },
        }
    }

    /// The directory of the configuration.
    pub fn config_dir(xdg: Option<&str>, home: Option<&str>, home_dir_exists: bool, platform: Option<&str>) -> (r:
        String)
        ensures
            r@ == Self::config_dir_text(
                match xdg {
                    Some(x) => Some(x@),
                    None => None,
                },
                match home {
                    Some(h) => Some(h@),
                    None => None,
                },
                home_dir_exists,
                match platform {
                    Some(p) => Some(p@),
                    None => None,
                },
            ),
    {
        match xdg {
            Some(x) => joined(x, "/ratatoist"),
            None => match home {
                Some(h) => if home_dir_exists {
                    joined(h, "/.config/ratatoist")
                } else {
                    match platform {
                        Some(p) => joined(p, "/ratatoist"),
                        None => joined(h, "/.config/ratatoist"),
                    }
                },
                None => match platform {
                    Some(p) => joined(p, "/ratatoist"),
                    None => "~/.config/ratatoist".to_owned(),
                },
            },
        }
    }

    /// Whether the mode `mode` of the configuration file lets anyone but
    /// its owner at the file.
    pub fn check_file_permissions(mode: u32) -> (loose: bool)
        ensures
            loose == (mode & 0o077 != 0),
    {
        mode & 0o077 != 0
    }
}

/// The sync token as it is kept on disk.
pub struct SyncState {
    pub sync_token: String,
}

/// The token that a state file holds: its member `sync_token`, and the
/// token that asks for everything where the file is missing or holds none.
pub open spec fn stored_token(text: Option<Seq<char>>) -> Seq<char> {
    match text {
        Some(t) => match json_parsed(t) {
            Some(v) => match member_text(v, "sync_token"@) {
                Some(token) => token,
                None => "*"@,
            },
            None => "*"@,
        },
        None => "*"@,
    }
}

/// The text of a state file that holds the token `token`.
pub open spec fn state_text(token: Seq<char>) -> Seq<char> {
    "{\"sync_token\":"@ + json_quoted(token) + "}"@
}

impl SyncState {
    /// The state that the text of a state file holds, where there is a
    /// file.
    pub fn load(text: Option<&str>) -> (r: Self)
        ensures
            r.sync_token@ == stored_token(
                match text {
                    Some(t) => Some(t@),
                    None => None,
                },
            ),
    {
        let token = match text {
            Some(t) => match parse_json(t) {
                Some(v) => member_text_of(&v, "sync_token"),
                None => None,
            },
            None => None,
        };
        match token {
            Some(t) => SyncState { sync_token: t },
            None => SyncState { sync_token: "*".to_owned() },
        }
    }

    /// The text to write to the state file.
    pub fn save(&self) -> (r: String)
        ensures
            r@ == state_text(self.sync_token@),
    {
        let q = quote_json(self.sync_token.as_str()).unwrap();
        let mut out = "{\"sync_token\":".to_owned();
        out.append(q.as_str());
        out.append("}");
        out
    }

    /// The path of the state file inside the directory `config_dir`.
    pub fn path(config_dir: &str) -> (r: String)
        ensures
            r@ == config_dir@ + "/sync_state.json"@,
    {
        joined(config_dir, "/sync_state.json")
    }
}

/// The token that the replica starts from: the stored token, or the token
/// that asks for everything where nothing is kept on disk.
pub fn initial_sync_token(ephemeral: bool, stored: Option<&str>) -> (r: String)
    ensures
        r@ == (if ephemeral {
            "*"@
        } else {
            stored_token(
                match stored {
                    Some(t) => Some(t@),
                    None => None,
                },
            )
        }),
{
    if ephemeral {
        "*".to_owned()
    } else {
        SyncState::load(stored).sync_token
    }
}

/// The idle timeout that is used where the settings name none, in seconds.
pub const DEFAULT_IDLE_TIMEOUT_SECS: u64 = 300;

/// The idle timeout in seconds, given the seconds and the minutes that the
/// settings name: the seconds win; minutes count sixty seconds each, up to
/// the largest number.
pub open spec fn idle_timeout_of(secs: Option<u64>, mins: Option<u64>) -> u64 {
    match secs {
        Some(s) => s,
        None => match mins {
            Some(m) => if m * 60 > u64::MAX {
                u64::MAX
            } else {
                (m * 60) as u64
            },
            None => DEFAULT_IDLE_TIMEOUT_SECS,
        },
    }
}

/// The idle timeout in seconds, given what the settings name.
pub fn idle_timeout_from(secs: Option<u64>, mins: Option<u64>) -> (r: u64)
    ensures
        r == idle_timeout_of(secs, mins),
{
    match secs {
        Some(s) => s,
        None => match mins {
            Some(m) => if m > u64::MAX / 60 {
                u64::MAX
            } else {
                m * 60
            },
            None => DEFAULT_IDLE_TIMEOUT_SECS,
        },
    }
}

/// The idle timeout that the text of the settings file names.
pub open spec fn stored_idle_timeout(text: Option<Seq<char>>) -> u64 {
    match text {
        Some(t) => match json_parsed(t) {
            Some(v) => idle_timeout_of(
                member_u64(v, "idle_timeout_secs"@),
                member_u64(v, "idle_timeout_mins"@),
            ),
            None => DEFAULT_IDLE_TIMEOUT_SECS,
        },
        None => DEFAULT_IDLE_TIMEOUT_SECS,
    }
}

/// The idle timeout that the settings file names, where there is a file.
pub fn load_idle_timeout_secs(text: Option<&str>) -> (r: u64)
    ensures
        r == stored_idle_timeout(
            match text {
                Some(t) => Some(t@),
                None => None,
            },
        ),
{
    match text {
        Some(t) => match parse_json(t) {
            Some(v) => idle_timeout_from(
                member_u64_of(&v, "idle_timeout_secs"),
                member_u64_of(&v, "idle_timeout_mins"),
            ),
            None => DEFAULT_IDLE_TIMEOUT_SECS,
        },
        None => DEFAULT_IDLE_TIMEOUT_SECS,
    }
}

/// Index of the first of `names` equal to `name`, or the number of names.
pub open spec fn name_index(names: Seq<String>, name: Seq<char>) -> int
    decreases names.len(),
{
    if names.len() == 0 || names[0]@ == name {
        0
    } else {
        1 + name_index(names.drop_first(), name)
    }
}

/// The index of the theme `name` among `names`; the first theme where the
/// name is unknown or none is given.
pub open spec fn theme_index_of(names: Seq<String>, name: Option<Seq<char>>) -> int {
    match name {
        Some(n) => if name_index(names, n) < names.len() {
            name_index(names, n)
        } else {
            0
        },
        None => 0,
    }
}

/// What `name_index` finds.
pub proof fn lemma_name_index(names: Seq<String>, name: Seq<char>)
    ensures
        0 <= name_index(names, name) <= names.len(),
        name_index(names, name) < names.len() ==> names[name_index(names, name)]@ == name,
        forall|j: int| 0 <= j < name_index(names, name) ==> names[j]@ != name,
    decreases names.len(),
{
    if names.len() > 0 && names[0]@ != name {
        let rest = names.drop_first();
        lemma_name_index(rest, name);
        assert forall|j: int| 0 <= j < name_index(names, name) implies names[j]@ != name by {
            if j > 0 {
                assert(names[j] == rest[j - 1]);
            }
        }
    }
}

/// The index of the theme `name` among `names`.
pub fn theme_index(names: &Vec<String>, name: Option<&str>) -> (r: usize)
    ensures
        r == theme_index_of(
            names@,
            match name {
                Some(n) => Some(n@),
                None => None,
            },
        ),
{
    match name {
        None => 0,
        Some(n) => {
            let mut i: usize = 0;
            proof {
                lemma_name_index(names@, n@);
            }
            while i < names.len() && !names[i].as_str().eq(n)
                invariant
                    i <= names.len(),
                    forall|j: int| 0 <= j < i ==> names@[j]@ != n@,
                decreases names.len() - i,
            {
                i += 1;
            }
            if i < names.len() {
                i
            } else {
                0
            }
        },
    }
}

/// The name of the theme that the text of the settings file names.
pub open spec fn stored_theme(text: Option<Seq<char>>) -> Option<Seq<char>> {
    match text {
        Some(t) => match json_parsed(t) {
            Some(v) => member_text(v, "theme"@),
            None => None,
        },
        None => None,
    }
}

/// The index, among `names`, of the theme that the settings file names.
pub fn load_theme_idx(names: &Vec<String>, text: Option<&str>) -> (r: usize)
    ensures
        r == theme_index_of(
            names@,
            stored_theme(
                match text {
                    Some(t) => Some(t@),
                    None => None,
                },
            ),
        ),
{
    let name = match text {
        Some(t) => match parse_json(t) {
            Some(v) => member_text_of(&v, "theme"),
            None => None,
        },
        None => None,
    };
    match &name {
        Some(n) => theme_index(names, Some(n.as_str())),
        None => theme_index(names, None),
    }
}

/// The text of a settings file that holds the theme `theme` and the idle
/// timeout `secs`.
pub open spec fn settings_text(theme: Seq<char>, secs: u64) -> Seq<char> {
    "{\n  \"idle_timeout_secs\": "@ + digits(secs as nat, 10) + ",\n  \"theme\": "@ + json_quoted(
        theme,
    ) + "\n}"@
}

/// The text to write to the settings file.
pub fn ui_settings_text(theme: &str, idle_timeout_secs: u64) -> (r: String)
    ensures
        r@ == settings_text(theme@, idle_timeout_secs),
{
    let q = quote_json(theme).unwrap();
    let mut out = "{\n  \"idle_timeout_secs\": ".to_owned();
    let n = render_uint(idle_timeout_secs, 10, 0);
    out.append(n.as_str());
    out.append(",\n  \"theme\": ");
    out.append(q.as_str());
    out.append("\n}");
    assert(out@ =~= settings_text(theme@, idle_timeout_secs));
    out
}

} // verus!
