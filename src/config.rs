//! Server and client configuration, built from layered `key = value`
//! settings (later settings win).
use vstd::prelude::*;
use vstd::string::*;
use crate::text::{pair_views, str_eq};

verus! {

/// Key that marks the presence of the token table.
pub const TOKENS_KEY: &'static str = "tokens";

/// Prefix of the keys that hold the token table (`tokens.<username>`).
pub const TOKENS_PREFIX: &'static str = "tokens.";

/// Why no configuration could be built; the payload is the key concerned.
#[derive(Clone, Debug, PartialEq, Eq)]
pub enum ConfigError {
    /// A required key has no value of the expected kind.
    NotFound(String),
}

/// Settings of the RPC listener and of the relay.
#[derive(Clone, Debug, PartialEq, Eq)]
pub struct Core {
    pub debug: bool,
    pub bind_addr: String,
    pub auth_method: String,
    pub allow_ports: String,
}

/// Settings of the public HTTP listener.
#[derive(Clone, Debug, PartialEq, Eq)]
pub struct HTTPConfig {
    pub bind_addr: String,
    pub default_domain: String,
}

/// The server configuration.
#[derive(Clone, Debug, PartialEq, Eq)]
pub struct Config {
    pub core: Core,
    pub http: HTTPConfig,
    /// `(username, token)` pairs, in the order of the settings.
    pub tokens: Vec<(String, String)>,
}

/// The client configuration.
#[derive(Clone, Debug, PartialEq, Eq)]
pub struct ClientConfig {
    pub endpoint: String,
    pub token: String,
}

/// The value of `key`: the last setting that names it.
pub open spec fn setting_value(settings: Seq<(Seq<char>, Seq<char>)>, key: Seq<char>) -> Option<Seq<char>>
    decreases settings.len(),
{
    if settings.len() == 0 {
        None
    } else if settings.last().0 == key {
        Some(settings.last().1)
    } else {
        setting_value(settings.drop_last(), key)
    }
}

/// Whether `key` names an entry of the token table.
pub open spec fn is_token_key(key: Seq<char>) -> bool {
    key.len() > TOKENS_PREFIX@.len() && key.subrange(0, TOKENS_PREFIX@.len() as int) == TOKENS_PREFIX@
}

/// The token table written in `settings`, in order.
pub open spec fn tokens_of(settings: Seq<(Seq<char>, Seq<char>)>) -> Seq<(Seq<char>, Seq<char>)>
    decreases settings.len(),
{
    if settings.len() == 0 {
        Seq::empty()
    } else {
        let rest = tokens_of(settings.drop_last());
        let (k, v) = settings.last();
        if is_token_key(k) {
            rest.push((k.subrange(TOKENS_PREFIX@.len() as int, k.len() as int), v))
        } else {
            rest
        }
    }
}

/// Finds the value of `key` in `settings`.
pub fn setting(settings: &Vec<(String, String)>, key: &str) -> (r: Option<String>)
    ensures
        match setting_value(pair_views(settings@), key@) {
            Some(v) => r is Some && r->Some_0@ == v,
            None => r is None,
        },
{
    let ghost pairs = pair_views(settings@);
    let mut i: usize = settings.len();
    assert(pairs.subrange(0, i as int) =~= pairs);
    while i > 0
        invariant
            i <= settings@.len(),
            pairs == pair_views(settings@),
            setting_value(pairs, key@) == setting_value(pairs.subrange(0, i as int), key@),
        decreases i,
    {
        let ghost pre = pairs.subrange(0, i as int);
        assert(pre.last() == (settings@[i - 1].0@, settings@[i - 1].1@));
        assert(pre.drop_last() =~= pairs.subrange(0, i - 1));
        if str_eq(settings[i - 1].0.as_str(), key) {
            return Some(settings[i - 1].1.clone());
        }
        i = i - 1;
    }
    None
}

fn required(settings: &Vec<(String, String)>, key: &str) -> (r: Result<String, ConfigError>)
    ensures
        match setting_value(pair_views(settings@), key@) {
            Some(v) => r is Ok && r->Ok_0@ == v,
            None => r is Err && r->Err_0 is NotFound && r->Err_0->NotFound_0@ == key@,
        },
{
    match setting(settings, key) {
        Some(v) => Ok(v),
        None => Err(ConfigError::NotFound(key.to_owned())),
    }
}

fn key_is_token(key: &str) -> (r: bool)
    ensures
        r == is_token_key(key@),
{
    proof { reveal_strlit("tokens."); }
    let n = key.unicode_len();
    let p = TOKENS_PREFIX.unicode_len();
    if n <= p {
        return false;
    }
    str_eq(key.substring_char(0, p), TOKENS_PREFIX)
}

/// The token table written in `settings`.
pub fn token_table(settings: &Vec<(String, String)>) -> (r: Vec<(String, String)>)
    ensures
        pair_views(r@) == tokens_of(pair_views(settings@)),
{
    proof { reveal_strlit("tokens."); }
    let ghost pairs = pair_views(settings@);
    let mut out: Vec<(String, String)> = Vec::new();
    let mut i: usize = 0;
    while i < settings.len()
        invariant
            i <= settings@.len(),
            pairs == pair_views(settings@),
            pair_views(out@) == tokens_of(pairs.subrange(0, i as int)),
        decreases settings@.len() - i,
    {
        let ghost pre = pairs.subrange(0, i + 1);
        assert(pre.drop_last() =~= pairs.subrange(0, i as int));
        assert(pre.last() == (settings@[i as int].0@, settings@[i as int].1@));
        let key = settings[i].0.as_str();
        if key_is_token(key) {
            let name = key.substring_char(TOKENS_PREFIX.unicode_len(), key.unicode_len()).to_owned();
            let ghost before = out@;
            out.push((name, settings[i].1.clone()));
            assert(pair_views(out@) =~= pair_views(before).push((name@, settings@[i as int].1@)));
        }
        i = i + 1;
    }
    assert(pairs.subrange(0, i as int) =~= pairs);
    out
}

/// Reads `core.debug`, which the settings hold as `true` or `false`.
fn parse_bool(s: &str) -> (r: Option<bool>)
    ensures
        s@ == "true"@ ==> r == Some(true),
        s@ == "false"@ ==> r == Some(false),
        s@ != "true"@ && s@ != "false"@ ==> r is None,
{
    proof {
        reveal_strlit("true");
        reveal_strlit("false");
        assert("true"@[0] != "false"@[0]);
        assert("true"@ != "false"@);
    }
    if str_eq(s, "true") {
        Some(true)
    } else if str_eq(s, "false") {
        Some(false)
    } else {
        None
    }
}

/// A key that the server configuration requires.
pub open spec fn is_server_key(k: Seq<char>) -> bool {
    k == "core.debug"@ || k == "core.bind_addr"@ || k == "core.auth_method"@ || k == "core.allow_ports"@
        || k == "http.bind_addr"@ || k == "http.default_domain"@ || k == TOKENS_KEY@
}

/// Whether `core.debug` holds a boolean (`true` or `false`).
pub open spec fn debug_is_bool(s: Seq<(Seq<char>, Seq<char>)>) -> bool {
    setting_value(s, "core.debug"@) is Some
        && (setting_value(s, "core.debug"@)->Some_0 == "true"@ || setting_value(s, "core.debug"@)->Some_0 == "false"@)
}

/// Whether `settings` hold every key the server needs.
pub open spec fn server_settings_complete(s: Seq<(Seq<char>, Seq<char>)>) -> bool {
    &&& debug_is_bool(s)
    &&& setting_value(s, "core.bind_addr"@) is Some
    &&& setting_value(s, "core.auth_method"@) is Some
    &&& setting_value(s, "core.allow_ports"@) is Some
    &&& setting_value(s, "http.bind_addr"@) is Some
    &&& setting_value(s, "http.default_domain"@) is Some
    &&& setting_value(s, TOKENS_KEY@) is Some
}

impl Config {
    /// Builds the server configuration from `settings`. `core.debug` holds
    /// `true` or `false`; without a boolean there, there is no configuration
    /// file at all. The token table must be present (`tokens`), even empty.
    pub fn new(settings: &Vec<(String, String)>) -> (r: Result<Config, ConfigError>)
        ensures
            ({
                let s = pair_views(settings@);
                &&& r is Ok <==> server_settings_complete(s)
                &&& !debug_is_bool(s) ==> r is Err && r->Err_0 is NotFound
                    && r->Err_0->NotFound_0@ == "core.debug"@
                &&& r is Err ==> match r->Err_0 {
                    ConfigError::NotFound(k) => is_server_key(k@) && (setting_value(s, k@) is None
                        || (k@ == "core.debug"@ && !debug_is_bool(s))),
                }
                &&& r is Ok ==> {
                    let c = r->Ok_0;
                    &&& c.core.debug == (setting_value(s, "core.debug"@)->Some_0 == "true"@)
                    &&& c.core.bind_addr@ == setting_value(s, "core.bind_addr"@)->Some_0
                    &&& c.core.auth_method@ == setting_value(s, "core.auth_method"@)->Some_0
                    &&& c.core.allow_ports@ == setting_value(s, "core.allow_ports"@)->Some_0
                    &&& c.http.bind_addr@ == setting_value(s, "http.bind_addr"@)->Some_0
                    &&& c.http.default_domain@ == setting_value(s, "http.default_domain"@)->Some_0
                    &&& pair_views(c.tokens@) == tokens_of(s)
                }
            }),
    {
        let debug_text = required(settings, "core.debug")?;
        let debug = match parse_bool(debug_text.as_str()) {
            Some(b) => b,
            None => return Err(ConfigError::NotFound("core.debug".to_owned())),
        };
        let bind_addr = required(settings, "core.bind_addr")?;
        let auth_method = required(settings, "core.auth_method")?;
        let allow_ports = required(settings, "core.allow_ports")?;
        let http_bind_addr = required(settings, "http.bind_addr")?;
        let default_domain = required(settings, "http.default_domain")?;
        let _ = required(settings, TOKENS_KEY)?;
        Ok(Config {
            core: Core { debug, bind_addr, auth_method, allow_ports },
            http: HTTPConfig { bind_addr: http_bind_addr, default_domain },
            tokens: token_table(settings),
        })
    }
}

/// Builds the client configuration from `settings`: `endpoint` and `token`
/// are both required.
pub fn load(settings: &Vec<(String, String)>) -> (r: Result<ClientConfig, ConfigError>)
    ensures
        ({
            let s = pair_views(settings@);
            &&& r is Ok <==> (setting_value(s, "endpoint"@) is Some && setting_value(s, "token"@) is Some)
            &&& r is Ok ==> r->Ok_0.endpoint@ == setting_value(s, "endpoint"@)->Some_0
                && r->Ok_0.token@ == setting_value(s, "token"@)->Some_0
            &&& r is Err ==> r->Err_0 is NotFound && setting_value(s, r->Err_0->NotFound_0@) is None
                && (r->Err_0->NotFound_0@ == "endpoint"@ || r->Err_0->NotFound_0@ == "token"@)
        }),
{
    let endpoint = required(settings, "endpoint")?;
    let token = required(settings, "token")?;
    Ok(ClientConfig { endpoint, token })
}

} // verus!
