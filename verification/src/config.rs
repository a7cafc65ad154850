//! Configuration values as the application understands them: textual
//! settings parsed into numbers and flags, defaults applied where a setting
//! is absent, and secrets masked for display. Reading the process
//! environment or a dotenv file happens outside the library; the raw
//! `Option<String>` lookups are handed in as plain values.

use crate::text::str_eq;
use crate::text::spec_udec;
use crate::text::u64_to_string;
use vstd::prelude::*;
use vstd::string::StrSliceExecFns;
use vstd::string::StringExecFns;

verus! {

/// Whether `c` is a decimal digit.
pub open spec fn spec_is_digit(c: char) -> bool {
    '0' as int <= c as int <= '9' as int
}

/// The value of a decimal digit character.
pub open spec fn spec_digit_val(c: char) -> int {
    c as int - '0' as int
}

/// Whether every character of `s` is a decimal digit.
pub open spec fn spec_all_digits(s: Seq<char>) -> bool {
    forall|i: int| 0 <= i < s.len() ==> spec_is_digit(s[i])
}

/// The number a digit string denotes, most significant digit first.
pub open spec fn spec_dec_val(s: Seq<char>) -> int
    decreases s.len(),
{
    if s.len() == 0 {
        0
    } else {
        spec_dec_val(s.drop_last()) * 10 + spec_digit_val(s.last())
    }
}

proof fn lemma_dec_val_nonneg(s: Seq<char>)
    requires
        spec_all_digits(s),
    ensures
        spec_dec_val(s) >= 0,
    decreases s.len(),
{
    if s.len() > 0 {
        assert forall|j: int| 0 <= j < s.drop_last().len() implies spec_is_digit(
            s.drop_last()[j],
        ) by {
            assert(s.drop_last()[j] == s[j]);
        }
        lemma_dec_val_nonneg(s.drop_last());
    }
}

proof fn lemma_dec_val_prefix_le(s: Seq<char>, i: int)
    requires
        spec_all_digits(s),
        0 <= i <= s.len(),
    ensures
        spec_dec_val(s.subrange(0, i)) <= spec_dec_val(s),
    decreases s.len() - i,
{
    if i < s.len() {
        let p = s.subrange(0, i);
        let q = s.subrange(0, i + 1);
        assert(q.drop_last() =~= p);
        assert(q.last() == s[i]);
        assert forall|j: int| 0 <= j < p.len() implies spec_is_digit(p[j]) by {
            assert(p[j] == s[j]);
        }
        lemma_dec_val_nonneg(p);
        lemma_dec_val_prefix_le(s, i + 1);
    } else {
        assert(s.subrange(0, i) =~= s);
    }
}

/// Parse a decimal digit string to a number no greater than `max`.
///
/// Returns the denoted number exactly when `s` is non-empty, consists of
/// digits only, and its value fits under `max`; returns nothing otherwise.
/// No sign, whitespace, or radix prefix is accepted.
pub fn parse_decimal(s: &str, max: u64) -> (r: Option<u64>)
    ensures
        match r {
            Some(v) => {
                &&& s@.len() > 0
                &&& spec_all_digits(s@)
                &&& v as int == spec_dec_val(s@)
                &&& v <= max
            },
            None => s@.len() == 0 || !spec_all_digits(s@) || spec_dec_val(s@) > max,
        },
{
    let len = s.unicode_len();
    if len == 0 {
        return None;
    }
    let q: u64 = max / 10;
    let rm: u64 = max % 10;
    proof {
        vstd::arithmetic::div_mod::lemma_fundamental_div_mod(max as int, 10);
    }
    let mut acc: u64 = 0;
    let mut i: usize = 0;
    while i < len
        invariant
            i <= len,
            len == s@.len(),
            q == max as int / 10,
            rm == max as int % 10,
            max as int == 10 * (max as int / 10) + max as int % 10,
            spec_all_digits(s@.subrange(0, i as int)),
            acc as int == spec_dec_val(s@.subrange(0, i as int)),
            acc <= max,
        decreases len - i,
    {
        let c = s.get_char(i);
        let u = c as u32;
        if u < 48 || u > 57 {
            return None;
        }
        let d: u64 = (u - 48) as u64;
        proof {
            assert(spec_is_digit(s@[i as int]));
            assert(d as int == spec_digit_val(s@[i as int]));
        }
        if acc > q || (acc == q && d > rm) {
            proof {
                let ext = s@.subrange(0, i + 1);
                assert(ext.drop_last() =~= s@.subrange(0, i as int));
                assert(ext.last() == s@[i as int]);
                assert(spec_dec_val(ext) > max);
                if spec_all_digits(s@) {
                    lemma_dec_val_prefix_le(s@, i + 1);
                }
            }
            return None;
        }
        proof {
            let ext = s@.subrange(0, i + 1);
            assert(ext.drop_last() =~= s@.subrange(0, i as int));
            assert(ext.last() == s@[i as int]);
            assert forall|j: int| 0 <= j < ext.len() implies spec_is_digit(ext[j]) by {
                assert(ext[j] == s@[j]);
            }
        }
        acc = acc * 10 + d;
        i = i + 1;
    }
    proof {
        assert(s@.subrange(0, len as int) =~= s@);
    }
    Some(acc)
}

/// The number a setting denotes, or `default` where the text is absent from
/// the allowed shape or exceeds `max`.
pub open spec fn spec_parse_or(s: Seq<char>, default: int, max: int) -> int {
    if s.len() > 0 && spec_all_digits(s) && spec_dec_val(s) <= max {
        spec_dec_val(s)
    } else {
        default
    }
}

/// Parse a port-sized setting, falling back to `default`.
pub fn parse_u16_or(s: &str, default: u16) -> (r: u16)
    ensures
        r as int == spec_parse_or(s@, default as int, u16::MAX as int),
{
    match parse_decimal(s, 65535) {
        Some(v) => v as u16,
        None => default,
    }
}

/// Parse a 32-bit setting, falling back to `default`.
pub fn parse_u32_or(s: &str, default: u32) -> (r: u32)
    ensures
        r as int == spec_parse_or(s@, default as int, u32::MAX as int),
{
    match parse_decimal(s, 4294967295) {
        Some(v) => v as u32,
        None => default,
    }
}

/// Whether a textual flag is switched on: exactly the strings `"true"` and
/// `"1"` count.
pub open spec fn spec_flag_on(s: Seq<char>) -> bool {
    s == "true"@ || s == "1"@
}

/// Parse a boolean feature flag.
pub fn parse_bool_flag(s: &str) -> (r: bool)
    ensures
        r == spec_flag_on(s@),
{
    str_eq(s, "true") || str_eq(s, "1")
}

/// The given setting, or `default` where none was set.
pub fn string_or(value: Option<String>, default: &str) -> (r: String)
    ensures
        match value {
            Some(s) => r@ == s@,
            None => r@ == default@,
        },
{
    match value {
        Some(s) => s,
        None => default.to_owned(),
    }
}

/// The deployment environment a name denotes.
#[derive(PartialEq, Eq, Structural, Clone, Copy, Debug)]
pub enum EnvKind {
    Production,
    Staging,
    Development,
}

/// `"production"` and `"staging"` select their environments; every other
/// name falls back to development.
pub open spec fn spec_classify_environment(s: Seq<char>) -> EnvKind {
    if s == "production"@ {
        EnvKind::Production
    } else if s == "staging"@ {
        EnvKind::Staging
    } else {
        EnvKind::Development
    }
}

/// Classify an environment name.
pub fn classify_environment(name: &str) -> (k: EnvKind)
    ensures
        k == spec_classify_environment(name@),
{
    if str_eq(name, "production") {
        EnvKind::Production
    } else if str_eq(name, "staging") {
        EnvKind::Staging
    } else {
        EnvKind::Development
    }
}

/// The environment name two lookups produce: the first setting that is
/// present wins, and absent both, the name is `"development"`.
pub fn environment_name(rust_env: Option<String>, environment: Option<String>) -> (r: String)
    ensures
        match rust_env {
            Some(s) => r@ == s@,
            None => match environment {
                Some(s) => r@ == s@,
                None => r@ == "development"@,
            },
        },
{
    match rust_env {
        Some(s) => s,
        None => string_or(environment, "development"),
    }
}

/// A database URL assembled from its parts.
pub open spec fn spec_database_url(
    user: Seq<char>,
    pass: Seq<char>,
    host: Seq<char>,
    port: Seq<char>,
    name: Seq<char>,
) -> Seq<char> {
    "postgres://"@ + user + ":"@ + pass + "@"@ + host + ":"@ + port + "/"@ + name
}

/// Assemble a database URL from individual connection settings.
pub fn build_database_url(user: &str, pass: &str, host: &str, port: &str, name: &str) -> (r:
    String)
    ensures
        r@ == spec_database_url(user@, pass@, host@, port@, name@),
{
    let mut r = "postgres://".to_owned();
    r.append(user);
    r.append(":");
    r.append(pass);
    r.append("@");
    r.append(host);
    r.append(":");
    r.append(port);
    r.append("/");
    r.append(name);
    proof {
        assert(r@ =~= spec_database_url(user@, pass@, host@, port@, name@));
    }
    r
}

/// A full database URL: the single setting where present, otherwise one
/// assembled from the individual settings with their usual defaults.
pub fn database_url_from(
    url: Option<String>,
    user: Option<String>,
    pass: Option<String>,
    host: Option<String>,
    port: Option<String>,
    name: Option<String>,
) -> (r: String)
    ensures
        match url {
            Some(u) => r@ == u@,
            None => {
                let user_s = if user is Some { user->0@ } else { "postgres"@ };
                let pass_s = if pass is Some { pass->0@ } else { "password"@ };
                let host_s = if host is Some { host->0@ } else { "localhost"@ };
                let port_s = if port is Some { port->0@ } else { "5432"@ };
                let name_s = if name is Some { name->0@ } else { "myapp"@ };
                r@ == spec_database_url(user_s, pass_s, host_s, port_s, name_s)
            },
        },
{
    match url {
        Some(u) => u,
        None => {
            let user_s = string_or(user, "postgres");
            let pass_s = string_or(pass, "password");
            let host_s = string_or(host, "localhost");
            let port_s = string_or(port, "5432");
            let name_s = string_or(name, "myapp");
            build_database_url(
                user_s.as_str(),
                pass_s.as_str(),
                host_s.as_str(),
                port_s.as_str(),
                name_s.as_str(),
            )
        },
    }
}

/// The settings an application starts from, with defaults already applied.
pub struct AppConfig {
    pub database_url: String,
    pub db_pool_size: u32,
    pub host: String,
    pub port: u16,
    pub debug_mode: bool,
    pub log_level: String,
    pub api_key: Option<String>,
    pub jwt_secret: Option<String>,
}

impl AppConfig {
    /// Build the configuration from raw environment lookups: each absent or
    /// malformed setting falls back to its documented default, and the
    /// secrets stay optional.
    pub fn from_values(
        database_url: Option<String>,
        db_pool_size: Option<String>,
        host: Option<String>,
        port: Option<String>,
        debug: Option<String>,
        log_level: Option<String>,
        api_key: Option<String>,
        jwt_secret: Option<String>,
    ) -> (c: AppConfig)
        ensures
            match database_url {
                Some(s) => c.database_url@ == s@,
                None => c.database_url@ == "postgres://localhost:5432/myapp"@,
            },
            c.db_pool_size as int == match db_pool_size {
                Some(s) => spec_parse_or(s@, 10, u32::MAX as int),
                None => 10,
            },
            match host {
                Some(s) => c.host@ == s@,
                None => c.host@ == "127.0.0.1"@,
            },
            c.port as int == match port {
                Some(s) => spec_parse_or(s@, 8080, u16::MAX as int),
                None => 8080,
            },
            c.debug_mode == match debug {
                Some(s) => spec_flag_on(s@),
                None => false,
            },
            match log_level {
                Some(s) => c.log_level@ == s@,
                None => c.log_level@ == "info"@,
            },
            c.api_key == api_key,
            c.jwt_secret == jwt_secret,
    {
        let db_pool_size_v: u32 = match db_pool_size {
            Some(s) => parse_u32_or(s.as_str(), 10),
            None => 10,
        };
        let port_v: u16 = match port {
            Some(s) => parse_u16_or(s.as_str(), 8080),
            None => 8080,
        };
        let debug_v: bool = match debug {
            Some(s) => parse_bool_flag(s.as_str()),
            None => false,
        };
        AppConfig {
            database_url: string_or(database_url, "postgres://localhost:5432/myapp"),
            db_pool_size: db_pool_size_v,
            host: string_or(host, "127.0.0.1"),
            port: port_v,
            debug_mode: debug_v,
            log_level: string_or(log_level, "info"),
            api_key,
            jwt_secret,
        }
    }

    /// A secret shortened for display: long values keep their first five and
    /// last three characters around an ellipsis, short ones are starred out
    /// entirely.
    pub open spec fn spec_masked(s: Seq<char>) -> Seq<char> {
        if s.len() > 10 {
            s.subrange(0, 5) + "..."@ + s.subrange(s.len() - 3, s.len() as int)
        } else {
            "***"@
        }
    }

    /// Mask a sensitive value for display.
    pub fn mask_sensitive(&self, s: &str) -> (r: String)
        ensures
            r@ == Self::spec_masked(s@),
    {
        let n = s.unicode_len();
        if n > 10 {
            let mut r = s.substring_char(0, 5).to_owned();
            r.append("...");
            r.append(s.substring_char(n - 3, n));
            proof {
                assert(r@ =~= Self::spec_masked(s@));
            }
            r
        } else {
            "***".to_owned()
        }
    }

    /// The text describing whether an optional secret is present.
    pub open spec fn spec_presence(set: bool) -> Seq<char> {
        if set {
            "set"@
        } else {
            "not set"@
        }
    }

    /// A multi-line description of the configuration, secrets masked or
    /// reduced to their presence.
    pub open spec fn spec_describe(self) -> Seq<char> {
        "Application Configuration:\n  Database URL: "@ + Self::spec_masked(self.database_url@)
            + "\n  DB Pool Size: "@ + spec_udec(self.db_pool_size as int) + "\n  Server: "@
            + self.host@ + ":"@ + spec_udec(self.port as int) + "\n  Debug Mode: "@ + (
        if self.debug_mode {
            "true"@
        } else {
            "false"@
        }) + "\n  Log Level: "@ + self.log_level@ + "\n  API Key: "@ + Self::spec_presence(
            self.api_key is Some,
        ) + "\n  JWT Secret: "@ + Self::spec_presence(self.jwt_secret is Some)
    }

    /// Render the configuration for display.
    pub fn describe(&self) -> (r: String)
        ensures
            r@ == self.spec_describe(),
    {
        let mut r = "Application Configuration:\n  Database URL: ".to_owned();
        let masked = self.mask_sensitive(self.database_url.as_str());
        r.append(masked.as_str());
        r.append("\n  DB Pool Size: ");
        let pool = u64_to_string(self.db_pool_size as u64);
        r.append(pool.as_str());
        r.append("\n  Server: ");
        r.append(self.host.as_str());
        r.append(":");
        let port = u64_to_string(self.port as u64);
        r.append(port.as_str());
        r.append("\n  Debug Mode: ");
        r.append(if self.debug_mode {
            "true"
        } else {
            "false"
        });
        r.append("\n  Log Level: ");
        r.append(self.log_level.as_str());
        r.append("\n  API Key: ");
        r.append(if self.api_key.is_some() {
            "set"
        } else {
            "not set"
        });
        r.append("\n  JWT Secret: ");
        r.append(if self.jwt_secret.is_some() {
            "set"
        } else {
            "not set"
        });
        proof {
            assert(r@ =~= self.spec_describe());
        }
        r
    }
}

/// Credentials for an external interface: the key is required, the secret
/// optional, and the endpoint has a default.
pub struct ApiClient {
    pub api_key: String,
    pub api_secret: Option<String>,
    pub endpoint: String,
}

impl ApiClient {
    /// Build the client settings from raw lookups: without a key the
    /// configuration is rejected with the message the operator sees.
    pub fn from_values(
        api_key: Option<String>,
        api_secret: Option<String>,
        endpoint: Option<String>,
    ) -> (r: Result<ApiClient, String>)
        ensures
            match r {
                Ok(c) => {
                    &&& api_key matches Some(k) && c.api_key == k
                    &&& c.api_secret == api_secret
                    &&& match endpoint {
                        Some(e) => c.endpoint@ == e@,
                        None => c.endpoint@ == "https://api.example.com"@,
                    }
                },
                Err(m) => api_key is None && m@ == "API_KEY environment variable is required"@,
            },
    {
        match api_key {
            Some(k) => Ok(
                ApiClient {
                    api_key: k,
                    api_secret,
                    endpoint: string_or(endpoint, "https://api.example.com"),
                },
            ),
            None => Err("API_KEY environment variable is required".to_owned()),
        }
    }
}

} // verus!
