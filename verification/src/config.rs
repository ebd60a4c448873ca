//! The server's configuration, read from its variables.
use crate::text::text_equals;
use tracing::level_filters::LevelFilter;
use vstd::prelude::*;

verus! {

/// How much the server logs.
#[derive(Debug, Clone, Copy, PartialEq, Eq, Structural)]
pub enum LogLevel {
    Off,
    Error,
    Warn,
    Info,
    Debug,
    Trace,
}

/// The character in lower case, for an ASCII capital letter; any other
/// character as it is.
pub open spec fn ascii_lower(c: char) -> char {
    if 'A' <= c && c <= 'Z' {
        ((c as u32) + 32) as char
    } else {
        c
    }
}

/// `str::eq_ignore_ascii_case` against a lower-case ASCII word.
pub open spec fn equals_ignoring_ascii_case(text: Seq<char>, word: Seq<char>) -> bool {
    &&& text.len() == word.len()
    &&& forall|i: int| 0 <= i < text.len() ==> ascii_lower(#[trigger] text[i]) == word[i]
}

/// The value of a string of decimal digits.
pub open spec fn decimal_value(digits: Seq<char>) -> int
    decreases digits.len(),
{
    if digits.len() == 0 {
        0
    } else {
        decimal_value(digits.drop_last()) * 10 + (digits.last() as int - '0' as int)
    }
}

/// The text is a non-empty string of decimal digits.
pub open spec fn all_decimal_digits(digits: Seq<char>) -> bool {
    &&& digits.len() > 0
    &&& forall|i: int| 0 <= i < digits.len() ==> '0' <= #[trigger] digits[i] && digits[i] <= '9'
}

/// The number from 0 to 5 that `usize`'s `FromStr` reads from the text (an
/// optional `+` followed by decimal digits), if it reads one that small.
pub open spec fn small_number(text: Seq<char>) -> Option<int> {
    let digits = if text.len() > 0 && text[0] == '+' {
        text.drop_first()
    } else {
        text
    };
    if all_decimal_digits(digits) && decimal_value(digits) <= 5 {
        Some(decimal_value(digits))
    } else {
        None
    }
}

/// The level `tracing::level_filters::LevelFilter`'s `FromStr` reads from
/// the text: a number from 0 (off) to 5 (trace); else the empty text
/// (error) or a level's name in any ASCII case; else none.
pub open spec fn level_filter_named(text: Seq<char>) -> Option<LogLevel> {
    match small_number(text) {
        Some(n) => Some(
            if n == 0 {
                LogLevel::Off
            } else if n == 1 {
                LogLevel::Error
            } else if n == 2 {
                LogLevel::Warn
            } else if n == 3 {
                LogLevel::Info
            } else if n == 4 {
                LogLevel::Debug
            } else {
                LogLevel::Trace
            },
        ),
        None => if text.len() == 0 {
            Some(LogLevel::Error)
        } else if equals_ignoring_ascii_case(text, "error"@) {
            Some(LogLevel::Error)
        } else if equals_ignoring_ascii_case(text, "warn"@) {
            Some(LogLevel::Warn)
        } else if equals_ignoring_ascii_case(text, "info"@) {
            Some(LogLevel::Info)
        } else if equals_ignoring_ascii_case(text, "debug"@) {
            Some(LogLevel::Debug)
        } else if equals_ignoring_ascii_case(text, "trace"@) {
            Some(LogLevel::Trace)
        } else if equals_ignoring_ascii_case(text, "off"@) {
            Some(LogLevel::Off)
        } else {
            None
        },
    }
}

/// Without `LOG_LEVEL`, the server logs at `info`: the text `"info"` names
/// that level.
pub proof fn lemma_info_names_info()
    ensures
        level_filter_named("info"@) == Some(LogLevel::Info),
{
    reveal_strlit("info");
    reveal_strlit("error");
    reveal_strlit("warn");
    let t = "info"@;
    assert(t[0] == 'i');
    assert(!all_decimal_digits(t));
    assert(ascii_lower(t[0]) != "warn"@[0]);
    assert(!equals_ignoring_ascii_case(t, "warn"@));
    assert(equals_ignoring_ascii_case(t, "info"@));
}

/// Parses a `tracing::level_filters::LevelFilter` and names the level.
#[verifier::external_body]
fn parse_level_filter(text: &str) -> (r: Option<LogLevel>)
    ensures
        r == level_filter_named(text@),
{
    match text.parse::<LevelFilter>() {
        Ok(LevelFilter::OFF) => Some(LogLevel::Off),
        Ok(LevelFilter::ERROR) => Some(LogLevel::Error),
        Ok(LevelFilter::WARN) => Some(LogLevel::Warn),
        Ok(LevelFilter::INFO) => Some(LogLevel::Info),
        Ok(LevelFilter::DEBUG) => Some(LogLevel::Debug),
        Ok(LevelFilter::TRACE) => Some(LogLevel::Trace),
        Ok(_) => None,
        Err(_) => None,
    }
}

/// The value `bool`'s `FromStr` reads: exactly `"true"` or `"false"`.
pub open spec fn bool_named(text: Seq<char>) -> Option<bool> {
    if text == "true"@ {
        Some(true)
    } else if text == "false"@ {
        Some(false)
    } else {
        None
    }
}

/// Reads `"true"` or `"false"`.
pub fn parse_bool(text: &str) -> (r: Option<bool>)
    ensures
        r == bool_named(text@),
{
    if text_equals(text, "true") {
        Some(true)
    } else if text_equals(text, "false") {
        Some(false)
    } else {
        None
    }
}

/// Why the configuration cannot be read.
pub enum ConfigError {
    /// A required variable is not set; the message names it.
    Missing(&'static str),
    /// `IS_DEV` is neither `true` nor `false`.
    InvalidBool,
    /// `LOG_LEVEL` names no level.
    InvalidLogLevel,
}

/// The server's configuration.
pub struct AppConfig {
    pub server_addr: String,
    pub database_url: String,
    /// Development mode: cookies are not restricted to HTTPS.
    pub is_dev: bool,
    /// Key for signing access tokens.
    pub session_secret: Vec<u8>,
    /// Key for hashing refresh tokens.
    pub refresh_secret: Vec<u8>,
    pub log_level: LogLevel,
}

impl AppConfig {
    /// The configuration from the values of `SERVER_ADDR`, `DATABASE_URL`,
    /// `IS_DEV` (default `false`), `SESSION_SECRET`, `REFRESH_SECRET` and
    /// `LOG_LEVEL` (default `info`), checked in that order; secrets are
    /// kept as their UTF-8 bytes.
    pub fn from_vars(
        server_addr: Option<String>,
        database_url: Option<String>,
        is_dev: Option<String>,
        session_secret: Option<String>,
        refresh_secret: Option<String>,
        log_level: Option<String>,
    ) -> (r: Result<AppConfig, ConfigError>)
        ensures
            server_addr is None ==> (r matches Err(ConfigError::Missing(m)) && m@
                == "SERVER_ADDR must be set"@),
            server_addr is Some && database_url is None ==> (r matches Err(ConfigError::Missing(m))
                && m@ == "DATABASE_URL must be set"@),
            server_addr is Some && database_url is Some && (is_dev matches Some(d) && bool_named(
                d@,
            ) is None) ==> r matches Err(ConfigError::InvalidBool),
            r matches Ok(c) ==> {
                &&& server_addr == Some(c.server_addr)
                &&& database_url == Some(c.database_url)
                &&& c.is_dev == match is_dev {
                    Some(d) => bool_named(d@) == Some(true),
                    None => false,
                }
                &&& session_secret matches Some(s) && c.session_secret@
                    == vstd::utf8::encode_utf8(s@)
                &&& refresh_secret matches Some(s) && c.refresh_secret@
                    == vstd::utf8::encode_utf8(s@)
                &&& Some(c.log_level) == match log_level {
                    Some(l) => level_filter_named(l@),
                    None => Some(LogLevel::Info),
                }
            },
            (server_addr is Some && database_url is Some && match is_dev {
                Some(d) => bool_named(d@) is Some,
                None => true,
            } && session_secret is Some && refresh_secret is Some && match log_level {
                Some(l) => level_filter_named(l@) is Some,
                None => true,
            }) <==> r is Ok,
            r matches Err(ConfigError::InvalidLogLevel) ==> server_addr is Some && database_url is Some
                && session_secret is Some && refresh_secret is Some,
            server_addr is Some && database_url is Some && match is_dev {
                Some(d) => bool_named(d@) is Some,
                None => true,
            } ==> {
                &&& (session_secret is None ==> (r matches Err(ConfigError::Missing(m)) && m@
                    == "SESSION_SECRET must be set"@))
                &&& (session_secret is Some && refresh_secret is None ==> (r matches Err(
                    ConfigError::Missing(m),
                ) && m@ == "REFRESH_SECRET must be set"@))
                &&& (session_secret is Some && refresh_secret is Some && r is Err ==> r matches Err(
                    ConfigError::InvalidLogLevel,
                ))
            },
    {
        let server_addr = match server_addr {
            Some(v) => v,
            None => return Err(ConfigError::Missing("SERVER_ADDR must be set")),
        };
        let database_url = match database_url {
            Some(v) => v,
            None => return Err(ConfigError::Missing("DATABASE_URL must be set")),
        };
        let is_dev = match is_dev {
            Some(v) => match parse_bool(v.as_str()) {
                Some(b) => b,
                None => return Err(ConfigError::InvalidBool),
            },
            None => false,
        };
        let session_secret = match session_secret {
            Some(v) => v.as_str().as_bytes_vec(),
            None => return Err(ConfigError::Missing("SESSION_SECRET must be set")),
        };
        let refresh_secret = match refresh_secret {
            Some(v) => v.as_str().as_bytes_vec(),
            None => return Err(ConfigError::Missing("REFRESH_SECRET must be set")),
        };
        let log_level = match log_level {
            Some(v) => parse_level_filter(v.as_str()),
            None => {
                proof {
                    lemma_info_names_info();
                }
                parse_level_filter("info")
            },
        };
        let log_level = match log_level {
            Some(l) => l,
            None => return Err(ConfigError::InvalidLogLevel),
        };
        Ok(
            AppConfig {
                server_addr,
                database_url,
                is_dev,
                session_secret,
                refresh_secret,
                log_level,
            },
        )
    }
}

} // verus!
