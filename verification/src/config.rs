//! The server configuration.
//!
//! Configuration comes from four environment variables. Reading the
//! process environment, parsing the listen address and canonicalizing
//! the directory path are operating-system work done outside this
//! module; each variable's raw outcome is handed in as a plain value
//! and the resolution — required values, defaults, and the numeric
//! parse of the connection limit — is decided here.

use vstd::prelude::*;
use vstd::string::StringExecFns;
use vstd::utf8::encode_utf8;

use crate::router::is_digit_byte;

verus! {

/// The outcome of looking one variable up in the environment.
#[derive(Debug)]
pub enum EnvValue {
    /// The variable is set to this text.
    Present(String),
    /// The variable is not set.
    Missing,
    /// The variable is set but its value is not valid text.
    NotText,
}

/// Why the configuration could not be built. Both carry the name of
/// the environment variable at fault, for the startup diagnostic.
#[derive(Debug)]
pub enum ConfigError {
    /// A required variable is not set.
    MissingVar(String),
    /// A variable is set but unusable: not text, or not a number where
    /// one is needed.
    InvalidVar(String),
}

/// The server config.
#[allow(non_snake_case)]
pub struct Config {
    /// The RTSP source URL to stream from. Required.
    pub RTSP2HLS_SOURCE: String,
    /// The `address:port` text to listen on for HLS HTTP requests.
    pub RTSP2HLS_LISTEN: String,
    /// The maximum number of simultaneous connections.
    pub RTSP2HLS_MAXCONN: usize,
    /// The temp directory for HLS stream creation, before
    /// canonicalization.
    pub RTSP2HLS_TEMPDIR: String,
}

/// The default listen address.
pub fn listen_default() -> (r: &'static str)
    ensures
        r@ == "[::]:8080"@,
{
    "[::]:8080"
}

/// The default maximum number of simultaneous connections.
pub const MAXCONN_DEFAULT: usize = 1024;

/// The default temp directory path.
pub fn tempdir_default() -> (r: &'static str)
    ensures
        r@ == "/tmp/rtsp2hls"@,
{
    "/tmp/rtsp2hls"
}

/// The digit's numeric value, for ASCII decimal digits.
pub open spec fn digit_val(b: u8) -> nat {
    if is_digit_byte(b) {
        (b - 48) as nat
    } else {
        0
    }
}

/// The number a byte string denotes in decimal, reading every byte as
/// a digit.
pub open spec fn decimal_value(s: Seq<u8>) -> nat
    decreases s.len(),
{
    if s.len() == 0 {
        0
    } else {
        decimal_value(s.drop_last()) * 10 + digit_val(s.last())
    }
}

proof fn lemma_decimal_step(s: Seq<u8>, i: int)
    requires
        0 <= i < s.len(),
    ensures
        decimal_value(s.subrange(0, i + 1)) == decimal_value(s.subrange(0, i)) * 10 + digit_val(
            s[i],
        ),
{
    assert(s.subrange(0, i + 1).drop_last() =~= s.subrange(0, i));
    assert(s.subrange(0, i + 1).last() == s[i]);
}

proof fn lemma_decimal_prefix_le(s: Seq<u8>, i: int)
    requires
        0 <= i <= s.len(),
    ensures
        decimal_value(s.subrange(0, i)) <= decimal_value(s),
    decreases s.len() - i,
{
    if i == s.len() {
        assert(s.subrange(0, i) =~= s);
    } else {
        lemma_decimal_step(s, i);
        lemma_decimal_prefix_le(s, i + 1);
    }
}

/// Parses a byte string as an unsigned decimal number. Returns `None`
/// when the string is empty, holds any non-digit, or denotes a number
/// too large for `usize`.
pub fn parse_decimal(s: &[u8]) -> (r: Option<usize>)
    ensures
        r is Some <==> (s@.len() > 0 && (forall|i: int| 0 <= i < s@.len() ==> is_digit_byte(s@[i]))
            && decimal_value(s@) <= usize::MAX),
        r matches Some(v) ==> v == decimal_value(s@),
{
    if s.len() == 0 {
        return None;
    }
    let mut acc: usize = 0;
    let mut i: usize = 0;
    while i < s.len()
        invariant
            0 <= i <= s@.len(),
            forall|j: int| 0 <= j < i ==> is_digit_byte(s@[j]),
            acc == decimal_value(s@.subrange(0, i as int)),
        decreases s@.len() - i,
    {
        let b = s[i];
        if b < 48 || b > 57 {
            return None;
        }
        let d = (b - 48) as usize;
        let limit = (usize::MAX - d) / 10;
        proof {
            lemma_decimal_step(s@, i as int);
            lemma_decimal_prefix_le(s@, i + 1 as int);
        }
        if acc > limit {
            proof {
                assert(acc * 10 + d > usize::MAX);
            }
            return None;
        }
        proof {
            assert(acc * 10 + d <= usize::MAX);
        }
        acc = acc * 10 + d;
        i = i + 1;
    }
    proof {
        assert(s@.subrange(0, s@.len() as int) =~= s@);
    }
    Some(acc)
}

/// Resolves one environment variable: a present value wins, a missing
/// one falls back to the default, and a missing one without a default,
/// or a value that is not text, is an error naming the variable.
pub fn resolve_env(name: &str, value: EnvValue, default: Option<String>) -> (r: Result<
    String,
    ConfigError,
>)
    ensures
        value matches EnvValue::Present(v) ==> r == Ok::<String, ConfigError>(v),
        value is Missing && default is Some ==> r == Ok::<String, ConfigError>(default->Some_0),
        value is Missing && default is None ==> (r matches Err(ConfigError::MissingVar(n)) && n@
            == name@),
        value is NotText ==> (r matches Err(ConfigError::InvalidVar(n)) && n@ == name@),
{
    match value {
        EnvValue::Present(v) => Ok(v),
        EnvValue::Missing => match default {
            Some(d) => Ok(d),
            None => Err(ConfigError::MissingVar(String::from_str(name))),
        },
        EnvValue::NotText => Err(ConfigError::InvalidVar(String::from_str(name))),
    }
}

impl Config {
    /// Builds the configuration from the environment's answers for the
    /// four variables, applying the documented defaults.
    ///
    /// The source is required: a missing source is the error that names
    /// `RTSP2HLS_SOURCE`. A set connection limit must be a decimal
    /// number that fits `usize`; an unset one defaults to 1024. The
    /// variables are checked in declaration order and the first fault
    /// wins.
    #[allow(non_snake_case)]
    pub fn from_env(
        RTSP2HLS_SOURCE: EnvValue,
        RTSP2HLS_LISTEN: EnvValue,
        RTSP2HLS_MAXCONN: EnvValue,
        RTSP2HLS_TEMPDIR: EnvValue,
    ) -> (r: Result<Config, ConfigError>)
        ensures
            RTSP2HLS_SOURCE is Missing ==> (r matches Err(ConfigError::MissingVar(n)) && n@
                == "RTSP2HLS_SOURCE"@),
            RTSP2HLS_SOURCE is NotText ==> (r matches Err(ConfigError::InvalidVar(n)) && n@
                == "RTSP2HLS_SOURCE"@),
            RTSP2HLS_SOURCE is Present && RTSP2HLS_LISTEN is NotText ==> (r matches Err(
                ConfigError::InvalidVar(n),
            ) && n@ == "RTSP2HLS_LISTEN"@),
            RTSP2HLS_SOURCE is Present && !(RTSP2HLS_LISTEN is NotText) && (
            RTSP2HLS_MAXCONN is NotText || (RTSP2HLS_MAXCONN matches EnvValue::Present(m)
                && !maxconn_parses(m))) ==> (r matches Err(ConfigError::InvalidVar(n)) && n@
                == "RTSP2HLS_MAXCONN"@),
            RTSP2HLS_SOURCE is Present && !(RTSP2HLS_LISTEN is NotText) && maxconn_ok(
                RTSP2HLS_MAXCONN,
            ) && RTSP2HLS_TEMPDIR is NotText ==> (r matches Err(ConfigError::InvalidVar(n)) && n@
                == "RTSP2HLS_TEMPDIR"@),
            r is Ok <==> (RTSP2HLS_SOURCE is Present && !(RTSP2HLS_LISTEN is NotText) && maxconn_ok(
                RTSP2HLS_MAXCONN,
            ) && !(RTSP2HLS_TEMPDIR is NotText)),
            r matches Ok(c) ==> c.RTSP2HLS_SOURCE == RTSP2HLS_SOURCE->Present_0,
            r is Ok && RTSP2HLS_LISTEN is Present ==> r->Ok_0.RTSP2HLS_LISTEN
                == RTSP2HLS_LISTEN->Present_0,
            r is Ok && RTSP2HLS_LISTEN is Missing ==> r->Ok_0.RTSP2HLS_LISTEN@ == "[::]:8080"@,
            RTSP2HLS_MAXCONN matches EnvValue::Present(m) ==> (r is Ok
                ==> r->Ok_0.RTSP2HLS_MAXCONN == decimal_value(string_bytes(m))),
            r is Ok && RTSP2HLS_MAXCONN is Missing ==> r->Ok_0.RTSP2HLS_MAXCONN == 1024,
            r is Ok && RTSP2HLS_TEMPDIR is Present ==> r->Ok_0.RTSP2HLS_TEMPDIR
                == RTSP2HLS_TEMPDIR->Present_0,
            r is Ok && RTSP2HLS_TEMPDIR is Missing ==> r->Ok_0.RTSP2HLS_TEMPDIR@
                == "/tmp/rtsp2hls"@,
    {
        let source = match resolve_env("RTSP2HLS_SOURCE", RTSP2HLS_SOURCE, None) {
            Ok(v) => v,
            Err(e) => {
                return Err(e);
            },
        };
        let listen = match resolve_env(
            "RTSP2HLS_LISTEN",
            RTSP2HLS_LISTEN,
            Some(String::from_str(listen_default())),
        ) {
            Ok(v) => v,
            Err(e) => {
                return Err(e);
            },
        };
        let maxconn = match RTSP2HLS_MAXCONN {
            EnvValue::Present(m) => match parse_decimal(m.as_str().as_bytes()) {
                Some(v) => v,
                None => {
                    return Err(ConfigError::InvalidVar(String::from_str("RTSP2HLS_MAXCONN")));
                },
            },
            EnvValue::Missing => MAXCONN_DEFAULT,
            EnvValue::NotText => {
                return Err(ConfigError::InvalidVar(String::from_str("RTSP2HLS_MAXCONN")));
            },
        };
        let tempdir = match resolve_env(
            "RTSP2HLS_TEMPDIR",
            RTSP2HLS_TEMPDIR,
            Some(String::from_str(tempdir_default())),
        ) {
            Ok(v) => v,
            Err(e) => {
                return Err(e);
            },
        };
        Ok(
            Config {
                RTSP2HLS_SOURCE: source,
                RTSP2HLS_LISTEN: listen,
                RTSP2HLS_MAXCONN: maxconn,
                RTSP2HLS_TEMPDIR: tempdir,
            },
        )
    }
}

/// The UTF-8 bytes of a string value.
pub open spec fn string_bytes(s: String) -> Seq<u8> {
    encode_utf8(s@)
}

/// Whether a set connection-limit value parses as a decimal `usize`.
pub open spec fn maxconn_parses(m: String) -> bool {
    &&& string_bytes(m).len() > 0
    &&& (forall|i: int| 0 <= i < string_bytes(m).len() ==> is_digit_byte(string_bytes(m)[i]))
    &&& decimal_value(string_bytes(m)) <= usize::MAX
}

/// Whether the connection-limit variable yields a usable value: unset,
/// or set to a number that parses.
pub open spec fn maxconn_ok(value: EnvValue) -> bool {
    match value {
        EnvValue::Present(m) => maxconn_parses(m),
        EnvValue::Missing => true,
        EnvValue::NotText => false,
    }
}

} // verus!
