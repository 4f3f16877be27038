//! The error type of every fallible operation, its rendering, and the
//! mapping of transport and middleware failures onto it.

use std::time::Duration;
use vstd::prelude::*;

use crate::time::{duration_debug, duration_debug_text, duration_nanos};

verus! {

/// Errors that can occur when making requests.
#[derive(Debug)]
pub enum FetchError {
    /// A network-level error (DNS, connection refused, etc.).
    Network(String),
    /// The request timed out.
    Timeout(Duration),
    /// The server returned a non-success status code.
    StatusCode {
        /// HTTP status code.
        status: u16,
        /// Response body.
        body: String,
    },
    /// Failed to serialize or deserialize JSON.
    Serialization(serde_json::Error),
    /// The circuit breaker is open; requests are being rejected.
    CircuitOpen,
    /// A middleware error from the middleware chain.
    Middleware(String),
    /// The underlying HTTP client could not be built.
    BuildError(String),
    /// A header name or value was rejected.
    HeaderError(String),
}

#[verifier::external_type_specification]
#[verifier::external_body]
pub struct ExJsonError(serde_json::Error);

/// The character for decimal digit `d`.
pub open spec fn digit_char(d: nat) -> char {
    (48 + d) as char
}

/// Decimal notation of `n`, without leading zeros.
pub open spec fn decimal(n: nat) -> Seq<char>
    decreases n,
{
    if n < 10 {
        seq![digit_char(n)]
    } else {
        decimal(n / 10).push(digit_char(n % 10))
    }
}

/// The number a string of decimal digits denotes.
pub open spec fn decimal_value(s: Seq<char>) -> int
    decreases s.len(),
{
    if s.len() == 0 {
        0
    } else {
        decimal_value(s.drop_last()) * 10 + (s.last() as int - 48)
    }
}

/// Decimal notation is made of digits, starts with a non-zero digit unless
/// it denotes zero, and reads back as the number it was made from.
pub proof fn decimal_reads_back(n: nat)
    ensures
        decimal(n).len() >= 1,
        forall|i: int| 0 <= i < decimal(n).len() ==> '0' <= #[trigger] decimal(n)[i] <= '9',
        n > 0 ==> decimal(n)[0] != '0',
        decimal_value(decimal(n)) == n,
    decreases n,
{
    if n >= 10 {
        decimal_reads_back(n / 10);
        let d = decimal(n);
        assert(d.drop_last() =~= decimal(n / 10));
        assert(d[0] == decimal(n / 10)[0]);
        assert(digit_char((n % 10) as nat) as int == 48 + n % 10);
        assert(d.last() == digit_char((n % 10) as nat));
        assert(decimal_value(d) == decimal_value(d.drop_last()) * 10 + (d.last() as int - 48));
        assert(n == (n / 10) * 10 + n % 10);
    } else {
        let d = decimal(n);
        assert(digit_char(n) as int == 48 + n);
        assert(d.drop_last() =~= Seq::<char>::empty());
        assert(decimal_value(d.drop_last()) == 0);
        assert(decimal_value(d) == decimal_value(d.drop_last()) * 10 + (d.last() as int - 48));
    }
}

fn digit_str(d: u16) -> (s: &'static str)
    requires
        d < 10,
    ensures
        s@ == seq![digit_char(d as nat)],
{
    proof {
        reveal_strlit("0");
        reveal_strlit("1");
        reveal_strlit("2");
        reveal_strlit("3");
        reveal_strlit("4");
        reveal_strlit("5");
        reveal_strlit("6");
        reveal_strlit("7");
        reveal_strlit("8");
        reveal_strlit("9");
    }
    match d {
        0 => "0",
        1 => "1",
        2 => "2",
        3 => "3",
        4 => "4",
        5 => "5",
        6 => "6",
        7 => "7",
        8 => "8",
        _ => "9",
    }
}

/// Decimal notation of `n`.
pub fn decimal_string(n: u16) -> (r: String)
    ensures
        r@ == decimal(n as nat),
    decreases n,
{
    if n < 10 {
        String::from_str(digit_str(n))
    } else {
        let mut s = decimal_string(n / 10);
        s.append(digit_str(n % 10));
        s
    }
}

/// The text `serde_json::Error`'s `Display` implementation renders.
pub uninterp spec fn json_error_message(e: serde_json::Error) -> Seq<char>;

/// Calls `serde_json::Error`'s `Display` implementation.
#[verifier::external_body]
fn json_error_text(e: &serde_json::Error) -> (r: String)
    ensures
        r@ == json_error_message(*e),
{
    format!("{}", e)
}

/// Calls `serde_json::from_slice`: the value `bytes` hold, or the error
/// that kept them from being decoded.
#[verifier::external_body]
fn json_from_slice<T: serde::de::DeserializeOwned>(bytes: &[u8]) -> Result<T, serde_json::Error> {
    serde_json::from_slice(bytes)
}

/// Decodes a JSON document: a failure to decode is `Serialization` with the
/// JSON error.
pub fn decode_json<T: serde::de::DeserializeOwned>(bytes: &[u8]) -> (r: Result<T, FetchError>)
    ensures
        r matches Err(e) ==> e is Serialization,
{
    match json_from_slice(bytes) {
        Ok(v) => Ok(v),
        Err(e) => Err(FetchError::Serialization(e)),
    }
}

impl FetchError {
    /// The message of an error.
    pub open spec fn message(self) -> Seq<char> {
        match self {
            FetchError::Network(m) => "network error: "@ + m@,
            FetchError::Timeout(d) => "request timed out after "@ + duration_debug_text(
                duration_nanos(d),
            ),
            FetchError::StatusCode { status, body } => "HTTP "@ + decimal(status as nat) + ": "@
                + body@,
            FetchError::Serialization(e) => "serialization error: "@ + json_error_message(e),
            FetchError::CircuitOpen => "circuit breaker is open; requests temporarily blocked"@,
            FetchError::Middleware(m) => "middleware error: "@ + m@,
            FetchError::BuildError(m) => "build error: "@ + m@,
            FetchError::HeaderError(m) => "header error: "@ + m@,
        }
    }

    /// Renders the error as text: [`FetchError::message`].
    pub fn to_string(&self) -> (r: String)
        ensures
            r@ == self.message(),
    {
        match self {
            FetchError::Network(m) => {
                let mut s = String::from_str("network error: ");
                s.append(m.as_str());
                s
            },
            FetchError::Timeout(d) => {
                let mut s = String::from_str("request timed out after ");
                let t = duration_debug(*d);
                s.append(t.as_str());
                s
            },
            FetchError::StatusCode { status, body } => {
                let mut s = String::from_str("HTTP ");
                let code = decimal_string(*status);
                s.append(code.as_str());
                s.append(": ");
                s.append(body.as_str());
                s
            },
            FetchError::Serialization(e) => {
                let mut s = String::from_str("serialization error: ");
                let t = json_error_text(e);
                s.append(t.as_str());
                s
            },
            FetchError::CircuitOpen => String::from_str(
                "circuit breaker is open; requests temporarily blocked",
            ),
            FetchError::Middleware(m) => {
                let mut s = String::from_str("middleware error: ");
                s.append(m.as_str());
                s
            },
            FetchError::BuildError(m) => {
                let mut s = String::from_str("build error: ");
                s.append(m.as_str());
                s
            },
            FetchError::HeaderError(m) => {
                let mut s = String::from_str("header error: ");
                s.append(m.as_str());
                s
            },
        }
    }
}

/// The rendering of an error carries its text (for a JSON error, the JSON
/// error's own text) verbatim at the end, and for
/// a status error the status in decimal right after `HTTP `: nothing is
/// redacted or escaped.
pub proof fn rendering_carries_fields(e: FetchError)
    ensures
        e matches FetchError::Network(m) ==> e.message().subrange(
            e.message().len() - m@.len(),
            e.message().len() as int,
        ) == m@,
        e matches FetchError::Middleware(m) ==> e.message().subrange(
            e.message().len() - m@.len(),
            e.message().len() as int,
        ) == m@,
        e matches FetchError::BuildError(m) ==> e.message().subrange(
            e.message().len() - m@.len(),
            e.message().len() as int,
        ) == m@,
        e matches FetchError::HeaderError(m) ==> e.message().subrange(
            e.message().len() - m@.len(),
            e.message().len() as int,
        ) == m@,
        e matches FetchError::Serialization(j) ==> e.message().subrange(
            e.message().len() - json_error_message(j).len(),
            e.message().len() as int,
        ) == json_error_message(j),
        e matches FetchError::StatusCode { status, body } ==> {
            &&& e.message().subrange(
                e.message().len() - body@.len(),
                e.message().len() as int,
            ) == body@
            &&& e.message().subrange(5, 5 + decimal(status as nat).len() as int) == decimal(status as nat)
        },
{
    reveal_strlit("HTTP ");
    match e {
        FetchError::Network(m) => {
            let msg = e.message();
            assert(msg.subrange(msg.len() - m@.len(), msg.len() as int) =~= m@);
        },
        FetchError::Middleware(m) => {
            let msg = e.message();
            assert(msg.subrange(msg.len() - m@.len(), msg.len() as int) =~= m@);
        },
        FetchError::BuildError(m) => {
            let msg = e.message();
            assert(msg.subrange(msg.len() - m@.len(), msg.len() as int) =~= m@);
        },
        FetchError::HeaderError(m) => {
            let msg = e.message();
            assert(msg.subrange(msg.len() - m@.len(), msg.len() as int) =~= m@);
        },
        FetchError::Serialization(j) => {
            let msg = e.message();
            let t = json_error_message(j);
            assert(msg.subrange(msg.len() - t.len(), msg.len() as int) =~= t);
        },
        FetchError::StatusCode { status, body } => {
            let msg = e.message();
            assert(msg.subrange(msg.len() - body@.len(), msg.len() as int) =~= body@);
            assert(msg.subrange(5, 5 + decimal(status as nat).len() as int) =~= decimal(status as nat));
        },
        _ => {},
    }
}

impl From<serde_json::Error> for FetchError {
    fn from(e: serde_json::Error) -> (r: Self) {
        FetchError::Serialization(e)
    }
}

impl vstd::std_specs::convert::FromSpecImpl<serde_json::Error> for FetchError {
    open spec fn obeys_from_spec() -> bool {
        true
    }

    open spec fn from_spec(v: serde_json::Error) -> Self {
        FetchError::Serialization(v)
    }
}

} // verus!
