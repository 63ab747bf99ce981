//! The adapter's error type: the only error that crosses the MCP boundary.
use vstd::prelude::*;
use crate::number::{all_digits, digits_value, first_index_of, parse_u64, F64Bits};
use crate::text::{has_prefix, owned, str_starts_with};

verus! {

/// Why an authenticated call was refused.
#[derive(Debug, Clone, Copy, PartialEq, Eq, Structural)]
pub enum AuthFailureReason {
    /// No client id / secret configured.
    MissingCredentials,
    /// The upstream rejected the credentials.
    Unauthorized,
    /// Refreshing the access token failed.
    TokenRefreshFailed,
    /// Any other authentication failure.
    Other,
}

/// Kind of an upstream failure.
#[derive(Debug, Clone, PartialEq, Eq)]
pub enum UpstreamErrorKind {
    /// Deribit returned a structured API error.
    Api {
        /// Deribit error code, when the upstream surfaced one.
        code: Option<i64>,
        /// Upstream message.
        message: String,
    },
    /// Transport-level failure (DNS, connect, TLS, ...).
    Network {
        /// Upstream message.
        message: String,
    },
    /// HTTP-level failure (status, body decoding, ...).
    Http {
        /// Upstream message.
        message: String,
    },
    /// WebSocket failure.
    Websocket {
        /// Upstream message.
        message: String,
    },
}

/// Errors emitted by the adapter.
#[derive(Debug, Clone, PartialEq)]
pub enum AdapterError {
    /// Authentication failure.
    Auth {
        /// Why authentication failed.
        reason: AuthFailureReason,
    },
    /// The upstream rate-limited the call.
    RateLimited {
        /// Suggested back-off.
        retry_after_ms: u64,
    },
    /// Upstream failure.
    Upstream {
        /// What went wrong upstream.
        inner: UpstreamErrorKind,
    },
    /// The caller's input is wrong.
    Validation {
        /// Offending input field.
        field: String,
        /// Human-readable explanation.
        message: String,
    },
    /// A numeric input that must be finite and strictly positive is not.
    /// On the wire this is a validation error on `field` whose message reads
    /// `must be finite and > 0, got <value>`.
    InvalidNumber {
        /// Offending input field.
        field: String,
        /// The rejected value.
        value: F64Bits,
    },
    /// An order's USD notional exceeds the configured cap.
    SizeCapExceeded {
        /// Notional of the rejected order.
        requested: F64Bits,
        /// Configured cap.
        cap: F64Bits,
    },
    /// The tool exists but its effect class is not enabled.
    NotEnabled {
        /// Tool name.
        tool: String,
        /// What enables it.
        flag: String,
    },
    /// Anything else.
    Internal {
        /// Human-readable description.
        message: String,
    },
}

/// `e` is a validation error on `field` with message `message`.
pub open spec fn is_validation(e: AdapterError, field: Seq<char>, message: Seq<char>) -> bool {
    e matches AdapterError::Validation { field: f, message: m } && f@ == field && m@ == message
}

/// `e` rejects `value` as the non-positive or non-finite `field`.
pub open spec fn is_invalid_number(e: AdapterError, field: Seq<char>, value: F64Bits) -> bool {
    e matches AdapterError::InvalidNumber { field: f, value: v } && f@ == field && v == value
}

/// `e` reports the tool `tool` as disabled, naming `flag` as the fix.
pub open spec fn is_not_enabled(e: AdapterError, tool: Seq<char>, flag: Seq<char>) -> bool {
    e matches AdapterError::NotEnabled { tool: t, flag: f } && t@ == tool && f@ == flag
}

/// The input field an error blames, for validation-class errors.
pub open spec fn blamed_field(e: AdapterError) -> Option<Seq<char>> {
    match e {
        AdapterError::Validation { field, .. } => Some(field@),
        AdapterError::InvalidNumber { field, .. } => Some(field@),
        _ => None,
    }
}

/// How an error is reported over MCP.
#[derive(Debug, Clone, Copy, PartialEq, Eq, Structural)]
pub enum McpErrorCategory {
    /// `invalid_params`: the caller can correct the request.
    InvalidParams,
    /// `internal_error`: anything else.
    InternalError,
}

impl AdapterError {
    /// Validation error on `field`.
    pub fn validation(field: &str, message: String) -> (r: AdapterError)
        ensures
            is_validation(r, field@, message@),
    {
        AdapterError::Validation { field: crate::text::owned(field), message }
    }

    /// The tool `tool` is registered but `flag` is missing.
    pub fn not_enabled(tool: &str, flag: &str) -> (r: AdapterError)
        ensures
            is_not_enabled(r, tool@, flag@),
    {
        AdapterError::NotEnabled { tool: crate::text::owned(tool), flag: crate::text::owned(flag) }
    }

    /// Catch-all error.
    pub fn internal(message: &str) -> (r: AdapterError)
        ensures
            r matches AdapterError::Internal { message: m } && m@ == message@,
    {
        AdapterError::Internal { message: crate::text::owned(message) }
    }

    /// The input field this error blames, if it is a validation error.
    pub fn validation_field(&self) -> (r: Option<String>)
        ensures
            r matches Some(f) ==> blamed_field(*self) == Some(f@),
            r is None ==> blamed_field(*self) is None,
    {
        match self {
            AdapterError::Validation { field, .. } => Some(field.clone()),
            AdapterError::InvalidNumber { field, .. } => Some(field.clone()),
            _ => None,
        }
    }

    /// MCP error category: every validation-class error is
    /// `invalid_params`, everything else `internal_error`.
    pub fn category(&self) -> (r: McpErrorCategory)
        ensures
            r == (if blamed_field(*self) is Some {
                McpErrorCategory::InvalidParams
            } else {
                McpErrorCategory::InternalError
            }),
    {
        match self {
            AdapterError::Validation { .. } => McpErrorCategory::InvalidParams,
            AdapterError::InvalidNumber { .. } => McpErrorCategory::InvalidParams,
            _ => McpErrorCategory::InternalError,
        }
    }
}

// ----- upstream request failures ------------------------------------------

/// The code of a structured Deribit error: an optional `-`, then one or
/// more ASCII digits whose value fits in an `i64`.
pub open spec fn api_code(t: Seq<char>) -> Option<i64> {
    let neg = t.len() > 0 && t[0] == '-';
    let u = if neg { t.drop_first() } else { t };
    if u.len() > 0 && all_digits(u) && digits_value(u) <= i64::MAX {
        Some((if neg { -(digits_value(u) as int) } else { digits_value(u) as int }) as i64)
    } else {
        None
    }
}

/// Code and message of a request failure that the upstream client reports
/// as `API error: <code> - <message>`.
pub open spec fn api_error_parts(msg: Seq<char>) -> Option<(i64, Seq<char>)> {
    let p = "API error: "@;
    if has_prefix(msg, p) {
        let rest = msg.skip(p.len() as int);
        let j = first_index_of(rest, ' ', ' ');
        let tail = rest.skip(j);
        if has_prefix(tail, " - "@) {
            match api_code(rest.take(j)) {
                Some(c) => Some((c, tail.skip(3))),
                None => None,
            }
        } else {
            None
        }
    } else {
        None
    }
}

fn digit_run(s: &str, from: usize, to: usize) -> (r: bool)
    requires
        from <= to <= s@.len(),
    ensures
        r == all_digits(s@.subrange(from as int, to as int)),
{
    let mut i = from;
    while i < to
        invariant
            from <= i <= to <= s@.len(),
            forall|k: int| from <= k < i ==> crate::number::is_ascii_digit(#[trigger] s@[k]),
        decreases to - i,
    {
        let c = s.get_char(i);
        if !('0' <= c && c <= '9') {
            assert(s@.subrange(from as int, to as int)[i - from] == c);
            return false;
        }
        i = i + 1;
    }
    assert forall|k: int| 0 <= k < to - from implies crate::number::is_ascii_digit(
        #[trigger] s@.subrange(from as int, to as int)[k],
    ) by {
        assert(s@.subrange(from as int, to as int)[k] == s@[from + k]);
    }
    true
}

/// Classify the message of a failed upstream request: a structured
/// Deribit error (`API error: <code> - <message>`) keeps its numeric code
/// and message; anything else is an HTTP-level failure carrying the whole
/// message.
pub fn classify_request_failure(msg: &str) -> (r: UpstreamErrorKind)
    ensures
        match api_error_parts(msg@) {
            Some(parts) => r matches UpstreamErrorKind::Api { code: Some(c), message } && c
                == parts.0 && message@ == parts.1,
            None => r matches UpstreamErrorKind::Http { message } && message@ == msg@,
        },
{
    proof {
        reveal_strlit("API error: ");
        reveal_strlit(" - ");
    }
    let fallback = UpstreamErrorKind::Http { message: owned(msg) };
    if !str_starts_with(msg, "API error: ") {
        return fallback;
    }
    let n = msg.unicode_len();
    let ghost rest = msg@.skip(11);
    let mut j: usize = 11;
    while j < n && msg.get_char(j) != ' '
        invariant
            11 <= j <= n,
            n == msg@.len(),
            rest == msg@.skip(11),
            forall|k: int| 11 <= k < j ==> msg@[k] != ' ',
        decreases n - j,
    {
        j = j + 1;
    }
    proof {
        assert forall|k: int| 0 <= k < j - 11 implies rest[k] != ' ' && rest[k] != ' ' by {
            assert(rest[k] == msg@[k + 11]);
        }
        if j < n {
            assert(rest[j - 11] == msg@[j as int]);
        }
        crate::number::lemma_first_index_of(rest, ' ', ' ', j - 11);
        assert(rest.take(j - 11) =~= msg@.subrange(11, j as int));
        assert(rest.skip(j - 11) =~= msg@.skip(j as int));
    }
    let tail = msg.substring_char(j, n);
    if !str_starts_with(tail, " - ") {
        return fallback;
    }
    let neg = j > 11 && msg.get_char(11) == '-';
    let digits_from: usize = if neg { 12 } else { 11 };
    proof {
        let t = msg@.subrange(11, j as int);
        if neg {
            assert(t[0] == msg@[11]);
            assert(t.drop_first() =~= msg@.subrange(12, j as int));
        } else if j > 11 {
            assert(t[0] == msg@[11]);
        }
    }
    if digits_from >= j || !digit_run(msg, digits_from, j) {
        return fallback;
    }
    let digits = msg.substring_char(digits_from, j);
    let value = match parse_u64(digits) {
        Some(v) => v,
        None => {
            return fallback;
        },
    };
    proof {
        assert(digits@[0] != '+');
    }
    if value > 0x7FFF_FFFF_FFFF_FFFFu64 {
        return fallback;
    }
    let code: i64 = if neg {
        -(value as i64)
    } else {
        value as i64
    };
    let message = owned(tail.substring_char(3, tail.unicode_len()));
    UpstreamErrorKind::Api { code: Some(code), message }
}

} // verus!
