//! Resources and `deribit://` URIs.
//!
//! - `deribit://currencies` and `deribit://instruments/{currency}` are
//!   refreshed on every read from the upstream HTTP API (the binary makes
//!   those calls).
//! - `deribit://book/{instrument}`, `deribit://ticker/{instrument}` and
//!   `deribit://trades/{instrument}` are live: see [`live`].
//!
//! [`parse_resource_uri`] accepts exactly the canonical forms that
//! [`ResourceUri::to_uri`] prints.
use vstd::prelude::*;
use crate::error::{is_validation, AdapterError};
use crate::text::{owned, push_str, str_equal, str_starts_with};

pub mod live;

verus! {

/// The kind of a resource URI.
#[derive(Debug, Clone, Copy, PartialEq, Eq, Structural, Hash)]
pub enum ResourceKind {
    /// `deribit://currencies`.
    Currencies,
    /// `deribit://instruments/{currency}`.
    Instruments,
    /// `deribit://book/{instrument}`.
    Book,
    /// `deribit://ticker/{instrument}`.
    Ticker,
    /// `deribit://trades/{instrument}`.
    Trades,
}

/// A parsed `deribit://` resource URI.
#[derive(Debug, Clone, PartialEq, Eq, Hash)]
pub enum ResourceUri {
    /// `deribit://currencies`.
    Currencies,
    /// `deribit://instruments/{currency}`.
    Instruments {
        /// Currency.
        currency: String,
    },
    /// `deribit://book/{instrument}`.
    Book {
        /// Instrument.
        instrument: String,
    },
    /// `deribit://ticker/{instrument}`.
    Ticker {
        /// Instrument.
        instrument: String,
    },
    /// `deribit://trades/{instrument}`.
    Trades {
        /// Instrument.
        instrument: String,
    },
}

impl View for ResourceUri {
    type V = (ResourceKind, Seq<char>);

    /// The kind and the currency / instrument (empty for `currencies`).
    open spec fn view(&self) -> (ResourceKind, Seq<char>) {
        match self {
            ResourceUri::Currencies => (ResourceKind::Currencies, Seq::<char>::empty()),
            ResourceUri::Instruments { currency } => (ResourceKind::Instruments, currency@),
            ResourceUri::Book { instrument } => (ResourceKind::Book, instrument@),
            ResourceUri::Ticker { instrument } => (ResourceKind::Ticker, instrument@),
            ResourceUri::Trades { instrument } => (ResourceKind::Trades, instrument@),
        }
    }
}

impl ResourceUri {
    /// Whether two URIs denote the same resource.
    pub fn same(&self, other: &ResourceUri) -> (r: bool)
        ensures
            r == (self@ == other@),
    {
        match (self, other) {
            (ResourceUri::Currencies, ResourceUri::Currencies) => true,
            (ResourceUri::Instruments { currency: a }, ResourceUri::Instruments { currency: b }) =>
                str_equal(a.as_str(), b.as_str()),
            (ResourceUri::Book { instrument: a }, ResourceUri::Book { instrument: b }) => str_equal(
                a.as_str(),
                b.as_str(),
            ),
            (ResourceUri::Ticker { instrument: a }, ResourceUri::Ticker { instrument: b }) =>
                str_equal(a.as_str(), b.as_str()),
            (ResourceUri::Trades { instrument: a }, ResourceUri::Trades { instrument: b }) =>
                str_equal(a.as_str(), b.as_str()),
            _ => false,
        }
    }

    /// An independent copy.
    pub fn duplicate(&self) -> (r: ResourceUri)
        ensures
            r@ == self@,
    {
        match self {
            ResourceUri::Currencies => ResourceUri::Currencies,
            ResourceUri::Instruments { currency } => ResourceUri::Instruments {
                currency: currency.clone(),
            },
            ResourceUri::Book { instrument } => ResourceUri::Book { instrument: instrument.clone() },
            ResourceUri::Ticker { instrument } => ResourceUri::Ticker {
                instrument: instrument.clone(),
            },
            ResourceUri::Trades { instrument } => ResourceUri::Trades {
                instrument: instrument.clone(),
            },
        }
    }
}

// ----- the `deribit://` URI grammar ---------------------------------------

/// A character allowed in a currency or instrument segment: ASCII letters
/// and digits, `-`, `_` and `.`.
pub open spec fn segment_char(c: char) -> bool {
    ('A' <= c && c <= 'Z') || ('a' <= c && c <= 'z') || ('0' <= c && c <= '9') || c == '-' || c
        == '_' || c == '.'
}

/// A well-formed currency or instrument segment: non-empty, made of
/// [`segment_char`]s (so in particular without `/`).
pub open spec fn valid_segment(s: Seq<char>) -> bool {
    s.len() > 0 && forall|i: int| 0 <= i < s.len() ==> segment_char(#[trigger] s[i])
}

/// The path head of each templated kind, with its trailing `/`.
pub open spec fn uri_prefix(k: ResourceKind) -> Seq<char> {
    match k {
        ResourceKind::Currencies => "deribit://currencies"@,
        ResourceKind::Instruments => "deribit://instruments/"@,
        ResourceKind::Book => "deribit://book/"@,
        ResourceKind::Ticker => "deribit://ticker/"@,
        ResourceKind::Trades => "deribit://trades/"@,
    }
}

/// The canonical text of a URI.
pub open spec fn uri_text(u: (ResourceKind, Seq<char>)) -> Seq<char> {
    match u.0 {
        ResourceKind::Currencies => uri_prefix(ResourceKind::Currencies),
        _ => uri_prefix(u.0) + u.1,
    }
}

/// A URI that [`uri_text`] prints in its canonical, parsable form.
pub open spec fn well_formed_uri(u: (ResourceKind, Seq<char>)) -> bool {
    match u.0 {
        ResourceKind::Currencies => u.1.len() == 0,
        _ => valid_segment(u.1),
    }
}

/// `s` starts with `p` and the rest is a well-formed segment.
pub open spec fn templated(s: Seq<char>, p: Seq<char>) -> bool {
    s.len() >= p.len() && s.take(p.len() as int) == p && valid_segment(s.skip(p.len() as int))
}

/// The URI that `s` denotes: `deribit://currencies`, or one of the four
/// templates with a well-formed segment; anything else (another scheme,
/// an unknown head, a missing or malformed segment) denotes none.
pub open spec fn parsed_uri(s: Seq<char>) -> Option<(ResourceKind, Seq<char>)> {
    let i = uri_prefix(ResourceKind::Instruments);
    let b = uri_prefix(ResourceKind::Book);
    let t = uri_prefix(ResourceKind::Ticker);
    let r = uri_prefix(ResourceKind::Trades);
    if s == uri_prefix(ResourceKind::Currencies) {
        Some((ResourceKind::Currencies, Seq::<char>::empty()))
    } else if templated(s, i) {
        Some((ResourceKind::Instruments, s.skip(i.len() as int)))
    } else if templated(s, b) {
        Some((ResourceKind::Book, s.skip(b.len() as int)))
    } else if templated(s, t) {
        Some((ResourceKind::Ticker, s.skip(t.len() as int)))
    } else if templated(s, r) {
        Some((ResourceKind::Trades, s.skip(r.len() as int)))
    } else {
        None
    }
}

/// The message of the unsupported-URI error.
pub open spec fn unsupported_uri_message(s: Seq<char>) -> Seq<char> {
    "unsupported resource URI `"@ + s
        + "`; expected deribit://currencies or deribit://{instruments|book|ticker|trades}/<name>"@
}

fn segment_ok(s: &str, from: usize) -> (r: bool)
    requires
        from <= s@.len(),
    ensures
        r == valid_segment(s@.skip(from as int)),
{
    let n = s.unicode_len();
    if from >= n {
        return false;
    }
    let mut i = from;
    while i < n
        invariant
            from <= i <= n,
            n == s@.len(),
            forall|k: int| from <= k < i ==> segment_char(#[trigger] s@[k]),
        decreases n - i,
    {
        let c = s.get_char(i);
        let ok = ('A' <= c && c <= 'Z') || ('a' <= c && c <= 'z') || ('0' <= c && c <= '9') || c
            == '-' || c == '_' || c == '.';
        if !ok {
            assert(s@.skip(from as int)[i - from] == c);
            return false;
        }
        i = i + 1;
    }
    assert forall|k: int| 0 <= k < s@.skip(from as int).len() implies segment_char(
        #[trigger] s@.skip(from as int)[k],
    ) by {
        assert(s@.skip(from as int)[k] == s@[from + k]);
    }
    true
}

fn templated_in(s: &str, p: &str) -> (r: bool)
    ensures
        r == templated(s@, p@),
{
    str_starts_with(s, p) && segment_ok(s, p.unicode_len())
}

/// Parse a `deribit://` resource URI.
///
/// # Errors
///
/// A validation error on `uri` for anything but the canonical forms: a
/// wrong scheme, an unknown head, a missing or malformed segment.
pub fn parse_resource_uri(s: &str) -> (r: Result<ResourceUri, AdapterError>)
    ensures
        match parsed_uri(s@) {
            Some(u) => r matches Ok(x) && x@ == u,
            None => r matches Err(e) && is_validation(e, "uri"@, unsupported_uri_message(s@)),
        },
{
    proof {
        reveal_strlit("deribit://currencies");
        reveal_strlit("deribit://instruments/");
        reveal_strlit("deribit://book/");
        reveal_strlit("deribit://ticker/");
        reveal_strlit("deribit://trades/");
    }
    let n = s.unicode_len();
    if str_equal(s, "deribit://currencies") {
        return Ok(ResourceUri::Currencies);
    }
    if templated_in(s, "deribit://instruments/") {
        return Ok(ResourceUri::Instruments { currency: owned(s.substring_char(22, n)) });
    }
    if templated_in(s, "deribit://book/") {
        return Ok(ResourceUri::Book { instrument: owned(s.substring_char(15, n)) });
    }
    if templated_in(s, "deribit://ticker/") {
        return Ok(ResourceUri::Ticker { instrument: owned(s.substring_char(17, n)) });
    }
    if templated_in(s, "deribit://trades/") {
        return Ok(ResourceUri::Trades { instrument: owned(s.substring_char(17, n)) });
    }
    let mut message = owned("unsupported resource URI `");
    push_str(&mut message, s);
    push_str(
        &mut message,
        "`; expected deribit://currencies or deribit://{instruments|book|ticker|trades}/<name>",
    );
    Err(AdapterError::validation("uri", message))
}

impl ResourceUri {
    /// The canonical `deribit://` form.
    pub fn to_uri(&self) -> (r: String)
        ensures
            r@ == uri_text(self@),
    {
        match self {
            ResourceUri::Currencies => owned("deribit://currencies"),
            ResourceUri::Instruments { currency } => {
                let mut s = owned("deribit://instruments/");
                push_str(&mut s, currency.as_str());
                s
            },
            ResourceUri::Book { instrument } => {
                let mut s = owned("deribit://book/");
                push_str(&mut s, instrument.as_str());
                s
            },
            ResourceUri::Ticker { instrument } => {
                let mut s = owned("deribit://ticker/");
                push_str(&mut s, instrument.as_str());
                s
            },
            ResourceUri::Trades { instrument } => {
                let mut s = owned("deribit://trades/");
                push_str(&mut s, instrument.as_str());
                s
            },
        }
    }
}

/// Parsing then printing gives the text back: every accepted text is the
/// canonical form of the well-formed URI it denotes.
pub proof fn lemma_parse_then_print(s: Seq<char>)
    requires
        parsed_uri(s) is Some,
    ensures
        uri_text(parsed_uri(s)->0) == s,
        well_formed_uri(parsed_uri(s)->0),
{
    let u = parsed_uri(s)->0;
    if u.0 != ResourceKind::Currencies {
        assert(s.take(uri_prefix(u.0).len() as int) + s.skip(uri_prefix(u.0).len() as int) =~= s);
    }
}

/// Printing then parsing gives the URI back: the canonical form of a
/// well-formed URI denotes that URI.
pub proof fn lemma_print_then_parse(u: (ResourceKind, Seq<char>))
    requires
        well_formed_uri(u),
    ensures
        parsed_uri(uri_text(u)) == Some(u),
{
    reveal_strlit("deribit://currencies");
    reveal_strlit("deribit://instruments/");
    reveal_strlit("deribit://book/");
    reveal_strlit("deribit://ticker/");
    reveal_strlit("deribit://trades/");
    let s = uri_text(u);
    if u.0 != ResourceKind::Currencies {
        let p = uri_prefix(u.0);
        assert(s.take(p.len() as int) =~= p);
        assert(s.skip(p.len() as int) =~= u.1);
        assert(s[10] == p[10]);
        assert(s[11] == p[11]);
        assert(s != uri_prefix(ResourceKind::Currencies));
    }
}

} // verus!
