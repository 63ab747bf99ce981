//! Bearer-token discipline of the HTTP transport.
//!
//! When a token is configured, every request to `/mcp` must carry
//! `Authorization: Bearer <token>`; `/healthz` is never checked. The binary
//! owns the listener and the router and asks [`authorize`] what to do with
//! each `/mcp` request.
use vstd::prelude::*;

verus! {

/// `bytes[i]` when `i` is in range, `0` past the end: the zero padding the
/// comparison folds over.
pub open spec fn padded(bytes: Seq<u8>, i: int) -> u8 {
    if 0 <= i < bytes.len() { bytes[i] } else { 0 }
}

/// Constant-time byte comparison for the bearer-token check.
///
/// XOR-folds over `max(a.len(), b.len())` bytes (the shorter side read as
/// zero-padded), with no early exit, and returns `false` whenever the lengths
/// differ; the result is `true` exactly when the two byte strings are equal.
pub fn constant_time_eq(a: &[u8], b: &[u8]) -> (r: bool)
    ensures
        r == (a@ == b@),
{
    let n = a.len();
    let m = b.len();
    let len = if n >= m { n } else { m };
    let mut diff: u8 = if n != m { 1 } else { 0 };
    let mut i: usize = 0;
    while i < len
        invariant
            n == a@.len(),
            m == b@.len(),
            len == if n >= m { n } else { m },
            i <= len,
            (diff == 0) == (n == m && forall|k: int| 0 <= k < i ==> padded(a@, k) == padded(b@, k)),
        decreases len - i,
    {
        let x: u8 = if i < n { a[i] } else { 0 };
        let y: u8 = if i < m { b[i] } else { 0 };
        let ghost old_diff = diff;
        diff = diff | (x ^ y);
        assert((diff == 0) == (old_diff == 0 && x == y)) by (bit_vector)
            requires
                diff == old_diff | (x ^ y),
        ;
        assert(x == padded(a@, i as int) && y == padded(b@, i as int));
        i = i + 1;
        proof {
            if diff == 0 {
                assert forall|k: int| 0 <= k < i implies padded(a@, k) == padded(b@, k) by {
                    if k < i - 1 {
                    }
                }
            }
        }
    }
    proof {
        if diff == 0 {
            assert forall|k: int| 0 <= k < n implies a@[k] == b@[k] by {
                assert(padded(a@, k) == padded(b@, k));
            }
            assert(a@ =~= b@);
        }
        if a@ == b@ {
            assert forall|k: int| 0 <= k < i implies padded(a@, k) == padded(b@, k) by {}
        }
    }
    diff == 0
}

/// A byte `HeaderValue::to_str` accepts: visible ASCII or horizontal tab.
pub open spec fn is_visible_ascii(b: u8) -> bool {
    (32 <= b && b < 127) || b == 9
}

/// The bytes of the `Bearer ` scheme prefix.
pub open spec fn bearer_prefix() -> Seq<u8> {
    seq![66u8, 101u8, 97u8, 114u8, 101u8, 114u8, 32u8]
}

/// The `Authorization` header value `header` carries exactly the token
/// `expected`: the header is present, every byte is visible ASCII (so it
/// reads as text), it starts with `Bearer `, and the rest equals the token.
pub open spec fn bearer_matches(header: Option<Seq<u8>>, expected: Seq<u8>) -> bool {
    match header {
        Some(v) => (forall|i: int| 0 <= i < v.len() ==> is_visible_ascii(#[trigger] v[i]))
            && v.len() >= 7 && v.take(7) == bearer_prefix() && v.skip(7) == expected,
        None => false,
    }
}

fn all_visible_ascii(v: &[u8]) -> (r: bool)
    ensures
        r == (forall|i: int| 0 <= i < v@.len() ==> is_visible_ascii(#[trigger] v@[i])),
{
    let n = v.len();
    let mut bad = false;
    let mut i: usize = 0;
    while i < n
        invariant
            n == v@.len(),
            i <= n,
            bad == !(forall|k: int| 0 <= k < i ==> is_visible_ascii(#[trigger] v@[k])),
        decreases n - i,
    {
        let b = v[i];
        bad = bad || !((32 <= b && b < 127) || b == 9);
        i = i + 1;
        assert(v@[i - 1] == b);
    }
    !bad
}

/// Copies `v[from..]`.
fn tail(v: &[u8], from: usize) -> (r: Vec<u8>)
    requires
        from <= v@.len(),
    ensures
        r@ == v@.skip(from as int),
{
    let n = v.len();
    let mut r: Vec<u8> = Vec::new();
    let mut i = from;
    while i < n
        invariant
            n == v@.len(),
            from <= i <= n,
            r@ == v@.subrange(from as int, i as int),
        decreases n - i,
    {
        r.push(v[i]);
        i = i + 1;
        assert(r@ =~= v@.subrange(from as int, i as int));
    }
    assert(v@.subrange(from as int, n as int) =~= v@.skip(from as int));
    r
}

/// Whether the `Authorization` header value carries the expected bearer
/// token. `authorization` holds the raw bytes of the header's first value,
/// `None` when the header is absent.
pub fn is_bearer_match(authorization: Option<&[u8]>, expected: &str) -> (r: bool)
    ensures
        r == bearer_matches(
            match authorization {
                Some(v) => Some(v@),
                None => None,
            },
            vstd::string::StringSliceAdditionalSpecFns::spec_bytes(expected),
        ),
{
    let value = match authorization {
        Some(v) => v,
        None => {
            return false;
        },
    };
    if !all_visible_ascii(value) {
        return false;
    }
    if value.len() < 7 {
        return false;
    }
    let prefix_ok = value[0] == 66u8 && value[1] == 101u8 && value[2] == 97u8 && value[3] == 114u8
        && value[4] == 101u8 && value[5] == 114u8 && value[6] == 32u8;
    assert(prefix_ok == (value@.take(7) =~= bearer_prefix()));
    if !prefix_ok {
        return false;
    }
    let token = tail(value, 7);
    constant_time_eq(token.as_slice(), expected.as_bytes())
}

/// What the `/mcp` bearer middleware does with a request.
#[derive(Debug, Clone, Copy, PartialEq, Eq, Structural)]
pub enum BearerDecision {
    /// Pass the request on to the MCP service.
    Forward,
    /// Answer `401 Unauthorized` with `WWW-Authenticate: Bearer`.
    Unauthorized,
}

/// The decision for a configured token (its bytes, `None` when no token is
/// configured) and the `Authorization` header's bytes.
pub open spec fn bearer_decision(expected: Option<Seq<u8>>, header: Option<Seq<u8>>) -> BearerDecision {
    match expected {
        None => BearerDecision::Forward,
        Some(t) => if bearer_matches(header, t) {
            BearerDecision::Forward
        } else {
            BearerDecision::Unauthorized
        },
    }
}

/// The bearer gate: with no token configured every request passes; with a
/// token, a request passes exactly when its `Authorization` header is the
/// text `Bearer ` followed by the token (visible ASCII throughout), so a
/// missing header, another scheme or another token is answered 401.
pub proof fn lemma_bearer_gate(expected: Option<Seq<u8>>, header: Option<Seq<u8>>)
    ensures
        expected is None ==> bearer_decision(expected, header) == BearerDecision::Forward,
        expected is Some && header is None ==> bearer_decision(expected, header)
            == BearerDecision::Unauthorized,
        expected matches Some(t) ==> (header matches Some(v) ==> (bearer_decision(expected, header)
            == BearerDecision::Forward <==> (v == seq![66u8, 101u8, 97u8, 114u8, 101u8, 114u8, 32u8]
            + t && forall|i: int| 0 <= i < v.len() ==> is_visible_ascii(#[trigger] v[i])))),
{
    if let Some(t) = expected {
        if let Some(v) = header {
            let p = seq![66u8, 101u8, 97u8, 114u8, 101u8, 114u8, 32u8];
            if v == p + t {
                assert(v.take(7) =~= p);
                assert(v.skip(7) =~= t);
            }
            if v.len() >= 7 && v.take(7) == p && v.skip(7) == t {
                assert(v =~= p + t);
            }
        }
    }
}

/// Bearer check for one `/mcp` request: with no token configured every
/// request is forwarded; otherwise only those whose `Authorization` header
/// carries the token.
pub fn authorize(expected: Option<&str>, authorization: Option<&[u8]>) -> (r: BearerDecision)
    ensures
        r == bearer_decision(
            match expected {
                Some(t) => Some(vstd::string::StringSliceAdditionalSpecFns::spec_bytes(t)),
                None => None,
            },
            match authorization {
                Some(v) => Some(v@),
                None => None,
            },
        ),
{
    match expected {
        None => BearerDecision::Forward,
        Some(t) => if is_bearer_match(authorization, t) {
            BearerDecision::Forward
        } else {
            BearerDecision::Unauthorized
        },
    }
}

} // verus!
