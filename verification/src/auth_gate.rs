//! The auth gate: turns the raw value of the authorization header into an
//! authenticated identity, or rejects the request.
//!
//! A missing header, an empty value, a value too short to carry a scheme
//! prefix, a bad signature and an expired token all collapse into one
//! unauthenticated outcome — the caller learns nothing about which check
//! failed. The token is the characters after the six-character scheme
//! prefix, with surrounding whitespace trimmed; `trimmed_token` states that
//! exactly, and the contract promises the outcome of checking exactly that
//! substring.
//!
//! A `UserAuthentication` value cannot be built outside this module: holding
//! one proves the request passed validation.

use vstd::prelude::*;

use crate::errors::AuthError;
use crate::token::{jwt_claims_of, jwt_of, validate_token};

verus! {

/// The authenticated identity of a request: the token it sent and the user
/// identifier the token proved. Constructible only by `authenticate_at`.
#[derive(Clone, Debug)]
pub struct UserAuthentication {
    authentication_token: String,
    uuid: String,
}

impl UserAuthentication {
    /// The header value the request authenticated with.
    pub closed spec fn token_spec(&self) -> Seq<char> {
        self.authentication_token@
    }

    /// The identifier of the user the request acts for.
    pub closed spec fn uuid_spec(&self) -> Seq<char> {
        self.uuid@
    }

    /// The header value the request authenticated with.
    pub fn authentication_token(&self) -> (r: &String)
        ensures
            r@ == self.token_spec(),
    {
        &self.authentication_token
    }

    /// The identifier of the user the request acts for.
    pub fn uuid(&self) -> (r: &String)
        ensures
            r@ == self.uuid_spec(),
    {
        &self.uuid
    }
}

/// Whitespace around a sent token.
pub open spec fn is_token_space(c: char) -> bool {
    c == ' ' || c == '\t' || c == '\r' || c == '\n'
}

/// The sequence with its leading whitespace removed.
pub open spec fn trim_leading(s: Seq<char>) -> Seq<char>
    decreases s.len(),
{
    if s.len() > 0 && is_token_space(s[0]) {
        trim_leading(s.skip(1))
    } else {
        s
    }
}

/// The sequence with its trailing whitespace removed.
pub open spec fn trim_trailing(s: Seq<char>) -> Seq<char>
    decreases s.len(),
{
    if s.len() > 0 && is_token_space(s.last()) {
        trim_trailing(s.drop_last())
    } else {
        s
    }
}

/// The token carried by a header value of six or more characters: what
/// stands after the six-character scheme prefix, trimmed of surrounding
/// whitespace.
pub open spec fn trimmed_token(header: Seq<char>) -> Seq<char> {
    trim_trailing(trim_leading(header.skip(6)))
}

/// Removing leading whitespace is taking the suffix from the first
/// non-whitespace position.
proof fn lemma_trim_leading_at(s: Seq<char>, a: int)
    requires
        0 <= a <= s.len(),
        forall|k: int| 0 <= k < a ==> is_token_space(s[k]),
        a == s.len() || !is_token_space(s[a]),
    ensures
        trim_leading(s) == s.skip(a),
    decreases a,
{
    if a == 0 {
        assert(s.skip(0) =~= s);
    } else {
        lemma_trim_leading_at(s.skip(1), a - 1);
        assert(s.skip(1).skip(a - 1) =~= s.skip(a));
    }
}

/// Removing trailing whitespace is taking the prefix up to the last
/// non-whitespace position.
proof fn lemma_trim_trailing_at(s: Seq<char>, b: int)
    requires
        0 <= b <= s.len(),
        forall|k: int| b <= k < s.len() ==> is_token_space(s[k]),
        b == 0 || !is_token_space(s[b - 1]),
    ensures
        trim_trailing(s) == s.take(b),
    decreases s.len(),
{
    if b == s.len() {
        assert(s.take(b) =~= s);
    } else {
        assert(is_token_space(s.last()));
        lemma_trim_trailing_at(s.drop_last(), b);
        assert(s.drop_last().take(b) =~= s.take(b));
    }
}

/// A header framed as the scheme prefix followed by a token carries exactly
/// that token: for any `t` without whitespace at its edges, authentication
/// examines `t` itself when the header is `"Bearer " + t`. Together with
/// `authenticate_at`'s contract this closes the loop from issuance onward: a
/// header framing an issued token authenticates as the token's subject while
/// the token lives.
pub proof fn lemma_bearer_header_carries_token(header: Seq<char>, t: Seq<char>)
    requires
        header == "Bearer "@ + t,
        t.len() > 0,
        !is_token_space(t[0]),
        !is_token_space(t[t.len() - 1]),
    ensures
        header.len() >= 6,
        trimmed_token(header) == t,
{
    reveal_strlit("Bearer ");
    let sub = header.skip(6);
    assert(sub =~= seq![' '] + t);
    assert(sub[0] == ' ');
    assert(sub[1] == t[0]);
    lemma_trim_leading_at(sub, 1);
    assert(sub.skip(1) =~= t);
    lemma_trim_trailing_at(t, t.len() as int);
    assert(t.take(t.len() as int) =~= t);
}

/// Whether this character counts as whitespace around a sent token.
fn char_is_token_space(c: char) -> (r: bool)
    ensures
        r == is_token_space(c),
{
    c == ' ' || c == '\t' || c == '\r' || c == '\n'
}

/// Authenticates the raw authorization header value at time `now`.
///
/// A missing header fails with `NoAuthenticationToken`. A header too short
/// to carry the scheme prefix fails with `InvalidAuthenticationToken`; so
/// does one that is empty after the prefix and the trimming, and so does
/// every token the validation rejects — the malformed, the wrongly signed
/// and the expired alike. Success only ever comes from a trimmed token that
/// decodes under `secret` to claims whose expiry lies strictly past `now`,
/// and the identity carries that token's subject. For a header whose
/// trimmed token is the signed embedding of claims `(e, s)` under `secret`,
/// the outcome is exact: the identity of user `s`, carrying the sent header
/// value, whenever `now < e`, and a rejection otherwise.
pub fn authenticate_at(header: Option<&str>, secret: &str, now: u64) -> (r: Result<
    UserAuthentication,
    AuthError,
>)
    ensures
        header is None ==> r == Err::<UserAuthentication, AuthError>(
            AuthError::NoAuthenticationToken,
        ),
        (header matches Some(h) && h@.len() < 6) ==> r == Err::<UserAuthentication, AuthError>(
            AuthError::InvalidAuthenticationToken,
        ),
        r is Err ==> (r == Err::<UserAuthentication, AuthError>(AuthError::NoAuthenticationToken)
            <==> header is None),
        header matches Some(h) ==> (h@.len() >= 6 && trimmed_token(h@).len() == 0 ==> r == Err::<
            UserAuthentication,
            AuthError,
        >(AuthError::InvalidAuthenticationToken)),
        header matches Some(h) ==> (h@.len() >= 6 && trimmed_token(h@).len() > 0 ==> (forall|
            e: u64,
            s: Seq<char>,
        |
            trimmed_token(h@) == #[trigger] jwt_of(secret@, e, s) ==> if now < e {
                r matches Ok(a) && a.uuid_spec() == s && a.token_spec() == h@
            } else {
                r == Err::<UserAuthentication, AuthError>(AuthError::InvalidAuthenticationToken)
            })),
        r matches Ok(a) ==> (header matches Some(h) && a.token_spec() == h@ && h@.len() >= 6 && (
        jwt_claims_of(secret@, trimmed_token(h@)) matches Some(p) && now < p.0 && a.uuid_spec()
            == p.1)),
{
    let h: &str = match header {
        None => {
            return Err(AuthError::NoAuthenticationToken);
        },
        Some(h) => h,
    };
    let n = h.unicode_len();
    if n < 6 {
        return Err(AuthError::InvalidAuthenticationToken);
    }
    let mut a: usize = 6;
    while a < n && char_is_token_space(h.get_char(a))
        invariant
            6 <= a <= n,
            n == h@.len(),
            forall|k: int| 6 <= k < a ==> is_token_space(h@[k]),
        decreases n - a,
    {
        a = a + 1;
    }
    let mut b: usize = n;
    while b > a && char_is_token_space(h.get_char(b - 1))
        invariant
            a <= b <= n,
            n == h@.len(),
            forall|k: int| b <= k < n ==> is_token_space(h@[k]),
        decreases b,
    {
        b = b - 1;
    }
    proof {
        let sub = h@.skip(6);
        lemma_trim_leading_at(sub, a - 6);
        if a == b {
            assert(trim_leading(sub) =~= Seq::<char>::empty());
            assert(trimmed_token(h@) =~= h@.subrange(a as int, b as int));
        } else {
            lemma_trim_trailing_at(trim_leading(sub), b - a);
            assert(trim_leading(sub).take(b - a) =~= h@.subrange(a as int, b as int));
        }
        assert(trimmed_token(h@) == h@.subrange(a as int, b as int));
    }
    if a == b {
        return Err(AuthError::InvalidAuthenticationToken);
    }
    let token = h.substring_char(a, b);
    match validate_token(token, secret, now) {
        Ok(claims) => {
            let owned = String::from_str(h);
            Ok(UserAuthentication { authentication_token: owned, uuid: claims.uuid })
        },
        Err(_) => Err(AuthError::InvalidAuthenticationToken),
    }
}

} // verus!
