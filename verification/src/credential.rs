//! Extracting the bearer token from a request's transport: the
//! `Authorization: Bearer <token>` header, or, where a transport cannot
//! carry headers (a long-lived subscription channel), an `authorization`
//! query parameter.  Rejection here happens before any cache lookup or
//! network call.

use vstd::prelude::*;

use crate::errors::AuthError;
use vstd::utf8::encode_utf8;
use vstd::utf8::encode_utf8_valid_utf8;
use vstd::utf8::is_char_boundary;
use vstd::utf8::length_of_first_scalar;
use vstd::utf8::pop_first_scalar;
use vstd::utf8::valid_utf8;
use vstd::string::StringSliceAdditionalSpecFns;

verus! {

/// The bytes of `"Bearer "`, the required credential prefix.
pub open spec fn bearer_prefix() -> Seq<u8> {
    seq![66u8, 101u8, 97u8, 114u8, 101u8, 114u8, 32u8]
}

/// The token carried by a well-formed bearer credential: the bytes after
/// `"Bearer "`, which must be non-empty.  `None` when the credential does
/// not have that shape.
pub open spec fn spec_bearer_token(credential: Seq<u8>) -> Option<Seq<u8>> {
    if credential.len() > 7 && credential.subrange(0, 7) == bearer_prefix() {
        Some(credential.subrange(7, credential.len() as int))
    } else {
        None
    }
}

/// In valid UTF-8, the index after any run of ASCII bytes is a character
/// boundary: an ASCII byte encodes a whole character by itself.
proof fn lemma_ascii_prefix_is_char_boundary(bytes: Seq<u8>, k: int)
    requires
        valid_utf8(bytes),
        0 <= k <= bytes.len(),
        forall|i: int| 0 <= i < k ==> bytes[i] < 128,
    ensures
        is_char_boundary(bytes, k),
    decreases k,
{
    if k > 0 {
        assert(bytes[0] < 128);
        assert(length_of_first_scalar(bytes) == 1);
        let rest = pop_first_scalar(bytes);
        assert(rest =~= bytes.subrange(1, bytes.len() as int));
        assert(forall|i: int| 0 <= i < k - 1 ==> rest[i] < 128);
        lemma_ascii_prefix_is_char_boundary(rest, k - 1);
    }
}

/// Read the token out of an `Authorization` header value.
///
/// A missing header is `MissingCredential`; a header that is not `Bearer `
/// followed by a non-empty token is `MalformedCredential`.  Nothing else is
/// consulted: a bad credential never reaches a cache or the network.
pub fn extract_bearer_token(header: Option<&str>) -> (r: Result<&str, AuthError>)
    ensures
        header is None ==> r == Err::<&str, AuthError>(AuthError::MissingCredential),
        header matches Some(h) ==> match r {
            Ok(t) => spec_bearer_token(h.spec_bytes()) == Some(t.spec_bytes()) && h@ == "Bearer "@
                + t@ && t@ == h@.subrange(7, h@.len() as int) && t@.len() > 0,
            Err(e) => e == AuthError::MalformedCredential && spec_bearer_token(h.spec_bytes())
                is None,
        },
{
    let h = match header {
        None => {
            return Err(AuthError::MissingCredential);
        },
        Some(h) => h,
    };
    let b = h.as_bytes();
    if b.len() <= 7 {
        return Err(AuthError::MalformedCredential);
    }
    if b[0] == 66u8 && b[1] == 101u8 && b[2] == 97u8 && b[3] == 114u8 && b[4] == 101u8 && b[5]
        == 114u8 && b[6] == 32u8 {
        proof {
            assert(h.spec_bytes().subrange(0, 7) =~= bearer_prefix());
            encode_utf8_valid_utf8(h@);
            lemma_ascii_prefix_is_char_boundary(h.spec_bytes(), 7);
        }
        let parts = h.split_at(7);
        proof {
            let bs = h.spec_bytes();
            let t = parts.1;
            reveal_strlit("Bearer ");
            assert(vstd::utf8::is_ascii_chars("Bearer "@));
            vstd::utf8::is_ascii_chars_encode_utf8("Bearer "@);
            assert(encode_utf8("Bearer "@) =~= bearer_prefix());
            vstd::utf8::decode_utf8_split(bs, 7);
            vstd::utf8::encode_utf8_decode_utf8("Bearer "@);
            vstd::utf8::encode_utf8_decode_utf8(h@);
            vstd::utf8::encode_utf8_decode_utf8(t@);
            assert(bs.subrange(0, 7) == encode_utf8("Bearer "@));
            assert(t.spec_bytes() == bs.subrange(7, bs.len() as int));
            assert(h@ == "Bearer "@ + t@);
            if t@.len() == 0 {
                assert(encode_utf8(t@) =~= Seq::<u8>::empty());
                assert(bs.len() <= 7);
            }
            assert(t@ =~= h@.subrange(7, h@.len() as int));
        }
        Ok(parts.1)
    } else {
        proof {
            assert(h.spec_bytes().subrange(0, 7) != bearer_prefix()) by {
                if h.spec_bytes().subrange(0, 7) == bearer_prefix() {
                    assert(h.spec_bytes()[0] == bearer_prefix()[0]);
                    assert(h.spec_bytes()[1] == bearer_prefix()[1]);
                    assert(h.spec_bytes()[2] == bearer_prefix()[2]);
                    assert(h.spec_bytes()[3] == bearer_prefix()[3]);
                    assert(h.spec_bytes()[4] == bearer_prefix()[4]);
                    assert(h.spec_bytes()[5] == bearer_prefix()[5]);
                    assert(h.spec_bytes()[6] == bearer_prefix()[6]);
                }
            }
        }
        Err(AuthError::MalformedCredential)
    }
}

/// What url's `form_urlencoded::parse` yields on a query string: the decoded
/// key/value pairs, in order.
pub uninterp spec fn query_pairs(query: Seq<char>) -> Seq<(Seq<char>, Seq<char>)>;

/// Relies on url's `form_urlencoded::parse`: it splits the query string on
/// `&` and `=` and percent-decodes each side, yielding the pairs in order.
#[verifier::external_body]
fn parse_query_pairs(query: &str) -> (r: Vec<(String, String)>)
    ensures
        r.deep_view() == query_pairs(query@),
{
    url::form_urlencoded::parse(query.as_bytes()).into_owned().collect()
}

/// The value of the last pair named `name`, as a map built left to right
/// (so a repeated parameter resolves to its last occurrence) would give it.
pub open spec fn spec_last_param(
    pairs: Seq<(Seq<char>, Seq<char>)>,
    name: Seq<char>,
) -> Option<Seq<char>>
    decreases pairs.len(),
{
    if pairs.len() == 0 {
        None
    } else if pairs.last().0 == name {
        Some(pairs.last().1)
    } else {
        spec_last_param(pairs.drop_last(), name)
    }
}

/// The token a query-parameter credential carries: the last `authorization`
/// parameter of the query string, which must be non-empty.
pub open spec fn spec_query_token(query: Seq<char>) -> Option<Seq<char>> {
    spec_last_param(query_pairs(query), "authorization"@)
}

/// Read the token out of a request's query string, for transports that
/// cannot carry an `Authorization` header.
///
/// A missing query string or `authorization` parameter is
/// `MissingCredential`; an empty parameter is `MalformedCredential`.
pub fn extract_query_token(query: Option<&str>) -> (r: Result<String, AuthError>)
    ensures
        query is None ==> r == Err::<String, AuthError>(AuthError::MissingCredential),
        query matches Some(q) ==> match r {
            Ok(t) => spec_query_token(q@) == Some(t@) && t@.len() > 0,
            Err(e) => match spec_query_token(q@) {
                Some(v) => e == AuthError::MalformedCredential && v.len() == 0,
                None => e == AuthError::MissingCredential,
            },
        },
{
    let q = match query {
        None => {
            return Err(AuthError::MissingCredential);
        },
        Some(q) => q,
    };
    let pairs = parse_query_pairs(q);
    let ghost pv = pairs.deep_view();
    let name: String = "authorization".to_owned();
    let mut idx = pairs.len();
    proof {
        assert(pv.take(idx as int) =~= pv);
    }
    loop
        invariant
            idx <= pairs.len(),
            query == Some(q),
            pv == pairs.deep_view(),
            pv == query_pairs(q@),
            name@ == "authorization"@,
            spec_last_param(pv, "authorization"@) == spec_last_param(
                pv.take(idx as int),
                "authorization"@,
            ),
        ensures
            idx == 0,
        decreases idx,
    {
        if idx == 0 {
            break ;
        }
        idx = idx - 1;
        proof {
            assert(pv.take(idx + 1).drop_last() =~= pv.take(idx as int));
            assert(pv.take(idx + 1).last() == pv[idx as int]);
            assert(pv[idx as int] == (pairs@[idx as int].0@, pairs@[idx as int].1@));
        }
        if pairs[idx].0 == name {
            let value = pairs[idx].1.clone();
            proof {
                assert(spec_last_param(pv.take(idx + 1), "authorization"@) == Some(
                    pv[idx as int].1,
                ));
            }
            if value.as_str().is_empty() {
                return Err(AuthError::MalformedCredential);
            }
            return Ok(value);
        }
    }
    proof {
        assert(pv.take(0) =~= Seq::<(Seq<char>, Seq<char>)>::empty());
        assert(spec_last_param(pv.take(0), "authorization"@) is None);
        assert(spec_query_token(q@) is None);
    }
    Err(AuthError::MissingCredential)
}

} // verus!
