//! The token validator: decides whether a bearer token is expired. A token is
//! three dot-separated base64url segments whose middle segment is a JSON
//! object carrying an `exp` claim (seconds since the Unix epoch). Any
//! malformed token counts as expired, so a bad credential can only ever force
//! a re-authentication, never an unhandled failure.

use vstd::prelude::*;
use vstd::string::StringSliceAdditionalSpecFns;

verus! {

/// Byte 46 is the ASCII dot that separates the token's segments.
pub open spec fn is_dot_split(s: Seq<u8>, i: int, j: int) -> bool {
    &&& 0 <= i < j < s.len()
    &&& s[i] == 46u8
    &&& s[j] == 46u8
    &&& forall|k: int| 0 <= k < s.len() && k != i && k != j ==> s[k] != 46u8
}

/// The token text splits into exactly three segments: it holds exactly two
/// dots (segments themselves may be empty).
pub open spec fn has_three_segments(s: Seq<u8>) -> bool {
    exists|i: int, j: int| is_dot_split(s, i, j)
}

/// The middle segment: the bytes strictly between the two dots.
pub open spec fn spec_middle_segment(s: Seq<u8>) -> Seq<u8> {
    let (i, j) = choose|i: int, j: int| is_dot_split(s, i, j);
    s.subrange(i + 1, j)
}

/// A token has at most one way to split on its two dots.
pub proof fn lemma_dot_split_unique(s: Seq<u8>, i1: int, j1: int, i2: int, j2: int)
    requires
        is_dot_split(s, i1, j1),
        is_dot_split(s, i2, j2),
    ensures
        i1 == i2,
        j1 == j2,
{
    assert(i2 == i1 || i2 == j1);
    assert(j2 == i1 || j2 == j1);
    assert(i1 == i2 || i1 == j2);
    assert(j1 == i2 || j1 == j2);
}

/// Byte 61 is the ASCII `=` used as base64 padding: the segment extended to a
/// multiple of four characters, as the decoder expects it.
pub open spec fn spec_pad4(s: Seq<u8>) -> Seq<u8> {
    if s.len() % 4 == 0 {
        s
    } else {
        s + Seq::new((4 - s.len() % 4) as nat, |i: int| 61u8)
    }
}

/// What base64url decoding (URL-safe alphabet, padded) returns on the given
/// bytes; `None` when they are not valid base64url.
pub uninterp spec fn b64url_decode_of(s: Seq<u8>) -> Option<Seq<u8>>;

/// Relies on base64's `Engine::decode` with the `URL_SAFE` engine (URL-safe
/// alphabet, padded config): the decoding is a function of the input bytes
/// alone, and fails exactly on input that is not valid base64url.
#[verifier::external_body]
fn b64url_decode(input: &[u8]) -> (r: Option<Vec<u8>>)
    ensures
        match r {
            Some(v) => b64url_decode_of(input@) == Some(v@),
            None => b64url_decode_of(input@) is None,
        },
{
    <base64::engine::GeneralPurpose as base64::Engine>::decode(
        &base64::engine::general_purpose::URL_SAFE,
        input,
    ).ok()
}

/// The integral `exp` member of the JSON document held in the given bytes;
/// `None` when the bytes are not JSON or no such member exists.
pub uninterp spec fn exp_claim_of(payload: Seq<u8>) -> Option<i64>;

/// Relies on serde_json's `from_slice` (to a `Value`), `Value::get` and
/// `Value::as_i64`: the `exp` lookup is a function of the payload bytes
/// alone — `Some` exactly when the bytes parse as a JSON document whose `exp`
/// member is an integer that fits in an `i64`.
#[verifier::external_body]
fn exp_claim(payload: &[u8]) -> (r: Option<i64>)
    ensures
        r == exp_claim_of(payload@),
{
    match serde_json::from_slice::<serde_json::Value>(payload) {
        Ok(value) => match value.get("exp") {
            Some(member) => member.as_i64(),
            None => None,
        },
        Err(_) => None,
    }
}

/// Whether a token, taken as its byte sequence, is expired at time `now`
/// (seconds since the Unix epoch): true unless the token has three segments,
/// the padded middle segment decodes, the decoded bytes carry an integral
/// `exp` claim, and that claim lies in the future.
pub open spec fn spec_token_expired(token: Seq<u8>, now: int) -> bool {
    if !has_three_segments(token) {
        true
    } else {
        match b64url_decode_of(spec_pad4(spec_middle_segment(token))) {
            Some(payload) => match exp_claim_of(payload) {
                Some(exp) => exp as int <= now,
                None => true,
            },
            None => true,
        }
    }
}

/// The same judgement for a token held as text.
pub open spec fn spec_token_expired_str(token: Seq<char>, now: int) -> bool {
    spec_token_expired(vstd::utf8::encode_utf8(token), now)
}

/// Finds the two segment-separating dots and copies out what lies between
/// them; `None` when the token does not have exactly three segments.
fn middle_segment(token: &[u8]) -> (r: Option<Vec<u8>>)
    ensures
        r is Some <==> has_three_segments(token@),
        r matches Some(v) ==> v@ == spec_middle_segment(token@),
{
    let n = token.len();
    let mut first: Option<usize> = None;
    let mut second: Option<usize> = None;
    let mut i: usize = 0;
    while i < n
        invariant
            n == token@.len(),
            i <= n,
            match (first, second) {
                (None, None) => forall|k: int| 0 <= k < i ==> token@[k] != 46u8,
                (Some(f), None) => {
                    &&& (f as int) < i
                    &&& token@[f as int] == 46u8
                    &&& forall|k: int| 0 <= k < i && k != f ==> token@[k] != 46u8
                },
                (Some(f), Some(s)) => {
                    &&& (f as int) < s
                    &&& (s as int) < i
                    &&& token@[f as int] == 46u8
                    &&& token@[s as int] == 46u8
                    &&& forall|k: int| 0 <= k < i && k != f && k != s ==> token@[k] != 46u8
                },
                (None, Some(_)) => false,
            },
        decreases n - i,
    {
        if token[i] == 46u8 {
            if first.is_none() {
                first = Some(i);
            } else if second.is_none() {
                second = Some(i);
            } else {
                // A third dot: more than three segments.
                proof {
                    let f = first->0 as int;
                    let s = second->0 as int;
                    assert(!has_three_segments(token@)) by {
                        if has_three_segments(token@) {
                            let (a, b) = choose|a: int, b: int| is_dot_split(token@, a, b);
                            assert(f == a || f == b);
                            assert(s == a || s == b);
                            assert(i == a || i == b);
                        }
                    }
                }
                return None;
            }
        }
        i += 1;
    }
    match (first, second) {
        (Some(f), Some(s)) => {
            proof {
                assert(is_dot_split(token@, f as int, s as int));
            }
            let mut mid: Vec<u8> = Vec::new();
            let mut k: usize = f + 1;
            while k < s
                invariant
                    f < s < token@.len(),
                    f + 1 <= k <= s,
                    mid@ == token@.subrange(f + 1, k as int),
                decreases s - k,
            {
                mid.push(token[k]);
                proof {
                    assert(mid@ =~= token@.subrange(f + 1, k + 1));
                }
                k += 1;
            }
            proof {
                let (a, b) = choose|a: int, b: int| is_dot_split(token@, a, b);
                lemma_dot_split_unique(token@, a, b, f as int, s as int);
            }
            Some(mid)
        },
        (Some(f), None) => {
            proof {
                assert(!has_three_segments(token@)) by {
                    if has_three_segments(token@) {
                        let (a, b) = choose|a: int, b: int| is_dot_split(token@, a, b);
                        assert(a == f && b == f);
                    }
                }
            }
            None
        },
        _ => {
            proof {
                assert(!has_three_segments(token@)) by {
                    if has_three_segments(token@) {
                        let (a, b) = choose|a: int, b: int| is_dot_split(token@, a, b);
                        assert(token@[a] == 46u8);
                    }
                }
            }
            None
        },
    }
}

/// Whether the token is expired at time `now` (seconds since the Unix epoch).
/// Splits the token on dots, base64url-decodes the middle segment (padding it
/// first), reads the `exp` claim from the decoded JSON, and compares it to
/// `now`; every malformed token resolves to "expired" rather than to an error.
pub fn is_token_expired(token: &str, now: i64) -> (r: bool)
    ensures
        r == spec_token_expired(token.spec_bytes(), now as int),
        r == spec_token_expired_str(token@, now as int),
{
    let bytes: &[u8] = token.as_bytes();
    match middle_segment(bytes) {
        None => true,
        Some(mut mid) => {
            let ghost unpadded = mid@;
            while mid.len() % 4 != 0
                invariant
                    spec_pad4(mid@) == spec_pad4(unpadded),
                    mid@.len() <= unpadded.len() + 3,
                decreases (4 - mid@.len() % 4) % 4,
            {
                proof {
                    assert(spec_pad4(mid@.push(61u8)) =~= spec_pad4(mid@));
                }
                mid.push(61u8);
            }
            proof {
                assert(spec_pad4(mid@) =~= mid@);
            }
            match b64url_decode(mid.as_slice()) {
                None => true,
                Some(payload) => match exp_claim(payload.as_slice()) {
                    None => true,
                    Some(exp) => exp <= now,
                },
            }
        },
    }
}

/// A well-formed token — three segments, a middle segment that decodes, and
/// claims carrying an integral `exp` — is expired exactly when `exp` has
/// passed: true for `exp` in the past (or equal to `now`), false for `exp` in
/// the future.
pub proof fn lemma_expired_iff_exp_passed(token: Seq<u8>, now: int, payload: Seq<u8>, exp: i64)
    requires
        has_three_segments(token),
        b64url_decode_of(spec_pad4(spec_middle_segment(token))) == Some(payload),
        exp_claim_of(payload) == Some(exp),
    ensures
        spec_token_expired(token, now) == (exp as int <= now),
{
}

/// A malformed token — wrong segment count, a middle segment that is not
/// base64url, or decoded claims without an integral `exp` — is always treated
/// as expired.
pub proof fn lemma_malformed_token_expired(token: Seq<u8>, now: int)
    requires
        !has_three_segments(token) || b64url_decode_of(spec_pad4(spec_middle_segment(token))) is None
            || (b64url_decode_of(spec_pad4(spec_middle_segment(token))) matches Some(p)
            && exp_claim_of(p) is None),
    ensures
        spec_token_expired(token, now),
{
}

/// Chooses the JWT to present: the cached one when the cache held one, else
/// the one freshly requested from the login endpoint.
pub fn get_valid_jwt(cached: Option<String>, requested: String) -> (jwt: String)
    ensures
        jwt == match cached {
            Some(c) => c,
            None => requested,
        },
{
    match cached {
        Some(c) => c,
        None => requested,
    }
}

} // verus!
