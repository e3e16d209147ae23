//! Cryptographic primitives of the request-authorization pipeline: lowercase
//! hex encoding, HMAC-SHA-512 tags, the HKDF expansion that turns a session
//! key into a bearer token, the wall clock, and constant-time comparison.
//!
//! The primitives themselves are outside code; each is reached through one
//! trusted wrapper whose contract names its result. Everything built on top
//! of the wrappers is verified.

use vstd::prelude::*;

verus! {

use vstd::string::StringSliceAdditionalSpecFns;

/// The character for one hexadecimal digit, lowercase.
pub open spec fn hex_digit_char(n: u8) -> char
    recommends
        n < 16,
{
    if n < 10 {
        ((n + 48) as char)
    } else {
        ((n + 87) as char)
    }
}

/// The lowercase hexadecimal rendering of a byte string: two digits per
/// byte, high nibble first.
pub open spec fn hex_of(bytes: Seq<u8>) -> Seq<char>
    decreases bytes.len(),
{
    if bytes.len() == 0 {
        Seq::empty()
    } else {
        seq![hex_digit_char(bytes.first() / 16), hex_digit_char(bytes.first() % 16)] + hex_of(
            bytes.drop_first(),
        )
    }
}

/// Hex encoding writes two characters per byte.
pub proof fn lemma_hex_of_len(bytes: Seq<u8>)
    ensures
        hex_of(bytes).len() == 2 * bytes.len(),
    decreases bytes.len(),
{
    if bytes.len() > 0 {
        lemma_hex_of_len(bytes.drop_first());
    }
}

/// Relies on `hex::encode`: it renders bytes as lowercase hexadecimal, two
/// digits per byte, high nibble first, as `hex_of` states.
#[verifier::external_body]
pub(crate) fn hex_encode(bytes: &[u8]) -> (r: String)
    ensures
        r@ == hex_of(bytes@),
{
    hex::encode(bytes)
}

/// The HMAC-SHA-512 tag under a key. The tag is a function of key and
/// message alone; nothing further is assumed of it.
pub uninterp spec fn hmac_sha512_of(key: Seq<u8>, message: Seq<u8>) -> Seq<u8>;

/// Relies on `hmac::Hmac<sha2::Sha512>`: the tag depends on key and message
/// alone, is 64 bytes long, and a key of any length is accepted.
#[verifier::external_body]
pub(crate) fn hmac_sha512(key: &[u8], message: &[u8]) -> (r: Result<Vec<u8>, String>)
    ensures
        r is Ok,
        r matches Ok(tag) ==> tag@ == hmac_sha512_of(key@, message@) && tag@.len() == 64,
{
    match <hmac::Hmac<sha2::Sha512> as hmac::Mac>::new_from_slice(key) {
        Ok(mut mac) => {
            hmac::Mac::update(&mut mac, message);
            Ok(hmac::Mac::finalize(mac).into_bytes().to_vec())
        },
        Err(error) => Err(error.to_string()),
    }
}

/// The 64 bytes that HKDF-SHA-512 expands a session key to under the info
/// string `"opaque-session-token"`, skipping the extract stage. The output
/// is a function of the key alone.
pub uninterp spec fn session_token_bytes_of(session_key: Seq<u8>) -> Seq<u8>;

/// Relies on `hkdf::Hkdf::<sha2::Sha512>::from_prk` and `expand`: `from_prk`
/// accepts exactly the keys of at least 64 bytes (the SHA-512 output size)
/// and fails with the message below otherwise; expanding to 64 bytes never
/// fails; the output depends on the key alone.
#[verifier::external_body]
fn expand_session_token(session_key: &[u8]) -> (r: Result<Vec<u8>, String>)
    ensures
        r is Ok <==> session_key@.len() >= 64,
        r matches Ok(okm) ==> okm@ == session_token_bytes_of(session_key@) && okm@.len() == 64,
        r matches Err(m) ==> m@ == "invalid pseudorandom key length, too short"@,
{
    let hk = match hkdf::Hkdf::<sha2::Sha512>::from_prk(session_key) {
        Ok(hk) => hk,
        Err(error) => {
            return Err(error.to_string());
        },
    };
    let mut okm = vec![0u8; 64];
    match hk.expand(b"opaque-session-token", &mut okm) {
        Ok(()) => Ok(okm),
        Err(error) => Err(error.to_string()),
    }
}

/// Relies on `std::time::SystemTime::now` and `duration_since` against the
/// Unix epoch: reads the wall clock as whole seconds since the epoch, and
/// fails when the clock stands before the epoch. Nothing is assumed of the
/// value read.
#[verifier::external_body]
pub fn now_unix_seconds() -> (r: Result<u64, String>) {
    match std::time::SystemTime::now().duration_since(std::time::UNIX_EPOCH) {
        Ok(duration) => Ok(duration.as_secs()),
        Err(error) => Err(error.to_string()),
    }
}

/// The bearer token a 64-byte session key derives to: the HKDF expansion of
/// the key, rendered as 128 characters of lowercase hex.
pub open spec fn bearer_token_of(session_key: Seq<u8>) -> Seq<char> {
    hex_of(session_token_bytes_of(session_key))
}

/// Derives the bearer token from a session key, exactly as a client holding
/// the same key derives it. Fails for keys shorter than 64 bytes.
pub fn derive_bearer_token(session_key: &[u8]) -> (r: Result<String, String>)
    ensures
        r is Ok <==> session_key@.len() >= 64,
        r matches Ok(token) ==> token@ == bearer_token_of(session_key@) && token@.len() == 128,
        r matches Err(m) ==> m@ == "invalid pseudorandom key length, too short"@,
{
    match expand_session_token(session_key) {
        Ok(okm) => {
            proof {
                lemma_hex_of_len(okm@);
            }
            Ok(hex_encode(okm.as_slice()))
        },
        Err(message) => Err(message),
    }
}

/// The bearer token is a function of the session key: two derivations from
/// equal keys agree, whichever side performs them.
pub proof fn lemma_bearer_token_stable(key_one: Seq<u8>, key_two: Seq<u8>)
    requires
        key_one == key_two,
    ensures
        bearer_token_of(key_one) == bearer_token_of(key_two),
{
}

/// The canonical text a signed request commits to: verb, URI and timestamp
/// joined by ASCII pipes, with no surrounding whitespace.
pub open spec fn canonical_request(verb: Seq<char>, uri: Seq<char>, timestamp: Seq<char>) -> Seq<
    char,
> {
    verb + "|"@ + uri + "|"@ + timestamp
}

/// The signature a client holding `key` presents for a request: the
/// HMAC-SHA-512 tag over the canonical text, in lowercase hex.
pub open spec fn expected_signature(
    key: Seq<u8>,
    verb: Seq<char>,
    uri: Seq<char>,
    timestamp: Seq<char>,
) -> Seq<char> {
    hex_of(hmac_sha512_of(key, vstd::utf8::encode_utf8(canonical_request(verb, uri, timestamp))))
}

/// Compares two byte slices without leaving the loop early: the running
/// difference accumulates over every position, so the time taken does not
/// depend on where the slices first differ.
fn ct_bytes_eq(a: &[u8], b: &[u8]) -> (r: bool)
    ensures
        r == (a@ == b@),
{
    if a.len() != b.len() {
        proof {
            assert(a@ != b@) by {
                assert(a@.len() != b@.len());
            }
        }
        return false;
    }
    let mut diff: u8 = 0;
    let mut i: usize = 0;
    while i < a.len()
        invariant
            a@.len() == b@.len(),
            0 <= i <= a@.len(),
            (diff == 0) <==> a@.subrange(0, i as int) =~= b@.subrange(0, i as int),
        decreases a@.len() - i,
    {
        let x = a[i];
        let y = b[i];
        proof {
            assert((diff | (x ^ y)) == 0 <==> diff == 0 && x == y) by (bit_vector);
            let next = (i + 1) as int;
            assert(a@.subrange(0, i as int) =~= a@.subrange(0, next).subrange(0, i as int));
            assert(b@.subrange(0, i as int) =~= b@.subrange(0, next).subrange(0, i as int));
            assert(a@[i as int] == a@.subrange(0, next)[i as int]);
            assert(b@[i as int] == b@.subrange(0, next)[i as int]);
            if a@.subrange(0, i as int) == b@.subrange(0, i as int) && x == y {
                assert(a@.subrange(0, next) =~= b@.subrange(0, next));
            }
        }
        diff = diff | (x ^ y);
        i += 1;
    }
    proof {
        assert(a@.subrange(0, a@.len() as int) =~= a@);
        assert(b@.subrange(0, b@.len() as int) =~= b@);
    }
    diff == 0
}

/// Compares two strings in constant time with respect to their contents.
pub fn constant_time_str_eq(a: &str, b: &str) -> (r: bool)
    ensures
        r == (a@ == b@),
{
    let r = ct_bytes_eq(a.as_bytes(), b.as_bytes());
    proof {
        if a.spec_bytes() == b.spec_bytes() {
            vstd::utf8::encode_utf8_decode_utf8(a@);
            vstd::utf8::encode_utf8_decode_utf8(b@);
        }
    }
    r
}

} // verus!
