//! Password hashing, digests, encodings and randomness, from the outside
//! crates that the router relies on (argon2, sha2, base64, rand, uuid).
//!
//! Each function here is trusted: its body calls the outside crate and its
//! contract states what that crate's source and documentation show.

use vstd::prelude::*;
use vstd::string::StringSliceAdditionalSpecFns;
use argon2::password_hash::rand_core::OsRng;
use argon2::password_hash::{PasswordHash, PasswordHasher, PasswordVerifier, Salt, SaltString};
use argon2::Argon2;
use base64::Engine;
use rand::RngCore;
use sha2::{Digest, Sha256};

verus! {

#[verifier::external_type_specification]
#[verifier::external_body]
pub struct ExPasswordHashError(argon2::password_hash::Error);

/// Whether `hash` is a string that `PasswordHash::new` accepts as a PHC
/// password hash.
pub uninterp spec fn phc_parses(hash: Seq<char>) -> bool;

/// Whether Argon2 in its default configuration accepts `password` for the
/// PHC string `hash` (`PasswordVerifier::verify_password` returns `Ok`).
pub uninterp spec fn phc_verifies(password: Seq<char>, hash: Seq<char>) -> bool;

/// The SHA-256 digest of `data`.
pub uninterp spec fn sha256(data: Seq<u8>) -> Seq<u8>;

/// The character of the 6-bit value `n` in the URL-safe Base64 alphabet
/// (`A`-`Z`, `a`-`z`, `0`-`9`, `-`, `_`).
pub open spec fn base64_url_char(n: int) -> char {
    if n < 26 {
        (65 + n) as char
    } else if n < 52 {
        (71 + n) as char
    } else if n < 62 {
        (n - 4) as char
    } else if n == 62 {
        '-'
    } else {
        '_'
    }
}

/// The URL-safe Base64 encoding of `data` without padding: each group of
/// three bytes becomes four characters, a last group of one or two bytes
/// two or three.
pub open spec fn base64_url_nopad(d: Seq<u8>) -> Seq<char>
    decreases d.len(),
{
    if d.len() == 0 {
        seq![]
    } else if d.len() == 1 {
        seq![base64_url_char((d[0] as int) / 4), base64_url_char(((d[0] as int) % 4) * 16)]
    } else if d.len() == 2 {
        seq![
            base64_url_char((d[0] as int) / 4),
            base64_url_char(((d[0] as int) % 4) * 16 + (d[1] as int) / 16),
            base64_url_char(((d[1] as int) % 16) * 4),
        ]
    } else {
        seq![
            base64_url_char((d[0] as int) / 4),
            base64_url_char(((d[0] as int) % 4) * 16 + (d[1] as int) / 16),
            base64_url_char(((d[1] as int) % 16) * 4 + (d[2] as int) / 64),
            base64_url_char((d[2] as int) % 64),
        ] + base64_url_nopad(d.subrange(3, d.len() as int))
    }
}

/// Whether `c` is a character of the URL-safe Base64 alphabet.
pub open spec fn url_safe_char(c: char) -> bool {
    ('A' <= c <= 'Z') || ('a' <= c <= 'z') || ('0' <= c <= '9') || c == '-' || c == '_'
}

/// The length of an encoding, and its alphabet.
pub proof fn lemma_base64_url_shape(d: Seq<u8>)
    ensures
        base64_url_nopad(d).len() == (4 * d.len() + 2) / 3,
        forall|i: int| 0 <= i < base64_url_nopad(d).len() ==> url_safe_char(#[trigger] base64_url_nopad(d)[i]),
    decreases d.len(),
{
    if d.len() >= 3 {
        lemma_base64_url_shape(d.subrange(3, d.len() as int));
        let head = seq![
            base64_url_char((d[0] as int) / 4),
            base64_url_char(((d[0] as int) % 4) * 16 + (d[1] as int) / 16),
            base64_url_char(((d[1] as int) % 16) * 4 + (d[2] as int) / 64),
            base64_url_char((d[2] as int) % 64),
        ];
        let tail = base64_url_nopad(d.subrange(3, d.len() as int));
        assert forall|i: int| 0 <= i < (head + tail).len() implies url_safe_char(#[trigger] (head + tail)[i]) by {
            if i >= 4 {
                assert((head + tail)[i] == tail[i - 4]);
            }
        }
    }
}

/// A salt as `SaltString::generate` writes it: 16 bytes in unpadded
/// standard Base64, so 22 characters of `A`-`Z`, `a`-`z`, `0`-`9`, `+`,
/// `/`, the last carrying two bits and four zero bits.
pub open spec fn salt_text(s: Seq<char>) -> bool {
    &&& s.len() == 22
    &&& forall|i: int|
        0 <= i < 22 ==> ('A' <= #[trigger] s[i] <= 'Z') || ('a' <= s[i] <= 'z') || ('0' <= s[i] <= '9')
            || s[i] == '+' || s[i] == '/'
    &&& (s[21] == 'A' || s[21] == 'Q' || s[21] == 'g' || s[21] == 'w')
}

/// `SaltString::generate(&mut OsRng)` as its text: 16 random bytes from
/// the operating system's generator, written in unpadded Base64. Claimed:
/// the text has that shape (`salt_text`); its characters are random and not
/// stated.
#[verifier::external_body]
pub(crate) fn new_salt() -> (r: String)
    ensures
        salt_text(r@),
{
    SaltString::generate(&mut OsRng).as_str().to_string()
}

/// `Salt::from_b64(salt)` and then `Argon2::default().hash_password(password,
/// salt)`, rendered as its PHC string. Claimed: a hash that it produces
/// parses again and the same password verifies against it, as the
/// `password-hash` crate is built to guarantee; and it succeeds on a salt of
/// the shape that `new_salt` gives (16 bytes, within Argon2's salt limits)
/// with a password of at most `0xFFFF_FFFF` bytes, which are the only
/// inputs on which Argon2's default hashing refuses to work.
#[verifier::external_body]
pub(crate) fn argon2_hash(password: &str, salt: &str) -> (r: Result<String, argon2::password_hash::Error>)
    ensures
        r matches Ok(h) ==> phc_parses(h@) && phc_verifies(password@, h@),
        salt_text(salt@) && password.spec_bytes().len() <= 0xFFFF_FFFF ==> r is Ok,
{
    let salt = Salt::from_b64(salt)?;
    Argon2::default().hash_password(password.as_bytes(), salt).map(|h| h.to_string())
}

/// `PasswordHash::new(hash)` followed, when it parses, by
/// `Argon2::default().verify_password(password, &parsed).is_ok()`.
/// Claimed: the parse fails exactly where `phc_parses` says, and the
/// verification answers `phc_verifies`.
#[verifier::external_body]
pub(crate) fn argon2_verify(password: &str, hash: &str) -> (r: Result<bool, argon2::password_hash::Error>)
    ensures
        r is Ok <==> phc_parses(hash@),
        r matches Ok(b) ==> b == phc_verifies(password@, hash@),
{
    let parsed = PasswordHash::new(hash)?;
    Ok(Argon2::default().verify_password(password.as_bytes(), &parsed).is_ok())
}

/// The `Display` text of a password-hash error. Nothing is claimed of it.
#[verifier::external_body]
pub(crate) fn hash_error_text(e: &argon2::password_hash::Error) -> String {
    e.to_string()
}

/// `Sha256::digest(data)`: the digest, which is 32 bytes long.
#[verifier::external_body]
pub(crate) fn sha256_digest(data: &[u8]) -> (r: Vec<u8>)
    ensures
        r@ == sha256(data@),
        r@.len() == 32,
{
    Sha256::digest(data).to_vec()
}

/// `URL_SAFE_NO_PAD.encode(data)` of the `base64` crate. Claimed: it
/// writes the encoding that `base64_url_nopad` spells out (the RFC 4648
/// URL-safe alphabet, no padding).
#[verifier::external_body]
pub(crate) fn base64_url_encode(data: &[u8]) -> (r: String)
    ensures
        r@ == base64_url_nopad(data@),
{
    base64::engine::general_purpose::URL_SAFE_NO_PAD.encode(data)
}

/// `n` bytes from `rand::thread_rng().fill_bytes`. Only their number is
/// stated: they are random.
#[verifier::external_body]
pub(crate) fn random_bytes(n: usize) -> (r: Vec<u8>)
    ensures
        r@.len() == n,
{
    let mut bytes = vec![0u8; n];
    rand::thread_rng().fill_bytes(&mut bytes);
    bytes
}

/// Whether `s` is a version-4 UUID in its hyphenated lower-case form: 32
/// lower-case hexadecimal digits in groups of 8, 4, 4, 4 and 12 joined by
/// hyphens, the version digit `4` first in the third group, and the variant
/// digit (`8`, `9`, `a` or `b`) first in the fourth.
pub open spec fn uuid_v4_text(s: Seq<char>) -> bool {
    &&& s.len() == 36
    &&& forall|i: int|
        0 <= i < 36 ==> if i == 8 || i == 13 || i == 18 || i == 23 {
            #[trigger] s[i] == '-'
        } else {
            ('0' <= s[i] <= '9') || ('a' <= s[i] <= 'f')
        }
    &&& s[14] == '4'
    &&& (s[19] == '8' || s[19] == '9' || s[19] == 'a' || s[19] == 'b')
}

/// `Uuid::new_v4().to_string()`: a random version-4 UUID in its hyphenated
/// lower-case form (`uuid_v4_text`). Its random digits are not stated.
#[verifier::external_body]
pub(crate) fn new_uuid() -> (r: String)
    ensures
        uuid_v4_text(r@),
{
    uuid::Uuid::new_v4().to_string()
}

} // verus!
