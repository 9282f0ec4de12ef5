//! Key-based login and session authentication.
//!
//! 1. `POST /login/start` with the API key returns a challenge.
//! 2. The caller signs the challenge with an RSA private key (PKCS#1 v1.5
//!    with SHA-256) and base64-encodes the raw signature.
//! 3. `POST /login/verify` returns a session key.
//! 4. Later requests send `Authorization: Basic base64(key:key)`.

use vstd::prelude::*;
use base64::Engine;
use rsa::pkcs8::DecodePrivateKey;
use sha2::Digest;
use crate::error::Error;
use crate::text::{push_str, concat};
use vstd::arithmetic::power::pow;
use vstd::utf8::encode_utf8;

pub use crate::models::login::{ApiKeyStartLoginRequest, ApiKeyVerifyLoginRequest, ChallengeResponse};

verus! {

/// `rsa::RsaPrivateKey`, carried through untouched.
#[verifier::external_type_specification]
#[verifier::external_body]
pub struct ExRsaPrivateKey(rsa::RsaPrivateKey);

/// The base64 alphabet (RFC 4648, standard, `+` and `/`).
pub open spec fn b64_char(v: int) -> char {
    if v < 26 {
        (65 + v) as char
    } else if v < 52 {
        (71 + v) as char
    } else if v < 62 {
        (v - 4) as char
    } else if v == 62 {
        '+'
    } else {
        '/'
    }
}

/// Standard base64 with `=` padding (RFC 4648 §4): each group of three bytes
/// becomes four characters; a final group of one or two bytes is padded.
pub open spec fn base64_encode(bs: Seq<u8>) -> Seq<char>
    decreases bs.len(),
{
    let b0 = if bs.len() > 0 {
        bs[0] as int
    } else {
        0
    };
    let b1 = if bs.len() > 1 {
        bs[1] as int
    } else {
        0
    };
    let b2 = if bs.len() > 2 {
        bs[2] as int
    } else {
        0
    };
    if bs.len() == 0 {
        seq![]
    } else if bs.len() == 1 {
        seq![b64_char(b0 / 4), b64_char((b0 % 4) * 16), '=', '=']
    } else if bs.len() == 2 {
        seq![b64_char(b0 / 4), b64_char((b0 % 4) * 16 + b1 / 16), b64_char((b1 % 16) * 4), '=']
    } else {
        seq![
            b64_char(b0 / 4),
            b64_char((b0 % 4) * 16 + b1 / 16),
            b64_char((b1 % 16) * 4 + b2 / 64),
            b64_char(b2 % 64),
        ] + base64_encode(bs.skip(3))
    }
}

/// The value of a base64 character; the inverse of [`b64_char`].
pub open spec fn b64_value(c: char) -> int {
    if 'A' <= c && c <= 'Z' {
        c as int - 65
    } else if 'a' <= c && c <= 'z' {
        c as int - 71
    } else if '0' <= c && c <= '9' {
        c as int + 4
    } else if c == '+' {
        62
    } else {
        63
    }
}

/// The bytes that standard padded base64 text stands for, four characters
/// at a time.
pub open spec fn base64_decode(s: Seq<char>) -> Seq<u8>
    decreases s.len(),
{
    if s.len() < 4 {
        seq![]
    } else {
        let v0 = b64_value(s[0]);
        let v1 = b64_value(s[1]);
        let v2 = b64_value(s[2]);
        let v3 = b64_value(s[3]);
        let x0 = (v0 * 4 + v1 / 16) as u8;
        let x1 = ((v1 % 16) * 16 + v2 / 4) as u8;
        let x2 = ((v2 % 4) * 64 + v3) as u8;
        if s[2] == '=' {
            seq![x0]
        } else if s[3] == '=' {
            seq![x0, x1]
        } else {
            seq![x0, x1, x2] + base64_decode(s.skip(4))
        }
    }
}

proof fn lemma_b64_value(v: int)
    requires
        0 <= v < 64,
    ensures
        b64_value(b64_char(v)) == v,
        b64_char(v) != '=',
{
    let c = b64_char(v);
    if v < 26 {
        assert(c as int == 65 + v);
    } else if v < 52 {
        assert(c as int == 71 + v);
    } else if v < 62 {
        assert(c as int == v - 4);
    }
}

proof fn lemma_b64_group(b0: int, b1: int, b2: int)
    requires
        0 <= b0 < 256,
        0 <= b1 < 256,
        0 <= b2 < 256,
    ensures
        0 <= b0 / 4 < 64,
        0 <= (b0 % 4) * 16 + b1 / 16 < 64,
        0 <= (b1 % 16) * 4 + b2 / 64 < 64,
        0 <= b2 % 64 < 64,
        (b0 / 4) * 4 + ((b0 % 4) * 16 + b1 / 16) / 16 == b0,
        (((b0 % 4) * 16 + b1 / 16) % 16) * 16 + ((b1 % 16) * 4 + b2 / 64) / 4 == b1,
        (((b1 % 16) * 4 + b2 / 64) % 4) * 64 + b2 % 64 == b2,
        ((b0 % 4) * 16) / 16 == b0 % 4,
        (((b0 % 4) * 16) % 16) == 0,
        (((b1 % 16) * 4) / 4) == b1 % 16,
{
    assert(0 <= b0 / 4 < 64) by (nonlinear_arith)
        requires
            0 <= b0 < 256,
    ;
    assert((b0 / 4) * 4 + b0 % 4 == b0) by (nonlinear_arith)
        requires
            0 <= b0,
    ;
    assert(((b0 % 4) * 16 + b1 / 16) / 16 == b0 % 4 && ((b0 % 4) * 16 + b1 / 16) % 16 == b1 / 16)
        by (nonlinear_arith)
        requires
            0 <= b0 % 4 < 4,
            0 <= b1 / 16 < 16,
    ;
    assert((b1 / 16) * 16 + b1 % 16 == b1 && 0 <= b1 / 16 < 16) by (nonlinear_arith)
        requires
            0 <= b1 < 256,
    ;
    assert(((b1 % 16) * 4 + b2 / 64) / 4 == b1 % 16 && ((b1 % 16) * 4 + b2 / 64) % 4 == b2 / 64)
        by (nonlinear_arith)
        requires
            0 <= b1 % 16 < 16,
            0 <= b2 / 64 < 4,
    ;
    assert((b2 / 64) * 64 + b2 % 64 == b2 && 0 <= b2 / 64 < 4) by (nonlinear_arith)
        requires
            0 <= b2 < 256,
    ;
    assert(((b0 % 4) * 16) / 16 == b0 % 4 && ((b0 % 4) * 16) % 16 == 0) by (nonlinear_arith)
        requires
            0 <= b0 % 4 < 4,
    ;
    assert(((b1 % 16) * 4) / 4 == b1 % 16) by (nonlinear_arith)
        requires
            0 <= b1 % 16 < 16,
    ;
}

/// Decoding the base64 text of a byte string gives back the bytes; so the
/// `Authorization` header decodes to the UTF-8 text `key:key`.
pub proof fn law_base64_decodes(bs: Seq<u8>)
    ensures
        base64_decode(base64_encode(bs)) == bs,
    decreases bs.len(),
{
    if bs.len() > 0 {
        let b0 = bs[0] as int;
        let b1 = if bs.len() > 1 {
            bs[1] as int
        } else {
            0
        };
        let b2 = if bs.len() > 2 {
            bs[2] as int
        } else {
            0
        };
        lemma_b64_group(b0, b1, b2);
        lemma_b64_value(b0 / 4);
        lemma_b64_value((b0 % 4) * 16 + b1 / 16);
        lemma_b64_value((b1 % 16) * 4 + b2 / 64);
        lemma_b64_value(b2 % 64);
        lemma_b64_value((b0 % 4) * 16);
        lemma_b64_value((b1 % 16) * 4);
        let e = base64_encode(bs);
        if bs.len() == 1 {
            assert(base64_decode(e) =~= bs);
        } else if bs.len() == 2 {
            assert(base64_decode(e) =~= bs);
        } else {
            law_base64_decodes(bs.skip(3));
            assert(e.skip(4) =~= base64_encode(bs.skip(3)));
            assert(seq![bs[0], bs[1], bs[2]] + bs.skip(3) =~= bs);
        }
    }
}

/// `base64::engine::general_purpose::STANDARD.encode`: the standard
/// alphabet with padding, which is [`base64_encode`].
#[verifier::external_body]
fn base64_standard(bytes: &[u8]) -> (s: String)
    ensures
        s@ == base64_encode(bytes@),
{
    base64::engine::general_purpose::STANDARD.encode(bytes)
}

/// The SHA-256 digest of a byte string.
pub uninterp spec fn sha256(data: Seq<u8>) -> Seq<u8>;

/// `sha2::Sha256` over `data`: the digest is a function of the data alone
/// and is 32 bytes long.
#[verifier::external_body]
fn sha256_digest(data: &[u8]) -> (d: Vec<u8>)
    ensures
        d@ == sha256(data@),
        d@.len() == 32,
{
    let mut hasher = sha2::Sha256::new();
    hasher.update(data);
    hasher.finalize().to_vec()
}

/// The number that a byte string stands for, most significant byte first
/// (RFC 8017, OS2IP).
pub open spec fn os2ip(bs: Seq<u8>) -> nat
    decreases bs.len(),
{
    if bs.len() == 0 {
        0
    } else {
        os2ip(bs.drop_last()) * 256 + bs.last() as nat
    }
}

/// The DER `DigestInfo` header for a SHA-256 digest (RFC 8017 §9.2, note 1).
pub open spec fn sha256_digest_info_prefix() -> Seq<u8> {
    seq![
        0x30u8, 0x31u8, 0x30u8, 0x0du8, 0x06u8, 0x09u8, 0x60u8, 0x86u8, 0x48u8, 0x01u8,
        0x65u8, 0x03u8, 0x04u8, 0x02u8, 0x01u8, 0x05u8, 0x00u8, 0x04u8, 0x20u8,
    ]
}

/// EMSA-PKCS1-v1_5 encoding of a SHA-256 digest into `k` bytes (RFC 8017
/// §9.2): `00 01`, `k - 54` bytes `ff`, `00`, the `DigestInfo` header and
/// the digest.
pub open spec fn emsa_pkcs1v15_sha256(digest: Seq<u8>, k: nat) -> Seq<u8> {
    seq![0x00u8, 0x01u8] + Seq::new((k - 54) as nat, |i: int| 0xffu8) + seq![0x00u8]
        + sha256_digest_info_prefix() + digest
}

/// `sig` checks as the RSA PKCS#1 v1.5 SHA-256 signature of `digest` under
/// the public key with modulus `n` and exponent `e` (RFC 8017 §8.2.2): the
/// modulus is as many bytes long as the signature, and the signature raised
/// to `e` modulo `n` is the encoded digest.
pub open spec fn rsa_pkcs1v15_sha256_checks(n: nat, e: nat, digest: Seq<u8>, sig: Seq<u8>) -> bool {
    let k = sig.len();
    &&& k >= 62
    &&& pow(256, (k - 1) as nat) <= n < pow(256, k)
    &&& pow(os2ip(sig) as int, e) % (n as int) == os2ip(emsa_pkcs1v15_sha256(digest, k)) as int
}

/// `sig` is an RSA PKCS#1 v1.5 SHA-256 signature of `digest` under some RSA
/// public key.
pub open spec fn is_pkcs1v15_sha256_signature(digest: Seq<u8>, sig: Seq<u8>) -> bool {
    exists|n: nat, e: nat| rsa_pkcs1v15_sha256_checks(n, e, digest, sig)
}

/// `RsaPrivateKey::sign` with `Pkcs1v15Sign::new::<Sha256>()` over a
/// SHA-256 digest; a failure is returned as the `rsa` error's text. The
/// scheme refuses a digest that is not 32 bytes long; it encodes the digest
/// with EMSA-PKCS1-v1_5 into the key's modulus length `k` (refusing `k`
/// below 62), decrypts it with the private key and checks the result by
/// raising it to the public exponent modulo the modulus
/// (`rsa_decrypt_and_check`), and returns it left-padded to `k` bytes. So
/// the signature checks for the digest under the key's public half
/// ([`is_pkcs1v15_sha256_signature`]). Which key that is, is not stated:
/// this library does not look inside the key.
#[verifier::external_body]
fn rsa_pkcs1v15_sha256_sign(key: &rsa::RsaPrivateKey, digest: &[u8]) -> (r: Result<Vec<u8>, String>)
    ensures
        r is Ok ==> digest@.len() == 32,
        r matches Ok(sig) ==> sig@.len() >= 62,
        r matches Ok(sig) ==> is_pkcs1v15_sha256_signature(digest@, sig@),
{
    key.sign(rsa::pkcs1v15::Pkcs1v15Sign::new::<sha2::Sha256>(), digest).map_err(|e| e.to_string())
}

proof fn lemma_os2ip_injective(a: Seq<u8>, b: Seq<u8>)
    requires
        a.len() == b.len(),
        os2ip(a) == os2ip(b),
    ensures
        a == b,
    decreases a.len(),
{
    if a.len() > 0 {
        let x = os2ip(a.drop_last()) as int;
        let y = os2ip(b.drop_last()) as int;
        let u = a.last() as int;
        let v = b.last() as int;
        assert(x == y && u == v) by (nonlinear_arith)
            requires
                x * 256 + u == y * 256 + v,
                0 <= u < 256,
                0 <= v < 256,
                0 <= x,
                0 <= y,
        ;
        lemma_os2ip_injective(a.drop_last(), b.drop_last());
        assert(a =~= a.drop_last().push(a.last()));
        assert(b =~= b.drop_last().push(b.last()));
    }
}

/// Law: under one public key, a signature checks for at most one SHA-256
/// digest; so a signature made for the digest of one challenge is no
/// signature for a different digest.
pub proof fn law_signature_fixes_digest(n: nat, e: nat, d1: Seq<u8>, d2: Seq<u8>, sig: Seq<u8>)
    requires
        d1.len() == 32,
        d2.len() == 32,
        rsa_pkcs1v15_sha256_checks(n, e, d1, sig),
        rsa_pkcs1v15_sha256_checks(n, e, d2, sig),
    ensures
        d1 == d2,
{
    let k = sig.len();
    let m1 = emsa_pkcs1v15_sha256(d1, k);
    let m2 = emsa_pkcs1v15_sha256(d2, k);
    assert(m1.len() == k && m2.len() == k);
    lemma_os2ip_injective(m1, m2);
    assert(m1.skip(k - 32) =~= d1);
    assert(m2.skip(k - 32) =~= d2);
}

/// Whether `RsaPrivateKey::from_pkcs8_pem` accepts the text: a PEM
/// document holding a valid PKCS#8 RSA private key.
pub uninterp spec fn pkcs8_pem_parses(pem: Seq<char>) -> bool;

/// `RsaPrivateKey::from_pkcs8_pem`; a failure is returned as the `pkcs8`
/// error's text. Whether it succeeds depends on the text alone (the name
/// [`pkcs8_pem_parses`]); nothing is stated of the key that comes back.
#[verifier::external_body]
fn rsa_key_from_pkcs8_pem(pem: &str) -> (r: Result<rsa::RsaPrivateKey, String>)
    ensures
        r is Ok <==> pkcs8_pem_parses(pem@),
{
    rsa::RsaPrivateKey::from_pkcs8_pem(pem).map_err(|e| e.to_string())
}

/// An authenticated session: what later calls need for the
/// `Authorization` header.
#[derive(Debug, Clone, PartialEq, Eq)]
pub struct Session {
    pub session_key: String,
    pub expires_in: i64,
}

/// `Basic ` followed by the base64 of the UTF-8 text `key:key`.
pub open spec fn basic_auth_value(key: Seq<char>) -> Seq<char> {
    seq!['B', 'a', 's', 'i', 'c', ' '] + base64_encode(
        vstd::utf8::encode_utf8(key + seq![':'] + key),
    )
}

impl Session {
    /// The `Authorization` header value: `Basic <base64(key:key)>`.
    pub fn basic_auth_header(&self) -> (h: String)
        ensures
            h@ == basic_auth_value(self.session_key@),
    {
        let mut raw = self.session_key.clone();
        push_str(&mut raw, ":");
        push_str(&mut raw, self.session_key.as_str());
        proof {
            reveal_strlit(":");
            assert(raw@ =~= self.session_key@ + seq![':'] + self.session_key@);
        }
        let bytes = raw.as_str().as_bytes();
        assert(bytes@ == vstd::utf8::encode_utf8(raw@));
        let encoded = base64_standard(bytes);
        let h = concat("Basic ", encoded.as_str());
        proof {
            reveal_strlit("Basic ");
            assert(h@ =~= basic_auth_value(self.session_key@));
        }
        h
    }
}

/// Sign `challenge` with the caller's RSA private key: PKCS#1 v1.5 over the
/// SHA-256 digest of the bytes. Returns the raw signature bytes.
pub fn sign_challenge_raw(private_key: &rsa::RsaPrivateKey, challenge: &[u8]) -> (r: Result<
    Vec<u8>,
    Error,
>)
    ensures
        r matches Ok(sig) ==> sig@.len() >= 62,
        r matches Ok(sig) ==> is_pkcs1v15_sha256_signature(sha256(challenge@), sig@),
        r matches Err(e) ==> (e matches Error::Auth(m) && m@.take(17) == "rsa sign failed: "@),
{
    let digest = sha256_digest(challenge);
    match rsa_pkcs1v15_sha256_sign(private_key, digest.as_slice()) {
        Ok(sig) => Ok(sig),
        Err(m) => {
            let msg = concat("rsa sign failed: ", m.as_str());
            proof {
                reveal_strlit("rsa sign failed: ");
                assert(msg@.take(17) =~= "rsa sign failed: "@);
            }
            Err(Error::Auth(msg))
        },
    }
}

/// Sign the challenge string with the caller's RSA private key (PKCS#1 v1.5
/// with SHA-256) and base64-encode the raw signature, the form that
/// `ApiKeyVerifyLoginRequest::signature` expects. A signing failure is
/// returned as the same error that [`sign_challenge_raw`] gives.
pub fn sign_challenge(private_key: &rsa::RsaPrivateKey, challenge: &str) -> (r: Result<
    String,
    Error,
>)
    ensures
        r matches Err(e) ==> (e matches Error::Auth(m) && m@.take(17) == "rsa sign failed: "@),
        r matches Ok(text) ==> exists|sig: Seq<u8>|
            sig.len() >= 62 && text@ == base64_encode(sig) && is_pkcs1v15_sha256_signature(
                sha256(encode_utf8(challenge@)),
                sig,
            ),
{
    let bytes = challenge.as_bytes();
    assert(bytes@ == encode_utf8(challenge@));
    match sign_challenge_raw(private_key, bytes) {
        Ok(sig) => Ok(base64_standard(sig.as_slice())),
        Err(e) => Err(e),
    }
}

/// Parse a PEM-encoded PKCS#8 RSA private key.
pub fn parse_private_key_pem(pem: &str) -> (r: Result<rsa::RsaPrivateKey, Error>)
    ensures
        r is Ok <==> pkcs8_pem_parses(pem@),
        r matches Err(e) ==> (e matches Error::Auth(m) && m@.take(20)
            == "invalid PKCS#8 PEM: "@),
{
    match rsa_key_from_pkcs8_pem(pem) {
        Ok(k) => Ok(k),
        Err(m) => {
            let msg = concat("invalid PKCS#8 PEM: ", m.as_str());
            proof {
                reveal_strlit("invalid PKCS#8 PEM: ");
                assert(msg@.take(20) =~= "invalid PKCS#8 PEM: "@);
            }
            Err(Error::Auth(msg))
        },
    }
}

/// A character that a header value may hold as it is: visible ASCII or a
/// space.
pub open spec fn is_header_char(c: char) -> bool {
    ' ' <= c && c <= '~'
}

proof fn lemma_b64_char_visible(v: int)
    requires
        0 <= v < 64,
    ensures
        is_header_char(b64_char(v)),
{
    let c = b64_char(v);
    if v < 26 {
        assert(c as int == 65 + v);
    } else if v < 52 {
        assert(c as int == 71 + v);
    } else if v < 62 {
        assert(c as int == v - 4);
    }
}

proof fn lemma_base64_visible(bs: Seq<u8>)
    ensures
        forall|k: int| 0 <= k < base64_encode(bs).len() ==> is_header_char(#[trigger] base64_encode(bs)[k]),
    decreases bs.len(),
{
    if bs.len() > 0 {
        let b0 = bs[0] as int;
        let b1 = if bs.len() > 1 {
            bs[1] as int
        } else {
            0
        };
        let b2 = if bs.len() > 2 {
            bs[2] as int
        } else {
            0
        };
        lemma_b64_group(b0, b1, b2);
        lemma_b64_char_visible(b0 / 4);
        lemma_b64_char_visible((b0 % 4) * 16 + b1 / 16);
        lemma_b64_char_visible((b1 % 16) * 4 + b2 / 64);
        lemma_b64_char_visible(b2 % 64);
        lemma_b64_char_visible((b0 % 4) * 16);
        lemma_b64_char_visible((b1 % 16) * 4);
        let e = base64_encode(bs);
        if bs.len() > 2 {
            lemma_base64_visible(bs.skip(3));
            assert forall|k: int| 0 <= k < e.len() implies is_header_char(#[trigger] e[k]) by {
                if k >= 4 {
                    assert(e[k] == base64_encode(bs.skip(3))[k - 4]);
                }
            }
        }
    }
}

/// The `Authorization` value is made of visible ASCII characters and
/// spaces only, so it is always a valid header value, whatever the key.
pub proof fn law_basic_auth_value_is_header_text(key: Seq<char>)
    ensures
        forall|k: int| 0 <= k < basic_auth_value(key).len() ==> is_header_char(#[trigger] basic_auth_value(key)[k]),
{
    let e = base64_encode(vstd::utf8::encode_utf8(key + seq![':'] + key));
    lemma_base64_visible(vstd::utf8::encode_utf8(key + seq![':'] + key));
    let v = basic_auth_value(key);
    assert forall|k: int| 0 <= k < v.len() implies is_header_char(#[trigger] v[k]) by {
        if k >= 6 {
            assert(v[k] == e[k - 6]);
        }
    }
}

} // verus!
