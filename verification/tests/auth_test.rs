use base64::Engine;
use nordnet::auth::{parse_private_key_pem, sign_challenge, sign_challenge_raw};
use nordnet::cli::config::{Config, ConfigError};
use nordnet::cli::cmd::login::{verify_login_request, LoginError};
use nordnet::error::Error;
use rsa::pkcs8::EncodePrivateKey;
use rsa::pkcs1v15::VerifyingKey;
use rsa::signature::Verifier;
use rsa::rand_core::{CryptoRng, RngCore};
use rsa::{RsaPrivateKey, RsaPublicKey};
use sha2::Sha256;

/// A small deterministic generator (SplitMix64), so that the test key is
/// the same on every run without depending on system entropy.
struct FixedRng(u64);

impl RngCore for FixedRng {
    fn next_u32(&mut self) -> u32 {
        self.next_u64() as u32
    }

    fn next_u64(&mut self) -> u64 {
        self.0 = self.0.wrapping_add(0x9E37_79B9_7F4A_7C15);
        let mut z = self.0;
        z = (z ^ (z >> 30)).wrapping_mul(0xBF58_476D_1CE4_E5B9);
        z = (z ^ (z >> 27)).wrapping_mul(0x94D0_49BB_1331_11EB);
        z ^ (z >> 31)
    }

    fn fill_bytes(&mut self, dest: &mut [u8]) {
        for chunk in dest.chunks_mut(8) {
            let v = self.next_u64().to_le_bytes();
            chunk.copy_from_slice(&v[..chunk.len()]);
        }
    }

    fn try_fill_bytes(&mut self, dest: &mut [u8]) -> Result<(), rsa::rand_core::Error> {
        self.fill_bytes(dest);
        Ok(())
    }
}

impl CryptoRng for FixedRng {}

/// A deterministic RSA key, generated from a fixed seed. 512 bits (the least
/// that holds a PKCS#1 v1.5 SHA-256 signature) keeps
/// the unoptimized test build fast.
fn fixed_test_key() -> RsaPrivateKey {
    let mut rng = FixedRng(7);
    RsaPrivateKey::new(&mut rng, 512).expect("rsa keygen")
}

fn verifies(key: &RsaPrivateKey, message: &[u8], signature: &[u8]) -> bool {
    let signature: rsa::pkcs1v15::Signature = signature.try_into().unwrap();
    let verifier: VerifyingKey<Sha256> = VerifyingKey::new(key.to_public_key());
    verifier.verify(message, &signature).is_ok()
}

#[test]
fn sign_challenge_is_deterministic_for_fixed_key() {
    let key = fixed_test_key();
    let challenge = "the-challenge-string";
    let s1 = sign_challenge_raw(&key, challenge.as_bytes()).unwrap();
    let s2 = sign_challenge_raw(&key, challenge.as_bytes()).unwrap();
    assert_eq!(s1, s2, "PKCS#1 v1.5 + SHA-256 must be deterministic");
    let b64 = sign_challenge(&key, challenge).unwrap();
    assert_eq!(b64, base64::engine::general_purpose::STANDARD.encode(&s1));
    let s3 = sign_challenge_raw(&key, b"other").unwrap();
    assert_ne!(s1, s3);
}

#[test]
fn sign_challenge_is_base64_of_a_valid_signature() {
    let key = fixed_test_key();
    let b64 = sign_challenge(&key, "the-challenge-string").unwrap();
    let raw = base64::engine::general_purpose::STANDARD.decode(&b64).unwrap();
    assert_eq!(raw.len(), 64);
    assert!(verifies(&key, b"the-challenge-string", &raw));
    assert!(!verifies(&key, b"another-challenge", &raw));
}

#[test]
fn sign_then_verify_with_public_key_succeeds() {
    let key = fixed_test_key();
    let public: RsaPublicKey = key.to_public_key();
    let challenge = b"abc123";
    let raw_sig = sign_challenge_raw(&key, challenge).unwrap();
    let signature: rsa::pkcs1v15::Signature = raw_sig.as_slice().try_into().unwrap();
    let verifier: VerifyingKey<Sha256> = VerifyingKey::new(public);
    verifier.verify(challenge, &signature).expect("signature must verify under the matching public key");
}

#[test]
fn parse_private_key_pem_round_trips() {
    let key = fixed_test_key();
    let pem = key.to_pkcs8_pem(rsa::pkcs8::LineEnding::LF).unwrap();
    let parsed = parse_private_key_pem(&pem).unwrap();
    assert_eq!(parsed, key);
}

#[test]
fn parse_private_key_pem_rejects_garbage() {
    let r = parse_private_key_pem("not a pem");
    assert!(matches!(r, Err(Error::Auth(_))));
    match r {
        Err(Error::Auth(m)) => assert!(m.starts_with("invalid PKCS#8 PEM: ")),
        _ => unreachable!(),
    }
}

#[test]
fn verify_login_request_signs_the_challenge() {
    let key = fixed_test_key();
    let env = vec![("NORDNET_API_KEY".to_string(), "key-1".to_string())];
    let cfg = Config::load_from(None, &env).unwrap();
    let req = verify_login_request(&cfg, &key, "abc").unwrap();
    assert_eq!(req.api_key, "key-1");
    assert_eq!(req.service, "NEXTAPI");
    assert_eq!(req.signature, sign_challenge(&key, "abc").unwrap());
    let raw = base64::engine::general_purpose::STANDARD.decode(&req.signature).unwrap();
    assert!(verifies(&key, b"abc", &raw));
    let missing = verify_login_request(&Config::defaults(), &key, "abc");
    assert!(matches!(missing, Err(LoginError::Config(ConfigError::Missing("api_key")))));
}
