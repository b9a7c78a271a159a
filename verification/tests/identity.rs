use simpleai::claim::{claim_payload, issue_claim, seal, verify_claim, Claim};
use simpleai::digest::sha256;
use simpleai::error::Error;
use simpleai::handshake::{answer_challenge, challenge_bytes, check_answer, sealed_answer, Answer};
use simpleai::identity::{signed, Identity};

const SEED: &str = "9d61b19deffd5a60ba844af492ec2cc44449c5697b326919703bac031cae7f60";
const PUBLIC_KEY: &str = "d75a980182b10ab7d54bfed3c964073a0ee172f3daa62325af021a68f707511a";
const IDENTIFIER: &str = "If4x36FUomFia_hUBG_SJxt77UtqvkWqWId-9H-XIbk";

fn unhex(text: &str) -> Vec<u8> {
    let digits: Vec<u8> = text
        .bytes()
        .map(|c| match c {
            b'0'..=b'9' => c - b'0',
            _ => c - b'a' + 10,
        })
        .collect();
    digits.chunks(2).map(|pair| pair[0] * 16 + pair[1]).collect()
}

fn seed() -> [u8; 32] {
    let mut seed = [0u8; 32];
    seed.copy_from_slice(&unhex(SEED));
    seed
}

fn public_key() -> [u8; 32] {
    let mut key = [0u8; 32];
    key.copy_from_slice(&unhex(PUBLIC_KEY));
    key
}

fn node() -> Identity {
    Identity::from_seed("node-A".to_string(), seed())
}

fn nonce() -> [u8; 32] {
    let mut nonce = [0u8; 32];
    for (i, byte) in nonce.iter_mut().enumerate() {
        *byte = i as u8;
    }
    nonce
}

#[test]
fn seeded_identity_has_the_key_of_its_seed() {
    let identity = node();
    assert_eq!(identity.public_key(), public_key());
    assert_eq!(identity.label(), "node-A");
}

#[test]
fn identifier_is_the_digest_of_the_public_key() {
    let identity = node();
    assert_eq!(identity.identifier(), IDENTIFIER);
    assert_eq!(identity.identifier(), &sha256(&identity.public_key()));
}

#[test]
fn identifier_does_not_depend_on_the_label() {
    let first = Identity::from_seed("alice".to_string(), seed());
    let second = Identity::from_seed("bob".to_string(), seed());
    assert_eq!(first.identifier(), second.identifier());
    assert_eq!(first.public_key(), second.public_key());
}

#[test]
fn different_seeds_give_different_identifiers() {
    let mut other = [0u8; 32];
    for (i, byte) in other.iter_mut().enumerate() {
        *byte = i as u8;
    }
    let identity = Identity::from_seed("node-A".to_string(), other);
    assert_eq!(identity.identifier(), "Vkdap1RjR0wChd9dvyvKtz2mUTWIOem3dIGy6rEHcIw");
    assert_ne!(identity.identifier(), node().identifier());
}

#[test]
fn same_label_gives_different_identifiers() {
    let first = Identity::new("node-A".to_string()).expect("random source");
    let second = Identity::new("node-A".to_string()).expect("random source");
    assert_eq!(first.label(), second.label());
    assert_ne!(first.identifier(), second.identifier());
    assert_ne!(first.public_key(), second.public_key());
}

#[test]
fn new_identity_is_consistent() {
    let identity = Identity::new("fresh".to_string()).expect("random source");
    assert_eq!(identity.label(), "fresh");
    assert_eq!(identity.identifier(), &sha256(&identity.public_key()));
    assert_eq!(identity.identifier().len(), 43);
}

#[test]
fn identity_without_entropy_fails() {
    let made = Identity::from_entropy("node-A".to_string(), None);
    assert!(matches!(made, Err(Error::Signing)));
}

#[test]
fn identity_from_drawn_seed_is_the_seeded_one() {
    let made = Identity::from_entropy("node-A".to_string(), Some(seed())).expect("seed given");
    assert_eq!(made.identifier(), IDENTIFIER);
}

#[test]
fn set_label_keeps_identifier_and_key() {
    let mut identity = node();
    identity.set_label("renamed".to_string());
    assert_eq!(identity.label(), "renamed");
    assert_eq!(identity.identifier(), IDENTIFIER);
    assert_eq!(identity.public_key(), public_key());
}

#[test]
fn signature_of_the_empty_message() {
    let signature = node().sign(b"").expect("signing");
    assert_eq!(
        signature.to_vec(),
        unhex(
            "e5564300c360ac729086e2cc806e828a84877f1eb8e5d974d873e065224901555fb8821590a33bacc61e3970\
             1cf9b46bd25bf5f0595bbe24655141438e7a100b"
        )
    );
}

#[test]
fn signing_failure_becomes_a_signing_error() {
    let failed = signed(Err(ed25519_dalek::SignatureError::new()));
    assert_eq!(failed, Err(Error::Signing));
    let made = signed(Ok([7u8; 64]));
    assert_eq!(made, Ok([7u8; 64]));
}

#[test]
fn claim_payload_layout() {
    let payload = claim_payload(IDENTIFIER, &sha256(b"abc"), 1000, Some(1060));
    assert_eq!(
        payload,
        unhex(
            "43000000000000002b49663478333646556f6d4669615f685542475f534a78743737557471766b577157\
             49642d39482d5849626b000000000000002b756e6757763438427a2d704251554465586134694937414459\
             614f57463371637442445f5966494146613000000000000003e8010000000000000424"
        )
    );
}

#[test]
fn claim_payload_without_expiry_ends_in_zero() {
    let payload = claim_payload("a", "b", 1, None);
    assert_eq!(
        payload,
        vec![0x43, 0, 0, 0, 0, 0, 0, 0, 1, b'a', 0, 0, 0, 0, 0, 0, 0, 1, b'b', 0, 0, 0, 0, 0, 0, 0, 1, 0]
    );
}

#[test]
fn claim_payloads_of_shifted_fields_differ() {
    assert_ne!(claim_payload("ab", "c", 1, None), claim_payload("a", "bc", 1, None));
    assert_ne!(claim_payload("a", "b", 1, None), claim_payload("a", "b", 1, Some(0)));
}

#[test]
fn issued_claim_has_the_expected_fields_and_signature() {
    let identity = node();
    let claim = issue_claim(&identity, &sha256(b"abc"), 1000, Some(60)).expect("signing");
    assert_eq!(claim.subject(), IDENTIFIER);
    assert_eq!(claim.digest(), "ungWv48Bz-pBQUDeXa4iI7ADYaOWF3qctBD_YfIAFa0");
    assert_eq!(claim.issued_at(), 1000);
    assert_eq!(claim.expires_at(), Some(1060));
    assert_eq!(
        claim.signature().to_vec(),
        unhex(
            "1f554a671ab7a68230de480dfd144fb8597050a678eea09e67b1734aab985bdc69c59604f0dde763cf73fcdc\
             9f3e05965a03a9671fbb348f1dcafff4093ba407"
        )
    );
}

#[test]
fn issued_claim_verifies_at_once_and_until_expiry() {
    let identity = node();
    let claim = issue_claim(&identity, "digest", 1000, Some(60)).expect("signing");
    assert!(verify_claim(&claim, &identity.public_key(), 1000));
    assert!(verify_claim(&claim, &identity.public_key(), 1059));
    assert!(verify_claim(&claim, &identity.public_key(), 1060));
}

#[test]
fn issued_claim_fails_after_ttl_has_elapsed() {
    let identity = node();
    let claim = issue_claim(&identity, "digest", 1000, Some(60)).expect("signing");
    assert!(!verify_claim(&claim, &identity.public_key(), 1061));
    assert!(!verify_claim(&claim, &identity.public_key(), u64::MAX));
}

#[test]
fn claim_without_ttl_never_expires() {
    let identity = node();
    let claim = issue_claim(&identity, "digest", 1000, None).expect("signing");
    assert_eq!(claim.expires_at(), None);
    assert!(verify_claim(&claim, &identity.public_key(), u64::MAX));
}

#[test]
fn claim_with_zero_ttl_is_valid_only_at_issue() {
    let identity = node();
    let claim = issue_claim(&identity, "digest", 1000, Some(0)).expect("signing");
    assert!(verify_claim(&claim, &identity.public_key(), 1000));
    assert!(!verify_claim(&claim, &identity.public_key(), 1001));
}

#[test]
fn expiry_saturates_at_the_largest_time() {
    let identity = node();
    let claim = issue_claim(&identity, "digest", u64::MAX - 5, Some(60)).expect("signing");
    assert_eq!(claim.expires_at(), Some(u64::MAX));
    assert!(verify_claim(&claim, &identity.public_key(), u64::MAX));
}

#[test]
fn claim_fails_under_another_key() {
    let identity = node();
    let other = Identity::from_seed("other".to_string(), [1u8; 32]);
    let claim = issue_claim(&identity, "digest", 1000, None).expect("signing");
    assert!(!verify_claim(&claim, &other.public_key(), 1000));
}

#[test]
fn claim_fails_under_bytes_that_are_no_key() {
    let identity = node();
    let claim = issue_claim(&identity, "digest", 1000, None).expect("signing");
    assert!(!verify_claim(&claim, &[0xffu8; 32], 1000));
}

#[test]
fn tampered_claim_fails() {
    let identity = node();
    let claim = issue_claim(&identity, "digest", 1000, Some(60)).expect("signing");
    let key = identity.public_key();
    let digest = Claim::from_parts(
        claim.subject().clone(),
        "other".to_string(),
        claim.issued_at(),
        claim.expires_at(),
        claim.signature(),
    );
    assert!(!verify_claim(&digest, &key, 1000));
    let extended = Claim::from_parts(
        claim.subject().clone(),
        claim.digest().clone(),
        claim.issued_at(),
        Some(2000),
        claim.signature(),
    );
    assert!(!verify_claim(&extended, &key, 1000));
    let mut signature = claim.signature();
    signature[0] ^= 1;
    let forged = Claim::from_parts(
        claim.subject().clone(),
        claim.digest().clone(),
        claim.issued_at(),
        claim.expires_at(),
        signature,
    );
    assert!(!verify_claim(&forged, &key, 1000));
    let same = Claim::from_parts(
        claim.subject().clone(),
        claim.digest().clone(),
        claim.issued_at(),
        claim.expires_at(),
        claim.signature(),
    );
    assert!(verify_claim(&same, &key, 1000));
}

#[test]
fn claim_with_a_foreign_subject_fails() {
    let identity = node();
    let other = Identity::from_seed("other".to_string(), [1u8; 32]);
    // Signed by `identity` but naming `other` as its subject.
    let payload = claim_payload(other.identifier(), "digest", 1000, None);
    let signature = identity.sign(&payload).expect("signing");
    let claim =
        Claim::from_parts(other.identifier().clone(), "digest".to_string(), 1000, None, signature);
    assert!(!verify_claim(&claim, &identity.public_key(), 1000));
    assert!(!verify_claim(&claim, &other.public_key(), 1000));
}

#[test]
fn seal_passes_a_signing_failure_on() {
    let sealed = seal("s".to_string(), "d".to_string(), 1, None, Err(Error::Signing));
    assert!(matches!(sealed, Err(Error::Signing)));
    let sealed = seal("s".to_string(), "d".to_string(), 1, Some(2), Ok([9u8; 64])).expect("sealed");
    assert_eq!(sealed.subject(), "s");
    assert_eq!(sealed.digest(), "d");
    assert_eq!(sealed.issued_at(), 1);
    assert_eq!(sealed.expires_at(), Some(2));
    assert_eq!(sealed.signature(), [9u8; 64]);
}

#[test]
fn challenge_bytes_layout() {
    let bytes = challenge_bytes("ab", &nonce());
    let mut expected = vec![0x54, 0, 0, 0, 0, 0, 0, 0, 2, b'a', b'b'];
    expected.extend_from_slice(&nonce());
    assert_eq!(bytes, expected);
}

#[test]
fn answer_to_a_challenge_has_the_expected_signature() {
    let identity = node();
    let answer = answer_challenge(&identity, &nonce()).expect("signing");
    assert_eq!(answer.identifier(), IDENTIFIER);
    assert_eq!(answer.public_key(), public_key());
    assert_eq!(
        answer.signature().to_vec(),
        unhex(
            "dc7c73ffe730575c1861ebbe9b4b157cdaca97f734de2f622aeee166eb9fde3ae766f0bb3d37394fafa9ac37\
             2467ccd6bbaa424a64c500ecff7bb2d14395c308"
        )
    );
}

#[test]
fn relay_accepts_an_honest_answer() {
    let identity = node();
    let answer = answer_challenge(&identity, &nonce()).expect("signing");
    assert!(check_answer(&answer, &nonce()));
}

#[test]
fn relay_rejects_an_answer_to_another_challenge() {
    let identity = node();
    let answer = answer_challenge(&identity, &nonce()).expect("signing");
    assert!(!check_answer(&answer, &[0u8; 32]));
}

#[test]
fn relay_rejects_a_borrowed_identifier() {
    let identity = node();
    let other = Identity::from_seed("other".to_string(), [1u8; 32]);
    let answer = answer_challenge(&other, &nonce()).expect("signing");
    let forged =
        Answer::from_parts(identity.identifier().clone(), answer.public_key(), answer.signature());
    assert!(!check_answer(&forged, &nonce()));
}

#[test]
fn sealed_answer_passes_a_signing_failure_on() {
    let identity = node();
    assert!(matches!(sealed_answer(&identity, Err(Error::Signing)), Err(Error::Signing)));
    let answer = sealed_answer(&identity, Ok([3u8; 64])).expect("sealed");
    assert_eq!(answer.signature(), [3u8; 64]);
    assert_eq!(answer.identifier(), IDENTIFIER);
}

#[test]
fn a_signed_challenge_is_no_claim() {
    // A relay that sends the tail of a claim as its challenge gets a
    // signature that verifies no claim.
    let identity = node();
    let tail = claim_payload(identity.identifier(), "digest", 1000, None);
    let mut crafted = [0u8; 32];
    crafted.copy_from_slice(&tail[tail.len() - 32..]);
    let answer = answer_challenge(&identity, &crafted).expect("signing");
    let claim = Claim::from_parts(
        identity.identifier().clone(),
        "digest".to_string(),
        1000,
        None,
        answer.signature(),
    );
    assert!(!verify_claim(&claim, &identity.public_key(), 1000));
}

#[test]
fn signing_issuing_and_answering_succeed() {
    for seed in [[0u8; 32], [1u8; 32], [0xffu8; 32]] {
        let identity = Identity::from_seed("any".to_string(), seed);
        assert!(identity.sign(b"").is_ok());
        assert!(identity.sign(&[0u8; 1000]).is_ok());
        assert!(issue_claim(&identity, "", 0, None).is_ok());
        assert!(issue_claim(&identity, "digest", u64::MAX, Some(u64::MAX)).is_ok());
        assert!(answer_challenge(&identity, &[0u8; 32]).is_ok());
    }
}
