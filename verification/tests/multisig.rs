use rand::rngs::OsRng;
use rand::RngCore;
use secp256k1::ecdsa;
use secp256k1::Message;
use secp256k1::PublicKey;
use secp256k1::SecretKey;
use spawn_multisig::errors::MultiSigError;
use spawn_multisig::registry::SignerRegistry;
use spawn_multisig::session::ApprovalSession;
use spawn_multisig::session::Outcome;

fn fixed_signer(byte: u8) -> (SecretKey, Vec<u8>) {
    let sk = SecretKey::from_secret_bytes([byte; 32]).expect("32 bytes, within curve order");
    let pk = PublicKey::from_secret_key(&sk);
    (sk, pk.serialize().to_vec())
}

fn sign_digest(digest: [u8; 32], sk: &SecretKey) -> Vec<u8> {
    ecdsa::sign(Message::from_digest(digest), sk).serialize_compact().to_vec()
}

#[test]
fn test_multisig() {
    let mut rng = OsRng;

    let mut sk1_bytes = [0u8; 32];
    rng.fill_bytes(&mut sk1_bytes);
    let sk1 = SecretKey::from_secret_bytes(sk1_bytes).expect("32 bytes, within curve order");
    let pk1 = PublicKey::from_secret_key(&sk1);

    let mut sk2_bytes = [0u8; 32];
    rng.fill_bytes(&mut sk2_bytes);
    let sk2 = SecretKey::from_secret_bytes(sk2_bytes).expect("32 bytes, within curve order");
    let pk2 = PublicKey::from_secret_key(&sk2);

    let mut sk3_bytes = [0u8; 32];
    rng.fill_bytes(&mut sk3_bytes);
    let sk3 = SecretKey::from_secret_bytes(sk3_bytes).expect("32 bytes, within curve order");
    let pk3 = PublicKey::from_secret_key(&sk3);

    let registry = SignerRegistry::build(
        vec![pk1.serialize().to_vec(), pk2.serialize().to_vec(), pk3.serialize().to_vec()],
        2,
    )
    .unwrap();

    let msg = Message::from_digest([0xab; 32]);
    let sig1 = ecdsa::sign(msg, &sk1);
    let sig2 = ecdsa::sign(msg, &sk2);

    let mut session = ApprovalSession::new(registry, vec![0xab; 32]);
    let _ = session.submit(pk1.serialize().to_vec(), sig1.serialize_compact().to_vec());
    let _ = session.submit(pk2.serialize().to_vec(), sig2.serialize_compact().to_vec());

    assert!(session.status().is_authorized);
}

#[test]
fn build_fails_on_empty_signer_set() {
    let r = SignerRegistry::build(vec![], 1);
    assert_eq!(r.err(), Some(MultiSigError::EmptySignerSet));
}

#[test]
fn build_fails_on_zero_threshold() {
    let (_, pk) = fixed_signer(1);
    let r = SignerRegistry::build(vec![pk], 0);
    assert_eq!(r.err(), Some(MultiSigError::ThresholdOutOfRange));
}

#[test]
fn build_fails_on_threshold_above_key_count() {
    let (_, pk1) = fixed_signer(1);
    let (_, pk2) = fixed_signer(2);
    let r = SignerRegistry::build(vec![pk1, pk2], 3);
    assert_eq!(r.err(), Some(MultiSigError::ThresholdOutOfRange));
}

#[test]
fn build_deduplicates_keys_before_the_size_check() {
    let (_, pk1) = fixed_signer(1);
    // Two entries for the same key count once, so a threshold of 2 is out of
    // range ...
    let r = SignerRegistry::build(vec![pk1.clone(), pk1.clone()], 2);
    assert_eq!(r.err(), Some(MultiSigError::ThresholdOutOfRange));
    // ... while a threshold of 1 is accepted, on a registry of one key.
    let registry = SignerRegistry::build(vec![pk1.clone(), pk1.clone()], 1).unwrap();
    assert_eq!(registry.size(), 1);
    assert_eq!(registry.threshold(), 1);
    assert!(registry.contains(&pk1));
}

#[test]
fn resubmitted_pair_is_ignored_and_counted_once() {
    let (sk1, pk1) = fixed_signer(1);
    let (_, pk2) = fixed_signer(2);
    let registry = SignerRegistry::build(vec![pk1.clone(), pk2], 2).unwrap();
    let digest = [0xab; 32];
    let mut session = ApprovalSession::new(registry, digest.to_vec());

    let sig = sign_digest(digest, &sk1);
    assert_eq!(session.submit(pk1.clone(), sig.clone()), Ok(Outcome::Accepted));
    assert_eq!(session.status().approved_count, 1);
    assert_eq!(session.submit(pk1.clone(), sig.clone()), Ok(Outcome::DuplicateIgnored));
    assert_eq!(session.status().approved_count, 1);
}

#[test]
fn second_signature_of_same_signer_is_counted_once() {
    let (sk1, pk1) = fixed_signer(1);
    let (_, pk2) = fixed_signer(2);
    let registry = SignerRegistry::build(vec![pk1.clone(), pk2], 2).unwrap();
    let digest = [0xab; 32];
    let mut session = ApprovalSession::new(registry, digest.to_vec());

    let sig_a = sign_digest(digest, &sk1);
    // A second, different yet valid signature of the same signer over the
    // same message, re-randomized through extra nonce data.
    let sig_b = ecdsa::sign_with_noncedata(Message::from_digest(digest), &sk1, &[7u8; 32])
        .serialize_compact()
        .to_vec();
    assert_ne!(sig_a, sig_b);

    assert_eq!(session.submit(pk1.clone(), sig_a), Ok(Outcome::Accepted));
    assert_eq!(session.submit(pk1.clone(), sig_b), Ok(Outcome::DuplicateIgnored));
    assert_eq!(session.status().approved_count, 1);
    assert!(!session.status().is_authorized);
}

#[test]
fn unknown_signer_is_rejected_without_counting() {
    let (_, pk1) = fixed_signer(1);
    let (sk_out, pk_out) = fixed_signer(9);
    let registry = SignerRegistry::build(vec![pk1], 1).unwrap();
    let digest = [0xab; 32];
    let mut session = ApprovalSession::new(registry, digest.to_vec());

    // A syntactically valid signature, but from a key outside the registry.
    let sig = sign_digest(digest, &sk_out);
    assert_eq!(session.submit(pk_out, sig), Err(MultiSigError::UnknownSigner));
    assert_eq!(session.status().approved_count, 0);
}

#[test]
fn non_matching_signature_is_rejected_without_counting() {
    let (sk1, pk1) = fixed_signer(1);
    let registry = SignerRegistry::build(vec![pk1.clone()], 1).unwrap();
    let digest = [0xab; 32];
    let mut session = ApprovalSession::new(registry, digest.to_vec());

    // A well-formed signature of the registered signer, but over a different
    // message.
    let sig = sign_digest([0xcd; 32], &sk1);
    assert_eq!(session.submit(pk1, sig), Err(MultiSigError::InvalidSignature));
    assert_eq!(session.status().approved_count, 0);
}

#[test]
fn threshold_two_of_three_scenario() {
    let (sk_a, pk_a) = fixed_signer(1);
    let (sk_b, pk_b) = fixed_signer(2);
    let (_, pk_c) = fixed_signer(3);
    let registry =
        SignerRegistry::build(vec![pk_a.clone(), pk_b.clone(), pk_c], 2).unwrap();
    let digest = [0xab; 32];
    let mut session = ApprovalSession::new(registry, digest.to_vec());

    assert_eq!(session.submit(pk_a, sign_digest(digest, &sk_a)), Ok(Outcome::Accepted));
    let status = session.status();
    assert_eq!(status.approved_count, 1);
    assert_eq!(status.threshold, 2);
    assert!(!status.is_authorized);
    assert_eq!(
        session.authorize_once().err(),
        Some(MultiSigError::ThresholdNotReached(1, 2))
    );

    assert_eq!(session.submit(pk_b, sign_digest(digest, &sk_b)), Ok(Outcome::Accepted));
    let status = session.status();
    assert_eq!(status.approved_count, 2);
    assert_eq!(status.threshold, 2);
    assert!(status.is_authorized);

    // The token is issued exactly once; every later call fails even though
    // the count still meets the threshold.
    let token = session.authorize_once().ok().expect("threshold met, token owed");
    assert_eq!(token.message().as_slice(), digest.as_slice());
    assert_eq!(token.approved(), 2);
    assert_eq!(token.threshold(), 2);
    assert_eq!(
        session.authorize_once().err(),
        Some(MultiSigError::ThresholdNotReached(2, 2))
    );
    assert_eq!(
        session.authorize_once().err(),
        Some(MultiSigError::ThresholdNotReached(2, 2))
    );
    assert!(session.status().is_authorized);
}
