//! End-to-end tests of the signature scheme and the selective-disclosure
//! proof, on fixed scalars so every outcome is deterministic.

use bbs_plus::prove::{create_proof, create_proof_with, ProofRandomness};
use bbs_plus::sign::{sign, sign_with};
use bbs_plus::types::{Error, KeyPair, PublicParameters};
use bbs_plus::verify::verify_proof;
use bls12_381::{pairing, G1Projective, G2Projective, Scalar};
use group::Curve;

fn s(v: u64) -> Scalar {
    Scalar::from(v)
}

fn g1(v: u64) -> G1Projective {
    G1Projective::generator() * Scalar::from(v)
}

/// One revealed slot (generator h1) and one hidden slot (generator h2).
fn fixed_params() -> PublicParameters {
    PublicParameters {
        p1: G1Projective::generator(),
        p2: G2Projective::generator(),
        h0: g1(3),
        revealed_generators: vec![g1(5)],
        hidden_generators: vec![g1(7)],
    }
}

fn fixed_randomness() -> ProofRandomness {
    ProofRandomness {
        r1: s(29),
        r2: s(31),
        e_tilde: s(37),
        s_tilde: s(41),
        r2_tilde: s(43),
        r3_tilde: s(47),
        m_tildes: vec![s(53)],
        c: s(59),
    }
}

fn fixed_proof() -> (KeyPair, PublicParameters, bbs_plus::types::Proof) {
    let params = fixed_params();
    let key = KeyPair::from_secret(s(11), &params);
    let messages = vec![s(13), s(17)];
    let sig = sign_with(&key, s(19), s(23), &messages, &params).unwrap();
    let proof =
        create_proof_with(&sig, &vec![s(13)], &vec![s(17)], &key.w, &params, &fixed_randomness())
            .unwrap();
    (key, params, proof)
}

#[test]
fn signature_satisfies_pairing_equation() {
    let params = fixed_params();
    let key = KeyPair::from_secret(s(11), &params);
    let messages = vec![s(13), s(17)];
    let sig = sign_with(&key, s(19), s(23), &messages, &params).unwrap();
    // b = p1 + h0 * s + h1 * m1 + h2 * m2
    let b = params.p1 + params.h0 * s(23) + g1(5) * s(13) + g1(7) * s(17);
    // e(b, p2) == e(a, w + p2 * e)
    assert_eq!(
        pairing(&b.to_affine(), &params.p2.to_affine()),
        pairing(&sig.a.to_affine(), &(key.w + params.p2 * s(19)).to_affine()),
    );
}

#[test]
fn sign_rejects_degenerate_e() {
    let params = fixed_params();
    let key = KeyPair::from_secret(s(5), &params);
    let messages = vec![s(13), s(17)];
    // e == -x makes e + x == 0: not invertible.
    let r = sign_with(&key, -s(5), s(23), &messages, &params);
    assert!(matches!(r, Err(Error::DomainError)));
    // Any other e succeeds.
    assert!(sign_with(&key, s(6), s(23), &messages, &params).is_ok());
}

#[test]
fn create_proof_rejects_zero_r1() {
    let params = fixed_params();
    let key = KeyPair::from_secret(s(11), &params);
    let messages = vec![s(13), s(17)];
    let sig = sign_with(&key, s(19), s(23), &messages, &params).unwrap();
    let mut rnd = fixed_randomness();
    rnd.r1 = s(0);
    let r = create_proof_with(&sig, &vec![s(13)], &vec![s(17)], &key.w, &params, &rnd);
    assert!(matches!(r, Err(Error::DomainError)));
}

#[test]
fn honest_proof_verifies() {
    let (key, params, proof) = fixed_proof();
    assert!(verify_proof(&key.w, &proof, &vec![s(13)], &params));
}

#[test]
fn corrupt_challenge_rejected() {
    let (key, params, proof) = fixed_proof();
    let mut bad = proof.clone();
    bad.c = proof.c + s(1);
    assert!(!verify_proof(&key.w, &bad, &vec![s(13)], &params));
}

#[test]
fn corrupt_points_rejected() {
    let (key, params, proof) = fixed_proof();
    let bump = G1Projective::generator();

    let mut bad = proof.clone();
    bad.a_prime = proof.a_prime + bump;
    assert!(!verify_proof(&key.w, &bad, &vec![s(13)], &params));

    let mut bad = proof.clone();
    bad.a_bar = proof.a_bar + bump;
    assert!(!verify_proof(&key.w, &bad, &vec![s(13)], &params));

    let mut bad = proof.clone();
    bad.d = proof.d + bump;
    assert!(!verify_proof(&key.w, &bad, &vec![s(13)], &params));

    let mut bad = proof.clone();
    bad.c1 = proof.c1 + bump;
    assert!(!verify_proof(&key.w, &bad, &vec![s(13)], &params));

    let mut bad = proof.clone();
    bad.c2 = proof.c2 + bump;
    assert!(!verify_proof(&key.w, &bad, &vec![s(13)], &params));
}

#[test]
fn corrupt_responses_rejected() {
    let (key, params, proof) = fixed_proof();

    let mut bad = proof.clone();
    bad.e_hat = proof.e_hat + s(1);
    assert!(!verify_proof(&key.w, &bad, &vec![s(13)], &params));

    let mut bad = proof.clone();
    bad.r2_hat = proof.r2_hat + s(1);
    assert!(!verify_proof(&key.w, &bad, &vec![s(13)], &params));

    let mut bad = proof.clone();
    bad.r3_hat = proof.r3_hat + s(1);
    assert!(!verify_proof(&key.w, &bad, &vec![s(13)], &params));

    let mut bad = proof.clone();
    bad.s_hat = proof.s_hat + s(1);
    assert!(!verify_proof(&key.w, &bad, &vec![s(13)], &params));

    let mut bad = proof.clone();
    bad.hidden_hat[0] = proof.hidden_hat[0] + s(1);
    assert!(!verify_proof(&key.w, &bad, &vec![s(13)], &params));
}

#[test]
fn length_mismatch_rejected() {
    let (key, params, proof) = fixed_proof();

    // hidden_hat longer than the hidden-generator list.
    let mut bad = proof.clone();
    bad.hidden_hat.push(s(2));
    assert!(!verify_proof(&key.w, &bad, &vec![s(13)], &params));

    // hidden_hat shorter than the hidden-generator list.
    let mut bad = proof.clone();
    bad.hidden_hat.clear();
    assert!(!verify_proof(&key.w, &bad, &vec![s(13)], &params));

    // Disclosed-message count differing from the revealed-generator count.
    assert!(!verify_proof(&key.w, &proof, &vec![s(13), s(13)], &params));
    assert!(!verify_proof(&key.w, &proof, &vec![], &params));
}

#[test]
fn substituted_disclosed_message_rejected() {
    let (key, params, proof) = fixed_proof();
    assert!(!verify_proof(&key.w, &proof, &vec![s(14)], &params));
    assert!(!verify_proof(&key.w, &proof, &vec![s(12)], &params));
    assert!(!verify_proof(&key.w, &proof, &vec![s(9999)], &params));
}

#[test]
fn proof_extends_to_one_more_hidden_slot() {
    let (key, params, proof) = fixed_proof();
    // A new hidden generator and a fresh response for it.
    let h3 = g1(61);
    let m_new = s(67);
    let extended_params = PublicParameters {
        p1: params.p1,
        p2: params.p2,
        h0: params.h0,
        revealed_generators: vec![g1(5)],
        hidden_generators: vec![g1(7), h3],
    };
    let mut extended = proof.clone();
    extended.hidden_hat.push(m_new);
    extended.c2 = proof.c2 + h3 * m_new;
    assert!(verify_proof(&key.w, &extended, &vec![s(13)], &extended_params));
    // The unextended proof still verifies against the unextended parameters.
    assert!(verify_proof(&key.w, &proof, &vec![s(13)], &params));
}

#[test]
fn random_flow_verifies() {
    let params = PublicParameters::new_random(2, 1);
    let key = KeyPair::generate(&params);
    let messages = vec![s(101), s(102), s(103)];
    let sig = sign(&key, &messages, &params).unwrap();
    let revealed = vec![s(101), s(102)];
    let hidden = vec![s(103)];
    let proof = create_proof(&sig, &revealed, &hidden, &key.w, &params).unwrap();
    assert!(verify_proof(&key.w, &proof, &revealed, &params));
    // A different disclosed vector is rejected.
    assert!(!verify_proof(&key.w, &proof, &vec![s(101), s(104)], &params));
}
