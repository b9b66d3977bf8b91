use wizard_duel::duel::{
    affinity_pair, commit_to_duel, commit_to_duel_decrypt, commit_to_duel_decrypt_sig,
    decrypted_moves, settlement_for,
};
use wizard_duel::error::DuelError;
use wizard_duel::keys::ContractState;

fn ready_state() -> ContractState {
    let mut state = ContractState::new();
    let mut addr = [0u8; 20];
    addr[19] = 0x2a;
    state.construct(&addr, [7u8; 32]);
    state
}

fn sign(secret: [u8; 32], moves: &[u8], nonce: &[u8; 32]) -> (Vec<u8>, [u8; 20]) {
    let mut payload = moves.to_vec();
    payload.extend_from_slice(nonce);
    let mut framed = b"\x19Ethereum Signed Message:\n32".to_vec();
    framed.extend_from_slice(&tiny_keccak::keccak256(&payload));
    let digest = tiny_keccak::keccak256(&framed);
    let sk = libsecp256k1::SecretKey::parse(&secret).unwrap();
    let (sig, id) = libsecp256k1::sign(&libsecp256k1::Message::parse(&digest), &sk);
    let mut bytes = sig.serialize().to_vec();
    bytes.push(id.serialize() + 27);
    let pk = libsecp256k1::PublicKey::from_secret_key(&sk).serialize();
    let hash = tiny_keccak::keccak256(&pk[1..65]);
    let mut address = [0u8; 20];
    address.copy_from_slice(&hash[12..32]);
    (bytes, address)
}

#[test]
fn plain_duel_settles_negative_score() {
    let state = ready_state();
    let s = commit_to_duel(
        &state,
        &vec![2, 0, 0, 0, 0],
        &vec![0, 0, 0, 0, 0],
        [1u8; 32],
        [2u8; 32],
        &vec![9, 9],
    )
    .unwrap();
    assert_eq!(s.magnitude, 78);
    assert!(s.negative);
    assert_eq!(s.wizard1, [1u8; 32]);
    assert_eq!(s.wizard2, [2u8; 32]);
    assert_eq!(s.contract_address, "000000000000000000000000000000000000002a");
}

#[test]
fn plain_duel_settles_positive_score() {
    let state = ready_state();
    let s = commit_to_duel(
        &state,
        &vec![1, 0, 0, 0, 4],
        &vec![0, 0, 0, 0, 0],
        [1u8; 32],
        [2u8; 32],
        &vec![9, 9, 0],
    )
    .unwrap();
    assert_eq!(s.magnitude, 478);
    assert!(!s.negative);
}

#[test]
fn one_affinity_is_too_few() {
    let state = ready_state();
    let r = commit_to_duel(&state, &vec![0], &vec![0], [0u8; 32], [0u8; 32], &vec![1]);
    assert!(matches!(r, Err(DuelError::AffinityArityError)));
    assert_eq!(affinity_pair(&[]), Err(DuelError::AffinityArityError));
    assert_eq!(affinity_pair(&[3, 4, 5]), Ok((3, 4)));
}

#[test]
fn duel_mismatch_is_reported() {
    let state = ready_state();
    let r = commit_to_duel(&state, &vec![0, 1], &vec![0], [0u8; 32], [0u8; 32], &vec![1, 2]);
    assert!(matches!(r, Err(DuelError::MoveSetLengthMismatch)));
}

#[test]
fn duel_without_address_is_uninitialized() {
    let state = ContractState::new();
    let r = commit_to_duel(&state, &vec![0], &vec![0], [0u8; 32], [0u8; 32], &vec![1, 2]);
    assert!(matches!(r, Err(DuelError::UninitializedState)));
}

#[test]
fn settlement_splits_sign_and_magnitude() {
    let s = settlement_for(-5, String::from("ab"), [0u8; 32], [1u8; 32]);
    assert_eq!(s.magnitude, 5);
    assert!(s.negative);
    let z = settlement_for(0, String::from("ab"), [0u8; 32], [1u8; 32]);
    assert_eq!(z.magnitude, 0);
    assert!(!z.negative);
    let m = settlement_for(i128::MIN, String::from("ab"), [0u8; 32], [1u8; 32]);
    assert_eq!(m.magnitude, 1u128 << 127);
}

#[test]
fn empty_plaintext_is_a_decryption_failure() {
    assert_eq!(decrypted_moves(vec![]), Err(DuelError::DecryptionFailure));
    assert_eq!(decrypted_moves(vec![1, 2]), Ok(vec![1, 2]));
    let state = ready_state();
    let r = commit_to_duel_decrypt(&state, vec![0, 1], vec![], [0u8; 32], [0u8; 32], &vec![1, 2]);
    assert!(matches!(r, Err(DuelError::DecryptionFailure)));
}

#[test]
fn decrypt_duel_needs_a_key() {
    let state = ContractState::new();
    let r = commit_to_duel_decrypt(&state, vec![1], vec![1], [0u8; 32], [0u8; 32], &vec![1, 2]);
    assert!(matches!(r, Err(DuelError::UninitializedState)));
}

#[test]
fn decrypt_duel_scores_plaintexts() {
    let state = ready_state();
    let s = commit_to_duel_decrypt(
        &state,
        vec![3, 0, 0, 0, 0],
        vec![1, 0, 0, 0, 0],
        [5u8; 32],
        [6u8; 32],
        &vec![3, 9],
    )
    .unwrap();
    assert_eq!(s.magnitude, 101);
    assert!(s.negative);
}

#[test]
fn signed_duel_returns_signers() {
    let state = ready_state();
    let m1 = vec![1, 0, 0, 0, 4];
    let m2 = vec![0, 0, 0, 0, 0];
    let nonce = [8u8; 32];
    let (sig1, a1) = sign([3u8; 32], &m1, &nonce);
    let (sig2, a2) = sign([4u8; 32], &m2, &nonce);
    let v = commit_to_duel_decrypt_sig(
        &state, m1, m2, &sig1, &sig2, [1u8; 32], [2u8; 32], &vec![9, 9], nonce,
    )
    .unwrap();
    assert_eq!(v.signer1, a1);
    assert_eq!(v.signer2, a2);
    assert_ne!(a1, a2);
    assert_eq!(v.settlement.magnitude, 478);
    assert!(!v.settlement.negative);
}

#[test]
fn signed_duel_rejects_short_signature() {
    let state = ready_state();
    let m1 = vec![1, 0, 0, 0, 4];
    let m2 = vec![0, 0, 0, 0, 0];
    let nonce = [8u8; 32];
    let (sig1, _) = sign([3u8; 32], &m1, &nonce);
    let r = commit_to_duel_decrypt_sig(
        &state, m1, m2, &sig1, &vec![0u8; 10], [1u8; 32], [2u8; 32], &vec![9, 9], nonce,
    );
    assert!(matches!(r, Err(DuelError::InvalidSignature)));
}
