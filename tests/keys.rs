use wizard_duel::error::DuelError;
use wizard_duel::keys::ContractState;

fn key_one() -> [u8; 32] {
    let mut k = [0u8; 32];
    k[31] = 1;
    k
}

#[test]
fn public_key_is_stable_between_reads() {
    let mut state = ContractState::new();
    state.construct(&[0x11u8; 20], [7u8; 32]);
    let a = state.get_pub_key().unwrap();
    let b = state.get_pub_key().unwrap();
    assert_eq!(a, b);
    assert_eq!(a.len(), 64);
}

#[test]
fn constructing_again_rotates_the_key() {
    let mut state = ContractState::new();
    state.construct(&[0x11u8; 20], [7u8; 32]);
    let first = state.get_pub_key().unwrap();
    state.construct(&[0x11u8; 20], [8u8; 32]);
    let second = state.get_pub_key().unwrap();
    assert_ne!(first, second);
    assert_eq!(state.get_pkey(), Ok([8u8; 32]));
}

#[test]
fn public_key_of_secret_one_is_the_generator() {
    let mut state = ContractState::new();
    state.construct(&[0u8; 20], key_one());
    let p = state.get_pub_key().unwrap();
    let gx: [u8; 32] = [
        0x79, 0xbe, 0x66, 0x7e, 0xf9, 0xdc, 0xbb, 0xac, 0x55, 0xa0, 0x62, 0x95, 0xce, 0x87, 0x0b,
        0x07, 0x02, 0x9b, 0xfc, 0xdb, 0x2d, 0xce, 0x28, 0xd9, 0x59, 0xf2, 0x81, 0x5b, 0x16, 0xf8,
        0x17, 0x98,
    ];
    let gy: [u8; 32] = [
        0x48, 0x3a, 0xda, 0x77, 0x26, 0xa3, 0xc4, 0x65, 0x5d, 0xa4, 0xfb, 0xfc, 0x0e, 0x11, 0x08,
        0xa8, 0xfd, 0x17, 0xb4, 0x48, 0xa6, 0x85, 0x54, 0x19, 0x9c, 0x47, 0xd0, 0x8f, 0xfb, 0x10,
        0xd4, 0xb8,
    ];
    assert_eq!(&p[0..32], &gx);
    assert_eq!(&p[32..64], &gy);
}

#[test]
fn nothing_stored_is_uninitialized() {
    let state = ContractState::new();
    assert_eq!(state.get_pub_key(), Err(DuelError::UninitializedState));
    assert_eq!(state.get_pkey(), Err(DuelError::UninitializedState));
    assert_eq!(state.get_wizard_eth_address(), Err(DuelError::UninitializedState));
}

#[test]
fn zero_key_yields_no_public_key() {
    let mut state = ContractState::new();
    state.construct(&[0u8; 20], [0u8; 32]);
    assert_eq!(state.get_pub_key(), Err(DuelError::UninitializedState));
}

#[test]
fn address_is_stored_as_lower_hex() {
    let mut state = ContractState::new();
    let mut addr = [0u8; 20];
    addr[0] = 0xab;
    addr[1] = 0x01;
    addr[19] = 0xf0;
    state.construct(&addr, [7u8; 32]);
    let text = state.get_wizard_eth_address().unwrap();
    assert_eq!(text, "ab010000000000000000000000000000000000f0");
}
