use vstd::prelude::*;

use crate::error::DuelError;
use crate::keys::ContractState;
use crate::score::{duel_score, score_outcome};
use crate::signature::{signer_of, verify_signature};

verus! {

/// The order to settle a duel on the public ledger: a call of the settlement
/// contract's `ResolveDuel` with the score split into magnitude and sign.
pub struct Settlement {
    /// The settlement contract's address as hexadecimal text, without `0x`.
    pub contract_address: String,
    pub magnitude: u128,
    pub negative: bool,
    /// The wizards' identifiers as 32 big-endian bytes.
    pub wizard1: [u8; 32],
    pub wizard2: [u8; 32],
}

/// A settlement order together with the addresses that signed each move set.
pub struct SignedSettlement {
    pub settlement: Settlement,
    pub signer1: [u8; 20],
    pub signer2: [u8; 20],
}

/// Absolute value.
pub open spec fn abs(x: int) -> int {
    if x < 0 {
        -x
    } else {
        x
    }
}

/// `s` settles a duel that scored `score`.
pub open spec fn settles(
    s: Settlement,
    score: int,
    address: Seq<char>,
    wizard1: [u8; 32],
    wizard2: [u8; 32],
) -> bool {
    &&& s.contract_address@ == address
    &&& s.magnitude == abs(score)
    &&& s.negative == (score < 0)
    &&& s.wizard1 == wizard1
    &&& s.wizard2 == wizard2
}

/// What a duel between two plain move sets comes to: the score and the
/// address to settle it at, or the first failure met (affinities, then the
/// move sets, then the stored address).
pub open spec fn duel_outcome(
    address: Option<String>,
    m1: Seq<u8>,
    m2: Seq<u8>,
    affinities: Seq<u8>,
) -> Result<(int, Seq<char>), DuelError> {
    if affinities.len() < 2 {
        Err(DuelError::AffinityArityError)
    } else {
        match score_outcome(m1, m2, affinities[0], affinities[1]) {
            Err(e) => Err(e),
            Ok(s) => match address {
                None => Err(DuelError::UninitializedState),
                Some(a) => Ok((s, a@)),
            },
        }
    }
}

/// The failure, if any, met before scoring two decrypted move sets: the key
/// must be stored and each plaintext must be non-empty.
pub open spec fn decryption_failure(key: Option<[u8; 32]>, p1: Seq<u8>, p2: Seq<u8>) -> Option<
    DuelError,
> {
    if key is None {
        Some(DuelError::UninitializedState)
    } else if p1.len() == 0 || p2.len() == 0 {
        Some(DuelError::DecryptionFailure)
    } else {
        None
    }
}

/// The two affinities of a duel, the first two values supplied.
///
/// Fails with `AffinityArityError` when fewer than two are supplied.
pub fn affinity_pair(affinities: &[u8]) -> (r: Result<(u8, u8), DuelError>)
    ensures
        affinities@.len() < 2 ==> r == Err::<(u8, u8), DuelError>(DuelError::AffinityArityError),
        affinities@.len() >= 2 ==> r == Ok::<(u8, u8), DuelError>((affinities@[0], affinities@[1])),
{
    if affinities.len() < 2 {
        Err(DuelError::AffinityArityError)
    } else {
        Ok((affinities[0], affinities[1]))
    }
}

/// The settlement order for `score`: its magnitude, and whether it is
/// negative.
pub fn settlement_for(score: i128, contract_address: String, wizard1: [u8; 32], wizard2: [u8; 32]) -> (r:
    Settlement)
    ensures
        settles(r, score as int, contract_address@, wizard1, wizard2),
{
    let negative = score < 0;
    let magnitude: u128 = if negative {
        (-(score + 1)) as u128 + 1
    } else {
        score as u128
    };
    Settlement { contract_address, magnitude, negative, wizard1, wizard2 }
}

/// A decrypted move set. The host's decryption yields no bytes for a
/// ciphertext it cannot open; that fails with `DecryptionFailure`.
pub fn decrypted_moves(plaintext: Vec<u8>) -> (r: Result<Vec<u8>, DuelError>)
    ensures
        plaintext@.len() == 0 ==> r == Err::<Vec<u8>, DuelError>(DuelError::DecryptionFailure),
        plaintext@.len() > 0 ==> r == Ok::<Vec<u8>, DuelError>(plaintext),
{
    if plaintext.len() == 0 {
        Err(DuelError::DecryptionFailure)
    } else {
        Ok(plaintext)
    }
}

/// Settles a duel between two plain move sets.
pub fn commit_to_duel(
    state: &ContractState,
    move_set1: &Vec<u8>,
    move_set2: &Vec<u8>,
    wizard1: [u8; 32],
    wizard2: [u8; 32],
    affinities: &Vec<u8>,
) -> (r: Result<Settlement, DuelError>)
    ensures
        r matches Ok(s) ==> duel_outcome(
            state.settlement_address,
            move_set1@,
            move_set2@,
            affinities@,
        ) matches Ok((score, a)) && settles(s, score, a, wizard1, wizard2),
        r matches Err(e) ==> duel_outcome(
            state.settlement_address,
            move_set1@,
            move_set2@,
            affinities@,
        ) == Err::<(int, Seq<char>), DuelError>(e),
{
    let (af1, af2) = match affinity_pair(affinities.as_slice()) {
        Ok(p) => p,
        Err(e) => return Err(e),
    };
    let score = match duel_score(move_set1, move_set2, af1, af2) {
        Ok(s) => s,
        Err(e) => return Err(e),
    };
    let address = match state.get_wizard_eth_address() {
        Ok(a) => a,
        Err(e) => return Err(e),
    };
    Ok(settlement_for(score, address, wizard1, wizard2))
}

/// Settles a duel between two move sets submitted encrypted, given what the
/// host's decryption under the stored key made of each ciphertext.
pub fn commit_to_duel_decrypt(
    state: &ContractState,
    plaintext1: Vec<u8>,
    plaintext2: Vec<u8>,
    wizard1: [u8; 32],
    wizard2: [u8; 32],
    affinities: &Vec<u8>,
) -> (r: Result<Settlement, DuelError>)
    ensures
        decryption_failure(state.encryption_key, plaintext1@, plaintext2@) matches Some(e) ==> r
            == Err::<Settlement, DuelError>(e),
        decryption_failure(state.encryption_key, plaintext1@, plaintext2@) is None ==> {
            &&& r matches Ok(s) ==> duel_outcome(
                state.settlement_address,
                plaintext1@,
                plaintext2@,
                affinities@,
            ) matches Ok((score, a)) && settles(s, score, a, wizard1, wizard2)
            &&& r matches Err(e) ==> duel_outcome(
                state.settlement_address,
                plaintext1@,
                plaintext2@,
                affinities@,
            ) == Err::<(int, Seq<char>), DuelError>(e)
        },
{
    if state.encryption_key.is_none() {
        return Err(DuelError::UninitializedState);
    }
    let m1 = match decrypted_moves(plaintext1) {
        Ok(m) => m,
        Err(e) => return Err(e),
    };
    let m2 = match decrypted_moves(plaintext2) {
        Ok(m) => m,
        Err(e) => return Err(e),
    };
    commit_to_duel(state, &m1, &m2, wizard1, wizard2, affinities)
}

/// Settles a duel between two move sets submitted encrypted and signed,
/// given what the host's decryption made of each ciphertext. Each signature
/// must cover its decrypted move set and the shared nonce; the recovered
/// signers are returned with the order.
pub fn commit_to_duel_decrypt_sig(
    state: &ContractState,
    plaintext1: Vec<u8>,
    plaintext2: Vec<u8>,
    signature1: &Vec<u8>,
    signature2: &Vec<u8>,
    wizard1: [u8; 32],
    wizard2: [u8; 32],
    affinities: &Vec<u8>,
    nonce: [u8; 32],
) -> (r: Result<SignedSettlement, DuelError>)
    ensures
        decryption_failure(state.encryption_key, plaintext1@, plaintext2@) matches Some(e) ==> r
            == Err::<SignedSettlement, DuelError>(e),
        decryption_failure(state.encryption_key, plaintext1@, plaintext2@) is None ==> {
            let s1 = signer_of(signature1@, plaintext1@, nonce@);
            let s2 = signer_of(signature2@, plaintext2@, nonce@);
            let d = duel_outcome(state.settlement_address, plaintext1@, plaintext2@, affinities@);
            &&& s1 matches Err(e) ==> r == Err::<SignedSettlement, DuelError>(e)
            &&& s1 is Ok ==> (s2 matches Err(e) ==> r == Err::<SignedSettlement, DuelError>(e))
            &&& (s1 is Ok && s2 is Ok) ==> {
                &&& r matches Ok(v) ==> {
                    &&& d matches Ok((score, a)) && settles(v.settlement, score, a, wizard1, wizard2)
                    &&& s1 == Ok::<Seq<u8>, DuelError>(v.signer1@)
                    &&& s2 == Ok::<Seq<u8>, DuelError>(v.signer2@)
                }
                &&& r matches Err(e) ==> d == Err::<(int, Seq<char>), DuelError>(e)
            }
        },
{
    if state.encryption_key.is_none() {
        return Err(DuelError::UninitializedState);
    }
    let m1 = match decrypted_moves(plaintext1) {
        Ok(m) => m,
        Err(e) => return Err(e),
    };
    let m2 = match decrypted_moves(plaintext2) {
        Ok(m) => m,
        Err(e) => return Err(e),
    };
    let signer1 = match verify_signature(signature1.as_slice(), m1.as_slice(), &nonce) {
        Ok(a) => a,
        Err(e) => return Err(e),
    };
    let signer2 = match verify_signature(signature2.as_slice(), m2.as_slice(), &nonce) {
        Ok(a) => a,
        Err(e) => return Err(e),
    };
    match commit_to_duel(state, &m1, &m2, wizard1, wizard2, affinities) {
        Ok(settlement) => Ok(SignedSettlement { settlement, signer1, signer2 }),
        Err(e) => Err(e),
    }
}

} // verus!
