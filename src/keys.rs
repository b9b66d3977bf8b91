use vstd::prelude::*;

use crate::error::DuelError;

verus! {

/// The uncompressed secp256k1 public key (64 bytes, without tag) of a
/// 32-byte secret key; `None` where the bytes are no valid secret key.
pub uninterp spec fn public_key_of(secret: Seq<u8>) -> Option<Seq<u8>>;

/// Lower-case hexadecimal digit of a value below 16.
pub open spec fn hex_digit(v: int) -> char {
    seq!['0', '1', '2', '3', '4', '5', '6', '7', '8', '9', 'a', 'b', 'c', 'd', 'e', 'f'][v]
}

/// Hexadecimal text of a byte string: two lower-case digits per byte, the
/// high nibble first.
pub open spec fn hex_of(bytes: Seq<u8>) -> Seq<char>
    decreases bytes.len(),
{
    if bytes.len() == 0 {
        Seq::empty()
    } else {
        let b = bytes.last();
        hex_of(bytes.drop_last()) + seq![hex_digit(b as int / 16), hex_digit(b as int % 16)]
    }
}

/// Relies on rustc_hex's `ToHex` for byte slices: two lower-case digits from
/// "0123456789abcdef" per byte, high nibble first.
#[verifier::external_body]
fn to_hex(bytes: &[u8]) -> (r: String)
    ensures
        r@ == hex_of(bytes@),
{
    rustc_hex::ToHex::to_hex(bytes)
}

/// Relies on libsecp256k1's `SecretKey::parse`, `PublicKey::from_secret_key`
/// and `PublicKey::serialize`: derives the public key and drops the
/// serialized key's leading tag byte.
#[verifier::external_body]
fn derive_public_key(secret: &[u8; 32]) -> (r: Option<[u8; 64]>)
    ensures
        r matches Some(k) ==> public_key_of(secret@) == Some(k@),
        r is None ==> public_key_of(secret@) is None,
{
    let sk = libsecp256k1::SecretKey::parse(secret).ok()?;
    let pk = libsecp256k1::PublicKey::from_secret_key(&sk);
    let mut out = [0u8; 64];
    out.copy_from_slice(&pk.serialize()[1..65]);
    Some(out)
}

/// The contract's persistent state: the settlement contract's address as
/// hexadecimal text and the symmetric encryption key. Both are absent until
/// `construct` runs.
pub struct ContractState {
    pub settlement_address: Option<String>,
    pub encryption_key: Option<[u8; 32]>,
}

/// What `get_pub_key` yields for a stored key.
pub open spec fn public_key_outcome(key: Option<[u8; 32]>) -> Result<Seq<u8>, DuelError> {
    match key {
        None => Err(DuelError::UninitializedState),
        Some(k) => match public_key_of(k@) {
            Some(p) => Ok(p),
            None => Err(DuelError::UninitializedState),
        },
    }
}

impl ContractState {
    /// A state in which nothing has been stored yet.
    pub fn new() -> (r: ContractState)
        ensures
            r.settlement_address is None,
            r.encryption_key is None,
    {
        ContractState { settlement_address: None, encryption_key: None }
    }

    /// Stores the settlement contract's address as hexadecimal text and the
    /// freshly generated symmetric key `key`. Calling it again overwrites
    /// both, so payloads encrypted under the former key no longer decrypt.
    pub fn construct(&mut self, wizard_eth_address: &[u8; 20], key: [u8; 32])
        ensures
            final(self).settlement_address matches Some(a) && a@ == hex_of(
                wizard_eth_address@,
            ),
            final(self).encryption_key == Some(key),
    {
        let text = to_hex(wizard_eth_address);
        self.settlement_address = Some(text);
        self.encryption_key = Some(key);
    }

    /// The settlement contract's address as hexadecimal text.
    pub fn get_wizard_eth_address(&self) -> (r: Result<String, DuelError>)
        ensures
            self.settlement_address is None ==> r == Err::<String, DuelError>(
                DuelError::UninitializedState,
            ),
            self.settlement_address matches Some(a) ==> r == Ok::<String, DuelError>(a),
    {
        match &self.settlement_address {
            Some(a) => Ok(a.clone()),
            None => Err(DuelError::UninitializedState),
        }
    }

    /// The symmetric encryption key.
    pub fn get_pkey(&self) -> (r: Result<[u8; 32], DuelError>)
        ensures
            self.encryption_key is None ==> r == Err::<[u8; 32], DuelError>(
                DuelError::UninitializedState,
            ),
            self.encryption_key matches Some(k) ==> r == Ok::<[u8; 32], DuelError>(k),
    {
        match self.encryption_key {
            Some(k) => Ok(k),
            None => Err(DuelError::UninitializedState),
        }
    }

    /// The public half of the key pair derived from the symmetric key.
    ///
    /// Fails with `UninitializedState` when no key is stored, or when the
    /// stored bytes are no valid secp256k1 secret key.
    pub fn get_pub_key(&self) -> (r: Result<Vec<u8>, DuelError>)
        ensures
            r matches Ok(p) ==> p@.len() == 64,
            r matches Ok(p) ==> public_key_outcome(self.encryption_key) == Ok::<
                Seq<u8>,
                DuelError,
            >(p@),
            r matches Err(e) ==> public_key_outcome(self.encryption_key) == Err::<
                Seq<u8>,
                DuelError,
            >(e),
    {
        let key = match self.get_pkey() {
            Ok(k) => k,
            Err(e) => return Err(e),
        };
        match derive_public_key(&key) {
            Some(p) => {
                let mut out: Vec<u8> = Vec::new();
                let mut i: usize = 0;
                while i < 64
                    invariant
                        i <= 64,
                        out@ == p@.subrange(0, i as int),
                    decreases 64 - i,
                {
                    out.push(p[i]);
                    i = i + 1;
                    assert(p@.subrange(0, i as int) == p@.subrange(0, i - 1) + seq![p@[i - 1]]);
                }
                assert(p@.subrange(0, 64) == p@);
                Ok(out)
            },
            None => Err(DuelError::UninitializedState),
        }
    }
}

/// After `construct` with key `key`, the public key that the state yields is
/// fixed by `key` alone: reading it any number of times gives one value.
pub proof fn lemma_public_key_determined(s1: ContractState, s2: ContractState, key: [u8; 32])
    requires
        s1.encryption_key == Some(key),
        s2.encryption_key == Some(key),
    ensures
        public_key_outcome(s1.encryption_key) == public_key_outcome(s2.encryption_key),
        public_key_outcome(s1.encryption_key) matches Ok(p) ==> public_key_of(key@) == Some(p),
{
}

} // verus!
