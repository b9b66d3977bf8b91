use vstd::prelude::*;

use crate::error::DuelError;

verus! {

/// Keccak-256 digest of a byte string.
pub uninterp spec fn keccak_of(data: Seq<u8>) -> Seq<u8>;

/// The uncompressed secp256k1 public key (64 bytes, without tag) recovered
/// from a 32-byte message digest and a 65-byte signature whose last byte is
/// the recovery id in Ethereum's form (27 to 30); `None` where the signature
/// does not parse or no key can be recovered.
pub uninterp spec fn recovered_key_of(digest: Seq<u8>, signature: Seq<u8>) -> Option<Seq<u8>>;

/// Relies on tiny_keccak::keccak256: the 32-byte Keccak-256 digest of `data`,
/// a function of `data` alone.
#[verifier::external_body]
fn keccak256(data: &[u8]) -> (r: [u8; 32])
    ensures
        r@ == keccak_of(data@),
{
    tiny_keccak::keccak256(data)
}

/// Relies on libsecp256k1's `Message::parse`, `Signature::parse_standard`,
/// `RecoveryId::parse_rpc`, `recover` and `PublicKey::serialize`: recovers the
/// signer's public key and drops the serialized key's leading tag byte.
/// `parse_rpc` refuses a recovery byte outside 27..=30.
#[verifier::external_body]
fn recover_key(digest: &[u8; 32], signature: &[u8; 65]) -> (r: Option<[u8; 64]>)
    ensures
        r matches Some(k) ==> recovered_key_of(digest@, signature@) == Some(k@),
        r is None ==> recovered_key_of(digest@, signature@) is None,
        signature[64] < 27 || signature[64] > 30 ==> r is None,
{
    let message = libsecp256k1::Message::parse(digest);
    let mut rs = [0u8; 64];
    rs.copy_from_slice(&signature[..64]);
    let sig = libsecp256k1::Signature::parse_standard(&rs).ok()?;
    let id = libsecp256k1::RecoveryId::parse_rpc(signature[64]).ok()?;
    let key = libsecp256k1::recover(&message, &sig, &id).ok()?;
    let mut out = [0u8; 64];
    out.copy_from_slice(&key.serialize()[1..65]);
    Some(out)
}

/// The prefix of Ethereum's personal-message scheme for a 32-byte payload:
/// the byte 0x19, then "Ethereum Signed Message:\n32".
pub open spec fn personal_prefix() -> Seq<u8> {
    seq![
        0x19u8, 0x45, 0x74, 0x68, 0x65, 0x72, 0x65, 0x75, 0x6d, 0x20, 0x53, 0x69, 0x67, 0x6e,
        0x65, 0x64, 0x20, 0x4d, 0x65, 0x73, 0x73, 0x61, 0x67, 0x65, 0x3a, 0x0a, 0x33, 0x32,
    ]
}

/// The digest a submitter signs for a move set and a nonce: the Keccak-256
/// of the personal-message prefix followed by the Keccak-256 of the move set
/// followed by the nonce's 32 big-endian bytes.
pub open spec fn signing_digest(moves: Seq<u8>, nonce: Seq<u8>) -> Seq<u8> {
    keccak_of(personal_prefix() + keccak_of(moves + nonce))
}

/// An Ethereum address: the last 20 bytes of a 32-byte hash of a public key.
pub open spec fn address_of_hash(hash: Seq<u8>) -> Seq<u8> {
    hash.subrange(12, 32)
}

/// The address that signed `moves` and `nonce` with `signature`, or why
/// there is none.
pub open spec fn signer_of(signature: Seq<u8>, moves: Seq<u8>, nonce: Seq<u8>) -> Result<
    Seq<u8>,
    DuelError,
> {
    if signature.len() != 65 {
        Err(DuelError::InvalidSignature)
    } else {
        match recovered_key_of(signing_digest(moves, nonce), signature) {
            Some(k) => Ok(address_of_hash(keccak_of(k))),
            None => Err(DuelError::InvalidSignature),
        }
    }
}

fn append_bytes(out: &mut Vec<u8>, data: &[u8])
    ensures
        final(out)@ == old(out)@ + data@,
{
    let mut i: usize = 0;
    while i < data.len()
        invariant
            i <= data.len(),
            out@ == old(out)@ + data@.subrange(0, i as int),
        decreases data.len() - i,
    {
        out.push(data[i]);
        i = i + 1;
        assert(data@.subrange(0, i as int) == data@.subrange(0, i - 1) + seq![data@[i - 1]]);
    }
    assert(data@.subrange(0, data.len() as int) == data@);
}

/// The canonical signed message: the move set followed by the nonce's 32
/// big-endian bytes.
pub fn signed_payload(moves: &[u8], nonce: &[u8; 32]) -> (r: Vec<u8>)
    ensures
        r@ == moves@ + nonce@,
{
    let mut out: Vec<u8> = Vec::new();
    append_bytes(&mut out, moves);
    append_bytes(&mut out, nonce);
    assert(out@ == moves@ + nonce@);
    out
}

/// The personal-message framing of a 32-byte digest.
pub fn personal_message(digest: &[u8; 32]) -> (r: Vec<u8>)
    ensures
        r@ == personal_prefix() + digest@,
{
    let prefix: [u8; 28] = [
        0x19, 0x45, 0x74, 0x68, 0x65, 0x72, 0x65, 0x75, 0x6d, 0x20, 0x53, 0x69, 0x67, 0x6e, 0x65,
        0x64, 0x20, 0x4d, 0x65, 0x73, 0x73, 0x61, 0x67, 0x65, 0x3a, 0x0a, 0x33, 0x32,
    ];
    let mut out: Vec<u8> = Vec::new();
    append_bytes(&mut out, &prefix);
    assert(prefix@ == personal_prefix());
    append_bytes(&mut out, digest);
    out
}

/// The address held in the last 20 bytes of a 32-byte hash.
pub fn address_from_hash(hash: &[u8; 32]) -> (r: [u8; 20])
    ensures
        r@ == address_of_hash(hash@),
{
    let mut out = [0u8; 20];
    let mut i: usize = 0;
    while i < 20
        invariant
            i <= 20,
            forall|j: int| 0 <= j < i ==> out@[j] == hash@[j + 12],
        decreases 20 - i,
    {
        out[i] = hash[i + 12];
        i = i + 1;
    }
    assert(out@ =~= address_of_hash(hash@));
    out
}

/// The signature as a fixed 65-byte array: 64 bytes of ECDSA signature and
/// the recovery byte. Fails with `InvalidSignature` on any other length.
pub fn signature_bytes(signature: &[u8]) -> (r: Result<[u8; 65], DuelError>)
    ensures
        r is Err <==> signature@.len() != 65,
        r matches Err(e) ==> e == DuelError::InvalidSignature,
        r matches Ok(a) ==> a@ == signature@,
{
    if signature.len() != 65 {
        return Err(DuelError::InvalidSignature);
    }
    let mut out = [0u8; 65];
    let mut i: usize = 0;
    while i < 65
        invariant
            i <= 65,
            signature@.len() == 65,
            forall|j: int| 0 <= j < i ==> out@[j] == signature@[j],
        decreases 65 - i,
    {
        out[i] = signature[i];
        i = i + 1;
    }
    assert(out@ =~= signature@);
    Ok(out)
}

/// Recovers the address that signed a move set and a nonce.
///
/// Fails with `InvalidSignature` when the signature is not 65 bytes long or
/// no public key can be recovered from it.
pub fn verify_signature(signature: &[u8], moves: &[u8], nonce: &[u8; 32]) -> (r: Result<
    [u8; 20],
    DuelError,
>)
    ensures
        r matches Ok(a) ==> signer_of(signature@, moves@, nonce@) == Ok::<Seq<u8>, DuelError>(a@),
        r matches Err(e) ==> signer_of(signature@, moves@, nonce@) == Err::<Seq<u8>, DuelError>(e),
{
    let sig = match signature_bytes(signature) {
        Ok(a) => a,
        Err(e) => return Err(e),
    };
    let payload = signed_payload(moves, nonce);
    let inner = keccak256(payload.as_slice());
    let framed = personal_message(&inner);
    let digest = keccak256(framed.as_slice());
    match recover_key(&digest, &sig) {
        Some(key) => {
            let hash = keccak256(&key);
            Ok(address_from_hash(&hash))
        },
        None => Err(DuelError::InvalidSignature),
    }
}

} // verus!
