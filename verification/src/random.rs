use vstd::prelude::*;

verus! {

/// The two operation-scoped inputs that the host ledger supplies to the
/// randomness deriver: a ledger-wide entropy seed, revealed only after
/// transactions are submitted, and a monotonically advancing per-operation
/// sequence number.
pub struct Entropy {
    pub seed: Vec<u8>,
    pub sequence: u64,
}

/// The 16-byte digest that the host hashing primitive computes for a byte
/// string. It is a function of the input bytes alone.
pub uninterp spec fn blake2_128_of(input: Seq<u8>) -> Seq<u8>;

/// The byte string handed to the hash: the seed followed by the
/// little-endian encoding of the sequence number.
pub open spec fn payload_of(seed: Seq<u8>, sequence: u64) -> Seq<u8> {
    seed + vstd::bytes::spec_u64_to_le_bytes(sequence)
}

/// The derived pseudo-random value: a function of seed and sequence alone,
/// so replaying the ledger reproduces it exactly.
pub open spec fn derive_of(seed: Seq<u8>, sequence: u64) -> Seq<u8> {
    blake2_128_of(payload_of(seed, sequence))
}

/// Relies on sp_io::hashing::blake2_128: a 128-bit Blake2 digest of the
/// given bytes, 16 bytes long, depending on the input bytes alone.
#[verifier::external_body]
fn blake2_128(data: &Vec<u8>) -> (r: Vec<u8>)
    ensures
        r@ == blake2_128_of(data@),
        r@.len() == 16,
{
    sp_io::hashing::blake2_128(data.as_slice()).to_vec()
}

/// Derives the 16-byte pseudo-random value for one operation by hashing the
/// entropy seed together with the sequence number. Deterministic in both,
/// pure, and callable any number of times per operation, each call seeing
/// the sequence number the host advanced to.
pub fn random_value(entropy: &Entropy) -> (r: Vec<u8>)
    ensures
        r@ == derive_of(entropy.seed@, entropy.sequence),
        r@.len() == 16,
{
    let mut payload = entropy.seed.clone();
    proof {
        assert(payload@ =~= entropy.seed@);
    }
    let mut tail = vstd::bytes::u64_to_le_bytes(entropy.sequence);
    payload.append(&mut tail);
    blake2_128(&payload)
}

} // verus!
