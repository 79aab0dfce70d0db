//! Secondary slot authorship: the chain's own rule for which authority is
//! expected to author a slot that nobody won through the primary lottery.
use parity_scale_codec::Encode;
use vstd::arithmetic::div_mod::{lemma_add_mod_noop, lemma_mod_bound, lemma_mul_mod_noop_left};
use vstd::prelude::*;

verus! {

/// A BABE authority: its public key and its weight. The weight is carried
/// along but plays no part in secondary slot selection.
#[derive(Clone, Copy, Debug, PartialEq, Eq)]
pub struct Authority {
    pub public_key: [u8; 32],
    pub weight: u64,
}

/// The authority expected to author one slot, as an index into the
/// authority list of the epoch.
#[derive(Clone, Copy, Debug, PartialEq, Eq)]
pub struct SlotAuthorAssignment {
    pub slot: u64,
    pub authority_index: u32,
}

/// The `k` low-order bytes of `x`, least significant first.
pub open spec fn le_bytes(x: nat, k: nat) -> Seq<u8>
    decreases k,
{
    if k == 0 {
        Seq::empty()
    } else {
        seq![(x % 256) as u8] + le_bytes(x / 256, (k - 1) as nat)
    }
}

/// The value of a byte string read as a big-endian unsigned integer.
pub open spec fn be_value(s: Seq<u8>) -> nat
    decreases s.len(),
{
    if s.len() == 0 {
        0
    } else {
        be_value(s.drop_last()) * 256 + s.last() as nat
    }
}

/// The BLAKE2b-256 digest of a byte string.
pub uninterp spec fn blake2_256_of(data: Seq<u8>) -> Seq<u8>;

/// The canonical encoding of the pair (randomness, slot): the 32 bytes of
/// the randomness followed by the slot as eight little-endian bytes.
pub open spec fn seed_encoding(randomness: Seq<u8>, slot: u64) -> Seq<u8> {
    randomness + le_bytes(slot as nat, 8)
}

/// The index of the authority expected to author `slot` among `n`
/// authorities: the digest of the encoded (randomness, slot) pair, read as
/// a big-endian 256-bit integer, modulo `n`.
pub open spec fn expected_author(slot: u64, n: nat, randomness: Seq<u8>) -> nat {
    be_value(blake2_256_of(seed_encoding(randomness, slot))) % n
}

/// Relies on `Encode` of parity-scale-codec for a `([u8; 32], u64)` pair:
/// a fixed-size byte array is written as its bytes with no length prefix,
/// and a `u64` as eight little-endian bytes.
#[verifier::external_body]
fn encode_seed(randomness: &[u8; 32], slot: u64) -> (r: Vec<u8>)
    ensures
        r@ == seed_encoding(randomness@, slot),
{
    (*randomness, slot).encode()
}

/// Relies on `sp_crypto_hashing::blake2_256`: the 32-byte BLAKE2b digest
/// of the input, a function of the bytes alone.
#[verifier::external_body]
fn blake2_256(data: &Vec<u8>) -> (r: [u8; 32])
    ensures
        r@ == blake2_256_of(data@),
{
    sp_crypto_hashing::blake2_256(data.as_slice())
}

/// Reads a digest as a big-endian unsigned integer and reduces it modulo `n`.
pub fn reduce_digest(digest: &[u8; 32], n: u64) -> (r: u32)
    requires
        0 < n <= 0x1_0000_0000,
    ensures
        r as nat == be_value(digest@) % (n as nat),
{
    let mut acc: u64 = 0;
    let mut i: usize = 0;
    assert(be_value(digest@.take(0)) == 0);
    while i < 32
        invariant
            0 <= i <= 32,
            digest@.len() == 32,
            0 < n <= 0x1_0000_0000,
            acc < n,
            acc as nat == be_value(digest@.take(i as int)) % (n as nat),
        decreases 32 - i,
    {
        let b = digest[i];
        proof {
            let prefix = digest@.take(i as int);
            let next = digest@.take(i as int + 1);
            assert(next.drop_last() =~= prefix);
            assert(next.last() == b);
            let v = be_value(prefix) as int;
            let m = n as int;
            assert(be_value(next) as int == v * 256 + b as int);
            lemma_mul_mod_noop_left(v, 256, m);
            lemma_add_mod_noop(v * 256, b as int, m);
            lemma_add_mod_noop((v % m) * 256, b as int, m);
            lemma_mod_bound(v, m);
            lemma_mod_bound((v % m) * 256 % m, m);
            assert(((v % m) * 256 + b as int) % m == (v * 256 + b as int) % m);
        }
        assert(acc * 256 + (b as u64) < 0x100_0000_0000) by (nonlinear_arith)
            requires
                acc < 0x1_0000_0000,
                b < 256,
        ;
        acc = (acc * 256 + b as u64) % n;
        i = i + 1;
    }
    assert(digest@.take(32) =~= digest@);
    acc as u32
}

/// The index of the authority expected to author `slot` in an epoch with
/// the given authorities and randomness. The authorities' keys and weights
/// play no part: only their number does.
pub fn secondary_slot_author(slot: u64, authorities: &Vec<Authority>, randomness: &[u8; 32]) -> (r: u32)
    requires
        0 < authorities@.len() <= 0x1_0000_0000,
    ensures
        r as nat == expected_author(slot, authorities@.len(), randomness@),
        (r as nat) < authorities@.len(),
{
    let encoded = encode_seed(randomness, slot);
    let digest = blake2_256(&encoded);
    let n = authorities.len() as u64;
    let r = reduce_digest(&digest, n);
    r
}

/// The last slot of an epoch that starts at `start_slot` and lasts
/// `duration` slots; the range is inclusive and stops at the largest slot.
pub open spec fn epoch_end_slot(start_slot: u64, duration: u64) -> u64 {
    if start_slot + duration > u64::MAX {
        u64::MAX
    } else {
        (start_slot + duration) as u64
    }
}

/// The expected secondary author of every slot from `start_slot` through
/// `start_slot + epoch_duration_in_slots`, both included, in slot order.
pub fn get_secondary_slot_owners(
    start_slot: u64,
    authorities: &Vec<Authority>,
    epoch_randomness: &[u8; 32],
    epoch_duration_in_slots: u64,
) -> (r: Vec<SlotAuthorAssignment>)
    requires
        0 < authorities@.len() <= 0x1_0000_0000,
    ensures
        r@.len() == epoch_end_slot(start_slot, epoch_duration_in_slots) - start_slot + 1,
        forall|i: int|
            #![trigger r@[i]]
            0 <= i < r@.len() ==> {
                &&& r@[i].slot == start_slot + i
                &&& (r@[i].authority_index as nat) < authorities@.len()
                &&& r@[i].authority_index as nat == expected_author(
                    r@[i].slot,
                    authorities@.len(),
                    epoch_randomness@,
                )
            },
{
    let end = if start_slot > u64::MAX - epoch_duration_in_slots {
        u64::MAX
    } else {
        start_slot + epoch_duration_in_slots
    };
    let mut authors: Vec<SlotAuthorAssignment> = Vec::new();
    let mut s: u64 = start_slot;
    loop
        invariant_except_break
            authors@.len() == s - start_slot,
        invariant
            start_slot <= s <= end,
            end == epoch_end_slot(start_slot, epoch_duration_in_slots),
            0 < authorities@.len() <= 0x1_0000_0000,
            forall|i: int|
                #![trigger authors@[i]]
                0 <= i < authors@.len() ==> {
                    &&& authors@[i].slot == start_slot + i
                    &&& (authors@[i].authority_index as nat) < authorities@.len()
                    &&& authors@[i].authority_index as nat == expected_author(
                        authors@[i].slot,
                        authorities@.len(),
                        epoch_randomness@,
                    )
                },
        ensures
            authors@.len() == end - start_slot + 1,
            forall|i: int|
                #![trigger authors@[i]]
                0 <= i < authors@.len() ==> {
                    &&& authors@[i].slot == start_slot + i
                    &&& (authors@[i].authority_index as nat) < authorities@.len()
                    &&& authors@[i].authority_index as nat == expected_author(
                        authors@[i].slot,
                        authorities@.len(),
                        epoch_randomness@,
                    )
                },
        decreases end - s,
    {
        let expected = secondary_slot_author(s, authorities, epoch_randomness);
        authors.push(SlotAuthorAssignment { slot: s, authority_index: expected });
        if s == end {
            break;
        }
        s = s + 1;
    }
    authors
}

/// A secondary slot together with the validator expected to author it.
#[derive(Debug)]
pub struct SlotOwner {
    pub slot: u64,
    pub owner: String,
}

/// Why the slot owners of an epoch could not be named.
#[derive(Clone, Copy, Debug, PartialEq, Eq)]
pub enum SlotError {
    /// The authority list is empty or too long to index with a `u32`.
    BadAuthorityCount,
    /// The session validator list does not match the authority list in
    /// length, so positions in one cannot be read in the other.
    ValidatorCountMismatch,
}

/// Names the expected secondary author of every slot of an epoch, by
/// looking each authority index up in the session validator list taken at
/// the same block. The two lists must have the same length.
pub fn assign_slot_owners(
    start_slot: u64,
    authorities: &Vec<Authority>,
    epoch_randomness: &[u8; 32],
    epoch_duration_in_slots: u64,
    validators: &Vec<String>,
) -> (r: Result<Vec<SlotOwner>, SlotError>)
    ensures
        (authorities@.len() == 0 || authorities@.len() > 0x1_0000_0000) ==> r == Err::<
            Vec<SlotOwner>,
            SlotError,
        >(SlotError::BadAuthorityCount),
        (0 < authorities@.len() <= 0x1_0000_0000 && validators@.len() != authorities@.len())
            ==> r == Err::<Vec<SlotOwner>, SlotError>(SlotError::ValidatorCountMismatch),
        (0 < authorities@.len() <= 0x1_0000_0000 && validators@.len() == authorities@.len())
            ==> r is Ok,
        r matches Ok(owners) ==> {
            &&& owners@.len() == epoch_end_slot(start_slot, epoch_duration_in_slots) - start_slot + 1
            &&& forall|i: int|
                #![trigger owners@[i]]
                0 <= i < owners@.len() ==> {
                    &&& owners@[i].slot == start_slot + i
                    &&& owners@[i].owner@ == validators@[expected_author(
                        owners@[i].slot,
                        authorities@.len(),
                        epoch_randomness@,
                    ) as int]@
                }
        },
{
    if authorities.len() == 0 || authorities.len() as u64 > 0x1_0000_0000 {
        return Err(SlotError::BadAuthorityCount);
    }
    if validators.len() != authorities.len() {
        return Err(SlotError::ValidatorCountMismatch);
    }
    let assignments = get_secondary_slot_owners(
        start_slot,
        authorities,
        epoch_randomness,
        epoch_duration_in_slots,
    );
    let mut owners: Vec<SlotOwner> = Vec::new();
    let mut i: usize = 0;
    while i < assignments.len()
        invariant
            0 <= i <= assignments@.len(),
            validators@.len() == authorities@.len(),
            0 < authorities@.len() <= 0x1_0000_0000,
            owners@.len() == i,
            assignments@.len() == epoch_end_slot(start_slot, epoch_duration_in_slots) - start_slot + 1,
            forall|j: int|
                #![trigger assignments@[j]]
                0 <= j < assignments@.len() ==> {
                    &&& assignments@[j].slot == start_slot + j
                    &&& (assignments@[j].authority_index as nat) < authorities@.len()
                    &&& assignments@[j].authority_index as nat == expected_author(
                        assignments@[j].slot,
                        authorities@.len(),
                        epoch_randomness@,
                    )
                },
            forall|j: int|
                #![trigger owners@[j]]
                0 <= j < i ==> {
                    &&& owners@[j].slot == start_slot + j
                    &&& owners@[j].owner@ == validators@[expected_author(
                        owners@[j].slot,
                        authorities@.len(),
                        epoch_randomness@,
                    ) as int]@
                },
        decreases assignments@.len() - i,
    {
        let a = assignments[i];
        let owner = validators[a.authority_index as usize].clone();
        owners.push(SlotOwner { slot: a.slot, owner });
        i = i + 1;
    }
    Ok(owners)
}

/// The expected secondary author of a slot is fixed by the slot, the number
/// of authorities and the randomness alone: two authority lists of the same
/// length, whatever their keys and weights, give the same index, and that
/// index always lies within the list.
pub proof fn lemma_secondary_author_deterministic(
    slot: u64,
    first: Seq<Authority>,
    second: Seq<Authority>,
    randomness: Seq<u8>,
)
    requires
        0 < first.len(),
        first.len() == second.len(),
    ensures
        expected_author(slot, first.len(), randomness) == expected_author(
            slot,
            second.len(),
            randomness,
        ),
        expected_author(slot, first.len(), randomness) < first.len(),
{
    vstd::arithmetic::div_mod::lemma_mod_bound(
        be_value(blake2_256_of(seed_encoding(randomness, slot))) as int,
        first.len() as int,
    );
}

} // verus!
