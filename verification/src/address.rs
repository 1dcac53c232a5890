//! Account addresses and their derivation from seed paths.

use anchor_lang::prelude::Pubkey;
use vstd::bytes::{spec_u64_to_le_bytes, u64_to_le_bytes};
use vstd::prelude::*;
use vstd::slice::slice_to_vec;
use vstd::utf8::encode_utf8;

verus! {

/// Longest seed, in bytes, from which an address can be derived.
pub const MAX_SEED_LEN: usize = 32;

/// A 32-byte account address or caller identity.
#[derive(Clone, Copy, Debug, PartialEq, Eq, Hash)]
pub struct Address {
    pub bytes: [u8; 32],
}

impl View for Address {
    type V = Seq<u8>;

    open spec fn view(&self) -> Seq<u8> {
        self.bytes@
    }
}

impl Address {
    /// Wraps 32 raw bytes.
    pub fn new(bytes: [u8; 32]) -> (address: Address)
        ensures
            address.bytes == bytes,
            address@ == bytes@,
    {
        Address { bytes }
    }

    /// Byte-wise comparison of two addresses.
    pub fn same_as(&self, other: &Address) -> (same: bool)
        ensures
            same == (self@ == other@),
    {
        let mut i: usize = 0;
        while i < 32
            invariant
                i <= 32,
                forall|j: int| 0 <= j < i ==> self.bytes@[j] == other.bytes@[j],
            decreases 32 - i,
        {
            if self.bytes[i] != other.bytes[i] {
                return false;
            }
            i += 1;
        }
        assert(self@ =~= other@);
        true
    }

    /// The address as an owned byte string, for use as a seed.
    pub fn to_seed(&self) -> (seed: Vec<u8>)
        ensures
            seed@ == self@,
    {
        let mut seed: Vec<u8> = Vec::new();
        let mut i: usize = 0;
        while i < 32
            invariant
                i <= 32,
                seed@ == self@.subrange(0, i as int),
            decreases 32 - i,
        {
            seed.push(self.bytes[i]);
            assert(seed@ =~= self@.subrange(0, i + 1));
            i += 1;
        }
        assert(self@.subrange(0, 32) =~= self@);
        seed
    }
}

/// An address that may be missing, as mathematical values.
pub open spec fn viewed(found: Option<Address>) -> Option<Seq<u8>> {
    match found {
        Some(address) => Some(address@),
        None => None,
    }
}

/// The address that the runtime derives for `seeds` under the program
/// `program_id`, or `None` where it derives none.
pub uninterp spec fn program_address(program_id: Seq<u8>, seeds: Seq<Seq<u8>>) -> Option<Seq<u8>>;

/// Calls `Pubkey::try_find_program_address` and keeps the address, dropping
/// the bump seed. The contract is taken on trust. It claims that the result
/// is `program_address` of the program id and the seeds: the outside
/// function hashes the seeds, a bump seed and the program id, and depends on
/// nothing else. It also claims that the result is `None` where a seed is
/// longer than `MAX_SEED_LEN` bytes, which the outside function refuses
/// before it hashes.
#[verifier::external_body]
pub(crate) fn find_program_address(seeds: &Vec<Vec<u8>>, program_id: &Address) -> (found: Option<
    Address,
>)
    ensures
        viewed(found) == program_address(program_id@, seeds.deep_view()),
        (exists|i: int| 0 <= i < seeds.len() && seeds[i].len() > MAX_SEED_LEN) ==> found is None,
{
    let parts: Vec<&[u8]> = seeds.iter().map(|seed| seed.as_slice()).collect();
    match Pubkey::try_find_program_address(&parts, &Pubkey::new_from_array(program_id.bytes)) {
        Some((key, _bump)) => Some(Address { bytes: key.to_bytes() }),
        None => None,
    }
}

/// The namespace tag that starts every seed path: the bytes of "poll".
pub open spec fn namespace_tag() -> Seq<u8> {
    seq![0x70u8, 0x6fu8, 0x6cu8, 0x6cu8]
}

/// The seed path of a poll: the tag and the poll id, little-endian.
pub open spec fn poll_seeds(poll_id: u64) -> Seq<Seq<u8>> {
    seq![namespace_tag(), spec_u64_to_le_bytes(poll_id)]
}

/// The seed path of a candidate: the poll's path and the name in UTF-8.
pub open spec fn candidate_seeds(poll_id: u64, candidate_name: Seq<char>) -> Seq<Seq<u8>> {
    seq![namespace_tag(), spec_u64_to_le_bytes(poll_id), encode_utf8(candidate_name)]
}

/// The seed path of a participation record: the poll's path and the
/// voter's identity.
pub open spec fn participation_seeds(poll_id: u64, voter: Seq<u8>) -> Seq<Seq<u8>> {
    seq![namespace_tag(), spec_u64_to_le_bytes(poll_id), voter]
}

/// Where the poll `poll_id` lives under the program `program_id`.
pub open spec fn poll_address(program_id: Seq<u8>, poll_id: u64) -> Option<Seq<u8>> {
    program_address(program_id, poll_seeds(poll_id))
}

/// Where the candidate `candidate_name` of the poll `poll_id` lives. A name
/// of more than `MAX_SEED_LEN` bytes has no address.
pub open spec fn candidate_address(
    program_id: Seq<u8>,
    poll_id: u64,
    candidate_name: Seq<char>,
) -> Option<Seq<u8>> {
    if encode_utf8(candidate_name).len() > MAX_SEED_LEN {
        None
    } else {
        program_address(program_id, candidate_seeds(poll_id, candidate_name))
    }
}

/// Where the participation record of `voter` in the poll `poll_id` lives.
pub open spec fn participation_address(program_id: Seq<u8>, poll_id: u64, voter: Seq<u8>) -> Option<
    Seq<u8>,
> {
    program_address(program_id, participation_seeds(poll_id, voter))
}

/// A seed path, seen as mathematical values, holds the seeds' bytes in
/// their order.
proof fn lemma_path(seeds: Vec<Vec<u8>>)
    ensures
        seeds.deep_view().len() == seeds.len(),
        forall|i: int| 0 <= i < seeds.len() ==> #[trigger] seeds.deep_view()[i] == seeds[i]@,
{
    assert forall|i: int| 0 <= i < seeds.len() implies #[trigger] seeds.deep_view()[i]
        == seeds[i]@ by {
        assert(seeds[i].deep_view() =~= seeds[i]@);
    }
}

fn namespace_seed() -> (seed: Vec<u8>)
    ensures
        seed@ == namespace_tag(),
{
    let mut seed: Vec<u8> = Vec::new();
    seed.push(0x70u8);
    seed.push(0x6fu8);
    seed.push(0x6cu8);
    seed.push(0x6cu8);
    assert(seed@ =~= namespace_tag());
    seed
}

/// Derives the address of the poll `poll_id`.
pub fn derive_poll_address(program_id: &Address, poll_id: u64) -> (found: Option<Address>)
    ensures
        viewed(found) == poll_address(program_id@, poll_id),
{
    let mut seeds: Vec<Vec<u8>> = Vec::new();
    seeds.push(namespace_seed());
    seeds.push(u64_to_le_bytes(poll_id));
    assert(seeds.deep_view() =~= poll_seeds(poll_id)) by {
        lemma_path(seeds);
    }
    find_program_address(&seeds, program_id)
}

/// Derives the address of the candidate `candidate_name` of the poll
/// `poll_id`.
pub fn derive_candidate_address(program_id: &Address, poll_id: u64, candidate_name: &str) -> (found:
    Option<Address>)
    ensures
        viewed(found) == candidate_address(program_id@, poll_id, candidate_name@),
{
    let name: Vec<u8> = slice_to_vec(candidate_name.as_bytes());
    let mut seeds: Vec<Vec<u8>> = Vec::new();
    seeds.push(namespace_seed());
    seeds.push(u64_to_le_bytes(poll_id));
    seeds.push(name);
    assert(seeds.deep_view() =~= candidate_seeds(poll_id, candidate_name@)) by {
        lemma_path(seeds);
    }
    find_program_address(&seeds, program_id)
}

/// Derives the address of the participation record of `voter` in the poll
/// `poll_id`.
pub fn derive_participation_address(program_id: &Address, poll_id: u64, voter: &Address) -> (found:
    Option<Address>)
    ensures
        viewed(found) == participation_address(program_id@, poll_id, voter@),
{
    let mut seeds: Vec<Vec<u8>> = Vec::new();
    seeds.push(namespace_seed());
    seeds.push(u64_to_le_bytes(poll_id));
    seeds.push(voter.to_seed());
    assert(seeds.deep_view() =~= participation_seeds(poll_id, voter@)) by {
        lemma_path(seeds);
    }
    find_program_address(&seeds, program_id)
}

} // verus!
