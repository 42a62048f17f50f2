//! Derived addresses: every singleton record lives at the address that its
//! seeds, the keys it refers to and a bump give under the owning program.

use crate::bytes::push_bytes;
use crate::error::SwitchboardError;
use crate::pubkey::Pubkey;
use anchor_lang::solana_program::pubkey::Pubkey as SolPubkey;
use vstd::prelude::*;

verus! {

/// The address that the ledger derives from `seeds` under `program_id`, or
/// `None` where the seeds give no address. It depends on the seeds and the
/// program alone.
pub uninterp spec fn derived_address(seeds: Seq<Seq<u8>>, program_id: Seq<u8>) -> Option<Seq<u8>>;

/// The most seeds that a derivation takes.
pub const MAX_SEEDS: usize = 16;

/// The most bytes that one seed may hold.
pub const MAX_SEED_LEN: usize = 32;

/// The byte strings that a list of seeds holds.
pub open spec fn seeds_view(seeds: Seq<Vec<u8>>) -> Seq<Seq<u8>> {
    Seq::new(seeds.len(), |i: int| seeds[i]@)
}

/// Whether a seed list is within the limits of the derivation.
pub open spec fn seeds_within_limits(seeds: Seq<Seq<u8>>) -> bool {
    &&& seeds.len() <= MAX_SEEDS
    &&& forall|i: int| 0 <= i < seeds.len() ==> (#[trigger] seeds[i]).len() <= MAX_SEED_LEN
}

/// Calls `Pubkey::create_program_address` of solana_program. The result is the
/// derived address of the seeds, and there is none where the seed list is over
/// the limits of sixteen seeds or thirty-two bytes in a seed.
#[verifier::external_body]
pub(crate) fn create_program_address(seeds: &Vec<Vec<u8>>, program_id: &Pubkey) -> (r: Option<
    Pubkey,
>)
    ensures
        match r {
            Some(k) => derived_address(seeds_view(seeds@), program_id@) == Some(k@),
            None => derived_address(seeds_view(seeds@), program_id@) is None,
        },
        r is Some ==> seeds_within_limits(seeds_view(seeds@)),
{
    let refs: Vec<&[u8]> = seeds.iter().map(|s| s.as_slice()).collect();
    let program = SolPubkey::new_from_array(program_id.bytes);
    match SolPubkey::create_program_address(&refs, &program) {
        Ok(k) => Some(Pubkey { bytes: k.to_bytes() }),
        Err(_) => None,
    }
}

/// Calls `Pubkey::try_find_program_address` of solana_program, which tries the
/// bumps from 255 down to 1 and returns the first for which the seeds with the
/// bump as one more seed have a derived address.
#[verifier::external_body]
pub(crate) fn try_find_program_address(seeds: &Vec<Vec<u8>>, program_id: &Pubkey) -> (r: Option<
    (Pubkey, u8),
>)
    ensures
        match r {
            Some((k, bump)) => {
                &&& bump >= 1
                &&& derived_address(seeds_view(seeds@).push(seq![bump]), program_id@) == Some(k@)
                &&& forall|b: u8|
                    bump < b ==> #[trigger] derived_address(
                        seeds_view(seeds@).push(seq![b]),
                        program_id@,
                    ) is None
            },
            None => forall|b: u8|
                1 <= b ==> #[trigger] derived_address(
                    seeds_view(seeds@).push(seq![b]),
                    program_id@,
                ) is None,
        },
{
    let refs: Vec<&[u8]> = seeds.iter().map(|s| s.as_slice()).collect();
    let program = SolPubkey::new_from_array(program_id.bytes);
    SolPubkey::try_find_program_address(&refs, &program).map(
        |(k, bump)| (Pubkey { bytes: k.to_bytes() }, bump),
    )
}

/// The seed list of a record: the domain seed, then the keys that the record
/// refers to, in order.
pub open spec fn seed_list(domain: Seq<u8>, keys: Seq<Pubkey>) -> Seq<Seq<u8>> {
    seq![domain] + Seq::new(keys.len(), |i: int| keys[i]@)
}

/// The address of the record with the given domain seed, keys and bump, if
/// the derivation gives one.
pub open spec fn derive_spec(
    domain: Seq<u8>,
    keys: Seq<Pubkey>,
    bump: u8,
    program_id: Seq<u8>,
) -> Option<Seq<u8>> {
    derived_address(seed_list(domain, keys).push(seq![bump]), program_id)
}

/// Builds the seed list of a record.
pub fn build_seeds(domain: &[u8], keys: &Vec<Pubkey>) -> (seeds: Vec<Vec<u8>>)
    ensures
        seeds_view(seeds@) == seed_list(domain@, keys@),
{
    let mut seeds: Vec<Vec<u8>> = Vec::new();
    let mut first: Vec<u8> = Vec::new();
    push_bytes(&mut first, domain);
    seeds.push(first);
    let mut i: usize = 0;
    while i < keys.len()
        invariant
            i <= keys@.len(),
            seeds@.len() == i + 1,
            seeds@[0]@ == domain@,
            forall|j: int| 0 <= j < i ==> (#[trigger] seeds@[j + 1])@ == keys@[j]@,
        decreases keys@.len() - i,
    {
        seeds.push(keys[i].to_vec());
        i += 1;
    }
    assert(seeds_view(seeds@) =~= seed_list(domain@, keys@)) by {
        assert forall|j: int| 0 <= j < seeds@.len() implies seeds_view(seeds@)[j] == seed_list(
            domain@,
            keys@,
        )[j] by {
            if j > 0 {
                assert(seeds@[(j - 1) + 1]@ == keys@[j - 1]@);
            }
        }
    }
    seeds
}

/// Derives the address of a record from its domain seed, the keys it refers
/// to and its bump. The same inputs always give the same address; inputs for
/// which the derivation gives none are refused.
pub fn derive_address(domain: &[u8], keys: &Vec<Pubkey>, bump: u8, program_id: &Pubkey) -> (r: Result<
    Pubkey,
    SwitchboardError,
>)
    ensures
        match r {
            Ok(k) => derive_spec(domain@, keys@, bump, program_id@) == Some(k@),
            Err(e) => e == SwitchboardError::AddressDerivationFailure && derive_spec(
                domain@,
                keys@,
                bump,
                program_id@,
            ) is None,
        },
{
    let mut seeds = build_seeds(domain, keys);
    let ghost before = seeds_view(seeds@);
    let mut last: Vec<u8> = Vec::new();
    last.push(bump);
    assert(last@ =~= seq![bump]);
    seeds.push(last);
    assert(seeds_view(seeds@) =~= before.push(seq![bump]));
    match create_program_address(&seeds, program_id) {
        Some(k) => Ok(k),
        None => Err(SwitchboardError::AddressDerivationFailure),
    }
}

/// Checks that `expected` is the address that the seeds and the bump give.
/// A bump that gives another address, or none, is refused: nothing is
/// corrected.
pub fn check_derived(
    expected: &Pubkey,
    domain: &[u8],
    keys: &Vec<Pubkey>,
    bump: u8,
    program_id: &Pubkey,
) -> (r: Result<(), SwitchboardError>)
    ensures
        r is Ok <==> derive_spec(domain@, keys@, bump, program_id@) == Some(expected@),
        r is Err ==> r == Err::<(), SwitchboardError>(SwitchboardError::AddressDerivationFailure),
{
    match derive_address(domain, keys, bump, program_id) {
        Ok(k) => {
            if k == *expected {
                Ok(())
            } else {
                Err(SwitchboardError::AddressDerivationFailure)
            }
        },
        Err(e) => Err(e),
    }
}

/// The greatest bump, from 255 down to 1, for which the seeds have an address,
/// with that address.
pub open spec fn find_spec(domain: Seq<u8>, keys: Seq<Pubkey>, program_id: Seq<u8>) -> Option<
    (Seq<u8>, u8),
> {
    if exists|b: u8| 1 <= b && derive_spec(domain, keys, b, program_id) is Some {
        let bump = choose|b: u8|
            1 <= b && derive_spec(domain, keys, b, program_id) is Some && forall|c: u8|
                b < c ==> derive_spec(domain, keys, c, program_id) is None;
        Some((derive_spec(domain, keys, bump, program_id)->0, bump))
    } else {
        None
    }
}

/// Finds the address of a record and its bump: the greatest bump, from 255
/// down to 1, for which the seeds have an address.
pub fn find(domain: &[u8], keys: &Vec<Pubkey>, program_id: &Pubkey) -> (r: Result<
    (Pubkey, u8),
    SwitchboardError,
>)
    ensures
        match r {
            Ok((k, bump)) => {
                &&& bump >= 1
                &&& derive_spec(domain@, keys@, bump, program_id@) == Some(k@)
                &&& forall|b: u8|
                    bump < b ==> #[trigger] derive_spec(domain@, keys@, b, program_id@) is None
                &&& find_spec(domain@, keys@, program_id@) == Some((k@, bump))
            },
            Err(e) => {
                &&& e == SwitchboardError::AddressDerivationFailure
                &&& forall|b: u8|
                    1 <= b ==> #[trigger] derive_spec(domain@, keys@, b, program_id@) is None
                &&& find_spec(domain@, keys@, program_id@) is None
            },
        },
{
    let seeds = build_seeds(domain, keys);
    match try_find_program_address(&seeds, program_id) {
        Some((k, bump)) => {
            proof {
                let d = domain@;
                let ks = keys@;
                let p = program_id@;
                assert(derive_spec(d, ks, bump, p) is Some);
                let chosen = choose|b: u8|
                    1 <= b && derive_spec(d, ks, b, p) is Some && forall|c: u8|
                        b < c ==> derive_spec(d, ks, c, p) is None;
                assert(forall|c: u8| bump < c ==> derive_spec(d, ks, c, p) is None);
                assert(chosen == bump) by {
                    if chosen < bump {
                        assert(derive_spec(d, ks, bump, p) is None);
                    }
                    if bump < chosen {
                        assert(derive_spec(d, ks, chosen, p) is None);
                    }
                }
            }
            Ok((k, bump))
        },
        None => Err(SwitchboardError::AddressDerivationFailure),
    }
}

/// Derivation is a function of its inputs: seeds, keys, bump and program
/// that are the same byte for byte give the same address, or both give none.
pub proof fn lemma_derive_deterministic(
    domain: Seq<u8>,
    keys: Seq<Pubkey>,
    bump: u8,
    program_id: Seq<u8>,
    other_domain: Seq<u8>,
    other_keys: Seq<Pubkey>,
    other_bump: u8,
    other_program_id: Seq<u8>,
)
    requires
        domain == other_domain,
        keys.len() == other_keys.len(),
        forall|i: int| 0 <= i < keys.len() ==> keys[i]@ == other_keys[i]@,
        bump == other_bump,
        program_id == other_program_id,
    ensures
        derive_spec(domain, keys, bump, program_id) == derive_spec(
            other_domain,
            other_keys,
            other_bump,
            other_program_id,
        ),
{
    assert(seed_list(domain, keys) =~= seed_list(other_domain, other_keys));
}

/// A bump is accepted for an address only if the seeds with that bump give
/// that very address: a bump that gives another address, or none, is never
/// taken for the right one, and at most one address is accepted for given
/// seeds and bump.
pub proof fn lemma_wrong_bump_rejected(
    expected: Pubkey,
    other: Pubkey,
    domain: Seq<u8>,
    keys: Seq<Pubkey>,
    bump: u8,
    program_id: Seq<u8>,
)
    requires
        derive_spec(domain, keys, bump, program_id) == Some(expected@),
        other@ != expected@,
    ensures
        derive_spec(domain, keys, bump, program_id) != Some(other@),
{
}

} // verus!
