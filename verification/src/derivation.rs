use vstd::prelude::*;

use crate::errors::VestingError;

verus! {

/// The (address, bump) pair that the host ledger's address derivation yields
/// for a seed list and a program identifier, or `None` where no bump produces
/// a valid derived address.
pub uninterp spec fn pda_of(seeds: Seq<Seq<u8>>, program_id: Seq<u8>) -> Option<(Seq<u8>, u8)>;

/// Relies on `Pubkey::try_find_program_address` (crate solana-address,
/// re-exported through anchor_lang): the result is a deterministic function of
/// the seed list and the program id alone; it is `None` whenever the list has
/// 16 or more seeds or a seed longer than 32 bytes; a returned address is 32
/// bytes.
#[verifier::external_body]
fn find_pda(seeds: &Vec<Vec<u8>>, program_id: &[u8; 32]) -> (r: Option<(Vec<u8>, u8)>)
    ensures
        (match r {
            Some(p) => Some((p.0@, p.1)),
            None => None,
        }) == pda_of(seeds.deep_view(), program_id@),
        (r matches Some(p) ==> p.0@.len() == 32),
        seeds.deep_view().len() >= 16 ==> r is None,
        (exists|i: int|
            0 <= i < seeds.deep_view().len() && #[trigger] seeds.deep_view()[i].len() > 32) ==> r
            is None,
{
    let refs: Vec<&[u8]> = seeds.iter().map(|s| s.as_slice()).collect();
    let program = anchor_lang::prelude::Pubkey::new_from_array(*program_id);
    match anchor_lang::prelude::Pubkey::try_find_program_address(&refs, &program) {
        Some((address, bump)) => Some((address.to_bytes().to_vec(), bump)),
        None => None,
    }
}

/// Derive the deterministic address and bump for a seed list under a program
/// identifier; the sole failure is a seed list that admits no derivation.
pub fn derive_address(seeds: &Vec<Vec<u8>>, program_id: &[u8; 32]) -> (r: Result<
    (Vec<u8>, u8),
    VestingError,
>)
    ensures
        (r matches Ok(p) ==> pda_of(seeds.deep_view(), program_id@) == Some((p.0@, p.1))
            && p.0@.len() == 32),
        (r matches Err(e) ==> e == VestingError::SeedConstraintViolation && pda_of(
            seeds.deep_view(),
            program_id@,
        ) is None),
        r is Ok <==> pda_of(seeds.deep_view(), program_id@) is Some,
{
    match find_pda(seeds, program_id) {
        Some(p) => Ok(p),
        None => Err(VestingError::SeedConstraintViolation),
    }
}

/// The fixed prefix seed that marks a treasury holding account:
/// the bytes of "vesting_treasury".
pub open spec fn treasury_prefix() -> Seq<u8> {
    seq![118u8, 101u8, 115u8, 116u8, 105u8, 110u8, 103u8, 95u8, 116u8, 114u8, 101u8, 97u8, 115u8, 117u8, 114u8, 121u8]
}

/// The seed list of a company's vesting record: the company name alone.
pub open spec fn record_seeds(name: Seq<u8>) -> Seq<Seq<u8>> {
    seq![name]
}

/// The seed list of a company's treasury holding account: the fixed treasury
/// prefix, then the company name.
pub open spec fn treasury_seeds(name: Seq<u8>) -> Seq<Seq<u8>> {
    seq![treasury_prefix(), name]
}

/// Copy a byte string.
pub fn clone_bytes(v: &Vec<u8>) -> (r: Vec<u8>)
    ensures
        r@ == v@,
{
    let mut r: Vec<u8> = Vec::new();
    let mut i: usize = 0;
    while i < v.len()
        invariant
            i <= v.len(),
            r@ == v@.subrange(0, i as int),
        decreases v.len() - i,
    {
        r.push(v[i]);
        proof {
            assert(r@ =~= v@.subrange(0, i + 1));
        }
        i = i + 1;
    }
    proof {
        assert(r@ =~= v@);
    }
    r
}

/// Build the prefix seed of a treasury holding account.
pub fn treasury_prefix_bytes() -> (r: Vec<u8>)
    ensures
        r@ == treasury_prefix(),
{
    let mut r: Vec<u8> = Vec::new();
    r.push(118u8);
    r.push(101u8);
    r.push(115u8);
    r.push(116u8);
    r.push(105u8);
    r.push(110u8);
    r.push(103u8);
    r.push(95u8);
    r.push(116u8);
    r.push(114u8);
    r.push(101u8);
    r.push(97u8);
    r.push(115u8);
    r.push(117u8);
    r.push(114u8);
    r.push(121u8);
    proof {
        assert(r@ =~= treasury_prefix());
    }
    r
}

/// Build the seed list of a company's vesting record.
pub fn record_seed_list(name: &Vec<u8>) -> (r: Vec<Vec<u8>>)
    ensures
        r.deep_view() == record_seeds(name@),
{
    let mut r: Vec<Vec<u8>> = Vec::new();
    r.push(clone_bytes(name));
    proof {
        assert(r.deep_view() =~~= record_seeds(name@));
    }
    r
}

/// Build the seed list of a company's treasury holding account.
pub fn treasury_seed_list(name: &Vec<u8>) -> (r: Vec<Vec<u8>>)
    ensures
        r.deep_view() == treasury_seeds(name@),
{
    let mut r: Vec<Vec<u8>> = Vec::new();
    r.push(treasury_prefix_bytes());
    r.push(clone_bytes(name));
    proof {
        assert(r.deep_view() =~~= treasury_seeds(name@));
    }
    r
}

/// Distinct company names give distinct seed lists, for the record and for
/// the treasury derivation alike.
pub proof fn lemma_distinct_names_distinct_seeds(a: Seq<u8>, b: Seq<u8>)
    requires
        a != b,
    ensures
        record_seeds(a) != record_seeds(b),
        treasury_seeds(a) != treasury_seeds(b),
{
    assert(record_seeds(a)[0] == a && record_seeds(b)[0] == b);
    assert(treasury_seeds(a)[1] == a && treasury_seeds(b)[1] == b);
}

/// A record seed list and a treasury seed list are never the same, whatever
/// the names: the treasury list carries the fixed prefix as an extra seed.
pub proof fn lemma_record_and_treasury_seeds_distinct(a: Seq<u8>, b: Seq<u8>)
    ensures
        record_seeds(a) != treasury_seeds(b),
{
    assert(record_seeds(a).len() == 1 && treasury_seeds(b).len() == 2);
}

/// Address derivation is a pure function: identical seed lists and program
/// identifiers always yield identical (address, bump) results.
pub proof fn lemma_derivation_deterministic(
    seeds1: Seq<Seq<u8>>,
    program_id1: Seq<u8>,
    seeds2: Seq<Seq<u8>>,
    program_id2: Seq<u8>,
)
    requires
        seeds1 == seeds2,
        program_id1 == program_id2,
    ensures
        pda_of(seeds1, program_id1) == pda_of(seeds2, program_id2),
{
}

} // verus!
