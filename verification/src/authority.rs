use vstd::prelude::*;

use crate::ticket::AccountKey;
use anchor_lang::prelude::Pubkey;

verus! {

/// The decimal digits of `n`, as ASCII bytes. The registry's issue count
/// enters the custody-authority seed material in this textual form.
pub open spec fn decimal_digits(n: nat) -> Seq<u8>
    decreases n,
{
    if n < 10 {
        seq![(48 + n) as u8]
    } else {
        decimal_digits(n / 10).push((48 + n % 10) as u8)
    }
}

/// Renders an issue count as its decimal ASCII bytes.
pub fn decimal_bytes(n: u8) -> (r: Vec<u8>)
    ensures
        r@ == decimal_digits(n as nat),
{
    if n < 10 {
        let r: Vec<u8> = vec![48 + n];
        assert(r@ =~= decimal_digits(n as nat));
        r
    } else if n < 100 {
        let r: Vec<u8> = vec![48 + n / 10, 48 + n % 10];
        assert(decimal_digits((n / 10) as nat) == seq![(48 + n / 10) as u8]);
        assert(r@ =~= decimal_digits(n as nat));
        r
    } else {
        let r: Vec<u8> = vec![48 + n / 100, 48 + (n / 10) % 10, 48 + n % 10];
        assert(decimal_digits((n / 100) as nat) == seq![(48 + n / 100) as u8]);
        assert(decimal_digits((n / 10) as nat) == decimal_digits((n / 100) as nat).push(
            (48 + (n / 10) % 10) as u8,
        )) by {
            assert(n / 10 / 10 == n / 100);
        }
        assert(r@ =~= decimal_digits(n as nat));
        r
    }
}

/// Whether two account identities are the same 32 bytes.
pub fn keys_equal(a: &AccountKey, b: &AccountKey) -> (r: bool)
    ensures
        r == (*a == *b),
        r == (a@ == b@),
{
    broadcast use vstd::array::group_array_axioms;

    let mut i: usize = 0;
    while i < 32
        invariant
            0 <= i <= 32,
            forall|j: int| 0 <= j < i ==> a@[j] == b@[j],
        decreases 32 - i,
    {
        if a[i] != b[i] {
            assert(a@[i as int] != b@[i as int]);
            assert(*a != *b) by {
                assert(!(*a =~= *b));
            }
            assert(a@ != b@);
            return false;
        }
        i = i + 1;
    }
    assert(*a =~= *b);
    assert(a@ =~= b@);
    true
}

/// The seed material that derives a ticket's custody authority: the ticket
/// identity and the registry's issue count at creation, in decimal text.
pub open spec fn authority_seeds(ticket_key: AccountKey, issue_seq: u8) -> Seq<Seq<u8>> {
    seq![ticket_key@, decimal_digits(issue_seq as nat)]
}

/// The same seed material with the stored bump appended: the form in
/// which a presented authority is checked against its derivation.
pub open spec fn bound_authority_seeds(ticket_key: AccountKey, issue_seq: u8, bump: u8) -> Seq<
    Seq<u8>,
> {
    seq![ticket_key@, decimal_digits(issue_seq as nat), seq![bump]]
}

/// Builds the creation-time seed material as byte vectors.
pub fn make_authority_seeds(ticket_key: &AccountKey, issue_seq: u8) -> (r: Vec<Vec<u8>>)
    ensures
        r.deep_view() == authority_seeds(*ticket_key, issue_seq),
{
    let key_bytes = vstd::slice::slice_to_vec(ticket_key.as_slice());
    let count_bytes = decimal_bytes(issue_seq);
    let r = vec![key_bytes, count_bytes];
    assert(r.deep_view() =~~= authority_seeds(*ticket_key, issue_seq));
    r
}

/// Builds the bump-bound seed material as byte vectors.
pub fn make_bound_authority_seeds(ticket_key: &AccountKey, issue_seq: u8, bump: u8) -> (r: Vec<
    Vec<u8>,
>)
    ensures
        r.deep_view() == bound_authority_seeds(*ticket_key, issue_seq, bump),
{
    let key_bytes = vstd::slice::slice_to_vec(ticket_key.as_slice());
    let count_bytes = decimal_bytes(issue_seq);
    let bump_bytes: Vec<u8> = vec![bump];
    let r = vec![key_bytes, count_bytes, bump_bytes];
    assert(r.deep_view() =~~= bound_authority_seeds(*ticket_key, issue_seq, bump));
    r
}

/// The address and bump that searching the bump space yields for this seed
/// material, or nothing when the search is exhausted. A deterministic
/// function of the seeds and program identity alone.
pub uninterp spec fn derived_authority(seeds: Seq<Seq<u8>>, program_id: Seq<u8>) -> Option<
    (Seq<u8>, u8),
>;

/// The address this exact seed material (bump included) derives, or
/// nothing when it derives no valid authority. A deterministic function of
/// the seeds and program identity alone.
pub uninterp spec fn exact_authority(seeds: Seq<Seq<u8>>, program_id: Seq<u8>) -> Option<Seq<u8>>;

/// Relies on Pubkey::try_find_program_address of anchor_lang: the derived
/// address and bump depend on the seeds and the program identity alone,
/// and the search returns None rather than panicking when it finds no
/// viable bump.
#[verifier::external_body]
pub fn find_program_address(seeds: &Vec<Vec<u8>>, program_id: &AccountKey) -> (r: Option<
    (AccountKey, u8),
>)
    ensures
        derived_authority(seeds.deep_view(), program_id@) == match r {
            Some(p) => Some::<(Seq<u8>, u8)>((p.0@, p.1)),
            None => None::<(Seq<u8>, u8)>,
        },
{
    let seed_refs: Vec<&[u8]> = seeds.iter().map(|s| s.as_slice()).collect();
    let program = Pubkey::new_from_array(*program_id);
    Pubkey::try_find_program_address(&seed_refs, &program).map(|(addr, bump)| (addr.to_bytes(), bump))
}

/// Relies on Pubkey::create_program_address of anchor_lang: the derived
/// address depends on the seeds and the program identity alone, and the
/// call fails (here None) exactly when the seed material is over the
/// runtime's limits or derives no valid authority.
#[verifier::external_body]
pub fn create_program_address(seeds: &Vec<Vec<u8>>, program_id: &AccountKey) -> (r: Option<
    AccountKey,
>)
    ensures
        exact_authority(seeds.deep_view(), program_id@) == match r {
            Some(addr) => Some::<Seq<u8>>(addr@),
            None => None::<Seq<u8>>,
        },
{
    let seed_refs: Vec<&[u8]> = seeds.iter().map(|s| s.as_slice()).collect();
    let program = Pubkey::new_from_array(*program_id);
    match Pubkey::create_program_address(&seed_refs, &program) {
        Ok(addr) => Some(addr.to_bytes()),
        Err(_) => None,
    }
}

} // verus!
