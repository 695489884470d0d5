use vstd::prelude::*;

use crate::accounts::{Claim, CreateTicket, Revoke};
use crate::gate::{spec_should_override_unlock, ChainlinkValue};
use crate::ops::{claim_parties_consistent, claim_vaults_consistent, spec_claim,
    spec_create_ticket, spec_revoke};
use crate::schedule::{available_result, cliff_check_faults, release_faults};
use crate::ticket::{state_of, AccountKey, Ticket, TicketState};

verus! {

/// A fresh ticket is well formed — its grant is positive, its horizon is
/// no shorter than its cliff, and the grant equals balance plus claimed —
/// and creation moves the registry's counter up by exactly one, binding
/// the old count into the ticket's seed material: the counter only ever
/// grows, so no two tickets share a custody authority.
pub proof fn lemma_create_ticket_well_formed(
    a: CreateTicket,
    beneficiary: AccountKey,
    cliff: u64,
    vesting: u64,
    amount: u64,
    irrevocable: bool,
    bump: u8,
    now: u64,
    presented: Option<Seq<u8>>,
    derived: Option<(Seq<u8>, u8)>,
)
    ensures
        spec_create_ticket(
            a,
            beneficiary,
            cliff,
            vesting,
            amount,
            irrevocable,
            bump,
            now,
            presented,
            derived,
        ) matches Ok(p) ==> {
            &&& p.0.well_formed()
            &&& p.0.claimed == 0
            &&& p.0.balance == amount
            &&& p.0.issue_seq == a.vestor.tickets_issued
            &&& p.1.tickets_issued == a.vestor.tickets_issued + 1
        },
{
}

/// Claims neither mint nor burn: the grant is untouched and whatever
/// leaves the balance is counted as claimed, so a ticket whose grant
/// equals balance plus claimed keeps that relation through every claim.
pub proof fn lemma_claim_conserves(
    a: Claim,
    now: u64,
    feed_a: ChainlinkValue,
    feed_b: ChainlinkValue,
    authority: Option<Seq<u8>>,
)
    ensures
        spec_claim(a, now, feed_a, feed_b, authority) matches Ok(p) ==> {
            &&& p.0.amount == a.ticket.amount
            &&& p.0.balance + p.0.claimed == a.ticket.balance + a.ticket.claimed
            &&& (a.ticket.conserved() ==> p.0.conserved())
        },
{
}

/// Revocation freezes the ticket with its balance forfeited: what was
/// already claimed stays claimed, and the forfeited remainder is exactly
/// the amount the depositor gets back. The grant-equals-balance-plus-
/// claimed relation deliberately ends here: the forfeited tokens are
/// neither claimed nor escrowed.
pub proof fn lemma_revoke_forfeits(a: Revoke, now: u64, authority: Option<Seq<u8>>)
    ensures
        spec_revoke(a, now, authority) matches Ok(p) ==> {
            &&& p.0.claimed == a.ticket.claimed
            &&& p.0.balance == 0
            &&& p.0.amount == a.ticket.amount
            &&& p.1.amount == a.ticket.balance
        },
{
}

/// Before the cliff passes, nothing is available: for a ticket with a
/// cliff whose deadline is computable in 64 bits, every instant strictly
/// before `created_at + cliff` days releases exactly zero.
pub proof fn lemma_nothing_available_before_cliff(t: Ticket, now: u64)
    requires
        t.cliff > 0,
        now < t.created_at + t.cliff * 86400,
        !cliff_check_faults(t),
    ensures
        available_result(t, now) == Ok::<u64, crate::errors::ErrorCode>(0u64),
{
}

/// A revoked ticket is terminal for claims: a claim whose records name the
/// ticket's own parties fails with `TicketRevoked` and nothing else.
pub proof fn lemma_claim_after_revoke_fails(
    a: Claim,
    now: u64,
    feed_a: ChainlinkValue,
    feed_b: ChainlinkValue,
    authority: Option<Seq<u8>>,
)
    requires
        a.ticket.is_revoked,
        claim_parties_consistent(a),
    ensures
        spec_claim(a, now, feed_a, feed_b, authority) == Err::<
            (Ticket, crate::ops::ClaimEffect),
            crate::errors::ErrorCode,
        >(crate::errors::ErrorCode::TicketRevoked),
{
}

/// A revoked ticket is terminal for revocations too: revoking again fails
/// with `TicketRevoked` before anything else is even looked at.
pub proof fn lemma_revoke_after_revoke_fails(a: Revoke, now: u64, authority: Option<Seq<u8>>)
    requires
        a.ticket.is_revoked,
    ensures
        spec_revoke(a, now, authority) == Err::<
            (Ticket, crate::ops::RevokeEffect),
            crate::errors::ErrorCode,
        >(crate::errors::ErrorCode::TicketRevoked),
{
}

/// One claim never decreases the cumulative counters: `claimed` stays or
/// grows and `num_claims` strictly grows.
pub proof fn lemma_claim_monotonic(
    a: Claim,
    now: u64,
    feed_a: ChainlinkValue,
    feed_b: ChainlinkValue,
    authority: Option<Seq<u8>>,
)
    ensures
        spec_claim(a, now, feed_a, feed_b, authority) matches Ok(p) ==> p.0.claimed
            >= a.ticket.claimed && p.0.num_claims > a.ticket.num_claims,
{
}

/// Across two successive claims the counters never decrease: whatever the
/// clock and the feeds say each time, `claimed` and `num_claims` after the
/// second claim are at least what they were before the first.
pub proof fn lemma_successive_claims_monotonic(
    a: Claim,
    now1: u64,
    feed_a1: ChainlinkValue,
    feed_b1: ChainlinkValue,
    authority1: Option<Seq<u8>>,
    now2: u64,
    feed_a2: ChainlinkValue,
    feed_b2: ChainlinkValue,
    authority2: Option<Seq<u8>>,
)
    ensures
        ({
            let first = spec_claim(a, now1, feed_a1, feed_b1, authority1);
            match first {
                Ok(p1) => match spec_claim(
                    Claim { ticket: p1.0, ..a },
                    now2,
                    feed_a2,
                    feed_b2,
                    authority2,
                ) {
                    Ok(p2) => p2.0.claimed >= a.ticket.claimed && p2.0.num_claims
                        > a.ticket.num_claims,
                    Err(_) => true,
                },
                Err(_) => true,
            }
        }),
{
}

/// Claiming twice in the same second on a cliff-free ticket with no time
/// elapsed is a no-op both times: with the price gate quiet, each claim
/// succeeds, releases exactly zero, and leaves the balance untouched — it
/// never goes negative or wraps.
pub proof fn lemma_same_second_claims_release_nothing(
    a: Claim,
    now: u64,
    feed_a: ChainlinkValue,
    feed_b: ChainlinkValue,
    authority: Option<Seq<u8>>,
)
    requires
        a.ticket.cliff == 0,
        a.ticket.vesting > 0,
        a.ticket.vesting * 86400 <= u64::MAX,
        now == a.ticket.created_at,
        a.ticket.balance > 0,
        a.ticket.num_claims + 2 <= u64::MAX,
        claim_parties_consistent(a),
        claim_vaults_consistent(a),
        a.pda_deposit_token_vault.amount >= a.ticket.balance,
        !a.ticket.is_revoked,
        authority == Some(a.signer@),
        !spec_should_override_unlock(now, a.ticket.claimed, feed_a, feed_b),
    ensures
        ({
            let first = spec_claim(a, now, feed_a, feed_b, authority);
            match first {
                Ok(p1) => {
                    let second = spec_claim(
                        Claim { ticket: p1.0, ..a },
                        now,
                        feed_a,
                        feed_b,
                        authority,
                    );
                    &&& p1.1.amount == 0
                    &&& p1.0.balance == a.ticket.balance
                    &&& p1.0.claimed == a.ticket.claimed
                    &&& match second {
                        Ok(p2) => p2.1.amount == 0 && p2.0.balance == a.ticket.balance
                            && p2.0.claimed == a.ticket.claimed,
                        Err(_) => false,
                    }
                },
                Err(_) => false,
            }
        }),
{
    vstd::arithmetic::div_mod::lemma_div_of0(a.ticket.vesting * 86400);
    assert(!release_faults(a.ticket, now));
    let first = spec_claim(a, now, feed_a, feed_b, authority);
    assert(first matches Ok(p1) ==> !release_faults(p1.0, now));
}

/// The lifecycle has no way back: a claim acts only on an active ticket
/// and leaves it active or claimed out, and a revocation leaves the ticket
/// revoked. Both end states refuse every further claim and revocation.
pub proof fn lemma_lifecycle_transitions(
    ca: Claim,
    ra: Revoke,
    now: u64,
    feed_a: ChainlinkValue,
    feed_b: ChainlinkValue,
    authority: Option<Seq<u8>>,
)
    ensures
        spec_claim(ca, now, feed_a, feed_b, authority) matches Ok(p) ==> state_of(ca.ticket)
            is Active && (state_of(p.0) is Active || state_of(p.0) is ClaimedOut),
        spec_revoke(ra, now, authority) matches Ok(p) ==> state_of(ra.ticket) is Active && state_of(
            p.0,
        ) is Revoked,
{
}

} // verus!
