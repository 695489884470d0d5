use vstd::prelude::*;

use crate::errors::ErrorCode;

verus! {

/// A 32-byte account identity, as the ledger stores it.
pub type AccountKey = [u8; 32];

/// The escrow registry: one per depositing party. Its counter diversifies
/// the custody-authority seeds, so no two tickets share a controller.
#[derive(Clone, Copy, Debug, PartialEq, Eq)]
pub struct Vestor {
    /// How many tickets this depositor has issued; only ever grows.
    pub tickets_issued: u8,
}

/// One beneficiary's vesting grant: parties, schedule, balances and the
/// stored material that re-derives its custody authority.
#[derive(Clone, Copy, Debug, PartialEq, Eq)]
pub struct Ticket {
    /// The token type held in escrow.
    pub token_mint: AccountKey,
    /// The depositing party.
    pub owner: AccountKey,
    /// The beneficiary entitled to claim.
    pub claimant: AccountKey,
    /// Days before any release is permitted; zero means no cliff.
    pub cliff: u64,
    /// Days over which the grant unlocks linearly.
    pub vesting: u64,
    /// The granted amount, fixed at creation.
    pub amount: u64,
    /// Cumulative tokens already withdrawn.
    pub claimed: u64,
    /// Tokens still held in escrow for this ticket.
    pub balance: u64,
    /// Unix time of creation; the schedule is measured from here.
    pub created_at: u64,
    /// Unix time of the most recent claim, zero before any claim.
    pub last_claimed_at: u64,
    /// How many claims have been made.
    pub num_claims: u64,
    /// Whether the depositor renounced revocation.
    pub irrevocable: bool,
    /// Whether the depositor has revoked the ticket; terminal once set.
    pub is_revoked: bool,
    /// Unix time of revocation, zero while the ticket is live.
    pub revoked_at: u64,
    /// The escrow vault whose spending rights the custody authority owns.
    pub vault: AccountKey,
    /// The depositor's source vault.
    pub creator_deposit_token_vault: AccountKey,
    /// The beneficiary's destination vault.
    pub claimant_receive_token_vault: AccountKey,
    /// The bump that, with the ticket identity and issue count, re-derives
    /// the custody authority.
    pub bump: u8,
    /// The registry's issue count when this ticket was created; part of
    /// the custody-authority seed material.
    pub issue_seq: u8,
}

impl Ticket {
    /// Nothing is minted or burned by a claim: the grant always equals
    /// what is still escrowed plus what was withdrawn. Revocation forfeits
    /// the remaining balance and is the one step outside this relation.
    pub open spec fn conserved(self) -> bool {
        self.amount == self.balance + self.claimed
    }

    /// What creation establishes and every claim preserves.
    pub open spec fn well_formed(self) -> bool {
        &&& self.conserved()
        &&& self.cliff <= self.vesting
        &&& self.amount > 0
    }
}

/// The ticket's lifecycle, made explicit: a live ticket can only drain to
/// zero through claims or be cut off by revocation, and both ends are final.
pub enum TicketState {
    /// Balance remains and the ticket accepts claims.
    Active,
    /// The balance reached zero through claims.
    ClaimedOut,
    /// The depositor revoked the ticket.
    Revoked,
}

/// Which lifecycle state a ticket is in.
pub open spec fn state_of(t: Ticket) -> TicketState {
    if t.is_revoked {
        TicketState::Revoked
    } else if t.balance == 0 {
        TicketState::ClaimedOut
    } else {
        TicketState::Active
    }
}

/// Refuses a revoked ticket, as every mutating operation must.
pub fn not_revoked(ticket: &Ticket) -> (r: Result<(), ErrorCode>)
    ensures
        r == if ticket.is_revoked {
            Err::<(), ErrorCode>(ErrorCode::TicketRevoked)
        } else {
            Ok::<(), ErrorCode>(())
        },
{
    if ticket.is_revoked {
        return Err(ErrorCode::TicketRevoked);
    }
    Ok(())
}

} // verus!
