use vstd::prelude::*;

use crate::accounts::{Claim, CreateTicket, Initialize, Revoke};
use crate::authority::{authority_seeds, bound_authority_seeds, create_program_address,
    derived_authority, exact_authority, find_program_address, keys_equal, make_authority_seeds,
    make_bound_authority_seeds};
use crate::errors::ErrorCode;
use crate::gate::{should_override_unlock, spec_should_override_unlock, ChainlinkValue};
use crate::schedule::{available, available_result};
use crate::ticket::{AccountKey, Ticket, Vestor};

verus! {

/// The ledger transfer an operation asks its caller to perform.
#[derive(Clone, Copy, Debug, PartialEq, Eq)]
pub struct TransferEffect {
    /// The vault the tokens leave.
    pub from_vault: AccountKey,
    /// The vault the tokens enter.
    pub to_vault: AccountKey,
    /// The identity that authorizes the transfer.
    pub authority: AccountKey,
    /// How many tokens move.
    pub amount: u64,
}

/// What a successful creation asks its caller to perform: hand the escrow
/// vault's spending rights to the fresh custody authority.
#[derive(Clone, Copy, Debug, PartialEq, Eq)]
pub struct CreateEffect {
    /// The escrow vault whose authority changes.
    pub vault: AccountKey,
    /// The custody authority derived for the new ticket.
    pub new_authority: AccountKey,
}

/// What a successful claim asks its caller to perform: move the released
/// amount to the beneficiary, then hand the escrow vault's spending rights
/// back to the depositor.
#[derive(Clone, Copy, Debug, PartialEq, Eq)]
pub struct ClaimEffect {
    /// How many tokens the beneficiary receives now.
    pub amount: u64,
    /// Whether the price gate bypassed the schedule for this amount.
    pub schedule_bypassed: bool,
    /// The escrow vault the tokens leave.
    pub from_vault: AccountKey,
    /// The beneficiary vault the tokens enter.
    pub to_vault: AccountKey,
    /// The depositor identity that takes the vault's authority back.
    pub handback_owner: AccountKey,
}

/// What a successful revocation asks its caller to perform: return the
/// whole remaining balance to the depositor, then hand the escrow vault's
/// spending rights back.
#[derive(Clone, Copy, Debug, PartialEq, Eq)]
pub struct RevokeEffect {
    /// The forfeited balance going back to the depositor.
    pub amount: u64,
    /// The escrow vault the tokens leave.
    pub from_vault: AccountKey,
    /// The depositor vault the tokens enter.
    pub to_vault: AccountKey,
    /// The depositor identity that takes the vault's authority back.
    pub handback_owner: AccountKey,
}

/// What initialization does: with consistent records, a fresh registry
/// with no tickets issued and an opening transfer of `amount` from the
/// contract owner's vault to the future ticket creator's.
pub open spec fn spec_initialize(a: Initialize, amount: u64) -> Result<
    (Vestor, TransferEffect),
    ErrorCode,
> {
    if !a.accounts_consistent() {
        Err(ErrorCode::AccountMismatch)
    } else {
        Ok(
            (
                Vestor { tickets_issued: 0 },
                TransferEffect {
                    from_vault: a.contract_owner_deposit_token_vault.key,
                    to_vault: a.ticket_creator_deposit_token_vault.key,
                    authority: a.owner,
                    amount,
                },
            ),
        )
    }
}

/// Creates a registry for a depositing party and asks for the opening
/// transfer. The registry starts with no tickets issued.
pub fn initialize(a: &mut Initialize, amount: u64) -> (r: Result<TransferEffect, ErrorCode>)
    ensures
        match spec_initialize(*old(a), amount) {
            Ok(p) => r == Ok::<TransferEffect, ErrorCode>(p.1) && *final(a) == (Initialize {
                vestor: p.0,
                ..*old(a)
            }),
            Err(e) => r == Err::<TransferEffect, ErrorCode>(e) && *final(a) == *old(a),
        },
{
    let consistent = keys_equal(&a.contract_owner_deposit_token_vault.owner, &a.owner)
        && keys_equal(&a.contract_owner_deposit_token_vault.mint, &a.token_mint) && keys_equal(
        &a.ticket_creator_deposit_token_vault.mint,
        &a.contract_owner_deposit_token_vault.mint,
    );
    if !consistent {
        return Err(ErrorCode::AccountMismatch);
    }
    a.vestor = Vestor { tickets_issued: 0 };
    Ok(
        TransferEffect {
            from_vault: a.contract_owner_deposit_token_vault.key,
            to_vault: a.ticket_creator_deposit_token_vault.key,
            authority: a.owner,
            amount,
        },
    )
}

/// What ticket creation does, given what the two derivations returned for
/// its seed material: `presented` is what the caller's bump re-derives and
/// must equal the presented controller; `derived` is the fresh custody
/// authority found for the creation-time seeds. Validation order: the
/// authority proof, then record consistency, then the grant itself.
pub open spec fn spec_create_ticket(
    a: CreateTicket,
    beneficiary: AccountKey,
    cliff: u64,
    vesting: u64,
    amount: u64,
    irrevocable: bool,
    bump: u8,
    now: u64,
    presented: Option<Seq<u8>>,
    derived: Option<(Seq<u8>, u8)>,
) -> Result<(Ticket, Vestor), ErrorCode> {
    if presented is None {
        Err(ErrorCode::InvalidNonce)
    } else if presented != Some(a.signer@) {
        Err(ErrorCode::InvalidProgramInitializer)
    } else if !a.accounts_consistent() {
        Err(ErrorCode::AccountMismatch)
    } else if amount == 0 {
        Err(ErrorCode::AmountMustBeGreaterThanZero)
    } else if vesting < cliff {
        Err(ErrorCode::VestingPeriodShouldBeEqualOrLongerThanCliff)
    } else if a.ticket_creator_deposit_token_vault.amount < amount {
        Err(ErrorCode::NotEnoughTokens)
    } else if derived is None {
        Err(ErrorCode::InvalidNonce)
    } else if a.vestor.tickets_issued == u8::MAX {
        Err(ErrorCode::ArithmeticFault)
    } else {
        Ok(
            (
                Ticket {
                    token_mint: a.token_mint,
                    owner: a.owner,
                    claimant: beneficiary,
                    cliff,
                    vesting,
                    amount,
                    claimed: 0,
                    balance: amount,
                    created_at: now,
                    last_claimed_at: 0,
                    num_claims: 0,
                    irrevocable,
                    is_revoked: false,
                    revoked_at: 0,
                    vault: a.vault.key,
                    creator_deposit_token_vault: a.ticket_creator_deposit_token_vault.key,
                    claimant_receive_token_vault: a.claimant_receive_token_vault.key,
                    bump,
                    issue_seq: a.vestor.tickets_issued,
                },
                Vestor { tickets_issued: (a.vestor.tickets_issued + 1) as u8 },
            ),
        )
    }
}

/// Issues a vesting ticket: verifies the presented custody authority,
/// validates the grant, populates the ticket, counts it in the registry,
/// and asks the caller to hand the escrow vault to the fresh authority.
/// The escrow vault must already hold the granted amount.
pub fn create_ticket(
    a: &mut CreateTicket,
    beneficiary: AccountKey,
    cliff: u64,
    vesting: u64,
    amount: u64,
    irrevocable: bool,
    bump: u8,
    now: u64,
) -> (r: Result<CreateEffect, ErrorCode>)
    ensures
        ({
            let presented = exact_authority(
                bound_authority_seeds(old(a).ticket_key, old(a).vestor.tickets_issued, bump),
                old(a).program_id@,
            );
            let derived = derived_authority(
                authority_seeds(old(a).ticket_key, old(a).vestor.tickets_issued),
                old(a).program_id@,
            );
            match spec_create_ticket(
                *old(a),
                beneficiary,
                cliff,
                vesting,
                amount,
                irrevocable,
                bump,
                now,
                presented,
                derived,
            ) {
                Ok(p) => {
                    &&& *final(a) == (CreateTicket { ticket: p.0, vestor: p.1, ..*old(a) })
                    &&& (r matches Ok(e) && derived matches Some(d) && e.vault == old(
                        a,
                    ).vault.key && e.new_authority@ == d.0)
                },
                Err(err) => r == Err::<CreateEffect, ErrorCode>(err) && *final(a) == *old(a),
            }
        }),
{
    if let Err(e) = a.accounts(bump) {
        return Err(e);
    }
    let consistent = keys_equal(&a.ticket_creator_deposit_token_vault.owner, &a.owner)
        && keys_equal(
        &a.claimant_receive_token_vault.mint,
        &a.ticket_creator_deposit_token_vault.mint,
    ) && keys_equal(&a.vault.owner, &a.signer);
    if !consistent {
        return Err(ErrorCode::AccountMismatch);
    }
    if amount == 0 {
        return Err(ErrorCode::AmountMustBeGreaterThanZero);
    }
    if vesting < cliff {
        return Err(ErrorCode::VestingPeriodShouldBeEqualOrLongerThanCliff);
    }
    if a.ticket_creator_deposit_token_vault.amount < amount {
        return Err(ErrorCode::NotEnoughTokens);
    }
    let seeds = make_authority_seeds(&a.ticket_key, a.vestor.tickets_issued);
    let new_authority = match find_program_address(&seeds, &a.program_id) {
        Some(found) => found.0,
        None => {
            return Err(ErrorCode::InvalidNonce);
        },
    };
    let next_count = match a.vestor.tickets_issued.checked_add(1) {
        Some(c) => c,
        None => {
            return Err(ErrorCode::ArithmeticFault);
        },
    };
    a.ticket = Ticket {
        token_mint: a.token_mint,
        owner: a.owner,
        claimant: beneficiary,
        cliff,
        vesting,
        amount,
        claimed: 0,
        balance: amount,
        created_at: now,
        last_claimed_at: 0,
        num_claims: 0,
        irrevocable,
        is_revoked: false,
        revoked_at: 0,
        vault: a.vault.key,
        creator_deposit_token_vault: a.ticket_creator_deposit_token_vault.key,
        claimant_receive_token_vault: a.claimant_receive_token_vault.key,
        bump,
        issue_seq: a.vestor.tickets_issued,
    };
    a.vestor = Vestor { tickets_issued: next_count };
    Ok(CreateEffect { vault: a.vault.key, new_authority })
}

/// Whether a claim's records name the parties the ticket names: the
/// beneficiary, the beneficiary's vault and the escrow vault must all be
/// the ones stored on the ticket.
pub open spec fn claim_parties_consistent(a: Claim) -> bool {
    &&& a.ticket.claimant == a.claimant
    &&& a.ticket.claimant_receive_token_vault == a.claimant_receive_token_vault.key
    &&& a.ticket.vault == a.pda_deposit_token_vault.key
}

/// Whether a claim's vaults fit together: same token type on both sides,
/// the destination owned by the claimant, the escrow owned by the
/// presented authority.
pub open spec fn claim_vaults_consistent(a: Claim) -> bool {
    &&& a.claimant_receive_token_vault.mint == a.pda_deposit_token_vault.mint
    &&& a.claimant_receive_token_vault.owner == a.claimant
    &&& a.pda_deposit_token_vault.owner == a.signer
}

/// What a claim does, given what the stored seed material re-derives.
/// Checked in order: the parties, the terminal flag, a non-empty balance,
/// escrow funding, the vaults, the custody-authority proof. Then the price
/// gate picks the whole balance or the schedule's release; a zero release
/// still succeeds as a no-op. All balance arithmetic is checked.
pub open spec fn spec_claim(
    a: Claim,
    now: u64,
    feed_a: ChainlinkValue,
    feed_b: ChainlinkValue,
    authority: Option<Seq<u8>>,
) -> Result<(Ticket, ClaimEffect), ErrorCode> {
    let t = a.ticket;
    if !claim_parties_consistent(a) {
        Err(ErrorCode::AccountMismatch)
    } else if t.is_revoked {
        Err(ErrorCode::TicketRevoked)
    } else if t.balance == 0 {
        Err(ErrorCode::AmountMustBeGreaterThanZero)
    } else if a.pda_deposit_token_vault.amount < t.balance {
        Err(ErrorCode::NotEnoughTokens)
    } else if !claim_vaults_consistent(a) {
        Err(ErrorCode::AccountMismatch)
    } else if authority != Some(a.signer@) {
        Err(ErrorCode::AuthorityMismatch)
    } else {
        let bypass = spec_should_override_unlock(now, t.claimed, feed_a, feed_b);
        let released = if bypass {
            Ok(t.balance)
        } else {
            available_result(t, now)
        };
        match released {
            Err(e) => Err(e),
            Ok(amount) => if amount > t.balance || t.claimed + amount > u64::MAX || t.num_claims
                + 1 > u64::MAX {
                Err(ErrorCode::ArithmeticFault)
            } else {
                Ok(
                    (
                        Ticket {
                            claimed: (t.claimed + amount) as u64,
                            balance: (t.balance - amount) as u64,
                            last_claimed_at: now,
                            num_claims: (t.num_claims + 1) as u64,
                            ..t
                        },
                        ClaimEffect {
                            amount,
                            schedule_bypassed: bypass,
                            from_vault: a.pda_deposit_token_vault.key,
                            to_vault: a.claimant_receive_token_vault.key,
                            handback_owner: t.owner,
                        },
                    ),
                )
            },
        }
    }
}

/// Withdraws what the schedule (or the price gate) releases now, updates
/// the ticket, and asks the caller to perform the transfer and the
/// authority hand-back as one atomic unit with the returned state.
pub fn claim(a: &mut Claim, now: u64, feed_a: &ChainlinkValue, feed_b: &ChainlinkValue) -> (r:
    Result<ClaimEffect, ErrorCode>)
    ensures
        ({
            let authority = exact_authority(
                bound_authority_seeds(
                    old(a).ticket_key,
                    old(a).ticket.issue_seq,
                    old(a).ticket.bump,
                ),
                old(a).program_id@,
            );
            match spec_claim(*old(a), now, *feed_a, *feed_b, authority) {
                Ok(p) => r == Ok::<ClaimEffect, ErrorCode>(p.1) && *final(a) == (Claim {
                    ticket: p.0,
                    ..*old(a)
                }),
                Err(e) => r == Err::<ClaimEffect, ErrorCode>(e) && *final(a) == *old(a),
            }
        }),
{
    let t = a.ticket;
    let parties = keys_equal(&t.claimant, &a.claimant) && keys_equal(
        &t.claimant_receive_token_vault,
        &a.claimant_receive_token_vault.key,
    ) && keys_equal(&t.vault, &a.pda_deposit_token_vault.key);
    if !parties {
        return Err(ErrorCode::AccountMismatch);
    }
    if t.is_revoked {
        return Err(ErrorCode::TicketRevoked);
    }
    if t.balance == 0 {
        return Err(ErrorCode::AmountMustBeGreaterThanZero);
    }
    if a.pda_deposit_token_vault.amount < t.balance {
        return Err(ErrorCode::NotEnoughTokens);
    }
    let vaults = keys_equal(&a.claimant_receive_token_vault.mint, &a.pda_deposit_token_vault.mint)
        && keys_equal(&a.claimant_receive_token_vault.owner, &a.claimant) && keys_equal(
        &a.pda_deposit_token_vault.owner,
        &a.signer,
    );
    if !vaults {
        return Err(ErrorCode::AccountMismatch);
    }
    let seeds = make_bound_authority_seeds(&a.ticket_key, t.issue_seq, t.bump);
    let authority_ok = match create_program_address(&seeds, &a.program_id) {
        Some(derived) => keys_equal(&derived, &a.signer),
        None => false,
    };
    if !authority_ok {
        return Err(ErrorCode::AuthorityMismatch);
    }
    let bypass = should_override_unlock(now, t.claimed, feed_a, feed_b);
    let amount = if bypass {
        t.balance
    } else {
        match available(&t, now) {
            Ok(x) => x,
            Err(e) => {
                return Err(e);
            },
        }
    };
    let new_balance = match t.balance.checked_sub(amount) {
        Some(b) => b,
        None => {
            return Err(ErrorCode::ArithmeticFault);
        },
    };
    let new_claimed = match t.claimed.checked_add(amount) {
        Some(c) => c,
        None => {
            return Err(ErrorCode::ArithmeticFault);
        },
    };
    let new_num_claims = match t.num_claims.checked_add(1) {
        Some(n) => n,
        None => {
            return Err(ErrorCode::ArithmeticFault);
        },
    };
    a.ticket = Ticket {
        claimed: new_claimed,
        balance: new_balance,
        last_claimed_at: now,
        num_claims: new_num_claims,
        ..t
    };
    Ok(
        ClaimEffect {
            amount,
            schedule_bypassed: bypass,
            from_vault: a.pda_deposit_token_vault.key,
            to_vault: a.claimant_receive_token_vault.key,
            handback_owner: t.owner,
        },
    )
}

/// Whether a revocation's records fit the ticket: the requesting party is
/// the depositor, the token type, escrow vault and refund vault are the
/// stored ones, and the escrow vault is owned by the presented authority.
pub open spec fn revoke_accounts_consistent(a: Revoke) -> bool {
    &&& a.ticket.owner == a.ticket_creator
    &&& a.ticket.token_mint == a.token_mint
    &&& a.ticket.vault == a.pda_deposit_token_vault.key
    &&& a.ticket.creator_deposit_token_vault == a.ticket_creator_deposit_token_vault.key
    &&& a.pda_deposit_token_vault.mint == a.token_mint
    &&& a.pda_deposit_token_vault.owner == a.signer
}

/// What a revocation does, given what the stored seed material re-derives.
/// Checked in order: the terminal flag, irrevocability, the records, a
/// non-empty balance, the custody-authority proof. The whole balance goes
/// back to the depositor; what was already claimed stays claimed, the
/// forfeited remainder is not counted as claimed.
pub open spec fn spec_revoke(a: Revoke, now: u64, authority: Option<Seq<u8>>) -> Result<
    (Ticket, RevokeEffect),
    ErrorCode,
> {
    let t = a.ticket;
    if t.is_revoked {
        Err(ErrorCode::TicketRevoked)
    } else if t.irrevocable {
        Err(ErrorCode::TicketIrrevocable)
    } else if !revoke_accounts_consistent(a) {
        Err(ErrorCode::AccountMismatch)
    } else if t.balance == 0 {
        Err(ErrorCode::AmountMustBeGreaterThanZero)
    } else if authority != Some(a.signer@) {
        Err(ErrorCode::AuthorityMismatch)
    } else {
        Ok(
            (
                Ticket { is_revoked: true, balance: 0, revoked_at: now, ..t },
                RevokeEffect {
                    amount: t.balance,
                    from_vault: a.pda_deposit_token_vault.key,
                    to_vault: a.ticket_creator_deposit_token_vault.key,
                    handback_owner: t.owner,
                },
            ),
        )
    }
}

/// Ends a ticket early at the depositor's request: returns the whole
/// remaining balance to the depositor's vault, freezes the ticket as
/// revoked, and asks the caller to perform the transfer and the authority
/// hand-back atomically with the state update.
pub fn revoke(a: &mut Revoke, now: u64) -> (r: Result<RevokeEffect, ErrorCode>)
    ensures
        ({
            let authority = exact_authority(
                bound_authority_seeds(
                    old(a).ticket_key,
                    old(a).ticket.issue_seq,
                    old(a).ticket.bump,
                ),
                old(a).program_id@,
            );
            match spec_revoke(*old(a), now, authority) {
                Ok(p) => r == Ok::<RevokeEffect, ErrorCode>(p.1) && *final(a) == (Revoke {
                    ticket: p.0,
                    ..*old(a)
                }),
                Err(e) => r == Err::<RevokeEffect, ErrorCode>(e) && *final(a) == *old(a),
            }
        }),
{
    let t = a.ticket;
    if t.is_revoked {
        return Err(ErrorCode::TicketRevoked);
    }
    if t.irrevocable {
        return Err(ErrorCode::TicketIrrevocable);
    }
    let consistent = keys_equal(&t.owner, &a.ticket_creator) && keys_equal(
        &t.token_mint,
        &a.token_mint,
    ) && keys_equal(&t.vault, &a.pda_deposit_token_vault.key) && keys_equal(
        &t.creator_deposit_token_vault,
        &a.ticket_creator_deposit_token_vault.key,
    ) && keys_equal(&a.pda_deposit_token_vault.mint, &a.token_mint) && keys_equal(
        &a.pda_deposit_token_vault.owner,
        &a.signer,
    );
    if !consistent {
        return Err(ErrorCode::AccountMismatch);
    }
    if t.balance == 0 {
        return Err(ErrorCode::AmountMustBeGreaterThanZero);
    }
    let seeds = make_bound_authority_seeds(&a.ticket_key, t.issue_seq, t.bump);
    let authority_ok = match create_program_address(&seeds, &a.program_id) {
        Some(derived) => keys_equal(&derived, &a.signer),
        None => false,
    };
    if !authority_ok {
        return Err(ErrorCode::AuthorityMismatch);
    }
    a.ticket = Ticket { is_revoked: true, balance: 0, revoked_at: now, ..t };
    Ok(
        RevokeEffect {
            amount: t.balance,
            from_vault: a.pda_deposit_token_vault.key,
            to_vault: a.ticket_creator_deposit_token_vault.key,
            handback_owner: t.owner,
        },
    )
}

} // verus!
