use vstd::prelude::*;

use crate::authority::{bound_authority_seeds, create_program_address, exact_authority, keys_equal,
    make_bound_authority_seeds};
use crate::errors::ErrorCode;
use crate::ticket::{AccountKey, Ticket, Vestor};

verus! {

/// What an operation reads of a token vault on the ledger: its identity,
/// its token type, its owner and its current token amount.
#[derive(Clone, Copy, Debug, PartialEq, Eq)]
pub struct TokenVault {
    /// The vault's own account identity.
    pub key: AccountKey,
    /// The token type the vault holds.
    pub mint: AccountKey,
    /// The identity allowed to spend from the vault.
    pub owner: AccountKey,
    /// The tokens the vault currently holds.
    pub amount: u64,
}

/// The records an initialization presents: the registry being created and
/// the two vaults of the opening transfer.
#[derive(Clone, Copy, Debug, PartialEq, Eq)]
pub struct Initialize {
    /// The registry being created for this depositor.
    pub vestor: Vestor,
    /// The contract owner's vault, source of the opening transfer.
    pub contract_owner_deposit_token_vault: TokenVault,
    /// The future ticket creator's vault, destination of that transfer.
    pub ticket_creator_deposit_token_vault: TokenVault,
    /// The token type both vaults must hold.
    pub token_mint: AccountKey,
    /// The signing owner of the source vault.
    pub owner: AccountKey,
}

impl Initialize {
    /// Whether the presented records fit together: the source vault is the
    /// owner's and both vaults hold the named token type.
    pub open spec fn accounts_consistent(self) -> bool {
        &&& self.contract_owner_deposit_token_vault.owner == self.owner
        &&& self.contract_owner_deposit_token_vault.mint == self.token_mint
        &&& self.ticket_creator_deposit_token_vault.mint
            == self.contract_owner_deposit_token_vault.mint
    }

    /// Whether this caller may initialize a registry. Open to everyone.
    pub fn has_access(&self) -> (r: Result<(), ErrorCode>)
        ensures
            r == Ok::<(), ErrorCode>(()),
    {
        Ok(())
    }
}

/// The records a ticket creation presents.
#[derive(Clone, Copy, Debug, PartialEq, Eq)]
pub struct CreateTicket {
    /// The identity of the fresh ticket record.
    pub ticket_key: AccountKey,
    /// The ticket record being populated.
    pub ticket: Ticket,
    /// The depositing party, owner of the source vault.
    pub owner: AccountKey,
    /// The presented custody authority for the new ticket.
    pub signer: AccountKey,
    /// The token type being escrowed.
    pub token_mint: AccountKey,
    /// The depositor's source vault.
    pub ticket_creator_deposit_token_vault: TokenVault,
    /// The beneficiary's destination vault.
    pub claimant_receive_token_vault: TokenVault,
    /// The escrow vault the custody authority will control.
    pub vault: TokenVault,
    /// The depositor's registry.
    pub vestor: Vestor,
    /// The protocol's own identity, part of every derivation.
    pub program_id: AccountKey,
}

impl CreateTicket {
    /// Whether the presented records fit together: the source vault is the
    /// depositor's, destination and source hold the same token type, and
    /// the escrow vault is already controlled by the presented authority.
    pub open spec fn accounts_consistent(self) -> bool {
        &&& self.ticket_creator_deposit_token_vault.owner == self.owner
        &&& self.claimant_receive_token_vault.mint == self.ticket_creator_deposit_token_vault.mint
        &&& self.vault.owner == self.signer
    }

    /// What the authority check decides: no authority exists for the seed
    /// material, the derived one is not the presented one, or it matches.
    pub open spec fn authority_check(self, bump: u8) -> Result<(), ErrorCode> {
        match exact_authority(
            bound_authority_seeds(self.ticket_key, self.vestor.tickets_issued, bump),
            self.program_id@,
        ) {
            None => Err(ErrorCode::InvalidNonce),
            Some(derived) => if derived != self.signer@ {
                Err(ErrorCode::InvalidProgramInitializer)
            } else {
                Ok(())
            },
        }
    }

    /// Verifies the presented custody authority: the ticket identity, the
    /// registry's issue count and the caller's bump must re-derive exactly
    /// the presented controller identity.
    pub fn accounts(&self, bump: u8) -> (r: Result<(), ErrorCode>)
        ensures
            r == self.authority_check(bump),
    {
        let seeds = make_bound_authority_seeds(&self.ticket_key, self.vestor.tickets_issued, bump);
        match create_program_address(&seeds, &self.program_id) {
            None => Err(ErrorCode::InvalidNonce),
            Some(derived) => {
                if !keys_equal(&derived, &self.signer) {
                    Err(ErrorCode::InvalidProgramInitializer)
                } else {
                    Ok(())
                }
            },
        }
    }
}

/// The records a claim presents.
#[derive(Clone, Copy, Debug, PartialEq, Eq)]
pub struct Claim {
    /// The identity of the ticket record.
    pub ticket_key: AccountKey,
    /// The ticket being claimed against.
    pub ticket: Ticket,
    /// The presented custody authority for the escrow vault.
    pub signer: AccountKey,
    /// The depositing party, refunded the record's storage when it closes.
    pub ticket_creator: AccountKey,
    /// The escrow vault the custody authority spends from.
    pub pda_deposit_token_vault: TokenVault,
    /// The beneficiary's destination vault.
    pub claimant_receive_token_vault: TokenVault,
    /// The claiming beneficiary.
    pub claimant: AccountKey,
    /// The protocol's own identity, part of every derivation.
    pub program_id: AccountKey,
}

/// The records a revocation presents.
#[derive(Clone, Copy, Debug, PartialEq, Eq)]
pub struct Revoke {
    /// The identity of the ticket record.
    pub ticket_key: AccountKey,
    /// The ticket being revoked.
    pub ticket: Ticket,
    /// The presented custody authority for the escrow vault.
    pub signer: AccountKey,
    /// The depositing party requesting the revocation.
    pub ticket_creator: AccountKey,
    /// The token type the ticket escrows.
    pub token_mint: AccountKey,
    /// The depositor's vault the balance returns to.
    pub ticket_creator_deposit_token_vault: TokenVault,
    /// The escrow vault the custody authority spends from.
    pub pda_deposit_token_vault: TokenVault,
    /// The protocol's own identity, part of every derivation.
    pub program_id: AccountKey,
}

} // verus!
