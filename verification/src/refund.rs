//! The refund operation: validation of the caller and the account
//! relationships, and the atomic transition that returns the vault's whole
//! balance and both storage deposits to the maker and closes the vault and
//! the escrow record.

use vstd::prelude::*;
use crate::authority::{derive_escrow_authority, escrow_authority};
use crate::state::{Address, Escrow, EscrowError, TokenAccount};

verus! {

/// What validating one refund invocation against a live escrow record
/// decides: the full vault balance to move, or the first precondition that
/// fails, in the order the operation checks them.
pub open spec fn refund_outcome(
    program: Seq<u8>,
    caller: Seq<u8>,
    record: Escrow,
    mint: Seq<u8>,
    vault: TokenAccount,
    maker_ata: Option<TokenAccount>,
) -> Result<u64, EscrowError> {
    if caller != record.maker@ {
        Err(EscrowError::InvalidMaker)
    } else if mint != record.mint_a@ {
        Err(EscrowError::InvalidMintA)
    } else if escrow_authority(program, record.maker@, record.seed, record.bump) != Some(vault.owner@) {
        Err(EscrowError::AuthorityMismatch)
    } else if vault.mint@ != mint {
        Err(EscrowError::AssetMismatch)
    } else if maker_ata matches Some(ata) && !(ata.owner@ == record.maker@ && ata.mint@ == mint) {
        Err(EscrowError::AssetMismatch)
    } else {
        Ok(vault.amount)
    }
}

/// Checks every precondition of a refund invocation and decides it, without
/// touching any state: the caller must be the recorded maker, the supplied
/// asset-type descriptor must be the recorded mint, the vault's owner must be
/// the authority re-derived from the record's stored seed tuple, and the
/// vault and the maker's asset account (if it already exists) must be bound
/// to that same asset. On success it returns the vault's current balance,
/// read fresh: the amount the refund moves.
pub fn check_refund(
    program: &Address,
    caller: &Address,
    record: &Escrow,
    mint: &Address,
    vault: &TokenAccount,
    maker_ata: Option<&TokenAccount>,
) -> (r: Result<u64, EscrowError>)
    ensures
        r == refund_outcome(program@, caller@, *record, mint@, *vault, ata_of(maker_ata)),
{
    if !caller.equals(&record.maker) {
        return Err(EscrowError::InvalidMaker);
    }
    if !mint.equals(&record.mint_a) {
        return Err(EscrowError::InvalidMintA);
    }
    let authority_matches = match derive_escrow_authority(program, &record.maker, record.seed, record.bump) {
        Some(derived) => derived.equals(&vault.owner),
        None => false,
    };
    if !authority_matches {
        return Err(EscrowError::AuthorityMismatch);
    }
    if !vault.mint.equals(mint) {
        return Err(EscrowError::AssetMismatch);
    }
    if let Some(ata) = maker_ata {
        if !(ata.owner.equals(&record.maker) && ata.mint.equals(mint)) {
            return Err(EscrowError::AssetMismatch);
        }
    }
    Ok(vault.amount)
}

/// The value behind an optional reference to a token account.
pub open spec fn ata_of(maker_ata: Option<&TokenAccount>) -> Option<TokenAccount> {
    match maker_ata {
        Some(ata) => Some(*ata),
        None => None,
    }
}

/// The accounts that exist exactly while an escrow is open: its record, the
/// vault bound to it, and the storage deposit each of the two holds, owed
/// back to the maker when the account is destroyed.
#[derive(Clone, Copy, Debug)]
pub struct EscrowAccounts {
    pub record: Escrow,
    pub record_deposit: u64,
    pub vault: TokenAccount,
    pub vault_deposit: u64,
}

/// Everything a refund invocation can observe or change: the open escrow (or
/// its absence, once closed), the maker's asset account (absent until first
/// needed), and the maker's balance of the native unit that storage deposits
/// are paid in.
#[derive(Clone, Copy, Debug)]
pub struct EscrowWorld {
    pub live: Option<EscrowAccounts>,
    pub maker_ata: Option<TokenAccount>,
    pub maker_lamports: u64,
}

/// The maker's current asset balance: zero while the asset account does not
/// exist.
pub open spec fn ata_amount(maker_ata: Option<TokenAccount>) -> int {
    match maker_ata {
        Some(ata) => ata.amount as int,
        None => 0,
    }
}

impl EscrowWorld {
    /// What the surrounding runtime guarantees of any world a refund can run
    /// in: balances of one asset stay within the asset's 64-bit supply, and
    /// the maker's native balance has room for the two reclaimed deposits.
    pub open spec fn wf(self) -> bool {
        self.live matches Some(accounts) ==> {
            &&& accounts.vault.amount + ata_amount(self.maker_ata) <= u64::MAX
            &&& self.maker_lamports + accounts.record_deposit + accounts.vault_deposit <= u64::MAX
        }
    }
}

/// The maker's asset account after a refund of `amount`: created empty and
/// bound to the maker and the escrowed asset if it did not exist, then
/// credited with the whole vault balance.
pub open spec fn credited_ata(maker_ata: Option<TokenAccount>, record: Escrow, amount: u64) -> TokenAccount {
    let existing = match maker_ata {
        Some(ata) => ata,
        None => TokenAccount { mint: record.mint_a, owner: record.maker, amount: 0 },
    };
    TokenAccount { amount: (existing.amount + amount) as u64, ..existing }
}

/// The refund transition: the world after one invocation, and what the
/// invocation returns. A failing invocation leaves the world exactly as it
/// was; a succeeding one moves the whole vault balance to the maker's asset
/// account, returns both storage deposits to the maker, and destroys the
/// vault and the escrow record.
pub open spec fn spec_refund(w: EscrowWorld, program: Seq<u8>, caller: Seq<u8>, mint: Seq<u8>)
    -> (EscrowWorld, Result<(), EscrowError>)
{
    match w.live {
        None => (w, Err(EscrowError::RecordNotFound)),
        Some(accounts) => match refund_outcome(program, caller, accounts.record, mint, accounts.vault, w.maker_ata) {
            Err(e) => (w, Err(e)),
            Ok(amount) => {
                let closed = EscrowWorld {
                    live: None,
                    maker_ata: Some(credited_ata(w.maker_ata, accounts.record, amount)),
                    maker_lamports: (w.maker_lamports + accounts.record_deposit + accounts.vault_deposit) as u64,
                };
                (closed, Ok(()))
            },
        },
    }
}

impl EscrowWorld {
    /// The one exposed operation: refund. Validates the caller and every
    /// account relationship against the live escrow record, and only then —
    /// atomically — moves the vault's whole balance to the maker's asset
    /// account (creating it if absent), returns both storage deposits to the
    /// maker, and destroys the vault and the record. Any failure leaves the
    /// world untouched and names the precondition that failed.
    pub fn refund(&mut self, program: &Address, caller: &Address, mint: &Address)
        -> (r: Result<(), EscrowError>)
        requires
            old(self).wf(),
        ensures
            (*final(self), r) == spec_refund(*old(self), program@, caller@, mint@),
            final(self).wf(),
    {
        let accounts = match &self.live {
            None => {
                return Err(EscrowError::RecordNotFound);
            },
            Some(accounts) => *accounts,
        };
        let ata_ref = self.maker_ata.as_ref();
        let amount = match check_refund(program, caller, &accounts.record, mint, &accounts.vault, ata_ref) {
            Err(e) => {
                return Err(e);
            },
            Ok(amount) => amount,
        };
        let existing = match &self.maker_ata {
            Some(ata) => *ata,
            None => TokenAccount { mint: accounts.record.mint_a, owner: accounts.record.maker, amount: 0 },
        };
        self.live = None;
        self.maker_ata = Some(TokenAccount { amount: existing.amount + amount, ..existing });
        self.maker_lamports = self.maker_lamports + accounts.record_deposit + accounts.vault_deposit;
        Ok(())
    }
}

} // verus!
