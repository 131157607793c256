//! The guarantees the refund operation gives over every world it can run in,
//! each stated and proved over the refund transition itself.

use vstd::prelude::*;
use crate::authority::escrow_authority;
use crate::refund::{ata_amount, spec_refund, EscrowWorld};
use crate::state::EscrowError;

verus! {

/// A refund invocation whose inputs are all correctly bound: the caller is
/// the recorded maker, the descriptor is the recorded mint, the vault is
/// owned by the authority the record's stored seed tuple re-derives and holds
/// the recorded asset, and the maker's asset account, if it already exists,
/// is bound to the maker and that asset.
pub open spec fn valid_refund(w: EscrowWorld, program: Seq<u8>, caller: Seq<u8>, mint: Seq<u8>) -> bool {
    w.live matches Some(accounts) && {
        &&& caller == accounts.record.maker@
        &&& mint == accounts.record.mint_a@
        &&& escrow_authority(program, accounts.record.maker@, accounts.record.seed, accounts.record.bump)
            == Some(accounts.vault.owner@)
        &&& accounts.vault.mint@ == mint
        &&& (w.maker_ata matches Some(ata) ==> ata.owner@ == accounts.record.maker@ && ata.mint@ == mint)
    }
}

/// Refund by the recorded maker, on a live escrow whose accounts are
/// correctly bound, succeeds: the maker's asset balance grows by exactly the
/// vault's balance, the maker's native balance grows by both storage
/// deposits, and neither the vault nor the escrow record exists afterwards.
pub proof fn lemma_refund_pays_maker_in_full(w: EscrowWorld, program: Seq<u8>, caller: Seq<u8>, mint: Seq<u8>)
    requires
        w.wf(),
    ensures
        valid_refund(w, program, caller, mint) ==> ({
            let (closed, r) = spec_refund(w, program, caller, mint);
            &&& r == Ok::<(), EscrowError>(())
            &&& closed.live is None
            &&& ata_amount(closed.maker_ata) == ata_amount(w.maker_ata) + w.live->Some_0.vault.amount
            &&& closed.maker_lamports == w.maker_lamports + w.live->Some_0.record_deposit
                + w.live->Some_0.vault_deposit
            &&& closed.maker_ata matches Some(ata) && ata.owner@ == caller && ata.mint@ == mint
        }),
{
}

/// A caller other than the recorded maker is rejected with `InvalidMaker`,
/// and nothing changes.
pub proof fn lemma_wrong_maker_fails(w: EscrowWorld, program: Seq<u8>, caller: Seq<u8>, mint: Seq<u8>)
    ensures
        (w.live matches Some(accounts) && caller != accounts.record.maker@) ==> spec_refund(
            w,
            program,
            caller,
            mint,
        ) == (w, Err::<(), EscrowError>(EscrowError::InvalidMaker)),
{
}

/// An asset-type descriptor other than the recorded mint is rejected with
/// `InvalidMintA`, and nothing changes.
pub proof fn lemma_wrong_mint_fails(w: EscrowWorld, program: Seq<u8>, caller: Seq<u8>, mint: Seq<u8>)
    ensures
        (w.live matches Some(accounts) && caller == accounts.record.maker@ && mint
            != accounts.record.mint_a@) ==> spec_refund(w, program, caller, mint) == (
            w,
            Err::<(), EscrowError>(EscrowError::InvalidMintA),
        ),
{
}

/// When re-deriving the custody authority from the record's stored seed
/// tuple does not yield the vault's owner — as when the vault was set up
/// under a different seed or bump — the invocation is rejected with
/// `AuthorityMismatch`, and nothing changes.
pub proof fn lemma_authority_mismatch_fails(w: EscrowWorld, program: Seq<u8>, caller: Seq<u8>, mint: Seq<u8>)
    ensures
        (w.live matches Some(accounts) && {
            &&& caller == accounts.record.maker@
            &&& mint == accounts.record.mint_a@
            &&& escrow_authority(program, accounts.record.maker@, accounts.record.seed, accounts.record.bump)
                != Some(accounts.vault.owner@)
        }) ==> spec_refund(w, program, caller, mint) == (
            w,
            Err::<(), EscrowError>(EscrowError::AuthorityMismatch),
        ),
{
}

/// A failing invocation changes nothing, so re-invoking it on the world it
/// left behind fails identically.
pub proof fn lemma_failure_is_repeatable(w: EscrowWorld, program: Seq<u8>, caller: Seq<u8>, mint: Seq<u8>)
    ensures
        ({
            let (after, r) = spec_refund(w, program, caller, mint);
            r is Err ==> after == w && spec_refund(after, program, caller, mint) == (after, r)
        }),
{
}

/// Once a refund has succeeded the escrow record is gone, so every later
/// invocation against the same escrow — whoever calls it and whatever it
/// supplies — fails with `RecordNotFound` and changes nothing.
pub proof fn lemma_success_is_irreversible(
    w: EscrowWorld,
    program: Seq<u8>,
    caller: Seq<u8>,
    mint: Seq<u8>,
    program2: Seq<u8>,
    caller2: Seq<u8>,
    mint2: Seq<u8>,
)
    ensures
        ({
            let (closed, r) = spec_refund(w, program, caller, mint);
            r is Ok ==> spec_refund(closed, program2, caller2, mint2) == (
                closed,
                Err::<(), EscrowError>(EscrowError::RecordNotFound),
            )
        }),
{
}

} // verus!
