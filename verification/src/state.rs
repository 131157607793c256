//! The data the escrow logic reads: account addresses, the escrow record,
//! token accounts, and the operation's error taxonomy.

use vstd::prelude::*;
use vstd::bytes::{spec_u64_from_le_bytes, u64_from_le_bytes};
use vstd::slice::{slice_index_get, slice_subrange};

verus! {

/// The length of an escrow record's stored byte form.
pub const ESCROW_RECORD_LEN: usize = 73;

/// A 32-byte account address, as the runtime identifies signers, programs,
/// asset mints and derived authorities.
#[derive(Clone, Copy, Debug)]
pub struct Address {
    pub bytes: [u8; 32],
}

impl View for Address {
    type V = Seq<u8>;

    open spec fn view(&self) -> Seq<u8> {
        self.bytes@
    }
}

impl Address {
    /// Byte-for-byte equality of two addresses.
    pub fn equals(&self, other: &Address) -> (r: bool)
        ensures
            r <==> self@ == other@,
    {
        let mut i: usize = 0;
        while i < 32
            invariant
                i <= 32,
                forall|j: int| 0 <= j < i ==> self.bytes@[j] == other.bytes@[j],
            decreases 32 - i,
        {
            if self.bytes[i] != other.bytes[i] {
                return false;
            }
            i = i + 1;
        }
        proof {
            assert(self@ =~= other@);
        }
        true
    }
}

/// One maker's escrow record: the state persisted between the deposit that
/// opens the escrow and the operation that closes it. `bump` is the stored
/// derivation nonce that lets the custody authority be reconstructed without
/// a search.
#[derive(Clone, Copy, Debug)]
pub struct Escrow {
    pub maker: Address,
    pub mint_a: Address,
    pub seed: u64,
    pub bump: u8,
}

/// The 32 bytes of `data` starting at `start`, as an address.
fn read_address(data: &[u8], start: usize) -> (r: Address)
    requires
        start + 32 <= data@.len(),
    ensures
        r@ == data@.subrange(start as int, start as int + 32),
{
    let n = data.len();
    let mut bytes: [u8; 32] = [0; 32];
    let mut i: usize = 0;
    while i < 32
        invariant
            i <= 32,
            start + 32 <= n == data@.len(),
            forall|j: int| 0 <= j < i ==> bytes@[j] == data@[start + j],
        decreases 32 - i,
    {
        bytes[i] = data[start + i];
        i = i + 1;
    }
    let r = Address { bytes };
    proof {
        assert(r@ =~= data@.subrange(start as int, start as int + 32));
    }
    r
}

impl Escrow {
    /// Reads an escrow record from its stored byte form — the maker address,
    /// the mint address, the seed in little-endian order, and the bump — and
    /// rejects data of any other length.
    pub fn from_bytes(data: &[u8]) -> (r: Option<Escrow>)
        ensures
            r is Some <==> data@.len() == ESCROW_RECORD_LEN,
            r matches Some(record) ==> {
                &&& record.maker@ == data@.subrange(0, 32)
                &&& record.mint_a@ == data@.subrange(32, 64)
                &&& record.seed == spec_u64_from_le_bytes(data@.subrange(64, 72))
                &&& record.bump == data@[72]
            },
    {
        if data.len() != ESCROW_RECORD_LEN {
            return None;
        }
        let maker = read_address(data, 0);
        let mint_a = read_address(data, 32);
        let seed = u64_from_le_bytes(slice_subrange(data, 64, 72));
        let bump = *slice_index_get(data, 72);
        Some(Escrow { maker, mint_a, seed, bump })
    }
}

/// A token account: a balance of one asset type held for an owner. The vault
/// is a token account owned by the escrow's derived authority; the maker's
/// asset account is one owned by the maker.
#[derive(Clone, Copy, Debug)]
pub struct TokenAccount {
    pub mint: Address,
    pub owner: Address,
    pub amount: u64,
}

/// Why a refund invocation was rejected. Every rejection is reported before
/// any state changes, so a failed invocation has no effect.
#[derive(Clone, Copy, Debug, PartialEq, Eq, Structural)]
pub enum EscrowError {
    /// The caller is not the maker recorded on the escrow.
    InvalidMaker,
    /// The supplied asset-type descriptor is not the mint recorded on the
    /// escrow.
    InvalidMintA,
    /// Re-deriving the custody authority from the record's stored seed tuple
    /// does not yield the vault's actual owner.
    AuthorityMismatch,
    /// The vault or the maker's asset account is not bound to the declared
    /// asset type and owner.
    AssetMismatch,
    /// The escrow record referenced by the invocation no longer exists.
    RecordNotFound,
}

} // verus!
