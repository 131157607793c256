use escrow_refund::authority::open_escrow;
use escrow_refund::refund::{check_refund, EscrowAccounts, EscrowWorld};
use escrow_refund::state::{Address, Escrow, EscrowError, TokenAccount};

fn addr(tag: u8) -> Address {
    Address { bytes: [tag; 32] }
}

const PROGRAM: u8 = 11;
const MAKER: u8 = 1;
const MINT_A: u8 = 2;
const OUTSIDER: u8 = 3;

/// A world holding one correctly set-up escrow of `balance` tokens: the
/// record's bump is the one the derivation finds, and the vault is owned by
/// the authority that bump re-derives.
fn open_world(seed: u64, balance: u64) -> (EscrowWorld, Escrow, Address) {
    let program = addr(PROGRAM);
    let maker = addr(MAKER);
    let mint = addr(MINT_A);
    let (record, authority) = open_escrow(&program, &maker, &mint, seed).expect("a bump exists");
    let world = EscrowWorld {
        live: Some(EscrowAccounts {
            record,
            record_deposit: 100,
            vault: TokenAccount { mint, owner: authority, amount: balance },
            vault_deposit: 25,
        }),
        maker_ata: None,
        maker_lamports: 1_000,
    };
    (world, record, authority)
}

#[test]
fn refund_by_maker_pays_full_balance() {
    let (mut world, _, _) = open_world(7, 500);
    let r = world.refund(&addr(PROGRAM), &addr(MAKER), &addr(MINT_A));
    assert_eq!(r, Ok(()));
    assert!(world.live.is_none());
    let ata = world.maker_ata.expect("created on demand");
    assert_eq!(ata.amount, 500);
    assert_eq!(ata.owner.bytes, addr(MAKER).bytes);
    assert_eq!(ata.mint.bytes, addr(MINT_A).bytes);
    assert_eq!(world.maker_lamports, 1_000 + 100 + 25);
}

#[test]
fn refund_credits_existing_asset_account() {
    let (mut world, _, _) = open_world(7, 500);
    world.maker_ata = Some(TokenAccount { mint: addr(MINT_A), owner: addr(MAKER), amount: 40 });
    let r = world.refund(&addr(PROGRAM), &addr(MAKER), &addr(MINT_A));
    assert_eq!(r, Ok(()));
    assert_eq!(world.maker_ata.unwrap().amount, 540);
}

#[test]
fn refund_of_an_empty_vault_still_closes_everything() {
    let (mut world, _, _) = open_world(7, 0);
    let r = world.refund(&addr(PROGRAM), &addr(MAKER), &addr(MINT_A));
    assert_eq!(r, Ok(()));
    assert!(world.live.is_none());
    assert_eq!(world.maker_ata.unwrap().amount, 0);
    assert_eq!(world.maker_lamports, 1_000 + 100 + 25);
}

#[test]
fn refund_of_the_largest_balance_pays_in_full() {
    let (mut world, _, _) = open_world(7, u64::MAX);
    let r = world.refund(&addr(PROGRAM), &addr(MAKER), &addr(MINT_A));
    assert_eq!(r, Ok(()));
    assert_eq!(world.maker_ata.unwrap().amount, u64::MAX);
}

#[test]
fn refund_by_non_maker_fails_and_changes_nothing() {
    let (mut world, _, _) = open_world(7, 500);
    let r = world.refund(&addr(PROGRAM), &addr(OUTSIDER), &addr(MINT_A));
    assert_eq!(r, Err(EscrowError::InvalidMaker));
    let accounts = world.live.expect("escrow still open");
    assert_eq!(accounts.vault.amount, 500);
    assert!(world.maker_ata.is_none());
    assert_eq!(world.maker_lamports, 1_000);
}

#[test]
fn refund_twice_second_finds_no_record() {
    let (mut world, _, _) = open_world(7, 500);
    assert_eq!(world.refund(&addr(PROGRAM), &addr(MAKER), &addr(MINT_A)), Ok(()));
    let after_success = world;
    let r = world.refund(&addr(PROGRAM), &addr(MAKER), &addr(MINT_A));
    assert_eq!(r, Err(EscrowError::RecordNotFound));
    assert_eq!(world.maker_ata.unwrap().amount, after_success.maker_ata.unwrap().amount);
    assert_eq!(world.maker_lamports, after_success.maker_lamports);
    assert!(world.live.is_none());
}

#[test]
fn wrong_mint_descriptor_fails() {
    let (mut world, _, _) = open_world(7, 500);
    let r = world.refund(&addr(PROGRAM), &addr(MAKER), &addr(9));
    assert_eq!(r, Err(EscrowError::InvalidMintA));
    assert_eq!(world.live.unwrap().vault.amount, 500);
}

#[test]
fn vault_owned_by_maker_directly_is_an_authority_mismatch() {
    // If derivation merely echoed an input back, a vault owned by the maker
    // would pass; the real derived authority is a different address.
    let (mut world, _, _) = open_world(7, 500);
    let mut accounts = world.live.unwrap();
    accounts.vault.owner = addr(MAKER);
    world.live = Some(accounts);
    let r = world.refund(&addr(PROGRAM), &addr(MAKER), &addr(MINT_A));
    assert_eq!(r, Err(EscrowError::AuthorityMismatch));
    assert_eq!(world.live.unwrap().vault.amount, 500);
}

#[test]
fn vault_from_a_different_seed_is_an_authority_mismatch() {
    let (mut world, _, _) = open_world(7, 500);
    let (_, other_authority) =
        open_escrow(&addr(PROGRAM), &addr(MAKER), &addr(MINT_A), 8).expect("a bump exists");
    let mut accounts = world.live.unwrap();
    accounts.vault.owner = other_authority;
    world.live = Some(accounts);
    let r = world.refund(&addr(PROGRAM), &addr(MAKER), &addr(MINT_A));
    assert_eq!(r, Err(EscrowError::AuthorityMismatch));
}

#[test]
fn tampered_bump_is_an_authority_mismatch() {
    let (mut world, record, _) = open_world(7, 500);
    let mut accounts = world.live.unwrap();
    accounts.record.bump = record.bump.wrapping_sub(1);
    world.live = Some(accounts);
    let r = world.refund(&addr(PROGRAM), &addr(MAKER), &addr(MINT_A));
    assert_eq!(r, Err(EscrowError::AuthorityMismatch));
}

#[test]
fn vault_holding_another_asset_is_an_asset_mismatch() {
    let (mut world, _, _) = open_world(7, 500);
    let mut accounts = world.live.unwrap();
    accounts.vault.mint = addr(9);
    world.live = Some(accounts);
    let r = world.refund(&addr(PROGRAM), &addr(MAKER), &addr(MINT_A));
    assert_eq!(r, Err(EscrowError::AssetMismatch));
}

#[test]
fn existing_asset_account_with_wrong_owner_is_an_asset_mismatch() {
    let (mut world, _, _) = open_world(7, 500);
    world.maker_ata = Some(TokenAccount { mint: addr(MINT_A), owner: addr(OUTSIDER), amount: 0 });
    let r = world.refund(&addr(PROGRAM), &addr(MAKER), &addr(MINT_A));
    assert_eq!(r, Err(EscrowError::AssetMismatch));
}

#[test]
fn refund_on_a_closed_world_finds_no_record() {
    let mut world = EscrowWorld { live: None, maker_ata: None, maker_lamports: 7 };
    let r = world.refund(&addr(PROGRAM), &addr(MAKER), &addr(MINT_A));
    assert_eq!(r, Err(EscrowError::RecordNotFound));
    assert_eq!(world.maker_lamports, 7);
}

#[test]
fn failing_refund_fails_identically_when_repeated() {
    let (mut world, _, _) = open_world(7, 500);
    let first = world.refund(&addr(PROGRAM), &addr(OUTSIDER), &addr(MINT_A));
    let second = world.refund(&addr(PROGRAM), &addr(OUTSIDER), &addr(MINT_A));
    assert_eq!(first, Err(EscrowError::InvalidMaker));
    assert_eq!(first, second);
    assert_eq!(world.live.unwrap().vault.amount, 500);
}

#[test]
fn check_refund_returns_the_fresh_vault_balance() {
    let (world, record, _) = open_world(7, 500);
    let accounts = world.live.unwrap();
    let r = check_refund(
        &addr(PROGRAM),
        &addr(MAKER),
        &record,
        &addr(MINT_A),
        &accounts.vault,
        None,
    );
    assert_eq!(r, Ok(500));
}

#[test]
fn derived_authority_is_none_of_the_inputs() {
    let (_, _, authority) = open_world(7, 500);
    assert_ne!(authority.bytes, addr(MAKER).bytes);
    assert_ne!(authority.bytes, addr(PROGRAM).bytes);
    assert_ne!(authority.bytes, addr(MINT_A).bytes);
}

#[test]
fn addresses_compare_by_bytes() {
    let mut other = [1u8; 32];
    other[31] = 9;
    assert!(addr(1).equals(&addr(1)));
    assert!(!addr(1).equals(&Address { bytes: other }));
}

#[test]
fn escrow_record_decodes_from_bytes() {
    let mut data = Vec::new();
    data.extend_from_slice(&[1u8; 32]);
    data.extend_from_slice(&[2u8; 32]);
    data.extend_from_slice(&7u64.to_le_bytes());
    data.push(253);
    let record = Escrow::from_bytes(&data).expect("well-formed record");
    assert_eq!(record.maker.bytes, [1u8; 32]);
    assert_eq!(record.mint_a.bytes, [2u8; 32]);
    assert_eq!(record.seed, 7);
    assert_eq!(record.bump, 253);
}

#[test]
fn escrow_record_of_wrong_length_is_rejected() {
    assert!(Escrow::from_bytes(&[0u8; 72]).is_none());
    assert!(Escrow::from_bytes(&[0u8; 74]).is_none());
}

#[test]
fn escrow_record_stores_its_inputs() {
    let (_, record, _) = open_world(7, 500);
    assert_eq!(record.maker.bytes, addr(MAKER).bytes);
    assert_eq!(record.mint_a.bytes, addr(MINT_A).bytes);
    assert_eq!(record.seed, 7);
}
