use stablecoin::errors::StablecoinError;
use stablecoin::ledger::Ledger;
use stablecoin::types::{AccountRef, AssetRef, Identity};

#[test]
fn create_asset_hands_out_successive_ids() {
    let mut ledger = Ledger::new();
    let owner = Identity { key: 1 };
    let a0 = ledger.create_asset(owner, 6).unwrap();
    let a1 = ledger.create_asset(owner, 2).unwrap();
    assert_eq!(a0, AssetRef { id: 0 });
    assert_eq!(a1, AssetRef { id: 1 });
    assert_eq!(ledger.supply_of(a0), Some(0));
    assert_eq!(ledger.supply_of(a1), Some(0));
    assert_eq!(ledger.supply_of(AssetRef { id: 2 }), None);
}

#[test]
fn accounts_start_empty_and_unknown_accounts_read_none() {
    let mut ledger = Ledger::new();
    let owner = Identity { key: 1 };
    let asset = ledger.create_asset(owner, 6).unwrap();
    let acct = ledger.create_account(owner, asset);
    assert_eq!(ledger.balance_of(acct), Some(0));
    assert_eq!(ledger.balance_of(AccountRef { id: 5 }), None);
}

#[test]
fn ledger_mint_updates_balance_and_supply() {
    let mut ledger = Ledger::new();
    let owner = Identity { key: 1 };
    let asset = ledger.create_asset(owner, 6).unwrap();
    let acct = ledger.create_account(owner, asset);
    assert!(ledger.mint(asset, acct, 250).is_ok());
    assert_eq!(ledger.balance_of(acct), Some(250));
    assert_eq!(ledger.supply_of(asset), Some(250));
}

#[test]
fn ledger_mint_rejects_unknown_asset_or_account() {
    let mut ledger = Ledger::new();
    let owner = Identity { key: 1 };
    let asset = ledger.create_asset(owner, 6).unwrap();
    let acct = ledger.create_account(owner, asset);
    assert_eq!(
        ledger.mint(AssetRef { id: 3 }, acct, 1),
        Err(StablecoinError::LedgerMintFailed)
    );
    assert_eq!(
        ledger.mint(asset, AccountRef { id: 3 }, 1),
        Err(StablecoinError::LedgerMintFailed)
    );
    assert_eq!(ledger.balance_of(acct), Some(0));
    assert_eq!(ledger.supply_of(asset), Some(0));
}

#[test]
fn ledger_burn_checks_holder_before_balance() {
    let mut ledger = Ledger::new();
    let owner = Identity { key: 1 };
    let stranger = Identity { key: 2 };
    let asset = ledger.create_asset(owner, 6).unwrap();
    let acct = ledger.create_account(owner, asset);
    ledger.mint(asset, acct, 100).unwrap();
    assert_eq!(
        ledger.burn(asset, acct, stranger, 1000),
        Err(StablecoinError::Unauthorized)
    );
    assert_eq!(
        ledger.burn(asset, acct, owner, 1000),
        Err(StablecoinError::LedgerBurnFailed)
    );
    assert!(ledger.burn(asset, acct, owner, 40).is_ok());
    assert_eq!(ledger.balance_of(acct), Some(60));
    assert_eq!(ledger.supply_of(asset), Some(60));
}

#[test]
fn ledger_transfer_moves_value_between_holders() {
    let mut ledger = Ledger::new();
    let alice = Identity { key: 1 };
    let bob = Identity { key: 2 };
    let asset = ledger.create_asset(alice, 6).unwrap();
    let acct_a = ledger.create_account(alice, asset);
    let acct_b = ledger.create_account(bob, asset);
    ledger.mint(asset, acct_a, 100).unwrap();
    assert!(ledger.transfer(asset, acct_a, acct_b, alice, 30).is_ok());
    assert_eq!(ledger.balance_of(acct_a), Some(70));
    assert_eq!(ledger.balance_of(acct_b), Some(30));
    assert_eq!(ledger.supply_of(asset), Some(100));
}

#[test]
fn ledger_transfer_rejects_mismatched_asset() {
    let mut ledger = Ledger::new();
    let alice = Identity { key: 1 };
    let asset = ledger.create_asset(alice, 6).unwrap();
    let other = ledger.create_asset(alice, 2).unwrap();
    let acct_a = ledger.create_account(alice, asset);
    let acct_x = ledger.create_account(alice, other);
    ledger.mint(asset, acct_a, 100).unwrap();
    assert_eq!(
        ledger.transfer(asset, acct_a, acct_x, alice, 10),
        Err(StablecoinError::LedgerTransferFailed)
    );
    assert_eq!(ledger.balance_of(acct_a), Some(100));
    assert_eq!(ledger.balance_of(acct_x), Some(0));
}
