use stablecoin::controller::{
    AdminControl, BurnTokens, Controller, Initialize, MintTokens, TransferTokens,
};
use stablecoin::errors::StablecoinError;
use stablecoin::ledger::Ledger;
use stablecoin::types::{AccountRef, Identity};

fn authority() -> Identity {
    Identity { key: 1 }
}

fn setup() -> (Controller, Ledger) {
    let mut controller = Controller::new();
    let mut ledger = Ledger::new();
    let r = controller.initialize(&mut ledger, Initialize { authority: authority() }, 6);
    assert!(r.is_ok());
    (controller, ledger)
}

fn asset_of(controller: &Controller) -> stablecoin::types::AssetRef {
    controller.get_state().unwrap().mint
}

#[test]
fn initialize_sets_fresh_state() {
    let (controller, _ledger) = setup();
    let st = controller.get_state().unwrap();
    assert_eq!(st.authority, authority());
    assert!(!st.paused);
    assert_eq!(st.total_minted, 0);
    assert_eq!(st.total_burned, 0);
}

#[test]
fn get_state_is_none_before_initialize() {
    let controller = Controller::new();
    assert!(controller.get_state().is_none());
}

#[test]
fn initialize_twice_fails() {
    let (mut controller, mut ledger) = setup();
    let before = controller.get_state();
    let r = controller.initialize(&mut ledger, Initialize { authority: Identity { key: 9 } }, 6);
    assert_eq!(r, Err(StablecoinError::AlreadyInitialized));
    assert_eq!(controller.get_state(), before);
}

#[test]
fn operations_before_initialize_fail() {
    let mut controller = Controller::new();
    let mut ledger = Ledger::new();
    let acct = AccountRef { id: 0 };
    let caller = authority();
    assert_eq!(
        controller.mint_tokens(&mut ledger, MintTokens { to: acct, authority: caller }, 5),
        Err(StablecoinError::NotInitialized)
    );
    assert_eq!(
        controller.burn_tokens(&mut ledger, BurnTokens { from: acct, user: caller }, 5),
        Err(StablecoinError::NotInitialized)
    );
    assert_eq!(
        controller.transfer_tokens(
            &mut ledger,
            TransferTokens { from: acct, to: acct, user: caller },
            5
        ),
        Err(StablecoinError::NotInitialized)
    );
    assert_eq!(
        controller.pause(AdminControl { authority: caller }),
        Err(StablecoinError::NotInitialized)
    );
    assert_eq!(controller.set_pause(true, caller), Err(StablecoinError::NotInitialized));
}

#[test]
fn mint_then_unauthorized_mint() {
    let (mut controller, mut ledger) = setup();
    let holder = Identity { key: 7 };
    let acct_a = ledger.create_account(holder, asset_of(&controller));
    let r = controller.mint_tokens(
        &mut ledger,
        MintTokens { to: acct_a, authority: authority() },
        1000,
    );
    assert!(r.is_ok());
    assert_eq!(controller.get_state().unwrap().total_minted, 1000);
    assert_eq!(ledger.balance_of(acct_a), Some(1000));

    let other = Identity { key: 2 };
    let r = controller.mint_tokens(&mut ledger, MintTokens { to: acct_a, authority: other }, 500);
    assert_eq!(r, Err(StablecoinError::Unauthorized));
    assert_eq!(controller.get_state().unwrap().total_minted, 1000);
    assert_eq!(ledger.balance_of(acct_a), Some(1000));
}

#[test]
fn pause_blocks_transfer_until_unpaused() {
    let (mut controller, mut ledger) = setup();
    let holder_a = Identity { key: 7 };
    let holder_b = Identity { key: 8 };
    let acct_a = ledger.create_account(holder_a, asset_of(&controller));
    let acct_b = ledger.create_account(holder_b, asset_of(&controller));
    controller
        .mint_tokens(&mut ledger, MintTokens { to: acct_a, authority: authority() }, 1000)
        .unwrap();

    assert!(controller.pause(AdminControl { authority: authority() }).is_ok());
    assert!(controller.get_state().unwrap().paused);
    let r = controller.transfer_tokens(
        &mut ledger,
        TransferTokens { from: acct_a, to: acct_b, user: holder_a },
        100,
    );
    assert_eq!(r, Err(StablecoinError::ContractPaused));
    assert_eq!(ledger.balance_of(acct_a), Some(1000));
    assert_eq!(ledger.balance_of(acct_b), Some(0));

    assert!(controller.unpause(AdminControl { authority: authority() }).is_ok());
    assert!(!controller.get_state().unwrap().paused);
    let r = controller.transfer_tokens(
        &mut ledger,
        TransferTokens { from: acct_a, to: acct_b, user: holder_a },
        100,
    );
    assert!(r.is_ok());
    assert_eq!(ledger.balance_of(acct_a), Some(900));
    assert_eq!(ledger.balance_of(acct_b), Some(100));
}

#[test]
fn burn_then_insufficient_balance() {
    let (mut controller, mut ledger) = setup();
    let holder = Identity { key: 7 };
    let acct_a = ledger.create_account(holder, asset_of(&controller));
    controller
        .mint_tokens(&mut ledger, MintTokens { to: acct_a, authority: authority() }, 1000)
        .unwrap();

    let r = controller.burn_tokens(&mut ledger, BurnTokens { from: acct_a, user: holder }, 1000);
    assert!(r.is_ok());
    assert_eq!(controller.get_state().unwrap().total_burned, 1000);
    assert_eq!(ledger.balance_of(acct_a), Some(0));

    let r = controller.burn_tokens(&mut ledger, BurnTokens { from: acct_a, user: holder }, 1000);
    assert_eq!(r, Err(StablecoinError::LedgerBurnFailed));
    assert_eq!(controller.get_state().unwrap().total_burned, 1000);
}

#[test]
fn paused_blocks_mint_and_burn() {
    let (mut controller, mut ledger) = setup();
    let holder = Identity { key: 7 };
    let acct_a = ledger.create_account(holder, asset_of(&controller));
    controller
        .mint_tokens(&mut ledger, MintTokens { to: acct_a, authority: authority() }, 50)
        .unwrap();
    controller.set_pause(true, authority()).unwrap();

    let r = controller.mint_tokens(
        &mut ledger,
        MintTokens { to: acct_a, authority: authority() },
        10,
    );
    assert_eq!(r, Err(StablecoinError::ContractPaused));
    let r = controller.burn_tokens(&mut ledger, BurnTokens { from: acct_a, user: holder }, 10);
    assert_eq!(r, Err(StablecoinError::ContractPaused));
    let st = controller.get_state().unwrap();
    assert_eq!(st.total_minted, 50);
    assert_eq!(st.total_burned, 0);
    assert_eq!(ledger.balance_of(acct_a), Some(50));
}

#[test]
fn pause_requires_authority() {
    let (mut controller, _ledger) = setup();
    let other = Identity { key: 2 };
    assert_eq!(
        controller.pause(AdminControl { authority: other }),
        Err(StablecoinError::Unauthorized)
    );
    assert!(!controller.get_state().unwrap().paused);
    assert_eq!(controller.set_pause(true, other), Err(StablecoinError::Unauthorized));
    assert!(!controller.get_state().unwrap().paused);
}

#[test]
fn unpause_requires_authority() {
    let (mut controller, _ledger) = setup();
    controller.set_pause(true, authority()).unwrap();
    let other = Identity { key: 2 };
    assert_eq!(
        controller.unpause(AdminControl { authority: other }),
        Err(StablecoinError::Unauthorized)
    );
    assert!(controller.get_state().unwrap().paused);
}

#[test]
fn set_pause_is_idempotent() {
    let (mut controller, _ledger) = setup();
    assert!(controller.set_pause(false, authority()).is_ok());
    assert!(!controller.get_state().unwrap().paused);
    assert!(controller.set_pause(true, authority()).is_ok());
    assert!(controller.set_pause(true, authority()).is_ok());
    assert!(controller.get_state().unwrap().paused);
}

#[test]
fn mint_overflow_is_rejected_without_effect() {
    let (mut controller, mut ledger) = setup();
    let holder = Identity { key: 7 };
    let acct_a = ledger.create_account(holder, asset_of(&controller));
    controller
        .mint_tokens(&mut ledger, MintTokens { to: acct_a, authority: authority() }, u64::MAX)
        .unwrap();
    assert_eq!(controller.get_state().unwrap().total_minted, u64::MAX);

    let r = controller.mint_tokens(&mut ledger, MintTokens { to: acct_a, authority: authority() }, 1);
    assert_eq!(r, Err(StablecoinError::MathOverflow));
    assert_eq!(controller.get_state().unwrap().total_minted, u64::MAX);
    assert_eq!(ledger.balance_of(acct_a), Some(u64::MAX));
}

#[test]
fn burn_requires_account_holder() {
    let (mut controller, mut ledger) = setup();
    let holder = Identity { key: 7 };
    let forger = Identity { key: 66 };
    let acct_a = ledger.create_account(holder, asset_of(&controller));
    controller
        .mint_tokens(&mut ledger, MintTokens { to: acct_a, authority: authority() }, 1000)
        .unwrap();

    let r = controller.burn_tokens(&mut ledger, BurnTokens { from: acct_a, user: forger }, 100);
    assert_eq!(r, Err(StablecoinError::Unauthorized));
    assert_eq!(controller.get_state().unwrap().total_burned, 0);
    assert_eq!(ledger.balance_of(acct_a), Some(1000));
}

#[test]
fn transfer_requires_account_holder() {
    let (mut controller, mut ledger) = setup();
    let holder_a = Identity { key: 7 };
    let holder_b = Identity { key: 8 };
    let forger = Identity { key: 66 };
    let acct_a = ledger.create_account(holder_a, asset_of(&controller));
    let acct_b = ledger.create_account(holder_b, asset_of(&controller));
    controller
        .mint_tokens(&mut ledger, MintTokens { to: acct_a, authority: authority() }, 1000)
        .unwrap();

    let r = controller.transfer_tokens(
        &mut ledger,
        TransferTokens { from: acct_a, to: acct_b, user: forger },
        100,
    );
    assert_eq!(r, Err(StablecoinError::Unauthorized));
    assert_eq!(ledger.balance_of(acct_a), Some(1000));
    assert_eq!(ledger.balance_of(acct_b), Some(0));
}

#[test]
fn mint_to_unknown_account_fails() {
    let (mut controller, mut ledger) = setup();
    let r = controller.mint_tokens(
        &mut ledger,
        MintTokens { to: AccountRef { id: 42 }, authority: authority() },
        5,
    );
    assert_eq!(r, Err(StablecoinError::LedgerMintFailed));
    assert_eq!(controller.get_state().unwrap().total_minted, 0);
}

#[test]
fn mint_to_foreign_asset_account_fails() {
    let (mut controller, mut ledger) = setup();
    let other_asset = ledger.create_asset(Identity { key: 50 }, 2).unwrap();
    let foreign = ledger.create_account(Identity { key: 51 }, other_asset);
    let r = controller.mint_tokens(
        &mut ledger,
        MintTokens { to: foreign, authority: authority() },
        5,
    );
    assert_eq!(r, Err(StablecoinError::LedgerMintFailed));
    assert_eq!(controller.get_state().unwrap().total_minted, 0);
    assert_eq!(ledger.balance_of(foreign), Some(0));
}

#[test]
fn burn_from_unknown_account_fails() {
    let (mut controller, mut ledger) = setup();
    let r = controller.burn_tokens(
        &mut ledger,
        BurnTokens { from: AccountRef { id: 9 }, user: authority() },
        5,
    );
    assert_eq!(r, Err(StablecoinError::LedgerBurnFailed));
    assert_eq!(controller.get_state().unwrap().total_burned, 0);
}

#[test]
fn transfer_with_insufficient_balance_fails() {
    let (mut controller, mut ledger) = setup();
    let holder_a = Identity { key: 7 };
    let holder_b = Identity { key: 8 };
    let acct_a = ledger.create_account(holder_a, asset_of(&controller));
    let acct_b = ledger.create_account(holder_b, asset_of(&controller));
    controller
        .mint_tokens(&mut ledger, MintTokens { to: acct_a, authority: authority() }, 100)
        .unwrap();

    let r = controller.transfer_tokens(
        &mut ledger,
        TransferTokens { from: acct_a, to: acct_b, user: holder_a },
        200,
    );
    assert_eq!(r, Err(StablecoinError::LedgerTransferFailed));
    assert_eq!(ledger.balance_of(acct_a), Some(100));
    assert_eq!(ledger.balance_of(acct_b), Some(0));
}

#[test]
fn transfer_to_self_changes_nothing() {
    let (mut controller, mut ledger) = setup();
    let holder = Identity { key: 7 };
    let acct_a = ledger.create_account(holder, asset_of(&controller));
    controller
        .mint_tokens(&mut ledger, MintTokens { to: acct_a, authority: authority() }, 500)
        .unwrap();

    let r = controller.transfer_tokens(
        &mut ledger,
        TransferTokens { from: acct_a, to: acct_a, user: holder },
        50,
    );
    assert!(r.is_ok());
    assert_eq!(ledger.balance_of(acct_a), Some(500));
}

#[test]
fn counters_reconcile_with_ledger_after_sequence() {
    let (mut controller, mut ledger) = setup();
    let holder_a = Identity { key: 7 };
    let holder_b = Identity { key: 8 };
    let acct_a = ledger.create_account(holder_a, asset_of(&controller));
    let acct_b = ledger.create_account(holder_b, asset_of(&controller));

    controller
        .mint_tokens(&mut ledger, MintTokens { to: acct_a, authority: authority() }, 700)
        .unwrap();
    controller
        .mint_tokens(&mut ledger, MintTokens { to: acct_b, authority: authority() }, 300)
        .unwrap();
    controller
        .transfer_tokens(&mut ledger, TransferTokens { from: acct_a, to: acct_b, user: holder_a }, 250)
        .unwrap();
    controller
        .burn_tokens(&mut ledger, BurnTokens { from: acct_b, user: holder_b }, 400)
        .unwrap();
    // a failed attempt in the middle changes nothing
    let r = controller.burn_tokens(&mut ledger, BurnTokens { from: acct_a, user: holder_b }, 10);
    assert_eq!(r, Err(StablecoinError::Unauthorized));

    let st = controller.get_state().unwrap();
    assert_eq!(st.total_minted, 1000);
    assert_eq!(st.total_burned, 400);
    let circulating = st.total_minted - st.total_burned;
    assert_eq!(ledger.supply_of(st.mint), Some(circulating));
    let sum = ledger.balance_of(acct_a).unwrap() + ledger.balance_of(acct_b).unwrap();
    assert_eq!(sum, circulating);
    assert_eq!(ledger.balance_of(acct_a), Some(450));
    assert_eq!(ledger.balance_of(acct_b), Some(150));
}

#[test]
fn burn_overflow_is_rejected_without_effect() {
    let (mut controller, mut ledger) = setup();
    let holder = Identity { key: 7 };
    let acct_a = ledger.create_account(holder, asset_of(&controller));
    controller
        .mint_tokens(&mut ledger, MintTokens { to: acct_a, authority: authority() }, u64::MAX)
        .unwrap();
    controller
        .burn_tokens(&mut ledger, BurnTokens { from: acct_a, user: holder }, u64::MAX)
        .unwrap();
    assert_eq!(controller.get_state().unwrap().total_burned, u64::MAX);

    let r = controller.burn_tokens(&mut ledger, BurnTokens { from: acct_a, user: holder }, 1);
    assert_eq!(r, Err(StablecoinError::MathOverflow));
    let st = controller.get_state().unwrap();
    assert_eq!(st.total_burned, u64::MAX);
    assert_eq!(ledger.balance_of(acct_a), Some(0));
}

#[test]
fn paused_check_precedes_authority_check() {
    let (mut controller, mut ledger) = setup();
    let holder = Identity { key: 7 };
    let other = Identity { key: 2 };
    let acct_a = ledger.create_account(holder, asset_of(&controller));
    controller.set_pause(true, authority()).unwrap();
    // while paused even a non-authority mint is told the contract is paused
    let r = controller.mint_tokens(&mut ledger, MintTokens { to: acct_a, authority: other }, 5);
    assert_eq!(r, Err(StablecoinError::ContractPaused));
}
