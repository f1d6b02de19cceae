//! System-wide guarantees, proved over the transition model of
//! [`crate::model`]. The executable operations are contracted to coincide
//! with that model, so each law here is a statement about the code.

use vstd::prelude::*;
use crate::types::{AccountRef, AssetRef, Identity};
use crate::errors::StablecoinError;
use crate::ledger::{
    lemma_burn_preserves_wf, lemma_create_account_preserves_wf, lemma_create_asset_preserves_wf,
    lemma_mint_preserves_wf, lemma_transfer_preserves_wf, sum_balances, AccountRec, LedgerView,
};
use crate::model::{
    burn_result, init_result, inv, mint_result, moves_value, run, set_pause_result, step,
    step_state, transfer_result, Model, Op,
};
use crate::controller::StablecoinState;

verus! {

/// No operation ever decreases `total_minted` or `total_burned`.
pub proof fn lemma_step_counters_nondecreasing(m: Model, op: Op)
    ensures
        step_state(m, op).minted() >= m.minted(),
        step_state(m, op).burned() >= m.burned(),
{
}

/// Over any sequence of operations, failed ones included, the two counters
/// are non-decreasing.
pub proof fn lemma_run_counters_nondecreasing(m: Model, ops: Seq<Op>)
    ensures
        run(m, ops).minted() >= m.minted(),
        run(m, ops).burned() >= m.burned(),
    decreases ops.len(),
{
    if ops.len() > 0 {
        lemma_step_counters_nondecreasing(m, ops[0]);
        lemma_run_counters_nondecreasing(step_state(m, ops[0]), ops.drop_first());
    }
}

/// A mint whose counter update would wrap is rejected with `MathOverflow`
/// before the ledger is touched: nothing changes.
pub proof fn lemma_mint_overflow_rejected(m: Model, to: AccountRef, caller: Identity, amount: u64)
    requires
        m.is_active(),
        !m.st().paused,
        caller == m.st().authority,
        m.st().total_minted + amount > u64::MAX,
    ensures
        mint_result(m, to, caller, amount).0 == m,
        mint_result(m, to, caller, amount).1 == Err::<(), StablecoinError>(
            StablecoinError::MathOverflow,
        ),
{
}

/// A burn whose counter update would wrap is rejected with `MathOverflow`
/// before the ledger is touched: nothing changes.
pub proof fn lemma_burn_overflow_rejected(m: Model, from: AccountRef, caller: Identity, amount: u64)
    requires
        m.is_active(),
        !m.st().paused,
        m.st().total_burned + amount > u64::MAX,
    ensures
        burn_result(m, from, caller, amount).0 == m,
        burn_result(m, from, caller, amount).1 == Err::<(), StablecoinError>(
            StablecoinError::MathOverflow,
        ),
{
}

/// While paused, every mint, burn and transfer fails with `ContractPaused`
/// and leaves all counters and balances unchanged, whoever calls.
pub proof fn lemma_paused_rejects(m: Model, op: Op)
    requires
        m.is_paused(),
        moves_value(op),
    ensures
        step(m, op).0 == m,
        step(m, op).1 == Err::<(), StablecoinError>(StablecoinError::ContractPaused),
{
}

/// Mint is authority-gated: it succeeds only for the authority, and an
/// unpaused mint by anyone else fails with `Unauthorized`, changing nothing.
pub proof fn lemma_mint_authority_gate(m: Model, to: AccountRef, caller: Identity, amount: u64)
    ensures
        mint_result(m, to, caller, amount).1 is Ok ==> m.is_active() && caller
            == m.st().authority && !m.st().paused,
        m.is_active() && caller != m.st().authority ==> mint_result(m, to, caller, amount).0 == m
            && mint_result(m, to, caller, amount).1 is Err,
        m.is_active() && !m.st().paused && caller != m.st().authority ==> mint_result(
            m,
            to,
            caller,
            amount,
        ).1 == Err::<(), StablecoinError>(StablecoinError::Unauthorized),
{
}

/// Pausing and unpausing is authority-gated in the same way.
pub proof fn lemma_set_pause_authority_gate(
    state: Option<StablecoinState>,
    desired: bool,
    caller: Identity,
)
    ensures
        set_pause_result(state, desired, caller).1 is Ok ==> state is Some && caller
            == state->Some_0.authority,
        state is Some && caller != state->Some_0.authority ==> set_pause_result(
            state,
            desired,
            caller,
        ) == (state, Err::<(), StablecoinError>(StablecoinError::Unauthorized)),
{
}

/// Burn succeeds only for the holder of the source account; a forged caller
/// on an otherwise burnable request is rejected with `Unauthorized` and
/// nothing changes.
pub proof fn lemma_burn_holder_gate(m: Model, from: AccountRef, caller: Identity, amount: u64)
    ensures
        burn_result(m, from, caller, amount).1 is Ok ==> m.is_active()
            && m.ledger.valid_account(from) && m.ledger.account_at(from).owner == caller,
        m.is_active() && !m.st().paused && m.st().total_burned + amount <= u64::MAX
            && m.ledger.valid_asset(m.st().mint) && m.ledger.valid_account(from)
            && m.ledger.account_at(from).asset == m.st().mint && m.ledger.account_at(from).owner
            != caller ==> burn_result(m, from, caller, amount).0 == m && burn_result(
            m,
            from,
            caller,
            amount,
        ).1 == Err::<(), StablecoinError>(StablecoinError::Unauthorized),
{
}

/// Transfer succeeds only for the holder of the source account; a forged
/// caller on an otherwise transferable request is rejected with
/// `Unauthorized` and nothing changes.
pub proof fn lemma_transfer_holder_gate(
    m: Model,
    from: AccountRef,
    to: AccountRef,
    caller: Identity,
    amount: u64,
)
    ensures
        transfer_result(m, from, to, caller, amount).1 is Ok ==> m.is_active()
            && m.ledger.valid_account(from) && m.ledger.account_at(from).owner == caller,
        m.is_active() && !m.st().paused && m.ledger.valid_asset(m.st().mint)
            && m.ledger.valid_account(from) && m.ledger.valid_account(to)
            && m.ledger.account_at(from).asset == m.st().mint && m.ledger.account_at(to).asset
            == m.st().mint && m.ledger.account_at(from).owner != caller ==> transfer_result(
            m,
            from,
            to,
            caller,
            amount,
        ).0 == m && transfer_result(m, from, to, caller, amount).1 == Err::<(), StablecoinError>(
            StablecoinError::Unauthorized,
        ),
{
}

/// Initialization is exactly-once: on an active state it fails with
/// `AlreadyInitialized` and changes nothing; on an uninitialized state it
/// succeeds and yields the caller as authority, unpaused, zero counters.
pub proof fn lemma_initialize_exactly_once(m: Model, decimals: u8, caller: Identity)
    ensures
        m.is_active() ==> init_result(m, decimals, caller).0 == m && init_result(
            m,
            decimals,
            caller,
        ).1 == Err::<(), StablecoinError>(StablecoinError::AlreadyInitialized),
        !m.is_active() ==> init_result(m, decimals, caller).1 == Ok::<(), StablecoinError>(())
            && init_result(m, decimals, caller).0.is_active() && init_result(
            m,
            decimals,
            caller,
        ).0.st().authority == caller && !init_result(m, decimals, caller).0.st().paused
            && init_result(m, decimals, caller).0.minted() == 0 && init_result(
            m,
            decimals,
            caller,
        ).0.burned() == 0,
{
}

/// A successful initialization establishes the system invariant: the fresh
/// asset is addressable, starts at supply zero, and matches the zeroed
/// counters.
pub proof fn lemma_initialize_establishes_inv(m: Model, decimals: u8, caller: Identity)
    requires
        m.ledger.wf(),
        m.state is None,
        m.ledger.assets.len() <= usize::MAX,
    ensures
        inv(init_result(m, decimals, caller).0),
{
    lemma_create_asset_preserves_wf(m.ledger, caller, decimals);
    let m2 = init_result(m, decimals, caller).0;
    assert(m2.ledger.assets.len() == m.ledger.assets.len() + 1);
    assert(m2.st().mint.id == m.ledger.assets.len());
    assert(m2.ledger.supply_of(m2.st().mint) == 0);
}

/// Every operation preserves the system invariant.
pub proof fn lemma_step_preserves_inv(m: Model, op: Op)
    requires
        inv(m),
    ensures
        inv(step_state(m, op)),
{
    match op {
        Op::Initialize { decimals, caller } => {
            if m.state is None {
                lemma_initialize_establishes_inv(m, decimals, caller);
            }
        },
        Op::Mint { amount, to, caller } => {
            if m.is_active() && !m.st().paused && caller == m.st().authority
                && m.st().total_minted + amount <= u64::MAX && m.ledger.mint_ok(
                m.st().mint,
                to,
                amount,
            ) {
                lemma_mint_preserves_wf(m.ledger, m.st().mint, to, amount);
            }
        },
        Op::Burn { amount, from, caller } => {
            if m.is_active() && !m.st().paused && m.st().total_burned + amount <= u64::MAX
                && m.ledger.burn_check(m.st().mint, from, caller, amount) is Ok {
                lemma_burn_preserves_wf(m.ledger, m.st().mint, from, caller, amount);
            }
        },
        Op::Transfer { amount, from, to, caller } => {
            if m.is_active() && !m.st().paused && m.ledger.transfer_check(
                m.st().mint,
                from,
                to,
                caller,
                amount,
            ) is Ok {
                lemma_transfer_preserves_wf(m.ledger, m.st().mint, from, to, caller, amount);
            }
        },
        Op::SetPause { .. } => {},
    }
}

/// The invariant holds across any sequence of operations.
pub proof fn lemma_run_preserves_inv(m: Model, ops: Seq<Op>)
    requires
        inv(m),
    ensures
        inv(run(m, ops)),
    decreases ops.len(),
{
    if ops.len() > 0 {
        lemma_step_preserves_inv(m, ops[0]);
        lemma_run_preserves_inv(step_state(m, ops[0]), ops.drop_first());
    }
}

/// Reconciliation: after any sequence of controller operations from a state
/// satisfying the invariant — so, with no ledger activity bypassing the
/// controller — `total_minted - total_burned` equals both the recorded
/// supply of the governed asset and the sum of the balances holding it.
pub proof fn lemma_supply_reconciliation(m: Model, ops: Seq<Op>)
    requires
        inv(m),
    ensures
        inv(run(m, ops)),
        run(m, ops).state matches Some(st) ==> st.total_minted - st.total_burned
            == run(m, ops).ledger.supply_of(st.mint) && st.total_minted - st.total_burned
            == sum_balances(run(m, ops).ledger.accounts, st.mint),
{
    lemma_run_preserves_inv(m, ops);
    let m2 = run(m, ops);
    if m2.state is Some {
        assert(m2.ledger.valid_asset(m2.st().mint));
        assert(m2.ledger.supply_of(m2.st().mint) == sum_balances(m2.ledger.accounts, m2.st().mint));
    }
}

/// Creating an account between controller operations — a balance-zero
/// record — preserves the invariant, so reconciliation also covers runs
/// with account creation interleaved.
pub proof fn lemma_create_account_preserves_inv(m: Model, owner: Identity, asset: AssetRef)
    requires
        inv(m),
        m.ledger.valid_asset(asset),
    ensures
        inv(
            (Model {
                state: m.state,
                ledger: (LedgerView {
                    assets: m.ledger.assets,
                    accounts: m.ledger.accounts.push(AccountRec { owner, asset, balance: 0 }),
                }),
            }),
        ),
{
    lemma_create_account_preserves_wf(m.ledger, owner, asset);
}

} // verus!
