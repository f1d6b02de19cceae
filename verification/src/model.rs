//! The controller as a mathematical transition system.
//!
//! Every operation of [`crate::controller::Controller`] is restated here as a
//! function from a [`Model`] (controller state plus ledger view) and the
//! request's arguments to the next model and the returned result. The
//! executable operations carry contracts equating them with these functions,
//! so everything [`crate::laws`] proves about the model holds of the code.

use vstd::prelude::*;
use crate::types::{AccountRef, AssetRef, Identity};
use crate::errors::StablecoinError;
use crate::ledger::{AssetRec, LedgerView};
use crate::controller::StablecoinState;

verus! {

/// Ghost state of the whole system: the controller singleton (absent while
/// uninitialized) and the ledger it delegates to.
#[verifier::ext_equal]
pub ghost struct Model {
    pub state: Option<StablecoinState>,
    pub ledger: LedgerView,
}

impl Model {
    pub open spec fn is_active(self) -> bool {
        self.state is Some
    }

    pub open spec fn st(self) -> StablecoinState {
        self.state->Some_0
    }

    /// Total successfully minted so far; zero while uninitialized.
    pub open spec fn minted(self) -> u64 {
        if self.state is Some {
            self.st().total_minted
        } else {
            0
        }
    }

    /// Total successfully burned so far; zero while uninitialized.
    pub open spec fn burned(self) -> u64 {
        if self.state is Some {
            self.st().total_burned
        } else {
            0
        }
    }

    pub open spec fn is_paused(self) -> bool {
        self.state is Some && self.st().paused
    }
}

/// One-time transition from uninitialized to active: the ledger gains a
/// fresh asset record owned by the caller; the controller records the caller
/// as authority, binds the asset, and starts unpaused with zero counters.
/// A second call finds the state present and fails without effect.
pub open spec fn init_result(m: Model, decimals: u8, caller: Identity) -> (Model, Result<
    (),
    StablecoinError,
>) {
    if m.state is Some {
        (m, Err(StablecoinError::AlreadyInitialized))
    } else {
        let asset = AssetRef { id: m.ledger.assets.len() as usize };
        let st = StablecoinState {
            authority: caller,
            mint: asset,
            paused: false,
            total_minted: 0,
            total_burned: 0,
        };
        let l2 = LedgerView {
            assets: m.ledger.assets.push(AssetRec { authority: caller, decimals, supply: 0 }),
            accounts: m.ledger.accounts,
        };
        (Model { state: Some(st), ledger: l2 }, Ok(()))
    }
}

/// Mint: active, unpaused, authority-gated; the counter update is validated
/// before the ledger is touched, so a rejected mint leaves everything as it
/// was. On success the destination balance, the asset supply and
/// `total_minted` each grow by `amount`.
pub open spec fn mint_result(m: Model, to: AccountRef, caller: Identity, amount: u64) -> (
    Model,
    Result<(), StablecoinError>,
) {
    match m.state {
        None => (m, Err(StablecoinError::NotInitialized)),
        Some(st) => {
            if st.paused {
                (m, Err(StablecoinError::ContractPaused))
            } else if caller != st.authority {
                (m, Err(StablecoinError::Unauthorized))
            } else if st.total_minted + amount > u64::MAX {
                (m, Err(StablecoinError::MathOverflow))
            } else if !m.ledger.mint_ok(st.mint, to, amount) {
                (m, Err(StablecoinError::LedgerMintFailed))
            } else {
                (
                    Model {
                        state: Some(
                            StablecoinState {
                                authority: st.authority,
                                mint: st.mint,
                                paused: st.paused,
                                total_minted: (st.total_minted + amount) as u64,
                                total_burned: st.total_burned,
                            },
                        ),
                        ledger: m.ledger.mint_applied(st.mint, to, amount),
                    },
                    Ok(()),
                )
            }
        },
    }
}

/// Burn: active and unpaused; authorization is the ledger's holder check,
/// not the controller's authority. The counter update is validated before
/// the ledger is touched. On success the source balance, the asset supply
/// and `total_burned` each shrink or grow by `amount` as appropriate.
pub open spec fn burn_result(m: Model, from: AccountRef, caller: Identity, amount: u64) -> (
    Model,
    Result<(), StablecoinError>,
) {
    match m.state {
        None => (m, Err(StablecoinError::NotInitialized)),
        Some(st) => {
            if st.paused {
                (m, Err(StablecoinError::ContractPaused))
            } else if st.total_burned + amount > u64::MAX {
                (m, Err(StablecoinError::MathOverflow))
            } else {
                match m.ledger.burn_check(st.mint, from, caller, amount) {
                    Err(e) => (m, Err(e)),
                    Ok(_) => (
                        Model {
                            state: Some(
                                StablecoinState {
                                    authority: st.authority,
                                    mint: st.mint,
                                    paused: st.paused,
                                    total_minted: st.total_minted,
                                    total_burned: (st.total_burned + amount) as u64,
                                },
                            ),
                            ledger: m.ledger.burn_applied(st.mint, from, amount),
                        },
                        Ok(()),
                    ),
                }
            }
        },
    }
}

/// Transfer: active and unpaused; authorization is the ledger's holder
/// check. The controller's counters never change: a transfer moves value, it
/// neither issues nor retires it.
pub open spec fn transfer_result(
    m: Model,
    from: AccountRef,
    to: AccountRef,
    caller: Identity,
    amount: u64,
) -> (Model, Result<(), StablecoinError>) {
    match m.state {
        None => (m, Err(StablecoinError::NotInitialized)),
        Some(st) => {
            if st.paused {
                (m, Err(StablecoinError::ContractPaused))
            } else {
                match m.ledger.transfer_check(st.mint, from, to, caller, amount) {
                    Err(e) => (m, Err(e)),
                    Ok(_) => (
                        Model {
                            state: m.state,
                            ledger: m.ledger.transfer_applied(st.mint, from, to, amount),
                        },
                        Ok(()),
                    ),
                }
            }
        },
    }
}

/// Pause or unpause: active and authority-gated; setting the current value
/// again is a legal no-op. The ledger is never involved.
pub open spec fn set_pause_result(state: Option<StablecoinState>, desired: bool, caller: Identity) -> (
    Option<StablecoinState>,
    Result<(), StablecoinError>,
) {
    match state {
        None => (state, Err(StablecoinError::NotInitialized)),
        Some(st) => {
            if caller != st.authority {
                (state, Err(StablecoinError::Unauthorized))
            } else {
                (
                    Some(
                        StablecoinState {
                            authority: st.authority,
                            mint: st.mint,
                            paused: desired,
                            total_minted: st.total_minted,
                            total_burned: st.total_burned,
                        },
                    ),
                    Ok(()),
                )
            }
        },
    }
}

/// One request to the controller, with everything it depends on.
pub enum Op {
    Initialize { decimals: u8, caller: Identity },
    Mint { amount: u64, to: AccountRef, caller: Identity },
    Burn { amount: u64, from: AccountRef, caller: Identity },
    Transfer { amount: u64, from: AccountRef, to: AccountRef, caller: Identity },
    SetPause { desired: bool, caller: Identity },
}

/// Whether the request would move value (and so is blocked while paused).
pub open spec fn moves_value(op: Op) -> bool {
    op is Mint || op is Burn || op is Transfer
}

/// The transition relation: model and request to next model and result.
pub open spec fn step(m: Model, op: Op) -> (Model, Result<(), StablecoinError>) {
    match op {
        Op::Initialize { decimals, caller } => init_result(m, decimals, caller),
        Op::Mint { amount, to, caller } => mint_result(m, to, caller, amount),
        Op::Burn { amount, from, caller } => burn_result(m, from, caller, amount),
        Op::Transfer { amount, from, to, caller } => transfer_result(m, from, to, caller, amount),
        Op::SetPause { desired, caller } => (
            {
                let (s2, r) = set_pause_result(m.state, desired, caller);
                (Model { state: s2, ledger: m.ledger }, r)
            }
        ),
    }
}

pub open spec fn step_state(m: Model, op: Op) -> Model {
    step(m, op).0
}

/// The model after a whole sequence of requests, failed ones included
/// (a failed request leaves the model as it was).
pub open spec fn run(m: Model, ops: Seq<Op>) -> Model
    decreases ops.len(),
{
    if ops.len() == 0 {
        m
    } else {
        run(step_state(m, ops[0]), ops.drop_first())
    }
}

/// The system invariant: the ledger is well-formed and, once active, the
/// controller's asset exists and its circulating supply is exactly
/// `total_minted - total_burned`. While still uninitialized, the ledger must
/// be able to hand out one more addressable asset index — a machine bound
/// every ledger backed by real memory satisfies.
pub open spec fn inv(m: Model) -> bool {
    &&& m.ledger.wf()
    &&& m.state is None ==> m.ledger.assets.len() <= usize::MAX
    &&& m.state matches Some(st) ==> {
        &&& m.ledger.valid_asset(st.mint)
        &&& st.total_burned <= st.total_minted
        &&& st.total_minted - st.total_burned == m.ledger.supply_of(st.mint)
    }
}

} // verus!
