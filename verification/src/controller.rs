//! The controller: a single authority-gated state machine deciding whether
//! a mint, burn, transfer, pause or unpause request may proceed, delegating
//! value movement to the ledger and keeping the two supply counters.
//!
//! Every operation checks its preconditions in order and aborts on the first
//! violated one with no effect. Counter updates are validated *before* the
//! ledger is invoked, so a rejected operation — overflow included — leaves
//! both the controller and the ledger exactly as they were.

use vstd::prelude::*;
use crate::types::{AccountRef, AssetRef, Identity};
use crate::errors::StablecoinError;
use crate::ledger::Ledger;
use crate::model::{init_result, mint_result, burn_result, transfer_result, set_pause_result, Model};

verus! {

/// The singleton record the controller persists: who may mint and pause,
/// which ledger asset it governs, whether it is paused, and how much has
/// ever been issued and retired.
#[derive(Clone, Copy, PartialEq, Eq, Structural, Debug)]
pub struct StablecoinState {
    pub authority: Identity,
    pub mint: AssetRef,
    pub paused: bool,
    pub total_minted: u64,
    pub total_burned: u64,
}

/// Accounts involved in `initialize`: the caller becomes the authority.
#[derive(Clone, Copy, PartialEq, Eq, Structural, Debug)]
pub struct Initialize {
    pub authority: Identity,
}

/// Accounts involved in a mint: the destination and the caller.
#[derive(Clone, Copy, PartialEq, Eq, Structural, Debug)]
pub struct MintTokens {
    pub to: AccountRef,
    pub authority: Identity,
}

/// Accounts involved in a burn: the source and the caller holding it.
#[derive(Clone, Copy, PartialEq, Eq, Structural, Debug)]
pub struct BurnTokens {
    pub from: AccountRef,
    pub user: Identity,
}

/// Accounts involved in a transfer: source, destination, and the caller
/// holding the source.
#[derive(Clone, Copy, PartialEq, Eq, Structural, Debug)]
pub struct TransferTokens {
    pub from: AccountRef,
    pub to: AccountRef,
    pub user: Identity,
}

/// Accounts involved in pause/unpause: just the caller.
#[derive(Clone, Copy, PartialEq, Eq, Structural, Debug)]
pub struct AdminControl {
    pub authority: Identity,
}

/// Lifecycle wrapper around the singleton state: `None` is the
/// uninitialized phase, `Some` the active one. There is no way back.
#[derive(Clone, Copy)]
pub struct Controller {
    pub state: Option<StablecoinState>,
}

impl Controller {
    /// A controller in the uninitialized phase.
    pub fn new() -> (c: Controller)
        ensures
            c.state is None,
    {
        Controller { state: None }
    }

    /// Read-only snapshot of the state, `None` while uninitialized.
    pub fn get_state(&self) -> (r: Option<StablecoinState>)
        ensures
            r == self.state,
    {
        self.state
    }

    /// Creates the ledger asset with the caller as its authority and enters
    /// the active phase: `authority = caller`, unpaused, both counters zero.
    /// Exactly-once: a second call fails with `AlreadyInitialized` and
    /// changes nothing.
    pub fn initialize(&mut self, ledger: &mut Ledger, ctx: Initialize, decimals: u8) -> (r: Result<
        (),
        StablecoinError,
    >)
        ensures
            ({
                let (m, res) = init_result(
                    (Model { state: old(self).state, ledger: old(ledger)@ }),
                    decimals,
                    ctx.authority,
                );
                &&& final(self).state == m.state
                &&& final(ledger)@ == m.ledger
                &&& r == res
            }),
    {
        if self.state.is_some() {
            return Err(StablecoinError::AlreadyInitialized);
        }
        let asset = match ledger.create_asset(ctx.authority, decimals) {
            Err(e) => {
                return Err(e);
            },
            Ok(a) => a,
        };
        self.state = Some(
            StablecoinState {
                authority: ctx.authority,
                mint: asset,
                paused: false,
                total_minted: 0,
                total_burned: 0,
            },
        );
        Ok(())
    }

    /// Issues `amount` to `ctx.to`. Active, unpaused and authority-gated;
    /// the `total_minted` update is overflow-checked before the ledger is
    /// invoked, and the ledger's own rejection is surfaced unchanged.
    pub fn mint_tokens(&mut self, ledger: &mut Ledger, ctx: MintTokens, amount: u64) -> (r: Result<
        (),
        StablecoinError,
    >)
        ensures
            ({
                let (m, res) = mint_result(
                    (Model { state: old(self).state, ledger: old(ledger)@ }),
                    ctx.to,
                    ctx.authority,
                    amount,
                );
                &&& final(self).state == m.state
                &&& final(ledger)@ == m.ledger
                &&& r == res
            }),
    {
        let st = match self.state {
            None => {
                return Err(StablecoinError::NotInitialized);
            },
            Some(st) => st,
        };
        if st.paused {
            return Err(StablecoinError::ContractPaused);
        }
        if ctx.authority != st.authority {
            return Err(StablecoinError::Unauthorized);
        }
        let new_minted = match st.total_minted.checked_add(amount) {
            None => {
                return Err(StablecoinError::MathOverflow);
            },
            Some(v) => v,
        };
        match ledger.mint(st.mint, ctx.to, amount) {
            Err(e) => Err(e),
            Ok(_) => {
                self.state = Some(
                    StablecoinState {
                        authority: st.authority,
                        mint: st.mint,
                        paused: st.paused,
                        total_minted: new_minted,
                        total_burned: st.total_burned,
                    },
                );
                Ok(())
            },
        }
    }

    /// Retires `amount` from `ctx.from`. Active and unpaused; whether the
    /// caller may burn is the ledger's holder check, not the controller's
    /// authority. The `total_burned` update is overflow-checked before the
    /// ledger is invoked.
    pub fn burn_tokens(&mut self, ledger: &mut Ledger, ctx: BurnTokens, amount: u64) -> (r: Result<
        (),
        StablecoinError,
    >)
        ensures
            ({
                let (m, res) = burn_result(
                    (Model { state: old(self).state, ledger: old(ledger)@ }),
                    ctx.from,
                    ctx.user,
                    amount,
                );
                &&& final(self).state == m.state
                &&& final(ledger)@ == m.ledger
                &&& r == res
            }),
    {
        let st = match self.state {
            None => {
                return Err(StablecoinError::NotInitialized);
            },
            Some(st) => st,
        };
        if st.paused {
            return Err(StablecoinError::ContractPaused);
        }
        let new_burned = match st.total_burned.checked_add(amount) {
            None => {
                return Err(StablecoinError::MathOverflow);
            },
            Some(v) => v,
        };
        match ledger.burn(st.mint, ctx.from, ctx.user, amount) {
            Err(e) => Err(e),
            Ok(_) => {
                self.state = Some(
                    StablecoinState {
                        authority: st.authority,
                        mint: st.mint,
                        paused: st.paused,
                        total_minted: st.total_minted,
                        total_burned: new_burned,
                    },
                );
                Ok(())
            },
        }
    }

    /// Moves `amount` from `ctx.from` to `ctx.to`. Active and unpaused;
    /// authorization is the ledger's holder check. The counters never
    /// change: a transfer does not affect total supply.
    pub fn transfer_tokens(
        &mut self,
        ledger: &mut Ledger,
        ctx: TransferTokens,
        amount: u64,
    ) -> (r: Result<(), StablecoinError>)
        ensures
            ({
                let (m, res) = transfer_result(
                    (Model { state: old(self).state, ledger: old(ledger)@ }),
                    ctx.from,
                    ctx.to,
                    ctx.user,
                    amount,
                );
                &&& final(self).state == m.state
                &&& final(ledger)@ == m.ledger
                &&& r == res
            }),
    {
        let st = match self.state {
            None => {
                return Err(StablecoinError::NotInitialized);
            },
            Some(st) => st,
        };
        if st.paused {
            return Err(StablecoinError::ContractPaused);
        }
        ledger.transfer(st.mint, ctx.from, ctx.to, ctx.user, amount)
    }

    /// Sets the pause flag to `desired`. Active and authority-gated;
    /// setting the current value again is a legal no-op.
    pub fn set_pause(&mut self, desired: bool, caller: Identity) -> (r: Result<
        (),
        StablecoinError,
    >)
        ensures
            ({
                let (s2, res) = set_pause_result(old(self).state, desired, caller);
                &&& final(self).state == s2
                &&& r == res
            }),
    {
        let st = match self.state {
            None => {
                return Err(StablecoinError::NotInitialized);
            },
            Some(st) => st,
        };
        if caller != st.authority {
            return Err(StablecoinError::Unauthorized);
        }
        self.state = Some(
            StablecoinState {
                authority: st.authority,
                mint: st.mint,
                paused: desired,
                total_minted: st.total_minted,
                total_burned: st.total_burned,
            },
        );
        Ok(())
    }

    /// Blocks mint, burn and transfer until `unpause`. Authority-gated.
    pub fn pause(&mut self, ctx: AdminControl) -> (r: Result<(), StablecoinError>)
        ensures
            ({
                let (s2, res) = set_pause_result(old(self).state, true, ctx.authority);
                &&& final(self).state == s2
                &&& r == res
            }),
    {
        self.set_pause(true, ctx.authority)
    }

    /// Lifts the pause. Authority-gated.
    pub fn unpause(&mut self, ctx: AdminControl) -> (r: Result<(), StablecoinError>)
        ensures
            ({
                let (s2, res) = set_pause_result(old(self).state, false, ctx.authority);
                &&& final(self).state == s2
                &&& r == res
            }),
    {
        self.set_pause(false, ctx.authority)
    }
}

} // verus!

