//! Authorization-and-accounting core for a fungible token.
//!
//! The [`controller::Controller`] is a single authority-gated state machine
//! that decides whether a mint, burn, transfer, pause or unpause request may
//! proceed and keeps two running counters of issued and retired supply.
//! Value movement itself is delegated to a [`ledger::Ledger`], an in-memory
//! model of the external balance-holding collaborator, reached through the
//! narrow interface the controller relies on.
//!
//! [`model`] restates every operation as a transition function over a ghost
//! state, and [`laws`] proves the system-wide guarantees over that model:
//! counters never decrease, paused operations change nothing, only the
//! authority mints or pauses, initialization happens exactly once, and the
//! counters reconcile with the ledger's balances.

pub mod types;
pub mod errors;
pub mod ledger;
pub mod model;
pub mod controller;
pub mod laws;
