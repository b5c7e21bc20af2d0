//! Atomic multi-hop arbitrage routes: validation, per-hop minimum outputs,
//! venue adapters and the profit gate, with every decision verified.
//!
//! The crate performs no I/O. A host opens a [`RouteExecution`] with
//! [`execute_arbitrage_route`], reads the balances and performs the swaps
//! that the execution asks for, and hands what it observed back. The
//! execution ends by telling the host to commit, with an audit record, or to
//! abort, with an error; the host keeps or undoes all effects accordingly.
//!
//! - [`types`] holds the data model.
//! - [`pricing`] holds the fixed-point arithmetic.
//! - [`venues`] holds the adapters of the three venues.
//! - [`executor`] holds the state machine.
//! - [`outcome`] states what a whole run comes to, and proves that the state
//!   machine arrives at it, always ends, and aborts on a failed hop.

pub mod executor;
pub mod outcome;
pub mod pricing;
pub mod types;
pub mod venues;

pub use executor::{
    check_slippage, emergency_cancel, execute_arbitrage_route, Action, Event, ExecutionView, Phase,
    RouteExecution, SwapRequest,
};
pub use types::{
    ArbitrageError, ArbitrageExecuted, DexType, EmergencyCancel, ExecuteArbitrageRoute, Pubkey,
    SwapResult, SwapStep,
};
