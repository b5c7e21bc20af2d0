//! The route executor: a state machine that decides, from what the host
//! observed, what the host must do next.
//!
//! An execution is opened by [`execute_arbitrage_route`], which refuses a
//! malformed request before anything is asked of the host. It then asks for
//! the starting balance, for one swap per hop in order, and for the final
//! balance, and ends by committing an audit record or aborting with an
//! error. The host answers each [`Action`] with the matching [`Event`].

use vstd::prelude::*;
use crate::pricing::{min_output, min_output_spec, settle, settlement_spec};
use crate::types::{ArbitrageError, ArbitrageExecuted, EmergencyCancel, SwapResult, SwapStep};

verus! {

/// The fewest hops of a route.
pub const MIN_ROUTE_STEPS: usize = 3;

/// The most hops of a route.
pub const MAX_ROUTE_STEPS: usize = 6;

/// One hop that the host is asked to carry out.
#[derive(Clone, Copy, Debug, PartialEq, Eq, Structural)]
pub struct SwapRequest {
    /// The position of the hop in the route.
    pub step_index: usize,
    /// The amount to convert: the starting balance for the first hop, the
    /// previous hop's output for the others.
    pub input_amount: u64,
    /// The least output that counts as success.
    pub min_output: u64,
}

/// What the host must do next.
#[derive(Clone, Copy, Debug, PartialEq, Eq, Structural)]
pub enum Action {
    /// Read the balance of the tracked account and report it.
    ReadBalance,
    /// Carry out the hop and report its outcome.
    Swap(SwapRequest),
    /// Keep all effects; the execution succeeded with this record.
    Commit(ArbitrageExecuted),
    /// Undo all effects; the execution failed for this reason.
    Abort(ArbitrageError),
}

/// What the host observed.
#[derive(Clone, Copy, Debug, PartialEq, Eq, Structural)]
pub enum Event {
    /// The balance of the tracked account.
    Balance(u64),
    /// The outcome that the venue reported of the requested hop.
    Swapped(SwapResult),
}

/// How far an execution has come.
#[derive(Clone, Copy, Debug, PartialEq, Eq, Structural)]
pub enum Phase {
    /// Nothing was observed yet.
    AwaitingStartBalance,
    /// The balance before the hops was `start_balance`, and the hop
    /// `request` was asked for.
    AwaitingSwap { start_balance: u64, request: SwapRequest },
    /// The balance before the hops was `start_balance`, and every hop
    /// succeeded.
    AwaitingFinalBalance { start_balance: u64 },
    /// The profit gate was passed.
    Committed(ArbitrageExecuted),
    /// A hop failed or the profit gate was missed.
    Aborted(ArbitrageError),
}

/// The error, if any, for a route of `steps` hops and a profit threshold of
/// `min_profit_bps`. The length is judged first.
pub open spec fn validation_spec(steps: nat, min_profit_bps: u16) -> Option<ArbitrageError> {
    if steps < MIN_ROUTE_STEPS {
        Some(ArbitrageError::RouteTooShort)
    } else if steps > MAX_ROUTE_STEPS {
        Some(ArbitrageError::RouteTooLong)
    } else if min_profit_bps == 0 {
        Some(ArbitrageError::InvalidMinProfit)
    } else {
        None
    }
}

/// The mathematical model of an execution: the request it was opened for
/// and how far it has come.
pub struct ExecutionView {
    /// The hops, in order.
    pub route: Seq<SwapStep>,
    /// The least profit to commit at, in basis points.
    pub min_profit_bps: u16,
    /// The shortfall that each hop tolerates against its expected rate, in
    /// basis points.
    pub max_slippage_bps: u16,
    /// How far the execution has come.
    pub phase: Phase,
}

impl ExecutionView {
    /// The execution of a request, before anything was observed.
    pub open spec fn opened(
        route: Seq<SwapStep>,
        min_profit_bps: u16,
        max_slippage_bps: u16,
    ) -> ExecutionView {
        ExecutionView {
            route,
            min_profit_bps,
            max_slippage_bps,
            phase: Phase::AwaitingStartBalance,
        }
    }

    /// The request is valid, a hop asked for is a hop of the route with the
    /// minimum output that the route prescribes, a committed record is one
    /// that passes the profit gate, and an execution is aborted only for a
    /// failed hop, a missed gate or an empty starting balance.
    pub open spec fn wf(self) -> bool {
        &&& validation_spec(self.route.len(), self.min_profit_bps) is None
        &&& match self.phase {
            Phase::AwaitingStartBalance => true,
            Phase::AwaitingSwap { start_balance, request } => {
                &&& request.step_index < self.route.len()
                &&& min_output_spec(
                    request.input_amount,
                    self.route[request.step_index as int].expected_rate,
                    self.max_slippage_bps,
                ) == Some(request.min_output)
            },
            Phase::AwaitingFinalBalance { start_balance } => true,
            Phase::Committed(record) => settlement_spec(
                record.start_amount,
                record.final_amount,
                self.min_profit_bps,
                self.route.len() as u8,
            ) == Ok::<ArbitrageExecuted, ArbitrageError>(record),
            Phase::Aborted(error) => {
                ||| error == ArbitrageError::SwapFailed
                ||| error == ArbitrageError::InsufficientProfit
                ||| error == ArbitrageError::DivisionByZeroBalance
            },
        }
    }

    /// Whether the execution has ended.
    pub open spec fn finished(self) -> bool {
        self.phase is Committed || self.phase is Aborted
    }

    /// What the host must do next.
    pub open spec fn pending(self) -> Action {
        match self.phase {
            Phase::AwaitingStartBalance => Action::ReadBalance,
            Phase::AwaitingSwap { start_balance, request } => Action::Swap(request),
            Phase::AwaitingFinalBalance { start_balance } => Action::ReadBalance,
            Phase::Committed(record) => Action::Commit(record),
            Phase::Aborted(error) => Action::Abort(error),
        }
    }

    /// The phase entered when `input_amount` is at hand for the hop at
    /// `index`: past the last hop the final balance is awaited; a hop whose
    /// minimum output no amount reaches fails without being asked for.
    pub open spec fn enter_hop(self, start_balance: u64, index: int, input_amount: u64) -> Phase {
        if index >= self.route.len() {
            Phase::AwaitingFinalBalance { start_balance }
        } else {
            match min_output_spec(
                input_amount,
                self.route[index].expected_rate,
                self.max_slippage_bps,
            ) {
                Some(min_output) => Phase::AwaitingSwap {
                    start_balance,
                    request: SwapRequest { step_index: index as usize, input_amount, min_output },
                },
                None => Phase::Aborted(ArbitrageError::SwapFailed),
            }
        }
    }

    /// The execution after `event`. A hop goes through on its venue's word:
    /// a reported success is not held against the minimum output again. An
    /// event that the phase does not await changes nothing.
    pub open spec fn advance(self, event: Event) -> ExecutionView {
        let phase = match (self.phase, event) {
            (Phase::AwaitingStartBalance, Event::Balance(balance)) => self.enter_hop(
                balance,
                0,
                balance,
            ),
            (Phase::AwaitingSwap { start_balance, request }, Event::Swapped(result)) => {
                if result.success {
                    self.enter_hop(start_balance, request.step_index + 1, result.output_amount)
                } else {
                    Phase::Aborted(ArbitrageError::SwapFailed)
                }
            },
            (Phase::AwaitingFinalBalance { start_balance }, Event::Balance(balance)) => {
                match settlement_spec(
                    start_balance,
                    balance,
                    self.min_profit_bps,
                    self.route.len() as u8,
                ) {
                    Ok(record) => Phase::Committed(record),
                    Err(error) => Phase::Aborted(error),
                }
            },
            _ => self.phase,
        };
        ExecutionView { phase, ..self }
    }

    /// The execution after `events`, in order.
    pub open spec fn run(self, events: Seq<Event>) -> ExecutionView
        decreases events.len(),
    {
        if events.len() == 0 {
            self
        } else {
            self.run(events.drop_last()).advance(events.last())
        }
    }
}

/// An execution of one route, from the first balance read to its end.
#[derive(Debug)]
pub struct RouteExecution {
    route: Vec<SwapStep>,
    min_profit_bps: u16,
    max_slippage_bps: u16,
    phase: Phase,
}

impl View for RouteExecution {
    type V = ExecutionView;

    closed spec fn view(&self) -> ExecutionView {
        ExecutionView {
            route: self.route@,
            min_profit_bps: self.min_profit_bps,
            max_slippage_bps: self.max_slippage_bps,
            phase: self.phase,
        }
    }
}

impl RouteExecution {
    #[verifier::type_invariant]
    spec fn inv(self) -> bool {
        self@.wf()
    }

    fn enter_hop(&self, start_balance: u64, index: usize, input_amount: u64) -> (phase: Phase)
        requires
            index <= self.route.len(),
        ensures
            phase == self@.enter_hop(start_balance, index as int, input_amount),
    {
        if index >= self.route.len() {
            Phase::AwaitingFinalBalance { start_balance }
        } else {
            match min_output(input_amount, self.route[index].expected_rate, self.max_slippage_bps) {
                Some(min_output) => Phase::AwaitingSwap {
                    start_balance,
                    request: SwapRequest { step_index: index, input_amount, min_output },
                },
                None => Phase::Aborted(ArbitrageError::SwapFailed),
            }
        }
    }

    /// The hops of the route, in order.
    pub fn route(&self) -> (route: &Vec<SwapStep>)
        ensures
            route@ == self@.route,
    {
        &self.route
    }

    /// Tells what the host must do next.
    pub fn pending(&self) -> (action: Action)
        ensures
            action == self@.pending(),
    {
        match self.phase {
            Phase::AwaitingStartBalance => Action::ReadBalance,
            Phase::AwaitingSwap { start_balance, request } => Action::Swap(request),
            Phase::AwaitingFinalBalance { start_balance } => Action::ReadBalance,
            Phase::Committed(record) => Action::Commit(record),
            Phase::Aborted(error) => Action::Abort(error),
        }
    }

    /// Takes in what the host observed and tells what it must do next.
    pub fn resume(&mut self, event: Event) -> (action: Action)
        ensures
            final(self)@ == old(self)@.advance(event),
            final(self)@.wf(),
            action == final(self)@.pending(),
    {
        proof {
            use_type_invariant(&*self);
            lemma_advance_preserves_wf(self@, event);
        }
        let phase = match (self.phase, event) {
            (Phase::AwaitingStartBalance, Event::Balance(balance)) => self.enter_hop(
                balance,
                0,
                balance,
            ),
            (Phase::AwaitingSwap { start_balance, request }, Event::Swapped(result)) => {
                if result.success {
                    self.enter_hop(start_balance, request.step_index + 1, result.output_amount)
                } else {
                    Phase::Aborted(ArbitrageError::SwapFailed)
                }
            },
            (Phase::AwaitingFinalBalance { start_balance }, Event::Balance(balance)) => {
                match settle(start_balance, balance, self.min_profit_bps, self.route.len() as u8) {
                    Ok(record) => Phase::Committed(record),
                    Err(error) => Phase::Aborted(error),
                }
            },
            _ => self.phase,
        };
        self.phase = phase;
        self.pending()
    }
}

/// Every step of an execution keeps it well formed.
pub proof fn lemma_advance_preserves_wf(execution: ExecutionView, event: Event)
    requires
        execution.wf(),
    ensures
        execution.advance(event).wf(),
{
}

/// Opens the execution of `route`, to be accepted at a profit of at least
/// `min_profit_bps` basis points, each hop tolerating a shortfall of
/// `max_slippage_bps` basis points against its expected rate.
///
/// A route of fewer than three or more than six hops, or a threshold of
/// zero, is refused here: no execution exists, so no balance is read and no
/// venue is asked for anything.
pub fn execute_arbitrage_route(
    route: Vec<SwapStep>,
    min_profit_bps: u16,
    max_slippage_bps: u16,
) -> (opened: Result<RouteExecution, ArbitrageError>)
    ensures
        route@.len() < 3 ==> opened matches Err(ArbitrageError::RouteTooShort),
        route@.len() > 6 ==> opened matches Err(ArbitrageError::RouteTooLong),
        3 <= route@.len() <= 6 && min_profit_bps == 0 ==> opened matches Err(
            ArbitrageError::InvalidMinProfit,
        ),
        3 <= route@.len() <= 6 && min_profit_bps > 0 ==> opened is Ok,
        match opened {
            Ok(execution) => {
                &&& validation_spec(route@.len(), min_profit_bps) is None
                &&& execution@ == ExecutionView::opened(route@, min_profit_bps, max_slippage_bps)
                &&& execution@.wf()
            },
            Err(error) => validation_spec(route@.len(), min_profit_bps) == Some(error),
        },
{
    if route.len() < MIN_ROUTE_STEPS {
        return Err(ArbitrageError::RouteTooShort);
    }
    if route.len() > MAX_ROUTE_STEPS {
        return Err(ArbitrageError::RouteTooLong);
    }
    if min_profit_bps == 0 {
        return Err(ArbitrageError::InvalidMinProfit);
    }
    Ok(
        RouteExecution {
            route,
            min_profit_bps,
            max_slippage_bps,
            phase: Phase::AwaitingStartBalance,
        },
    )
}

/// What a stricter judgement makes of a reported outcome: a hop that
/// succeeded at a realized slippage above the tolerance is refused.
pub open spec fn slippage_check_spec(outcome: SwapResult, max_slippage_bps: u16) -> Result<
    (),
    ArbitrageError,
> {
    if outcome.success && outcome.slippage_bps > max_slippage_bps {
        Err(ArbitrageError::SlippageExceeded)
    } else {
        Ok(())
    }
}

/// Judges a reported outcome more strictly than an execution does. An
/// execution goes by the venue's word alone; a host that also wants the
/// realized slippage held to the tolerance asks here before it reports the
/// outcome.
pub fn check_slippage(outcome: &SwapResult, max_slippage_bps: u16) -> (checked: Result<
    (),
    ArbitrageError,
>)
    ensures
        checked == slippage_check_spec(*outcome, max_slippage_bps),
{
    if outcome.success && outcome.slippage_bps > max_slippage_bps {
        Err(ArbitrageError::SlippageExceeded)
    } else {
        Ok(())
    }
}

/// Marks an explicit abort by the owner. It always succeeds and changes
/// nothing: an execution that fails is undone as a whole by the host, so
/// nothing is left to undo.
pub fn emergency_cancel(ctx: &EmergencyCancel) -> (done: Result<(), ArbitrageError>)
    ensures
        done == Ok::<(), ArbitrageError>(()),
{
    Ok(())
}

} // verus!
