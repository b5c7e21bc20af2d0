//! What an execution comes to: the result of a whole run, stated directly
//! over what the host observes, and the proofs that the state machine
//! arrives at it.
//!
//! A run is described by the starting balance, the outcome that each hop's
//! venue reports, and the final balance. Outcomes after a failed hop are
//! never asked for and never matter.

use vstd::prelude::*;
use crate::executor::{
    lemma_advance_preserves_wf, validation_spec, Action, Event, ExecutionView, Phase, SwapRequest,
};
use crate::pricing::{min_output_spec, profit_bps_spec, profit_spec, settlement_spec};
use crate::types::{ArbitrageError, ArbitrageExecuted, SwapResult, SwapStep};

verus! {

/// The amount that goes into the hop at `index`: the starting balance for
/// the first hop, the previous hop's reported output for the others.
pub open spec fn hop_input(start_balance: u64, outcomes: Seq<SwapResult>, index: int) -> u64 {
    if index == 0 {
        start_balance
    } else {
        outcomes[index - 1].output_amount
    }
}

/// Whether the hop at `index` goes through: some amount reaches its minimum
/// output, and its venue reports success.
pub open spec fn hop_passes(
    route: Seq<SwapStep>,
    max_slippage_bps: u16,
    start_balance: u64,
    outcomes: Seq<SwapResult>,
    index: int,
) -> bool {
    &&& min_output_spec(
        hop_input(start_balance, outcomes, index),
        route[index].expected_rate,
        max_slippage_bps,
    ) is Some
    &&& outcomes[index].success
}

/// Whether each of the first `hops` hops goes through.
pub open spec fn hops_pass(
    route: Seq<SwapStep>,
    max_slippage_bps: u16,
    start_balance: u64,
    outcomes: Seq<SwapResult>,
    hops: int,
) -> bool {
    forall|index: int|
        0 <= index < hops ==> #[trigger] hop_passes(
            route,
            max_slippage_bps,
            start_balance,
            outcomes,
            index,
        )
}

/// What a request and a run come to. The request is judged first, then
/// the hops, then the profit.
pub open spec fn route_outcome_spec(
    route: Seq<SwapStep>,
    min_profit_bps: u16,
    max_slippage_bps: u16,
    start_balance: u64,
    outcomes: Seq<SwapResult>,
    final_balance: u64,
) -> Result<ArbitrageExecuted, ArbitrageError> {
    match validation_spec(route.len(), min_profit_bps) {
        Some(error) => Err(error),
        None => {
            if hops_pass(route, max_slippage_bps, start_balance, outcomes, route.len() as int) {
                settlement_spec(start_balance, final_balance, min_profit_bps, route.len() as u8)
            } else {
                Err(ArbitrageError::SwapFailed)
            }
        },
    }
}

/// The action that ends an execution with `outcome`.
pub open spec fn final_action(outcome: Result<ArbitrageExecuted, ArbitrageError>) -> Action {
    match outcome {
        Ok(record) => Action::Commit(record),
        Err(error) => Action::Abort(error),
    }
}

/// What the host reports up to and including the outcome of the first
/// `hops` hops.
pub open spec fn observations(start_balance: u64, outcomes: Seq<SwapResult>, hops: int) -> Seq<
    Event,
> {
    Seq::new(
        (hops + 1) as nat,
        |i: int|
            if i == 0 {
                Event::Balance(start_balance)
            } else {
                Event::Swapped(outcomes[i - 1])
            },
    )
}

/// What the host reports in a whole run.
pub open spec fn full_run(start_balance: u64, outcomes: Seq<SwapResult>, final_balance: u64) -> Seq<
    Event,
> {
    observations(start_balance, outcomes, outcomes.len() as int).push(
        Event::Balance(final_balance),
    )
}

/// An execution that has ended stays as it is, whatever is reported.
pub proof fn lemma_finished_is_final(execution: ExecutionView, events: Seq<Event>)
    requires
        execution.finished(),
    ensures
        execution.run(events) == execution,
    decreases events.len(),
{
    if events.len() > 0 {
        lemma_finished_is_final(execution, events.drop_last());
    }
}

/// Running an execution never changes the request it was opened for.
pub proof fn lemma_run_keeps_request(execution: ExecutionView, events: Seq<Event>)
    ensures
        execution.run(events).route == execution.route,
        execution.run(events).min_profit_bps == execution.min_profit_bps,
        execution.run(events).max_slippage_bps == execution.max_slippage_bps,
    decreases events.len(),
{
    if events.len() > 0 {
        lemma_run_keeps_request(execution, events.drop_last());
    }
}

/// Every run of a well-formed execution is well formed: whatever the host
/// reports, a committed record is one that passes the profit gate.
pub proof fn lemma_run_preserves_wf(execution: ExecutionView, events: Seq<Event>)
    requires
        execution.wf(),
    ensures
        execution.run(events).wf(),
    decreases events.len(),
{
    if events.len() > 0 {
        lemma_run_preserves_wf(execution, events.drop_last());
    }
}

/// After the starting balance and the outcomes of the first `hops` hops, an
/// execution is aborted if one of them did not go through, and has entered
/// the next hop otherwise.
pub proof fn lemma_phase_after_hops(
    route: Seq<SwapStep>,
    min_profit_bps: u16,
    max_slippage_bps: u16,
    start_balance: u64,
    outcomes: Seq<SwapResult>,
    hops: int,
)
    requires
        validation_spec(route.len(), min_profit_bps) is None,
        0 <= hops <= route.len(),
    ensures
        ({
            let opened = ExecutionView::opened(route, min_profit_bps, max_slippage_bps);
            let phase = opened.run(observations(start_balance, outcomes, hops)).phase;
            if hops_pass(route, max_slippage_bps, start_balance, outcomes, hops) {
                phase == opened.enter_hop(
                    start_balance,
                    hops,
                    hop_input(start_balance, outcomes, hops),
                )
            } else {
                phase == Phase::Aborted(ArbitrageError::SwapFailed)
            }
        }),
    decreases hops,
{
    let opened = ExecutionView::opened(route, min_profit_bps, max_slippage_bps);
    let events = observations(start_balance, outcomes, hops);
    if hops == 0 {
        assert(events.drop_last() =~= Seq::<Event>::empty());
        assert(opened.run(events.drop_last()) == opened);
    } else {
        let before = observations(start_balance, outcomes, hops - 1);
        assert(events.drop_last() =~= before);
        assert(events.last() == Event::Swapped(outcomes[hops - 1]));
        lemma_phase_after_hops(
            route,
            min_profit_bps,
            max_slippage_bps,
            start_balance,
            outcomes,
            hops - 1,
        );
        lemma_run_keeps_request(opened, before);
        if hops_pass(route, max_slippage_bps, start_balance, outcomes, hops - 1) {
            if hop_passes(route, max_slippage_bps, start_balance, outcomes, hops - 1) {
                assert(hops_pass(route, max_slippage_bps, start_balance, outcomes, hops));
            } else {
                assert(!hops_pass(route, max_slippage_bps, start_balance, outcomes, hops));
            }
        } else {
            assert(!hops_pass(route, max_slippage_bps, start_balance, outcomes, hops));
        }
    }
}

/// The state machine arrives at `route_outcome_spec`. An execution opened
/// for a valid request and told the starting balance, each hop's outcome
/// and the final balance ends by committing that record, or by aborting
/// with that error.
pub proof fn theorem_run_reaches_outcome(
    route: Seq<SwapStep>,
    min_profit_bps: u16,
    max_slippage_bps: u16,
    start_balance: u64,
    outcomes: Seq<SwapResult>,
    final_balance: u64,
)
    requires
        validation_spec(route.len(), min_profit_bps) is None,
        outcomes.len() == route.len(),
    ensures
        ExecutionView::opened(route, min_profit_bps, max_slippage_bps).run(
            full_run(start_balance, outcomes, final_balance),
        ).pending() == final_action(
            route_outcome_spec(
                route,
                min_profit_bps,
                max_slippage_bps,
                start_balance,
                outcomes,
                final_balance,
            ),
        ),
{
    let opened = ExecutionView::opened(route, min_profit_bps, max_slippage_bps);
    let hops = route.len() as int;
    let events = full_run(start_balance, outcomes, final_balance);
    let before = observations(start_balance, outcomes, hops);
    assert(events.drop_last() =~= before);
    assert(events.last() == Event::Balance(final_balance));
    lemma_phase_after_hops(route, min_profit_bps, max_slippage_bps, start_balance, outcomes, hops);
    lemma_run_keeps_request(opened, before);
}

/// A failed hop aborts the route. Where the hop at `failed` does not go
/// through, the execution is aborted with `SwapFailed` once that hop's
/// outcome is reported, nothing reported later changes that, and the run
/// comes to the same error whatever the balances and the other outcomes
/// are. No record of a partial run is ever committed.
pub proof fn lemma_failed_hop_aborts_route(
    route: Seq<SwapStep>,
    min_profit_bps: u16,
    max_slippage_bps: u16,
    start_balance: u64,
    outcomes: Seq<SwapResult>,
    final_balance: u64,
    failed: int,
    later: Seq<Event>,
)
    requires
        validation_spec(route.len(), min_profit_bps) is None,
        outcomes.len() == route.len(),
        0 <= failed < route.len(),
        !hop_passes(route, max_slippage_bps, start_balance, outcomes, failed),
    ensures
        route_outcome_spec(
            route,
            min_profit_bps,
            max_slippage_bps,
            start_balance,
            outcomes,
            final_balance,
        ) == Err::<ArbitrageExecuted, ArbitrageError>(ArbitrageError::SwapFailed),
        ({
            let aborted = ExecutionView::opened(route, min_profit_bps, max_slippage_bps).run(
                observations(start_balance, outcomes, failed + 1),
            );
            &&& aborted.pending() == Action::Abort(ArbitrageError::SwapFailed)
            &&& aborted.run(later) == aborted
        }),
{
    let opened = ExecutionView::opened(route, min_profit_bps, max_slippage_bps);
    assert(!hops_pass(route, max_slippage_bps, start_balance, outcomes, route.len() as int));
    assert(!hops_pass(route, max_slippage_bps, start_balance, outcomes, failed + 1));
    lemma_phase_after_hops(
        route,
        min_profit_bps,
        max_slippage_bps,
        start_balance,
        outcomes,
        failed + 1,
    );
    lemma_finished_is_final(
        opened.run(observations(start_balance, outcomes, failed + 1)),
        later,
    );
}

/// The profit gate is strict. A run is committed only with a record whose
/// profit reaches the threshold, and a run whose profit falls short of it,
/// by however little, is never committed.
pub proof fn lemma_profit_gate(
    route: Seq<SwapStep>,
    min_profit_bps: u16,
    max_slippage_bps: u16,
    start_balance: u64,
    outcomes: Seq<SwapResult>,
    final_balance: u64,
)
    ensures
        ({
            let outcome = route_outcome_spec(
                route,
                min_profit_bps,
                max_slippage_bps,
                start_balance,
                outcomes,
                final_balance,
            );
            &&& outcome matches Ok(record) ==> {
                &&& record.profit_bps >= min_profit_bps
                &&& record.profit_bps == profit_bps_spec(start_balance, final_balance)
                &&& record.profit == profit_spec(start_balance, final_balance)
                &&& record.start_amount == start_balance
                &&& record.final_amount == final_balance
                &&& record.steps == route.len()
            }
            &&& start_balance > 0 && profit_bps_spec(start_balance, final_balance) < min_profit_bps
                ==> outcome is Err
        }),
{
}

/// An empty starting balance is refused. Where every hop goes through, the
/// run comes to `DivisionByZeroBalance`, and no profit is ever divided by
/// zero.
pub proof fn lemma_zero_start_balance(
    route: Seq<SwapStep>,
    min_profit_bps: u16,
    max_slippage_bps: u16,
    outcomes: Seq<SwapResult>,
    final_balance: u64,
)
    requires
        validation_spec(route.len(), min_profit_bps) is None,
        hops_pass(route, max_slippage_bps, 0, outcomes, route.len() as int),
    ensures
        route_outcome_spec(route, min_profit_bps, max_slippage_bps, 0, outcomes, final_balance)
            == Err::<ArbitrageExecuted, ArbitrageError>(ArbitrageError::DivisionByZeroBalance),
{
}

/// A host as an execution sees it: the balance it reports before the hops,
/// the outcome it reports of each hop asked for, and the balance it reports
/// after the hops.
pub struct Host {
    /// The balance reported before the hops.
    pub start_balance: u64,
    /// The outcome reported of each hop asked for.
    pub venue: spec_fn(SwapRequest) -> SwapResult,
    /// The balance reported after the hops.
    pub final_balance: u64,
}

impl Host {
    /// What the host reports when `execution` asks for its pending action.
    pub open spec fn answer(self, execution: ExecutionView) -> Event {
        match execution.phase {
            Phase::AwaitingSwap { start_balance, request } => Event::Swapped((self.venue)(request)),
            Phase::AwaitingFinalBalance { start_balance } => Event::Balance(self.final_balance),
            _ => Event::Balance(self.start_balance),
        }
    }

    /// The outcome that the host reports of the hop at `index`, when every
    /// hop before it was asked for. A hop whose minimum output no amount
    /// reaches is never asked for and counts as failed.
    pub open spec fn outcome(
        self,
        route: Seq<SwapStep>,
        max_slippage_bps: u16,
        index: nat,
    ) -> SwapResult
        decreases index,
    {
        let input_amount = if index == 0 {
            self.start_balance
        } else {
            self.outcome(route, max_slippage_bps, (index - 1) as nat).output_amount
        };
        match min_output_spec(input_amount, route[index as int].expected_rate, max_slippage_bps) {
            Some(min_output) => (self.venue)(
                SwapRequest { step_index: index as usize, input_amount, min_output },
            ),
            None => SwapResult { success: false, output_amount: 0, slippage_bps: 0 },
        }
    }

    /// The outcomes that the host reports along `route`.
    pub open spec fn outcomes(self, route: Seq<SwapStep>, max_slippage_bps: u16) -> Seq<
        SwapResult,
    > {
        Seq::new(route.len(), |index: int| self.outcome(route, max_slippage_bps, index as nat))
    }

    /// The execution after the host has answered `rounds` times.
    pub open spec fn drive(self, execution: ExecutionView, rounds: nat) -> ExecutionView
        decreases rounds,
    {
        if rounds == 0 {
            execution
        } else {
            let before = self.drive(execution, (rounds - 1) as nat);
            before.advance(self.answer(before))
        }
    }
}

/// The most answers that an execution still takes before it ends.
pub open spec fn rounds_left(execution: ExecutionView) -> nat {
    match execution.phase {
        Phase::AwaitingStartBalance => execution.route.len() + 2,
        Phase::AwaitingSwap { start_balance, request } => (execution.route.len()
            - request.step_index + 1) as nat,
        Phase::AwaitingFinalBalance { start_balance } => 1,
        Phase::Committed(record) => 0,
        Phase::Aborted(error) => 0,
    }
}

/// Every execution ends. A host that answers what it is asked has its
/// result after two balance reads and one swap per hop at most, whatever it
/// answers.
pub proof fn theorem_execution_ends(host: Host, execution: ExecutionView, rounds: nat)
    requires
        execution.wf(),
    ensures
        host.drive(execution, rounds).wf(),
        rounds_left(host.drive(execution, rounds)) + rounds <= rounds_left(execution)
            || host.drive(execution, rounds).finished(),
        rounds >= execution.route.len() + 2 ==> host.drive(execution, rounds).finished(),
    decreases rounds,
{
    if rounds > 0 {
        theorem_execution_ends(host, execution, (rounds - 1) as nat);
        let before = host.drive(execution, (rounds - 1) as nat);
        lemma_advance_preserves_wf(before, host.answer(before));
    }
}

/// A host that answers what it is asked reports the starting balance and
/// then the outcome of one hop after the other.
proof fn lemma_drive_is_run(
    host: Host,
    route: Seq<SwapStep>,
    min_profit_bps: u16,
    max_slippage_bps: u16,
    hops: int,
)
    requires
        validation_spec(route.len(), min_profit_bps) is None,
        0 <= hops <= route.len(),
    ensures
        ({
            let opened = ExecutionView::opened(route, min_profit_bps, max_slippage_bps);
            host.drive(opened, (hops + 1) as nat) == opened.run(
                observations(host.start_balance, host.outcomes(route, max_slippage_bps), hops),
            )
        }),
    decreases hops,
{
    let opened = ExecutionView::opened(route, min_profit_bps, max_slippage_bps);
    let outcomes = host.outcomes(route, max_slippage_bps);
    let events = observations(host.start_balance, outcomes, hops);
    if hops == 0 {
        assert(events.drop_last() =~= Seq::<Event>::empty());
        assert(opened.run(events.drop_last()) == opened);
        assert(host.drive(opened, 0) == opened);
    } else {
        let before = observations(host.start_balance, outcomes, hops - 1);
        assert(events.drop_last() =~= before);
        assert(events.last() == Event::Swapped(outcomes[hops - 1]));
        lemma_drive_is_run(host, route, min_profit_bps, max_slippage_bps, hops - 1);
        lemma_phase_after_hops(
            route,
            min_profit_bps,
            max_slippage_bps,
            host.start_balance,
            outcomes,
            hops - 1,
        );
        lemma_run_keeps_request(opened, before);
        assert(outcomes[hops - 1] == host.outcome(route, max_slippage_bps, (hops - 1) as nat));
        if hops - 1 > 0 {
            assert(outcomes[hops - 2] == host.outcome(route, max_slippage_bps, (hops - 2) as nat));
        }
    }
}

/// A host that answers what it is asked gets the result of its run. After
/// two balance reads and one swap per hop at most, the execution has ended
/// by committing the record of `route_outcome_spec` for what the host
/// reports, or by aborting with that error.
pub proof fn theorem_host_reaches_outcome(
    host: Host,
    route: Seq<SwapStep>,
    min_profit_bps: u16,
    max_slippage_bps: u16,
)
    requires
        validation_spec(route.len(), min_profit_bps) is None,
    ensures
        ({
            let ended = host.drive(
                ExecutionView::opened(route, min_profit_bps, max_slippage_bps),
                route.len() + 2,
            );
            &&& ended.finished()
            &&& ended.pending() == final_action(
                route_outcome_spec(
                    route,
                    min_profit_bps,
                    max_slippage_bps,
                    host.start_balance,
                    host.outcomes(route, max_slippage_bps),
                    host.final_balance,
                ),
            )
        }),
{
    let opened = ExecutionView::opened(route, min_profit_bps, max_slippage_bps);
    let outcomes = host.outcomes(route, max_slippage_bps);
    let hops = route.len() as int;
    lemma_drive_is_run(host, route, min_profit_bps, max_slippage_bps, hops);
    lemma_phase_after_hops(
        route,
        min_profit_bps,
        max_slippage_bps,
        host.start_balance,
        outcomes,
        hops,
    );
    lemma_run_keeps_request(opened, observations(host.start_balance, outcomes, hops));
    theorem_run_reaches_outcome(
        route,
        min_profit_bps,
        max_slippage_bps,
        host.start_balance,
        outcomes,
        host.final_balance,
    );
    let events = full_run(host.start_balance, outcomes, host.final_balance);
    assert(events.drop_last() =~= observations(host.start_balance, outcomes, hops));
    assert(events.last() == Event::Balance(host.final_balance));
    theorem_execution_ends(host, opened, route.len() + 2);
}

/// An execution depends on nothing but the request and what the host
/// reports. Against hosts that report the same balances and whose venues
/// answer every request alike, two executions of one request go the same
/// way and end the same.
pub proof fn lemma_like_hosts_end_alike(
    first: Host,
    second: Host,
    execution: ExecutionView,
    rounds: nat,
)
    requires
        first.start_balance == second.start_balance,
        first.final_balance == second.final_balance,
        forall|request: SwapRequest| #[trigger] (first.venue)(request) == (second.venue)(request),
    ensures
        first.drive(execution, rounds) == second.drive(execution, rounds),
    decreases rounds,
{
    if rounds > 0 {
        lemma_like_hosts_end_alike(first, second, execution, (rounds - 1) as nat);
    }
}

} // verus!
