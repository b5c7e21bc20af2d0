use graph_arbitrage::venues::{execute_jupiter_swap, execute_single_swap, SwapPlan};
use graph_arbitrage::{
    check_slippage, emergency_cancel, execute_arbitrage_route, Action, ArbitrageError,
    ArbitrageExecuted, DexType, EmergencyCancel, Event, ExecuteArbitrageRoute, Pubkey,
    SwapRequest, SwapResult, SwapStep,
};

fn hop(dex: DexType, expected_rate: u64) -> SwapStep {
    SwapStep {
        input_mint: Pubkey { bytes: [1; 32] },
        output_mint: Pubkey { bytes: [2; 32] },
        dex,
        program_id: Pubkey { bytes: [3; 32] },
        expected_rate,
        route_data: vec![1, 2, 3],
    }
}

fn route_of(steps: usize) -> Vec<SwapStep> {
    (0..steps).map(|_| hop(DexType::Raydium, 1000)).collect()
}

fn cycle() -> Vec<SwapStep> {
    vec![hop(DexType::Jupiter, 1050), hop(DexType::Raydium, 980), hop(DexType::Orca, 1000)]
}

fn succeeded(output_amount: u64) -> SwapResult {
    SwapResult { success: true, output_amount, slippage_bps: 0 }
}

fn failed() -> SwapResult {
    SwapResult { success: false, output_amount: 0, slippage_bps: 0 }
}

/// What a host saw of one execution.
#[derive(Debug, PartialEq)]
struct Run {
    result: Result<ArbitrageExecuted, ArbitrageError>,
    balance_reads: usize,
    requests: Vec<SwapRequest>,
}

/// Plays the host: answers balance reads with `start_balance` first and
/// `final_balance` after, and each swap with the outcome of `venue`.
fn run(
    route: Vec<SwapStep>,
    min_profit_bps: u16,
    max_slippage_bps: u16,
    start_balance: u64,
    final_balance: u64,
    venue: impl Fn(&SwapStep, &SwapRequest) -> SwapResult,
) -> Run {
    let mut balance_reads = 0;
    let mut requests = Vec::new();
    let mut execution = match execute_arbitrage_route(route, min_profit_bps, max_slippage_bps) {
        Ok(execution) => execution,
        Err(error) => return Run { result: Err(error), balance_reads, requests },
    };
    let mut action = execution.pending();
    loop {
        action = match action {
            Action::ReadBalance => {
                let balance = if balance_reads == 0 { start_balance } else { final_balance };
                balance_reads += 1;
                execution.resume(Event::Balance(balance))
            }
            Action::Swap(request) => {
                requests.push(request);
                let outcome = venue(&execution.route()[request.step_index], &request);
                execution.resume(Event::Swapped(outcome))
            }
            Action::Commit(record) => return Run { result: Ok(record), balance_reads, requests },
            Action::Abort(error) => return Run { result: Err(error), balance_reads, requests },
        };
    }
}

#[test]
fn a_route_of_fewer_than_three_hops_is_refused_before_any_balance_is_read() {
    for steps in 0..3 {
        let seen = run(route_of(steps), 100, 50, 100_000, 101_500, |_, request| {
            succeeded(request.input_amount)
        });
        assert_eq!(seen, Run {
            result: Err(ArbitrageError::RouteTooShort),
            balance_reads: 0,
            requests: vec![],
        });
    }
}

#[test]
fn a_route_of_more_than_six_hops_is_refused_before_any_balance_is_read() {
    for steps in [7, 8, 20, 1000] {
        let seen = run(route_of(steps), 100, 50, 100_000, 101_500, |_, request| {
            succeeded(request.input_amount)
        });
        assert_eq!(seen, Run {
            result: Err(ArbitrageError::RouteTooLong),
            balance_reads: 0,
            requests: vec![],
        });
    }
}

#[test]
fn routes_of_three_to_six_hops_are_executed() {
    for steps in 3..=6 {
        let seen = run(route_of(steps), 100, 50, 100_000, 101_500, |_, request| {
            succeeded(request.input_amount)
        });
        assert_eq!(seen.result.map(|record| record.steps as usize), Ok(steps));
        assert_eq!(seen.balance_reads, 2);
        assert_eq!(seen.requests.len(), steps);
    }
}

#[test]
fn a_threshold_of_zero_is_refused_without_asking_any_venue() {
    for steps in 3..=6 {
        let seen = run(route_of(steps), 0, 50, 100_000, 101_500, |_, request| {
            succeeded(request.input_amount)
        });
        assert_eq!(seen, Run {
            result: Err(ArbitrageError::InvalidMinProfit),
            balance_reads: 0,
            requests: vec![],
        });
    }
}

#[test]
fn the_length_of_the_route_is_judged_before_the_threshold() {
    assert_eq!(
        execute_arbitrage_route(route_of(2), 0, 50).err(),
        Some(ArbitrageError::RouteTooShort)
    );
    assert_eq!(
        execute_arbitrage_route(route_of(7), 0, 50).err(),
        Some(ArbitrageError::RouteTooLong)
    );
    assert_eq!(
        execute_arbitrage_route(route_of(3), 0, 50).err(),
        Some(ArbitrageError::InvalidMinProfit)
    );
    assert!(execute_arbitrage_route(route_of(3), 1, 50).is_ok());
}

#[test]
fn an_opened_execution_asks_for_the_starting_balance() {
    let execution = execute_arbitrage_route(cycle(), 100, 50).unwrap();
    assert_eq!(execution.pending(), Action::ReadBalance);
    assert_eq!(execution.route().len(), 3);
    assert_eq!(execution.route()[1].expected_rate, 980);
}

#[test]
fn a_profitable_cycle_is_committed() {
    let seen = run(cycle(), 100, 50, 100_000, 101_500, |_, request| {
        succeeded(request.min_output)
    });
    assert_eq!(
        seen.result,
        Ok(ArbitrageExecuted {
            start_amount: 100_000,
            final_amount: 101_500,
            profit: 1500,
            profit_bps: 150,
            steps: 3,
        })
    );
    assert_eq!(seen.balance_reads, 2);
}

#[test]
fn the_same_cycle_misses_a_higher_threshold() {
    let seen = run(cycle(), 200, 50, 100_000, 101_500, |_, request| {
        succeeded(request.min_output)
    });
    assert_eq!(seen.result, Err(ArbitrageError::InsufficientProfit));
    assert_eq!(seen.balance_reads, 2);
    assert_eq!(seen.requests.len(), 3);
}

#[test]
fn a_shortfall_of_one_basis_point_fails_the_gate() {
    let at = run(cycle(), 150, 50, 100_000, 101_500, |_, request| succeeded(request.min_output));
    assert_eq!(at.result.map(|record| record.profit_bps), Ok(150));
    let below = run(cycle(), 151, 50, 100_000, 101_500, |_, request| {
        succeeded(request.min_output)
    });
    assert_eq!(below.result, Err(ArbitrageError::InsufficientProfit));
    let rounded = run(cycle(), 150, 50, 100_000, 101_499, |_, request| {
        succeeded(request.min_output)
    });
    assert_eq!(rounded.result, Err(ArbitrageError::InsufficientProfit));
}

#[test]
fn a_loss_is_reported_as_insufficient_profit() {
    let seen = run(cycle(), 1, 50, 100_000, 99_999, |_, request| succeeded(request.min_output));
    assert_eq!(seen.result, Err(ArbitrageError::InsufficientProfit));
}

#[test]
fn the_final_balance_decides_not_the_reported_outputs() {
    let generous = run(cycle(), 100, 50, 100_000, 100_000, |_, _| succeeded(u64::MAX / 2000));
    assert_eq!(generous.result, Err(ArbitrageError::InsufficientProfit));
    let modest = run(cycle(), 100, 50, 100_000, 200_000, |_, _| succeeded(0));
    assert_eq!(modest.result.map(|record| record.profit_bps), Ok(10_000));
}

#[test]
fn each_hop_is_asked_for_with_the_previous_output_and_its_minimum() {
    let route =
        vec![hop(DexType::Jupiter, 1050), hop(DexType::Raydium, 980), hop(DexType::Orca, 2000)];
    let outputs = [1_046_000u64, 1_030_000, 2_060_000];
    let seen = run(route, 100, 50, 1_000_000, 2_060_000, |_, request| {
        succeeded(outputs[request.step_index])
    });
    assert_eq!(seen.requests, vec![
        // 1_000_000 * 1050 * 9950 / 10_000_000
        SwapRequest { step_index: 0, input_amount: 1_000_000, min_output: 1_044_750 },
        // 1_046_000 * 980 * 9950 / 10_000_000 = 1_019_954.6
        SwapRequest { step_index: 1, input_amount: 1_046_000, min_output: 1_019_954 },
        // 1_030_000 * 2000 * 9950 / 10_000_000
        SwapRequest { step_index: 2, input_amount: 1_030_000, min_output: 2_049_700 },
    ]);
    assert_eq!(seen.result.map(|record| record.profit_bps), Ok(10_600));
}

#[test]
fn a_failed_hop_aborts_the_route_at_once() {
    for failing in 0..3 {
        let seen = run(cycle(), 100, 50, 100_000, 101_500, |_, request| {
            if request.step_index == failing {
                failed()
            } else {
                succeeded(request.min_output)
            }
        });
        assert_eq!(seen.result, Err(ArbitrageError::SwapFailed));
        assert_eq!(seen.balance_reads, 1);
        assert_eq!(seen.requests.len(), failing + 1);
    }
}

#[test]
fn an_aborted_execution_stays_aborted() {
    let mut execution = execute_arbitrage_route(cycle(), 100, 50).unwrap();
    execution.resume(Event::Balance(100_000));
    assert_eq!(execution.resume(Event::Swapped(succeeded(104_475))), Action::Swap(SwapRequest {
        step_index: 1,
        input_amount: 104_475,
        min_output: 101_873,
    }));
    let aborted = Action::Abort(ArbitrageError::SwapFailed);
    assert_eq!(execution.resume(Event::Swapped(failed())), aborted);
    assert_eq!(execution.pending(), aborted);
    assert_eq!(execution.resume(Event::Swapped(succeeded(1_000_000))), aborted);
    assert_eq!(execution.resume(Event::Balance(u64::MAX)), aborted);
    assert_eq!(execution.pending(), aborted);
}

#[test]
fn a_committed_execution_stays_committed() {
    let mut execution = execute_arbitrage_route(route_of(3), 100, 0).unwrap();
    execution.resume(Event::Balance(100_000));
    for _ in 0..3 {
        execution.resume(Event::Swapped(succeeded(100_000)));
    }
    let committed = Action::Commit(ArbitrageExecuted {
        start_amount: 100_000,
        final_amount: 101_500,
        profit: 1500,
        profit_bps: 150,
        steps: 3,
    });
    assert_eq!(execution.resume(Event::Balance(101_500)), committed);
    assert_eq!(execution.resume(Event::Balance(0)), committed);
    assert_eq!(execution.resume(Event::Swapped(failed())), committed);
    assert_eq!(execution.pending(), committed);
}

#[test]
fn an_event_that_is_not_awaited_changes_nothing() {
    let mut execution = execute_arbitrage_route(route_of(3), 100, 0).unwrap();
    assert_eq!(execution.resume(Event::Swapped(failed())), Action::ReadBalance);
    let first = Action::Swap(SwapRequest { step_index: 0, input_amount: 500, min_output: 500 });
    assert_eq!(execution.resume(Event::Balance(500)), first);
    assert_eq!(execution.resume(Event::Balance(900)), first);
    assert_eq!(execution.pending(), first);
    execution.resume(Event::Swapped(succeeded(500)));
    execution.resume(Event::Swapped(succeeded(500)));
    assert_eq!(execution.resume(Event::Swapped(succeeded(500))), Action::ReadBalance);
    assert_eq!(execution.resume(Event::Swapped(succeeded(500))), Action::ReadBalance);
    assert_eq!(
        execution.resume(Event::Balance(505)),
        Action::Commit(ArbitrageExecuted {
            start_amount: 500,
            final_amount: 505,
            profit: 5,
            profit_bps: 100,
            steps: 3,
        })
    );
}

#[test]
fn an_empty_starting_balance_is_refused_after_the_hops() {
    let seen = run(cycle(), 100, 50, 0, 101_500, |_, request| succeeded(request.min_output));
    assert_eq!(seen.result, Err(ArbitrageError::DivisionByZeroBalance));
    assert_eq!(seen.balance_reads, 2);
    assert_eq!(seen.requests, vec![
        SwapRequest { step_index: 0, input_amount: 0, min_output: 0 },
        SwapRequest { step_index: 1, input_amount: 0, min_output: 0 },
        SwapRequest { step_index: 2, input_amount: 0, min_output: 0 },
    ]);
    let stays_empty = run(cycle(), 100, 50, 0, 0, |_, request| succeeded(request.min_output));
    assert_eq!(stays_empty.result, Err(ArbitrageError::DivisionByZeroBalance));
}

#[test]
fn a_failed_hop_comes_before_the_empty_starting_balance() {
    let seen = run(cycle(), 100, 50, 0, 101_500, |_, _| failed());
    assert_eq!(seen.result, Err(ArbitrageError::SwapFailed));
}

#[test]
fn a_hop_whose_minimum_no_amount_reaches_fails_without_being_asked_for() {
    let route = vec![
        hop(DexType::Raydium, 1000),
        hop(DexType::Raydium, 1001),
        hop(DexType::Raydium, 1000),
    ];
    let seen = run(route, 100, 0, u64::MAX, u64::MAX, |_, request| succeeded(request.min_output));
    assert_eq!(seen.result, Err(ArbitrageError::SwapFailed));
    assert_eq!(seen.balance_reads, 1);
    assert_eq!(seen.requests, vec![SwapRequest {
        step_index: 0,
        input_amount: u64::MAX,
        min_output: u64::MAX,
    }]);
    let first = vec![hop(DexType::Orca, 1001), hop(DexType::Orca, 1), hop(DexType::Orca, 1)];
    let unasked = run(first, 100, 0, u64::MAX, u64::MAX, |_, _| succeeded(0));
    assert_eq!(unasked.result, Err(ArbitrageError::SwapFailed));
    assert_eq!(unasked.requests, vec![]);
}

#[test]
fn the_same_observations_give_the_same_outcome() {
    let venue = |step: &SwapStep, request: &SwapRequest| {
        if step.expected_rate == 980 && request.input_amount > 150_000 {
            failed()
        } else {
            succeeded(request.min_output + 7)
        }
    };
    for start_balance in [0, 1, 100_000, 200_000, u64::MAX / 4000] {
        let first = run(cycle(), 100, 50, start_balance, start_balance / 100 * 102, venue);
        let second = run(cycle(), 100, 50, start_balance, start_balance / 100 * 102, venue);
        assert_eq!(first, second);
    }
}

#[test]
fn settled_venues_carry_a_route_to_its_end() {
    let ctx = ExecuteArbitrageRoute {
        user: Pubkey { bytes: [7; 32] },
        user_token_account: Pubkey { bytes: [8; 32] },
    };
    let route =
        vec![hop(DexType::Raydium, 1010), hop(DexType::Orca, 1005), hop(DexType::Raydium, 1000)];
    let seen = run(route, 100, 50, 100_000, 101_505, |step, request| {
        match execute_single_swap(&ctx, step, request.input_amount, request.min_output) {
            SwapPlan::Settled(outcome) => outcome,
            SwapPlan::Invoke(_) => unreachable!(),
        }
    });
    assert_eq!(seen.requests, vec![
        SwapRequest { step_index: 0, input_amount: 100_000, min_output: 100_495 },
        SwapRequest { step_index: 1, input_amount: 101_000, min_output: 100_997 },
        SwapRequest { step_index: 2, input_amount: 101_505, min_output: 100_997 },
    ]);
    assert_eq!(
        seen.result,
        Ok(ArbitrageExecuted {
            start_amount: 100_000,
            final_amount: 101_505,
            profit: 1505,
            profit_bps: 150,
            steps: 3,
        })
    );
}

#[test]
fn an_output_exactly_at_the_minimum_carries_the_route_on() {
    let mut execution = execute_arbitrage_route(cycle(), 100, 50).unwrap();
    assert_eq!(
        execution.resume(Event::Balance(1_000_000)),
        Action::Swap(SwapRequest { step_index: 0, input_amount: 1_000_000, min_output: 1_044_750 })
    );
    let step = execution.route()[0].clone();
    let outcome = execute_jupiter_swap(&step, 1_000_000, 1_044_750, 1_044_750);
    assert!(outcome.success);
    assert_eq!(
        execution.resume(Event::Swapped(outcome)),
        // 1_044_750 * 980 * 9950 / 10_000_000 = 1_018_735.7
        Action::Swap(SwapRequest { step_index: 1, input_amount: 1_044_750, min_output: 1_018_735 })
    );
}

#[test]
fn a_stricter_host_refuses_slippage_above_the_tolerance() {
    let within = SwapResult { success: true, output_amount: 995, slippage_bps: 50 };
    assert_eq!(check_slippage(&within, 50), Ok(()));
    assert_eq!(check_slippage(&within, 49), Err(ArbitrageError::SlippageExceeded));
    assert_eq!(check_slippage(&within, 0), Err(ArbitrageError::SlippageExceeded));
    assert_eq!(check_slippage(&succeeded(1000), 0), Ok(()));
    let rounded_up = execute_jupiter_swap(&hop(DexType::Jupiter, 1000), 3, 1, 1);
    assert_eq!(rounded_up, SwapResult { success: true, output_amount: 1, slippage_bps: 6666 });
    assert_eq!(check_slippage(&rounded_up, 5_000), Err(ArbitrageError::SlippageExceeded));
}

#[test]
fn a_failed_hop_is_left_to_the_execution() {
    let failure = SwapResult { success: false, output_amount: 0, slippage_bps: 10_000 };
    assert_eq!(check_slippage(&failure, 0), Ok(()));
    assert_eq!(check_slippage(&failure, 9_999), Ok(()));
}

#[test]
fn every_error_has_its_own_message() {
    let errors = [
        (ArbitrageError::RouteTooShort, "Route must have at least 3 steps"),
        (ArbitrageError::RouteTooLong, "Route cannot exceed 6 steps"),
        (ArbitrageError::InvalidMinProfit, "Invalid minimum profit specified"),
        (ArbitrageError::SwapFailed, "Swap execution failed"),
        (ArbitrageError::InsufficientProfit, "Insufficient profit achieved"),
        (ArbitrageError::SlippageExceeded, "Slippage exceeded maximum"),
        (ArbitrageError::DivisionByZeroBalance, "Starting balance is zero"),
    ];
    for (error, message) in errors {
        assert_eq!(error.message(), message);
    }
    assert_ne!(ArbitrageError::SlippageExceeded, ArbitrageError::SwapFailed);
}

#[test]
fn an_emergency_cancel_succeeds_and_changes_nothing() {
    let ctx = EmergencyCancel { user: Pubkey { bytes: [7; 32] } };
    assert_eq!(emergency_cancel(&ctx), Ok(()));
    let execution = execute_arbitrage_route(cycle(), 100, 50).unwrap();
    assert_eq!(emergency_cancel(&ctx), Ok(()));
    assert_eq!(ctx, EmergencyCancel { user: Pubkey { bytes: [7; 32] } });
    assert_eq!(execution.pending(), Action::ReadBalance);
}
