//! The venue adapters: how one hop is carried out at each venue and how its
//! outcome is judged.
//!
//! A Jupiter hop needs an instruction invoked by the host; the hop is judged
//! on the balance read afterwards. Raydium and Orca hops are settled at the
//! expected rate without outside work.

use vstd::prelude::*;
use vstd::bytes::{spec_u64_to_le_bytes, u64_to_le_bytes};
use crate::pricing::{
    expected_output, expected_output_exact, min_output_exact, min_output_spec, realized_slippage,
    slippage_bps_spec,
};
use crate::types::{DexType, ExecuteArbitrageRoute, Pubkey, SwapResult, SwapStep};

verus! {

/// How an instruction uses one account.
#[derive(Clone, Copy, Debug, PartialEq, Eq)]
pub struct AccountMeta {
    /// The account.
    pub pubkey: Pubkey,
    /// Whether the account must sign.
    pub is_signer: bool,
    /// Whether the instruction may change the account.
    pub is_writable: bool,
}

impl AccountMeta {
    /// A writable account.
    pub fn new(pubkey: Pubkey, is_signer: bool) -> (meta: AccountMeta)
        ensures
            meta == (AccountMeta { pubkey, is_signer, is_writable: true }),
    {
        AccountMeta { pubkey, is_signer, is_writable: true }
    }

    /// A read-only account.
    pub fn new_readonly(pubkey: Pubkey, is_signer: bool) -> (meta: AccountMeta)
        ensures
            meta == (AccountMeta { pubkey, is_signer, is_writable: false }),
    {
        AccountMeta { pubkey, is_signer, is_writable: false }
    }
}

/// A call into a venue's program.
#[derive(Debug, PartialEq, Eq)]
pub struct Instruction {
    /// The program called.
    pub program_id: Pubkey,
    /// The accounts handed to it, in order.
    pub accounts: Vec<AccountMeta>,
    /// The payload, read by the program alone.
    pub data: Vec<u8>,
}

/// What carrying out one hop takes.
#[derive(Debug, PartialEq, Eq)]
pub enum SwapPlan {
    /// The host invokes the instruction, reads the balance and has
    /// [`execute_jupiter_swap`] judge the hop.
    Invoke(Instruction),
    /// The hop is settled; nothing is left to the host.
    Settled(SwapResult),
}

/// The payload of a Jupiter swap: the input amount and the minimum output,
/// each as eight little-endian bytes, then the routing instructions.
pub open spec fn jupiter_swap_data_spec(
    input_amount: u64,
    min_output: u64,
    route_data: Seq<u8>,
) -> Seq<u8> {
    spec_u64_to_le_bytes(input_amount) + spec_u64_to_le_bytes(min_output) + route_data
}

/// The accounts of a Jupiter swap: the tracked token account and the two
/// assets, writable and unsigned, then the owner, read-only and signing.
pub open spec fn jupiter_accounts_spec(ctx: ExecuteArbitrageRoute, step: SwapStep) -> Seq<
    AccountMeta,
> {
    seq![
        AccountMeta { pubkey: ctx.user_token_account, is_signer: false, is_writable: true },
        AccountMeta { pubkey: step.input_mint, is_signer: false, is_writable: true },
        AccountMeta { pubkey: step.output_mint, is_signer: false, is_writable: true },
        AccountMeta { pubkey: ctx.user, is_signer: true, is_writable: false },
    ]
}

/// Whether `instruction` is the Jupiter swap of `input_amount` along `step`
/// for the accounts `ctx`, with `min_output` as the floor.
pub open spec fn is_jupiter_swap(
    instruction: Instruction,
    ctx: ExecuteArbitrageRoute,
    step: SwapStep,
    input_amount: u64,
    min_output: u64,
) -> bool {
    &&& instruction.program_id == step.program_id
    &&& instruction.accounts@ == jupiter_accounts_spec(ctx, step)
    &&& instruction.data@ == jupiter_swap_data_spec(input_amount, min_output, step.route_data@)
}

/// The outcome of a Jupiter hop, judged on the balance read after it.
pub open spec fn jupiter_result_spec(
    step: SwapStep,
    input_amount: u64,
    min_output: u64,
    new_balance: u64,
) -> SwapResult {
    SwapResult {
        success: new_balance >= min_output,
        output_amount: new_balance,
        slippage_bps: slippage_bps_spec(
            expected_output_exact(input_amount, step.expected_rate),
            new_balance as int,
        ) as u16,
    }
}

/// The outcome of a hop settled at the expected rate: it fails, moving
/// nothing, where the expected output exceeds every amount or falls short
/// of `min_output`.
pub open spec fn settled_result_spec(
    step: SwapStep,
    input_amount: u64,
    min_output: u64,
) -> SwapResult {
    let quote = expected_output_exact(input_amount, step.expected_rate);
    if min_output <= quote <= u64::MAX {
        SwapResult { success: true, output_amount: quote as u64, slippage_bps: 0 }
    } else {
        SwapResult { success: false, output_amount: 0, slippage_bps: 0 }
    }
}

/// A hop settled at the expected rate reaches the minimum output that any
/// tolerance prescribes: asked for by an execution, it fails only where the
/// expected output exceeds every amount.
pub proof fn lemma_settled_hop_meets_floor(
    step: SwapStep,
    input_amount: u64,
    max_slippage_bps: u16,
)
    ensures
        min_output_exact(input_amount, step.expected_rate, max_slippage_bps)
            <= expected_output_exact(input_amount, step.expected_rate),
        min_output_spec(input_amount, step.expected_rate, max_slippage_bps) matches Some(
            min_output,
        ) ==> settled_result_spec(step, input_amount, min_output).success == (
        expected_output_exact(input_amount, step.expected_rate) <= u64::MAX),
{
    let product = input_amount * step.expected_rate;
    let share = 10000 - max_slippage_bps;
    assert(0 <= product && product * share <= product * 10000) by (nonlinear_arith)
        requires
            product == input_amount * step.expected_rate,
            share <= 10000,
    ;
    assert(product * 10000 / 10000000 == product / 1000);
}

/// Encodes the payload of a Jupiter swap.
pub fn create_jupiter_swap_data(input_amount: u64, min_output: u64, route_data: Vec<u8>) -> (data:
    Vec<u8>)
    ensures
        data@ == jupiter_swap_data_spec(input_amount, min_output, route_data@),
        data@.len() == 16 + route_data@.len(),
{
    let mut data: Vec<u8> = Vec::new();
    let input_bytes = u64_to_le_bytes(input_amount);
    let floor_bytes = u64_to_le_bytes(min_output);
    data.extend_from_slice(input_bytes.as_slice());
    data.extend_from_slice(floor_bytes.as_slice());
    data.extend_from_slice(route_data.as_slice());
    proof {
        assert(data@ =~= jupiter_swap_data_spec(input_amount, min_output, route_data@));
    }
    data
}

/// Builds the instruction that swaps `input_amount` along `step` at Jupiter.
pub fn jupiter_swap_instruction(
    ctx: &ExecuteArbitrageRoute,
    step: &SwapStep,
    input_amount: u64,
    min_output: u64,
) -> (instruction: Instruction)
    ensures
        is_jupiter_swap(instruction, *ctx, *step, input_amount, min_output),
{
    let mut accounts: Vec<AccountMeta> = Vec::new();
    accounts.push(AccountMeta::new(ctx.user_token_account, false));
    accounts.push(AccountMeta::new(step.input_mint, false));
    accounts.push(AccountMeta::new(step.output_mint, false));
    accounts.push(AccountMeta::new_readonly(ctx.user, true));
    let route_data = step.route_data.clone();
    proof {
        assert(accounts@ =~= jupiter_accounts_spec(*ctx, *step));
        assert(route_data@ =~= step.route_data@);
    }
    Instruction {
        program_id: step.program_id,
        accounts,
        data: create_jupiter_swap_data(input_amount, min_output, route_data),
    }
}

/// Judges a Jupiter hop of `input_amount` along `step` on `new_balance`, the
/// balance read after the instruction was invoked.
pub fn execute_jupiter_swap(
    step: &SwapStep,
    input_amount: u64,
    min_output: u64,
    new_balance: u64,
) -> (result: SwapResult)
    ensures
        result == jupiter_result_spec(*step, input_amount, min_output, new_balance),
        result.success <==> result.output_amount >= min_output,
{
    let output_amount: u64 = new_balance;
    SwapResult {
        success: output_amount >= min_output,
        output_amount,
        slippage_bps: realized_slippage(input_amount, step.expected_rate, output_amount),
    }
}

fn settle_at_expected_rate(step: &SwapStep, input_amount: u64, min_output: u64) -> (result:
    SwapResult)
    ensures
        result == settled_result_spec(*step, input_amount, min_output),
{
    match expected_output(input_amount, step.expected_rate) {
        Some(quote) => {
            if quote >= min_output {
                SwapResult { success: true, output_amount: quote, slippage_bps: 0 }
            } else {
                SwapResult { success: false, output_amount: 0, slippage_bps: 0 }
            }
        },
        None => SwapResult { success: false, output_amount: 0, slippage_bps: 0 },
    }
}

/// Settles a Raydium hop of `input_amount` along `step` at the expected
/// rate.
pub fn execute_raydium_swap(step: &SwapStep, input_amount: u64, min_output: u64) -> (result:
    SwapResult)
    ensures
        result == settled_result_spec(*step, input_amount, min_output),
        result.success ==> result.output_amount >= min_output,
{
    settle_at_expected_rate(step, input_amount, min_output)
}

/// Settles an Orca hop of `input_amount` along `step` at the expected rate.
pub fn execute_orca_swap(step: &SwapStep, input_amount: u64, min_output: u64) -> (result:
    SwapResult)
    ensures
        result == settled_result_spec(*step, input_amount, min_output),
        result.success ==> result.output_amount >= min_output,
{
    settle_at_expected_rate(step, input_amount, min_output)
}

/// Carries out one hop as far as the venue allows without outside work.
pub fn execute_single_swap(
    ctx: &ExecuteArbitrageRoute,
    step: &SwapStep,
    input_amount: u64,
    min_output: u64,
) -> (plan: SwapPlan)
    ensures
        match step.dex {
            DexType::Jupiter => plan matches SwapPlan::Invoke(instruction) && is_jupiter_swap(
                instruction,
                *ctx,
                *step,
                input_amount,
                min_output,
            ),
            DexType::Raydium | DexType::Orca => plan == SwapPlan::Settled(
                settled_result_spec(*step, input_amount, min_output),
            ),
        },
{
    match step.dex {
        DexType::Jupiter => SwapPlan::Invoke(
            jupiter_swap_instruction(ctx, step, input_amount, min_output),
        ),
        DexType::Raydium => SwapPlan::Settled(execute_raydium_swap(step, input_amount, min_output)),
        DexType::Orca => SwapPlan::Settled(execute_orca_swap(step, input_amount, min_output)),
    }
}

} // verus!
