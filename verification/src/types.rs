//! The data model: asset identifiers, route steps, swap outcomes, the audit
//! record of a successful execution and the error kinds.

use vstd::prelude::*;
use vstd::std_specs::cmp::PartialEqSpecImpl;

verus! {

/// An opaque 32-byte identifier of an asset, an account or a venue program.
#[derive(Clone, Copy, Debug)]
pub struct Pubkey {
    /// The identifier, byte for byte.
    pub bytes: [u8; 32],
}

impl View for Pubkey {
    type V = Seq<u8>;

    open spec fn view(&self) -> Seq<u8> {
        self.bytes@
    }
}

impl PartialEq for Pubkey {
    fn eq(&self, other: &Pubkey) -> (same: bool) {
        let mut i: usize = 0;
        while i < 32
            invariant
                i <= 32,
                forall|k: int| 0 <= k < i ==> self.bytes[k] == other.bytes[k],
            decreases 32 - i,
        {
            if self.bytes[i] != other.bytes[i] {
                return false;
            }
            i += 1;
        }
        proof {
            assert(self.bytes@ =~= other.bytes@);
        }
        true
    }
}

impl PartialEqSpecImpl for Pubkey {
    open spec fn obeys_eq_spec() -> bool {
        true
    }

    open spec fn eq_spec(&self, other: &Pubkey) -> bool {
        self@ == other@
    }
}

impl Eq for Pubkey {}

/// The accounts that an execution acts on.
#[derive(Clone, Copy, Debug, PartialEq, Eq)]
pub struct ExecuteArbitrageRoute {
    /// The owner, who signs for every hop.
    pub user: Pubkey,
    /// The token account whose balance is read before and after the hops.
    pub user_token_account: Pubkey,
}

/// The accounts that an explicit cancellation acts on.
#[derive(Clone, Copy, Debug, PartialEq, Eq)]
pub struct EmergencyCancel {
    /// The owner, who signs the cancellation.
    pub user: Pubkey,
}

/// The venue through which one hop is executed.
#[derive(Clone, Copy, Debug, PartialEq, Eq, Structural)]
pub enum DexType {
    Jupiter,
    Raydium,
    Orca,
}

/// One hop of a route.
#[derive(Clone, Debug)]
pub struct SwapStep {
    /// The asset given.
    pub input_mint: Pubkey,
    /// The asset received.
    pub output_mint: Pubkey,
    /// The venue that performs the hop.
    pub dex: DexType,
    /// The venue's program.
    pub program_id: Pubkey,
    /// Output per unit of input, scaled by 1000.
    pub expected_rate: u64,
    /// Venue-specific routing instructions, passed through unread.
    pub route_data: Vec<u8>,
}

impl SwapStep {
    /// A hop trades one asset for a different one.
    pub open spec fn well_formed(&self) -> bool {
        self.input_mint@ != self.output_mint@
    }

    /// Tells whether the hop trades one asset for a different one.
    pub fn is_well_formed(&self) -> (ok: bool)
        ensures
            ok == self.well_formed(),
    {
        !(self.input_mint == self.output_mint)
    }
}

/// What a venue reports of one hop.
#[derive(Clone, Copy, Debug, PartialEq, Eq, Structural)]
pub struct SwapResult {
    /// Whether the whole input was converted at or above the minimum output.
    pub success: bool,
    /// The amount received.
    pub output_amount: u64,
    /// The shortfall against the expected output, in basis points.
    pub slippage_bps: u16,
}

/// The audit record of an execution that passed the profit gate.
#[derive(Clone, Copy, Debug, PartialEq, Eq, Structural)]
pub struct ArbitrageExecuted {
    /// The balance before the first hop.
    pub start_amount: u64,
    /// The balance after the last hop.
    pub final_amount: u64,
    /// The gain, zero where the balance fell.
    pub profit: u64,
    /// The gain in basis points of the starting balance.
    pub profit_bps: u128,
    /// The number of hops executed.
    pub steps: u8,
}

/// Why an execution was refused or aborted.
#[derive(Clone, Copy, Debug, PartialEq, Eq, Structural)]
pub enum ArbitrageError {
    RouteTooShort,
    RouteTooLong,
    InvalidMinProfit,
    SwapFailed,
    InsufficientProfit,
    SlippageExceeded,
    DivisionByZeroBalance,
}

impl ArbitrageError {
    /// The text that describes the error.
    pub open spec fn message_spec(self) -> Seq<char> {
        match self {
            ArbitrageError::RouteTooShort => "Route must have at least 3 steps"@,
            ArbitrageError::RouteTooLong => "Route cannot exceed 6 steps"@,
            ArbitrageError::InvalidMinProfit => "Invalid minimum profit specified"@,
            ArbitrageError::SwapFailed => "Swap execution failed"@,
            ArbitrageError::InsufficientProfit => "Insufficient profit achieved"@,
            ArbitrageError::SlippageExceeded => "Slippage exceeded maximum"@,
            ArbitrageError::DivisionByZeroBalance => "Starting balance is zero"@,
        }
    }

    /// Describes the error.
    pub fn message(&self) -> (text: &'static str)
        ensures
            text@ == self.message_spec(),
    {
        match self {
            ArbitrageError::RouteTooShort => "Route must have at least 3 steps",
            ArbitrageError::RouteTooLong => "Route cannot exceed 6 steps",
            ArbitrageError::InvalidMinProfit => "Invalid minimum profit specified",
            ArbitrageError::SwapFailed => "Swap execution failed",
            ArbitrageError::InsufficientProfit => "Insufficient profit achieved",
            ArbitrageError::SlippageExceeded => "Slippage exceeded maximum",
            ArbitrageError::DivisionByZeroBalance => "Starting balance is zero",
        }
    }
}

} // verus!
