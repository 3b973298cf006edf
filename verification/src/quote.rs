use vstd::prelude::*;

use crate::address::Address;

verus! {

// ---------------------------------------------------------------------------
// Swap mode
// ---------------------------------------------------------------------------

/// Whether the requested amount fixes the input or the output side of the
/// trade. Defaults to `ExactIn`.
#[derive(Clone, Copy, Debug, PartialEq, Eq, Structural)]
pub enum SwapMode {
    ExactIn,
    ExactOut,
}

/// The exact textual token of a swap mode, as sent on the wire.
pub open spec fn mode_text(m: SwapMode) -> Seq<char> {
    match m {
        SwapMode::ExactIn => "ExactIn"@,
        SwapMode::ExactOut => "ExactOut"@,
    }
}

/// Which swap mode, if any, a textual token denotes. Only the two exact
/// tokens parse; every other string fails.
pub open spec fn parse_mode_text(s: Seq<char>) -> Option<SwapMode> {
    if s == "ExactIn"@ {
        Some(SwapMode::ExactIn)
    } else if s == "ExactOut"@ {
        Some(SwapMode::ExactOut)
    } else {
        None
    }
}

impl Default for SwapMode {
    fn default() -> (r: Self)
        ensures
            r == SwapMode::ExactIn,
    {
        SwapMode::ExactIn
    }
}

impl SwapMode {
    /// The wire token of this mode: exactly "ExactIn" or "ExactOut".
    pub fn as_str(&self) -> (r: &'static str)
        ensures
            r@ == mode_text(*self),
    {
        match self {
            SwapMode::ExactIn => "ExactIn",
            SwapMode::ExactOut => "ExactOut",
        }
    }

    /// Parses the wire token of a mode; `None` on every other string.
    pub fn from_str(s: &str) -> (r: Option<SwapMode>)
        ensures
            r == parse_mode_text(s@),
    {
        let owned = s.to_owned();
        if owned.eq(&String::from_str("ExactIn")) {
            Some(SwapMode::ExactIn)
        } else if owned.eq(&String::from_str("ExactOut")) {
            Some(SwapMode::ExactOut)
        } else {
            None
        }
    }
}

/// Textual round-trip of swap modes is exact: each mode's token parses back
/// to that mode, and a token that parses came from exactly that mode's text.
pub proof fn lemma_mode_text_round_trip(m: SwapMode, s: Seq<char>)
    ensures
        parse_mode_text(mode_text(m)) == Some(m),
        parse_mode_text(s) matches Some(p) ==> mode_text(p) == s,
{
    reveal_strlit("ExactIn");
    reveal_strlit("ExactOut");
    assert("ExactIn"@.len() == 7);
    assert("ExactOut"@.len() == 8);
    assert("ExactIn"@ != "ExactOut"@);
    match m {
        SwapMode::ExactIn => {
            assert(mode_text(m) == "ExactIn"@);
            assert(parse_mode_text(mode_text(m)) == Some(m));
        },
        SwapMode::ExactOut => {
            assert(mode_text(m) == "ExactOut"@);
            assert(parse_mode_text(mode_text(m)) == Some(m));
        },
    }
}

// ---------------------------------------------------------------------------
// Elapsed time
// ---------------------------------------------------------------------------

/// Elapsed time split into whole seconds and leftover nanoseconds, converted
/// exactly from a nanosecond count: the fractional-second value it denotes is
/// `secs + nanos / 1e9`.
#[derive(Clone, Copy, Debug, PartialEq, Eq, Structural)]
pub struct TimeTaken {
    pub secs: u64,
    pub nanos: u32,
}

impl TimeTaken {
    /// Splits a nanosecond count into whole seconds and the remainder.
    pub fn from_nanos(ns: u64) -> (r: TimeTaken)
        ensures
            r.secs == ns / 1_000_000_000,
            r.nanos == ns % 1_000_000_000,
            r.nanos < 1_000_000_000,
    {
        TimeTaken { secs: ns / 1_000_000_000, nanos: (ns % 1_000_000_000) as u32 }
    }
}

// ---------------------------------------------------------------------------
// Requests and public outputs
// ---------------------------------------------------------------------------

/// A quote request. Immutable once constructed; consumed once per request.
#[derive(Clone, Debug)]
pub struct QuoteRequest {
    pub input_mint: Address,
    pub output_mint: Address,
    pub amount: u64,
    pub user_pubkey: Address,
    pub max_accounts: Option<usize>,
    pub swap_mode: Option<SwapMode>,
    pub slippage_bps: u16,
    pub only_direct_routes: Option<bool>,
    pub excluded_dexes: Option<String>,
    pub size_constraints: Option<u64>,
    pub accounts_limit_writable: Option<u64>,
    pub providers: Option<String>,
}

/// The platform fee attached to a route, if any.
#[derive(Clone, Copy, Debug, PartialEq, Eq, Structural)]
pub struct PlatformFee {
    pub amount: u64,
    pub fee_bps: u8,
}

/// One transcoded hop of the chosen route.
#[derive(Clone, Debug)]
pub struct SwapInfo {
    pub amm_key: Address,
    pub label: String,
    pub input_mint: Address,
    pub output_mint: Address,
    pub in_amount: u64,
    pub out_amount: u64,
    pub alloc_ppb: u64,
    pub fee_mint: Address,
    pub fee_amount: u64,
    pub context_slot: u64,
}

/// A route-plan entry: one hop plus its displayed percent allocation.
#[derive(Clone, Debug)]
pub struct RoutePlanStep {
    pub swap_info: SwapInfo,
    pub percent: u8,
}

/// The display-oriented quote: echoes the request, carries the transcoded
/// route plan, and retains the decoded route for a later swap build.
#[derive(Clone, Debug)]
pub struct QuoteResponse {
    pub input_mint: Address,
    pub in_amount: u64,
    pub output_mint: Address,
    pub out_amount: u64,
    pub swap_mode: SwapMode,
    pub slippage_bps: u16,
    pub platform_fee: Option<PlatformFee>,
    pub route_plan: Vec<RoutePlanStep>,
    pub raw_route: SwapRoute,
    pub context_slot: Option<u64>,
    pub time_taken: Option<TimeTaken>,
}

// ---------------------------------------------------------------------------
// Decoded wire records
// ---------------------------------------------------------------------------

/// The platform fee as decoded from the wire.
#[derive(Clone, Copy, Debug, PartialEq, Eq, Structural)]
pub struct PlatformFeeData {
    pub amount: u64,
    pub fee_bps: u8,
}

/// One account reference of a decoded instruction: address bytes plus the
/// signer and writable flags.
#[derive(Clone, Debug)]
pub struct AccountMetaData {
    pub p: [u8; 32],
    pub s: bool,
    pub w: bool,
}

/// One decoded low-level instruction: program address bytes, account
/// references, and opaque data bytes.
#[derive(Clone, Debug)]
pub struct InstructionData {
    pub p: [u8; 32],
    pub a: Vec<AccountMetaData>,
    pub d: Vec<u8>,
}

/// One decoded hop of a route.
#[derive(Clone, Debug)]
pub struct RoutePlanStepData {
    pub amm_key: [u8; 32],
    pub label: String,
    pub input_mint: [u8; 32],
    pub output_mint: [u8; 32],
    pub in_amount: u64,
    pub out_amount: u64,
    pub alloc_ppb: u32,
    pub fee_mint: Option<[u8; 32]>,
    pub fee_amount: Option<u64>,
    pub context_slot: Option<u64>,
}

/// One decoded route: amounts, fee, hops, low-level instructions,
/// lookup-table addresses, and optional metadata.
#[derive(Clone, Debug)]
pub struct SwapRoute {
    pub in_amount: u64,
    pub out_amount: u64,
    pub slippage_bps: u16,
    pub platform_fee: Option<PlatformFeeData>,
    pub steps: Vec<RoutePlanStepData>,
    pub instructions: Vec<InstructionData>,
    pub address_lookup_tables: Vec<[u8; 32]>,
    pub context_slot: Option<u64>,
    pub time_taken_ns: Option<u64>,
    pub expires_at_ms: Option<u64>,
    pub expires_after_slot: Option<u64>,
    pub compute_units: Option<u64>,
    pub compute_units_safe: Option<u64>,
    pub transaction: Option<Vec<u8>>,
    pub reference_id: Option<String>,
}

/// The decoded response: request echo plus the routes on offer, keyed by an
/// opaque id, in the order the wire carried them.
#[derive(Clone, Debug)]
pub struct SwapQuotes {
    pub id: String,
    pub input_mint: [u8; 32],
    pub output_mint: [u8; 32],
    pub swap_mode: SwapMode,
    pub amount: u64,
    pub quotes: Vec<(String, SwapRoute)>,
}

// ---------------------------------------------------------------------------
// Mathematical models of the decoded records
// ---------------------------------------------------------------------------

/// Model of an account reference.
pub ghost struct AccountMetaModel {
    pub p: Seq<u8>,
    pub s: bool,
    pub w: bool,
}

/// Model of a low-level instruction.
pub ghost struct InstructionModel {
    pub p: Seq<u8>,
    pub a: Seq<AccountMetaModel>,
    pub d: Seq<u8>,
}

/// Model of a route hop.
pub ghost struct StepModel {
    pub amm_key: Seq<u8>,
    pub label: Seq<char>,
    pub input_mint: Seq<u8>,
    pub output_mint: Seq<u8>,
    pub in_amount: u64,
    pub out_amount: u64,
    pub alloc_ppb: u32,
    pub fee_mint: Option<Seq<u8>>,
    pub fee_amount: Option<u64>,
    pub context_slot: Option<u64>,
}

/// Model of a decoded route.
pub ghost struct RouteModel {
    pub in_amount: u64,
    pub out_amount: u64,
    pub slippage_bps: u16,
    pub platform_fee: Option<PlatformFeeData>,
    pub steps: Seq<StepModel>,
    pub instructions: Seq<InstructionModel>,
    pub address_lookup_tables: Seq<Seq<u8>>,
    pub context_slot: Option<u64>,
    pub time_taken_ns: Option<u64>,
    pub expires_at_ms: Option<u64>,
    pub expires_after_slot: Option<u64>,
    pub compute_units: Option<u64>,
    pub compute_units_safe: Option<u64>,
    pub transaction: Option<Seq<u8>>,
    pub reference_id: Option<Seq<char>>,
}

/// Model of the decoded response.
pub ghost struct QuotesModel {
    pub id: Seq<char>,
    pub input_mint: Seq<u8>,
    pub output_mint: Seq<u8>,
    pub swap_mode: SwapMode,
    pub amount: u64,
    pub quotes: Seq<(Seq<char>, RouteModel)>,
}

/// The bytes of an optional 32-byte field.
pub open spec fn opt_bytes32_view(o: Option<[u8; 32]>) -> Option<Seq<u8>> {
    match o {
        Some(a) => Some(a@),
        None => None,
    }
}

/// The bytes of an optional byte vector.
pub open spec fn opt_vec_view(o: Option<Vec<u8>>) -> Option<Seq<u8>> {
    match o {
        Some(v) => Some(v@),
        None => None,
    }
}

/// The characters of an optional string.
pub open spec fn opt_string_view(o: Option<String>) -> Option<Seq<char>> {
    match o {
        Some(s) => Some(s@),
        None => None,
    }
}

impl View for AccountMetaData {
    type V = AccountMetaModel;

    open spec fn view(&self) -> AccountMetaModel {
        AccountMetaModel { p: self.p@, s: self.s, w: self.w }
    }
}

impl View for InstructionData {
    type V = InstructionModel;

    open spec fn view(&self) -> InstructionModel {
        InstructionModel {
            p: self.p@,
            a: self.a@.map_values(|m: AccountMetaData| m@),
            d: self.d@,
        }
    }
}

impl View for RoutePlanStepData {
    type V = StepModel;

    open spec fn view(&self) -> StepModel {
        StepModel {
            amm_key: self.amm_key@,
            label: self.label@,
            input_mint: self.input_mint@,
            output_mint: self.output_mint@,
            in_amount: self.in_amount,
            out_amount: self.out_amount,
            alloc_ppb: self.alloc_ppb,
            fee_mint: opt_bytes32_view(self.fee_mint),
            fee_amount: self.fee_amount,
            context_slot: self.context_slot,
        }
    }
}

impl View for SwapRoute {
    type V = RouteModel;

    open spec fn view(&self) -> RouteModel {
        RouteModel {
            in_amount: self.in_amount,
            out_amount: self.out_amount,
            slippage_bps: self.slippage_bps,
            platform_fee: self.platform_fee,
            steps: self.steps@.map_values(|s: RoutePlanStepData| s@),
            instructions: self.instructions@.map_values(|i: InstructionData| i@),
            address_lookup_tables: self.address_lookup_tables@.map_values(|a: [u8; 32]| a@),
            context_slot: self.context_slot,
            time_taken_ns: self.time_taken_ns,
            expires_at_ms: self.expires_at_ms,
            expires_after_slot: self.expires_after_slot,
            compute_units: self.compute_units,
            compute_units_safe: self.compute_units_safe,
            transaction: opt_vec_view(self.transaction),
            reference_id: opt_string_view(self.reference_id),
        }
    }
}

impl View for SwapQuotes {
    type V = QuotesModel;

    open spec fn view(&self) -> QuotesModel {
        QuotesModel {
            id: self.id@,
            input_mint: self.input_mint@,
            output_mint: self.output_mint@,
            swap_mode: self.swap_mode,
            amount: self.amount,
            quotes: self.quotes@.map_values(|p: (String, SwapRoute)| (p.0@, p.1@)),
        }
    }
}

} // verus!
