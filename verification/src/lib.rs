//! Client-side core of a swap-quote aggregation service: request-parameter
//! encoding, binary response decoding, and transcoding of a chosen route into
//! a display quote and an execution-ready swap payload.

use vstd::prelude::*;

pub mod address;
pub mod params;
pub mod quote;
pub mod swap;
pub mod wire;

use crate::address::{zero_address_bytes, Address};
use crate::quote::{
    PlatformFee, QuoteRequest, QuoteResponse, RouteModel, RoutePlanStep, RoutePlanStepData,
    StepModel, SwapInfo, SwapMode, SwapQuotes, TimeTaken,
};
use crate::swap::{account_meta_matches, instruction_matches, AccountMeta, Instruction, SwapResponse};
use vstd::slice::slice_to_vec;
use vstd::string::{StrSliceExecFns, StringExecFns};

verus! {

/// The error kinds the client surfaces. None is retried internally.
#[derive(Debug)]
pub enum ClientError {
    /// A non-2xx response that was not recognized as "no routes"; carries the
    /// status code and the raw body text for diagnostics.
    RequestFailed { status: u16, body: String },
    /// The underlying transport failed before a response arrived; carries the
    /// transport's own message.
    TransportFailure(String),
    /// The service reported no route, the decoded route mapping was empty, or
    /// a selected route carried no instructions at swap-build time.
    NoRoutesAvailable,
    /// The binary payload did not match the expected schema.
    DecodeFailure,
}

// ---------------------------------------------------------------------------
// Response classification
// ---------------------------------------------------------------------------

/// Whether the text contains the service's "no routes" marker. The substring
/// heuristic lives here and nowhere else.
pub open spec fn contains_no_routes_marker(s: Seq<char>) -> bool {
    exists|i: int|
        0 <= i && i + "No routes"@.len() <= s.len() && #[trigger] s.subrange(
            i,
            i + "No routes"@.len() as int,
        ) == "No routes"@
}

fn marker_matches_at(body: &str, i: usize) -> (r: bool)
    requires
        i + 9 <= body@.len(),
        body@.len() <= usize::MAX,
    ensures
        r == (body@.subrange(i as int, i as int + 9) == "No routes"@),
{
    proof {
        reveal_strlit("No routes");
    }
    let needle = "No routes";
    let mut j: usize = 0;
    while j < 9
        invariant
            i + 9 <= body@.len(),
            body@.len() <= usize::MAX,
            j <= 9,
            needle@ == "No routes"@,
            needle@.len() == 9,
            forall|t: int| 0 <= t < j ==> body@[i + t] == needle@[t],
        decreases 9 - j,
    {
        if body.get_char(i + j) != needle.get_char(j) {
            proof {
                assert(body@.subrange(i as int, i as int + 9)[j as int] != needle@[j as int]);
            }
            return false;
        }
        j += 1;
    }
    proof {
        assert(body@.subrange(i as int, i as int + 9) =~= needle@);
    }
    true
}

fn contains_no_routes(body: &str) -> (r: bool)
    ensures
        r == contains_no_routes_marker(body@),
{
    proof {
        reveal_strlit("No routes");
    }
    let n = body.unicode_len();
    if n < 9 {
        return false;
    }
    let mut i: usize = 0;
    while i <= n - 9
        invariant
            n == body@.len(),
            n >= 9,
            i <= n,
            forall|k: int| 0 <= k < i ==> #[trigger] body@.subrange(k, k + 9) != "No routes"@,
        decreases n - i,
    {
        if marker_matches_at(body, i) {
            proof {
                reveal_strlit("No routes");
                assert(0 <= i as int && i as int + "No routes"@.len() <= body@.len()
                    && body@.subrange(i as int, i as int + "No routes"@.len() as int)
                    == "No routes"@);
            }
            return true;
        }
        i += 1;
    }
    proof {
        reveal_strlit("No routes");
    }
    false
}

/// Classifies one transport response. 2xx proceeds; a 404 whose body carries
/// the "no routes" marker means no route exists; every other non-2xx is a
/// request failure carrying the status and the body verbatim.
pub fn classify_response(status: u16, body: String) -> (r: Result<(), ClientError>)
    ensures
        r is Ok <==> 200 <= status < 300,
        r matches Err(e) ==> if status == 404 && contains_no_routes_marker(body@) {
            e is NoRoutesAvailable
        } else {
            e matches ClientError::RequestFailed { status: s, body: b } && s == status && b@
                == body@
        },
{
    if 200 <= status && status < 300 {
        Ok(())
    } else if status == 404 && contains_no_routes(body.as_str()) {
        Err(ClientError::NoRoutesAvailable)
    } else {
        Err(ClientError::RequestFailed { status, body })
    }
}

// ---------------------------------------------------------------------------
// Step transcoding
// ---------------------------------------------------------------------------

/// The route-level context slot, or zero when the route carries none.
pub open spec fn default_slot(context_slot: Option<u64>) -> u64 {
    match context_slot {
        Some(c) => c,
        None => 0u64,
    }
}

/// How one transcoded route-plan entry relates to the decoded hop it came
/// from. The percent field is fixed at 100 whatever the hop's allocation
/// fraction: a preserved quirk of the wire contract, not derived data.
pub open spec fn step_matches(p: RoutePlanStep, d: StepModel, default_context_slot: u64) -> bool {
    &&& p.percent == 100
    &&& p.swap_info.amm_key@ == d.amm_key
    &&& p.swap_info.label@ == d.label
    &&& p.swap_info.input_mint@ == d.input_mint
    &&& p.swap_info.output_mint@ == d.output_mint
    &&& p.swap_info.in_amount == d.in_amount
    &&& p.swap_info.out_amount == d.out_amount
    &&& p.swap_info.alloc_ppb == d.alloc_ppb as u64
    &&& p.swap_info.fee_mint@ == match d.fee_mint {
        Some(m) => m,
        None => zero_address_bytes(),
    }
    &&& p.swap_info.fee_amount == match d.fee_amount {
        Some(a) => a,
        None => 0u64,
    }
    &&& p.swap_info.context_slot == match d.context_slot {
        Some(c) => c,
        None => default_context_slot,
    }
}

/// Transcodes one decoded hop, normalizing its optional fields: a missing
/// fee address becomes the zero address, a missing fee amount zero, and a
/// missing per-step context slot the supplied route-level default.
pub fn transform_step(step: &RoutePlanStepData, default_context_slot: u64) -> (r: RoutePlanStep)
    ensures
        step_matches(r, step@, default_context_slot),
{
    RoutePlanStep {
        swap_info: SwapInfo {
            amm_key: Address::from_bytes(step.amm_key),
            label: step.label.clone(),
            input_mint: Address::from_bytes(step.input_mint),
            output_mint: Address::from_bytes(step.output_mint),
            in_amount: step.in_amount,
            out_amount: step.out_amount,
            alloc_ppb: step.alloc_ppb as u64,
            fee_mint: match &step.fee_mint {
                Some(m) => Address::from_bytes(*m),
                None => Address::zero(),
            },
            fee_amount: match step.fee_amount {
                Some(a) => a,
                None => 0,
            },
            context_slot: match step.context_slot {
                Some(c) => c,
                None => default_context_slot,
            },
        },
        percent: 100,
    }
}

// ---------------------------------------------------------------------------
// Quote transcoding
// ---------------------------------------------------------------------------

/// How a transcoded quote relates to the request it answers and the decoded
/// route it surfaces: request fields echoed, route fields carried over, hops
/// transcoded in order, timing split exactly into seconds and nanoseconds,
/// and the decoded route retained unmodified for the later swap build.
pub open spec fn quote_response_matches(
    q: QuoteResponse,
    req: QuoteRequest,
    route: RouteModel,
) -> bool {
    &&& q.input_mint@ == req.input_mint@
    &&& q.in_amount == req.amount
    &&& q.output_mint@ == req.output_mint@
    &&& q.out_amount == route.out_amount
    &&& q.swap_mode == match req.swap_mode {
        Some(m) => m,
        None => SwapMode::ExactIn,
    }
    &&& q.slippage_bps == route.slippage_bps
    &&& match (q.platform_fee, route.platform_fee) {
        (Some(pf), Some(pd)) => pf.amount == pd.amount && pf.fee_bps == pd.fee_bps,
        (None, None) => true,
        _ => false,
    }
    &&& q.raw_route@ == route
    &&& q.context_slot == route.context_slot
    &&& match (q.time_taken, route.time_taken_ns) {
        (Some(t), Some(ns)) => t.secs == ns / 1_000_000_000 && t.nanos == ns % 1_000_000_000,
        (None, None) => true,
        _ => false,
    }
    &&& q.route_plan@.len() == route.steps.len()
    &&& forall|k: int|
        0 <= k < route.steps.len() ==> step_matches(
            #[trigger] q.route_plan@[k],
            route.steps[k],
            default_slot(route.context_slot),
        )
}

/// Transcodes a decoded response into the display quote, selecting the first
/// route of the mapping. Fails with `NoRoutesAvailable`, and performs no
/// further transformation, exactly when the mapping is empty.
pub fn quote_from(request: &QuoteRequest, quotes: SwapQuotes) -> (r: Result<
    QuoteResponse,
    ClientError,
>)
    ensures
        quotes@.quotes.len() == 0 ==> (r matches Err(e) && e is NoRoutesAvailable),
        quotes@.quotes.len() > 0 ==> (r matches Ok(q) && quote_response_matches(
            q,
            *request,
            quotes@.quotes[0].1,
        )),
{
    let mut quotes = quotes;
    if quotes.quotes.len() == 0 {
        return Err(ClientError::NoRoutesAvailable);
    }
    let pair = quotes.quotes.remove(0);
    let route = pair.1;
    let context_slot_default = match route.context_slot {
        Some(c) => c,
        None => 0,
    };
    let mut route_plan: Vec<RoutePlanStep> = Vec::new();
    let mut i: usize = 0;
    while i < route.steps.len()
        invariant
            i <= route.steps@.len(),
            route_plan@.len() == i,
            forall|k: int|
                0 <= k < i ==> step_matches(
                    #[trigger] route_plan@[k],
                    route.steps@.map_values(|s: RoutePlanStepData| s@)[k],
                    context_slot_default,
                ),
        decreases route.steps@.len() - i,
    {
        route_plan.push(transform_step(&route.steps[i], context_slot_default));
        i += 1;
    }
    let time_taken = match route.time_taken_ns {
        Some(ns) => Some(TimeTaken::from_nanos(ns)),
        None => None,
    };
    let platform_fee = match &route.platform_fee {
        Some(pf) => Some(PlatformFee { amount: pf.amount, fee_bps: pf.fee_bps }),
        None => None,
    };
    let response = QuoteResponse {
        input_mint: request.input_mint,
        in_amount: request.amount,
        output_mint: request.output_mint,
        out_amount: route.out_amount,
        swap_mode: match request.swap_mode {
            Some(m) => m,
            None => SwapMode::ExactIn,
        },
        slippage_bps: route.slippage_bps,
        platform_fee,
        route_plan,
        context_slot: route.context_slot,
        time_taken,
        raw_route: route,
    };
    Ok(response)
}

// ---------------------------------------------------------------------------
// Swap transcoding
// ---------------------------------------------------------------------------

/// How an execution payload relates to the decoded route it expands:
/// instructions and lookup-table addresses resolved in order with bytes
/// verbatim, the compute-unit limit taken from the route's estimate
/// (truncated to the execution surface's 32-bit width, zero when absent),
/// and the execution-relevant metadata passed through unchanged.
pub open spec fn swap_response_matches(s: SwapResponse, route: RouteModel) -> bool {
    &&& s.instructions@.len() == route.instructions.len()
    &&& forall|k: int|
        0 <= k < route.instructions.len() ==> instruction_matches(
            #[trigger] s.instructions@[k],
            route.instructions[k],
        )
    &&& s.address_lookup_table_addresses@.len() == route.address_lookup_tables.len()
    &&& forall|k: int|
        0 <= k < route.address_lookup_tables.len() ==> (
        #[trigger] s.address_lookup_table_addresses@[k])@ == route.address_lookup_tables[k]
    &&& s.compute_unit_limit == match route.compute_units {
        Some(c) => c as u32,
        None => 0u32,
    }
    &&& s.compute_units_safe == route.compute_units_safe
    &&& s.context_slot == route.context_slot
    &&& s.expires_at_ms == route.expires_at_ms
    &&& s.expires_after_slot == route.expires_after_slot
    &&& crate::quote::opt_vec_view(s.transaction) == route.transaction
}

fn resolve_instruction(inst: &crate::quote::InstructionData) -> (r: Instruction)
    ensures
        instruction_matches(r, inst@),
{
    let mut accounts: Vec<AccountMeta> = Vec::new();
    let mut j: usize = 0;
    while j < inst.a.len()
        invariant
            j <= inst.a@.len(),
            accounts@.len() == j,
            forall|k: int|
                0 <= k < j ==> account_meta_matches(
                    #[trigger] accounts@[k],
                    inst.a@.map_values(|m: crate::quote::AccountMetaData| m@)[k],
                ),
        decreases inst.a@.len() - j,
    {
        let meta = &inst.a[j];
        accounts.push(
            AccountMeta {
                pubkey: Address::from_bytes(meta.p),
                is_signer: meta.s,
                is_writable: meta.w,
            },
        );
        j += 1;
    }
    Instruction {
        program_id: Address::from_bytes(inst.p),
        accounts,
        data: slice_to_vec(inst.d.as_slice()),
    }
}

// ---------------------------------------------------------------------------
// Client facade
// ---------------------------------------------------------------------------

#[verifier::external_type_specification]
#[verifier::external_body]
pub struct ExReqwestClient(reqwest::Client);

/// Relies on reqwest::Client::new: constructs the HTTP client used for the
/// outbound calls. Nothing further is assumed of the returned value.
#[verifier::external_body]
fn new_http_client() -> reqwest::Client {
    reqwest::Client::new()
}

/// The service's default base URL.
pub fn default_api_url() -> (r: &'static str)
    ensures
        r@ == "https://api.titan.exchange"@,
{
    "https://api.titan.exchange"
}

/// The client facade: an HTTP client, the base URL, and the prepared
/// authorization header. The outbound call itself is driven by the caller's
/// transport glue; everything around it is transcoded here.
pub struct TitanClient {
    pub client: reqwest::Client,
    pub base_path: String,
    pub auth_header: String,
}

impl TitanClient {
    /// Builds a client for the given bearer token, against the supplied base
    /// URL or the service default.
    pub fn new(auth_token: String, base_path: Option<String>) -> (r: Self)
        ensures
            r.auth_header@ == "Bearer "@ + auth_token@,
            match base_path {
                Some(p) => r.base_path@ == p@,
                None => r.base_path@ == "https://api.titan.exchange"@,
            },
    {
        let resolved = match base_path {
            Some(p) => p,
            None => default_api_url().to_owned(),
        };
        let mut header = "Bearer ".to_owned();
        header.append(auth_token.as_str());
        TitanClient { client: new_http_client(), base_path: resolved, auth_header: header }
    }

    /// The full endpoint URL of the swap-quote call.
    pub fn quote_url(&self) -> (r: String)
        ensures
            r@ == self.base_path@ + "/api/v1/quote/swap"@,
    {
        let mut url = self.base_path.clone();
        url.append("/api/v1/quote/swap");
        url
    }

    /// Expands a previously produced quote into the execution payload. Fails
    /// with `NoRoutesAvailable`, producing no partial instruction list,
    /// exactly when the retained route carries zero instructions.
    pub fn swap(&self, quote: &QuoteResponse) -> (r: Result<SwapResponse, ClientError>)
        ensures
            r matches Err(e) ==> e is NoRoutesAvailable && quote.raw_route@.instructions.len()
                == 0,
            quote.raw_route@.instructions.len() == 0 ==> r is Err,
            r matches Ok(s) ==> swap_response_matches(s, quote.raw_route@),
    {
        let route = &quote.raw_route;
        if route.instructions.len() == 0 {
            return Err(ClientError::NoRoutesAvailable);
        }
        let mut instructions: Vec<Instruction> = Vec::new();
        let mut i: usize = 0;
        while i < route.instructions.len()
            invariant
                i <= route.instructions@.len(),
                instructions@.len() == i,
                forall|k: int|
                    0 <= k < i ==> instruction_matches(
                        #[trigger] instructions@[k],
                        route.instructions@.map_values(|d: crate::quote::InstructionData| d@)[k],
                    ),
            decreases route.instructions@.len() - i,
        {
            instructions.push(resolve_instruction(&route.instructions[i]));
            i += 1;
        }
        let mut tables: Vec<Address> = Vec::new();
        let mut t: usize = 0;
        while t < route.address_lookup_tables.len()
            invariant
                t <= route.address_lookup_tables@.len(),
                tables@.len() == t,
                forall|k: int|
                    0 <= k < t ==> (#[trigger] tables@[k])@
                        == route.address_lookup_tables@.map_values(|a: [u8; 32]| a@)[k],
            decreases route.address_lookup_tables@.len() - t,
        {
            tables.push(Address::from_bytes(route.address_lookup_tables[t]));
            t += 1;
        }
        let compute_unit_limit: u32 = match route.compute_units {
            Some(c) => #[verifier::truncate] (c as u32),
            None => 0,
        };
        let transaction = match &route.transaction {
            Some(bytes) => Some(slice_to_vec(bytes.as_slice())),
            None => None,
        };
        Ok(
            SwapResponse {
                instructions,
                address_lookup_table_addresses: tables,
                compute_unit_limit,
                compute_units_safe: route.compute_units_safe,
                context_slot: route.context_slot,
                expires_at_ms: route.expires_at_ms,
                expires_after_slot: route.expires_after_slot,
                transaction,
            },
        )
    }
}

} // verus!
