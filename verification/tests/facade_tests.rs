use std::collections::BTreeMap;

use titan_swap_api_client::address::Address;
use titan_swap_api_client::quote::{
    AccountMetaData, InstructionData, PlatformFeeData, RoutePlanStepData, SwapMode, SwapQuotes,
    SwapRoute,
};
use titan_swap_api_client::{classify_response, quote_from, ClientError, TitanClient};

fn mint(tag: u8) -> [u8; 32] {
    let mut b = [0u8; 32];
    b[0] = tag;
    b[31] = tag;
    b
}

fn step(tag: u8, fee: bool, context_slot: Option<u64>) -> RoutePlanStepData {
    RoutePlanStepData {
        amm_key: mint(tag),
        label: format!("venue{}", tag),
        input_mint: mint(1),
        output_mint: mint(2),
        in_amount: 10,
        out_amount: 20,
        alloc_ppb: 1_000_000_000,
        fee_mint: if fee { Some(mint(30)) } else { None },
        fee_amount: if fee { Some(77) } else { None },
        context_slot,
    }
}

fn route(steps: Vec<RoutePlanStepData>, instructions: Vec<InstructionData>) -> SwapRoute {
    SwapRoute {
        in_amount: 100_000_000,
        out_amount: 99_000_000,
        slippage_bps: 50,
        platform_fee: Some(PlatformFeeData { amount: 12, fee_bps: 3 }),
        steps,
        instructions,
        address_lookup_tables: vec![mint(40)],
        context_slot: Some(555),
        time_taken_ns: Some(2_500_000_000),
        expires_at_ms: Some(1),
        expires_after_slot: Some(2),
        compute_units: Some(1_400_000),
        compute_units_safe: Some(1_500_000),
        transaction: None,
        reference_id: None,
    }
}

fn instruction() -> InstructionData {
    InstructionData {
        p: mint(9),
        a: vec![
            AccountMetaData { p: mint(10), s: true, w: false },
            AccountMetaData { p: mint(11), s: false, w: true },
        ],
        d: vec![5, 6, 7, 8],
    }
}

fn request() -> titan_swap_api_client::quote::QuoteRequest {
    titan_swap_api_client::quote::QuoteRequest {
        input_mint: Address::from_bytes(mint(1)),
        output_mint: Address::from_bytes(mint(2)),
        amount: 100_000_000,
        user_pubkey: Address::from_bytes(mint(3)),
        max_accounts: Some(50),
        swap_mode: Some(SwapMode::ExactIn),
        slippage_bps: 50,
        only_direct_routes: None,
        excluded_dexes: None,
        size_constraints: None,
        accounts_limit_writable: None,
        providers: None,
    }
}

fn quotes_with(routes: Vec<(String, SwapRoute)>) -> SwapQuotes {
    SwapQuotes {
        id: "id-1".to_string(),
        input_mint: mint(1),
        output_mint: mint(2),
        swap_mode: SwapMode::ExactIn,
        amount: 100_000_000,
        quotes: routes,
    }
}

#[test]
fn classify_accepts_2xx() {
    assert!(classify_response(200, String::new()).is_ok());
    assert!(classify_response(204, "ignored".to_string()).is_ok());
    assert!(classify_response(299, String::new()).is_ok());
}

#[test]
fn classify_404_with_marker_is_no_routes() {
    let r = classify_response(404, "Sorry: No routes for this pair".to_string());
    assert!(matches!(r, Err(ClientError::NoRoutesAvailable)));
}

#[test]
fn classify_404_without_marker_is_request_failed() {
    let r = classify_response(404, "not found".to_string());
    match r {
        Err(ClientError::RequestFailed { status, body }) => {
            assert_eq!(status, 404);
            assert_eq!(body, "not found");
        },
        _ => panic!("expected RequestFailed"),
    }
}

#[test]
fn classify_500_keeps_status_and_body_verbatim() {
    let r = classify_response(500, "internal blow-up: No route".to_string());
    match r {
        Err(ClientError::RequestFailed { status, body }) => {
            assert_eq!(status, 500);
            assert_eq!(body, "internal blow-up: No route");
        },
        _ => panic!("expected RequestFailed"),
    }
}

#[test]
fn quote_fails_on_empty_route_map() {
    let r = quote_from(&request(), quotes_with(vec![]));
    assert!(matches!(r, Err(ClientError::NoRoutesAvailable)));
}

#[test]
fn quote_transcodes_first_route() {
    let steps = vec![step(7, true, Some(999)), step(8, false, None)];
    let q = quote_from(
        &request(),
        quotes_with(vec![("routeA".to_string(), route(steps, vec![instruction()]))]),
    )
    .expect("quote");
    assert_eq!(q.in_amount, 100_000_000);
    assert_eq!(q.out_amount, 99_000_000);
    assert_eq!(q.swap_mode, SwapMode::ExactIn);
    assert_eq!(q.slippage_bps, 50);
    let fee = q.platform_fee.expect("fee");
    assert_eq!(fee.amount, 12);
    assert_eq!(fee.fee_bps, 3);
    assert_eq!(q.context_slot, Some(555));
    assert_eq!(q.route_plan.len(), 2);
    assert_eq!(q.route_plan[0].percent, 100);
    assert_eq!(q.route_plan[1].percent, 100);
    assert_eq!(q.route_plan[0].swap_info.context_slot, 999);
    assert_eq!(q.route_plan[1].swap_info.context_slot, 555);
    assert_eq!(q.route_plan[0].swap_info.fee_mint.bytes, mint(30));
    assert_eq!(q.route_plan[0].swap_info.fee_amount, 77);
}

#[test]
fn quote_defaults_missing_fee_to_zero_address() {
    let steps = vec![step(7, false, None)];
    let q = quote_from(
        &request(),
        quotes_with(vec![("routeA".to_string(), route(steps, vec![instruction()]))]),
    )
    .expect("quote");
    assert_eq!(q.route_plan[0].swap_info.fee_mint, Address::zero());
    assert_eq!(q.route_plan[0].swap_info.fee_amount, 0);
}

#[test]
fn quote_converts_nanoseconds_to_fractional_seconds() {
    let steps = vec![step(7, false, None)];
    let q = quote_from(
        &request(),
        quotes_with(vec![("routeA".to_string(), route(steps, vec![instruction()]))]),
    )
    .expect("quote");
    let t = q.time_taken.expect("time");
    assert_eq!(t.secs, 2);
    assert_eq!(t.nanos, 500_000_000);
    let seconds = t.secs as f64 + t.nanos as f64 / 1e9;
    assert_eq!(seconds, 2.5);
}

#[test]
fn swap_fails_on_route_without_instructions() {
    let client = TitanClient::new("tok".to_string(), None);
    let q = quote_from(
        &request(),
        quotes_with(vec![("routeA".to_string(), route(vec![step(7, false, None)], vec![]))]),
    )
    .expect("quote");
    let r = client.swap(&q);
    assert!(matches!(r, Err(ClientError::NoRoutesAvailable)));
}

#[test]
fn swap_expands_instructions_verbatim() {
    let client = TitanClient::new("tok".to_string(), None);
    let q = quote_from(
        &request(),
        quotes_with(vec![(
            "routeA".to_string(),
            route(vec![step(7, false, None)], vec![instruction()]),
        )]),
    )
    .expect("quote");
    let s = client.swap(&q).expect("swap");
    assert_eq!(s.instructions.len(), 1);
    assert_eq!(s.instructions[0].program_id.bytes, mint(9));
    assert_eq!(s.instructions[0].accounts.len(), 2);
    assert_eq!(s.instructions[0].accounts[0].pubkey.bytes, mint(10));
    assert!(s.instructions[0].accounts[0].is_signer);
    assert!(!s.instructions[0].accounts[0].is_writable);
    assert!(s.instructions[0].accounts[1].is_writable);
    assert_eq!(s.instructions[0].data, vec![5, 6, 7, 8]);
    assert_eq!(s.address_lookup_table_addresses.len(), 1);
    assert_eq!(s.address_lookup_table_addresses[0].bytes, mint(40));
    assert_eq!(s.compute_unit_limit, 1_400_000);
    assert_eq!(s.compute_units_safe, Some(1_500_000));
    assert_eq!(s.context_slot, Some(555));
    assert_eq!(s.expires_at_ms, Some(1));
    assert_eq!(s.expires_after_slot, Some(2));
    assert_eq!(s.transaction, None);
}

#[test]
fn swap_compute_unit_limit_defaults_to_zero() {
    let client = TitanClient::new("tok".to_string(), None);
    let mut rt = route(vec![step(7, false, None)], vec![instruction()]);
    rt.compute_units = None;
    let q = quote_from(&request(), quotes_with(vec![("routeA".to_string(), rt)]))
        .expect("quote");
    let s = client.swap(&q).expect("swap");
    assert_eq!(s.compute_unit_limit, 0);
}

#[test]
fn client_new_prepares_header_and_base_path() {
    let c = TitanClient::new("secret-token".to_string(), None);
    assert_eq!(c.auth_header, "Bearer secret-token");
    assert_eq!(c.base_path, "https://api.titan.exchange");
    assert_eq!(c.quote_url(), "https://api.titan.exchange/api/v1/quote/swap");

    let c = TitanClient::new("t".to_string(), Some("http://localhost:8080".to_string()));
    assert_eq!(c.base_path, "http://localhost:8080");
    assert_eq!(c.quote_url(), "http://localhost:8080/api/v1/quote/swap");
}

#[test]
fn end_to_end_quote_then_swap() {
    // One route with two hops, one instruction referencing one lookup table,
    // encoded in the binary wire form.
    let step_t = |tag: u8| {
        (
            mint(tag),
            format!("venue{}", tag),
            mint(1),
            mint(2),
            1000u64,
            2000u64,
            500_000_000u32,
            None::<[u8; 32]>,
            None::<u64>,
            None::<u64>,
        )
    };
    let route_t = (
        100_000_000u64,
        99_000_000u64,
        50u16,
        None::<(u64, u8)>,
        vec![step_t(7), step_t(8)],
        vec![(mint(9), vec![(mint(10), true, false)], vec![1u8, 2, 3])],
        vec![mint(12)],
        Some(333u64),
        Some(2_500_000_000u64),
        None::<u64>,
        None::<u64>,
        Some(1_400_000u64),
        None::<u64>,
        None::<Vec<u8>>,
        None::<String>,
    );
    let mut routes = BTreeMap::new();
    routes.insert("routeA".to_string(), route_t);
    let resp =
        ("qid".to_string(), mint(1), mint(2), "ExactIn".to_string(), 100_000_000u64, routes);
    let buf = rmp_serde::to_vec(&resp).expect("encode");

    let decoded = titan_swap_api_client::wire::decode_swap_quotes(&buf).expect("decode");
    let req = request();
    let q = quote_from(&req, decoded).expect("quote");
    assert_eq!(q.route_plan.len(), 2);
    let client = TitanClient::new("tok".to_string(), None);
    let s = client.swap(&q).expect("swap");
    assert_eq!(s.instructions.len(), 1);
    assert_eq!(s.address_lookup_table_addresses.len(), 1);
}
