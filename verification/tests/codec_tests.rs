use std::collections::BTreeMap;

use titan_swap_api_client::address::Address;
use titan_swap_api_client::params::{build_query_params, u64_to_decimal};
use titan_swap_api_client::quote::{QuoteRequest, SwapMode};
use titan_swap_api_client::wire::decode_swap_quotes;

type StepTuple = (
    [u8; 32],
    String,
    [u8; 32],
    [u8; 32],
    u64,
    u64,
    u32,
    Option<[u8; 32]>,
    Option<u64>,
    Option<u64>,
);

type InstTuple = ([u8; 32], Vec<([u8; 32], bool, bool)>, Vec<u8>);

type RouteTuple = (
    u64,
    u64,
    u16,
    Option<(u64, u8)>,
    Vec<StepTuple>,
    Vec<InstTuple>,
    Vec<[u8; 32]>,
    Option<u64>,
    Option<u64>,
    Option<u64>,
    Option<u64>,
    Option<u64>,
    Option<u64>,
    Option<Vec<u8>>,
    Option<String>,
);

type ResponseTuple = (String, [u8; 32], [u8; 32], String, u64, BTreeMap<String, RouteTuple>);

fn mint(tag: u8) -> [u8; 32] {
    let mut b = [0u8; 32];
    b[0] = tag;
    b[31] = tag;
    b
}

fn simple_step(tag: u8) -> StepTuple {
    (
        mint(tag),
        format!("venue{}", tag),
        mint(1),
        mint(2),
        1000 + tag as u64,
        2000 + tag as u64,
        500_000_000,
        None,
        None,
        None,
    )
}

fn simple_route() -> RouteTuple {
    (
        100_000_000,
        99_000_000,
        50,
        Some((1234, 5)),
        vec![simple_step(7), simple_step(8)],
        vec![(mint(9), vec![(mint(10), true, false), (mint(11), false, true)], vec![1, 2, 3])],
        vec![mint(12)],
        Some(333),
        Some(2_500_000_000),
        None,
        None,
        Some(1_400_000),
        None,
        None,
        None,
    )
}

fn response_with_routes(routes: BTreeMap<String, RouteTuple>) -> Vec<u8> {
    let resp: ResponseTuple =
        ("quote-id-1".to_string(), mint(1), mint(2), "ExactIn".to_string(), 100_000_000, routes);
    rmp_serde::to_vec(&resp).expect("encode")
}

#[test]
fn decode_full_response() {
    let mut routes = BTreeMap::new();
    routes.insert("routeA".to_string(), simple_route());
    let buf = response_with_routes(routes);
    let decoded = decode_swap_quotes(&buf).expect("decode");
    assert_eq!(decoded.id, "quote-id-1");
    assert_eq!(decoded.input_mint, mint(1));
    assert_eq!(decoded.output_mint, mint(2));
    assert_eq!(decoded.swap_mode, SwapMode::ExactIn);
    assert_eq!(decoded.amount, 100_000_000);
    assert_eq!(decoded.quotes.len(), 1);
    let (key, route) = &decoded.quotes[0];
    assert_eq!(key, "routeA");
    assert_eq!(route.in_amount, 100_000_000);
    assert_eq!(route.out_amount, 99_000_000);
    assert_eq!(route.slippage_bps, 50);
    let fee = route.platform_fee.as_ref().expect("fee");
    assert_eq!(fee.amount, 1234);
    assert_eq!(fee.fee_bps, 5);
    assert_eq!(route.steps.len(), 2);
    assert_eq!(route.steps[0].label, "venue7");
    assert_eq!(route.steps[0].alloc_ppb, 500_000_000);
    assert_eq!(route.steps[0].fee_mint, None);
    assert_eq!(route.instructions.len(), 1);
    assert_eq!(route.instructions[0].p, mint(9));
    assert_eq!(route.instructions[0].a.len(), 2);
    assert!(route.instructions[0].a[0].s);
    assert!(!route.instructions[0].a[0].w);
    assert_eq!(route.instructions[0].d, vec![1, 2, 3]);
    assert_eq!(route.address_lookup_tables, vec![mint(12)]);
    assert_eq!(route.context_slot, Some(333));
    assert_eq!(route.time_taken_ns, Some(2_500_000_000));
    assert_eq!(route.compute_units, Some(1_400_000));
    assert_eq!(route.transaction, None);
    assert_eq!(route.reference_id, None);
}

#[test]
fn decode_empty_route_map() {
    let buf = response_with_routes(BTreeMap::new());
    let decoded = decode_swap_quotes(&buf).expect("decode");
    assert_eq!(decoded.quotes.len(), 0);
}

#[test]
fn decode_rejects_truncated_buffer() {
    let mut routes = BTreeMap::new();
    routes.insert("routeA".to_string(), simple_route());
    let mut buf = response_with_routes(routes);
    buf.truncate(buf.len() - 5);
    let err = decode_swap_quotes(&buf);
    assert!(matches!(err, Err(titan_swap_api_client::ClientError::DecodeFailure)));
}

#[test]
fn decode_rejects_trailing_garbage() {
    let buf0 = response_with_routes(BTreeMap::new());
    let mut buf = buf0.clone();
    buf.push(0);
    assert!(matches!(
        decode_swap_quotes(&buf),
        Err(titan_swap_api_client::ClientError::DecodeFailure)
    ));
}

#[test]
fn decode_rejects_unknown_swap_mode() {
    let resp: ResponseTuple = (
        "id".to_string(),
        mint(1),
        mint(2),
        "ExactlyWrong".to_string(),
        5,
        BTreeMap::new(),
    );
    let buf = rmp_serde::to_vec(&resp).expect("encode");
    assert!(matches!(
        decode_swap_quotes(&buf),
        Err(titan_swap_api_client::ClientError::DecodeFailure)
    ));
}

#[test]
fn swap_mode_round_trip() {
    assert_eq!(SwapMode::from_str("ExactIn"), Some(SwapMode::ExactIn));
    assert_eq!(SwapMode::from_str("ExactOut"), Some(SwapMode::ExactOut));
    assert_eq!(SwapMode::from_str("exactin"), None);
    assert_eq!(SwapMode::from_str(""), None);
    assert_eq!(SwapMode::from_str(SwapMode::ExactIn.as_str()), Some(SwapMode::ExactIn));
    assert_eq!(SwapMode::from_str(SwapMode::ExactOut.as_str()), Some(SwapMode::ExactOut));
    assert_eq!(SwapMode::default(), SwapMode::ExactIn);
}

#[test]
fn decimal_rendering_is_exact() {
    assert_eq!(u64_to_decimal(0), "0");
    assert_eq!(u64_to_decimal(7), "7");
    assert_eq!(u64_to_decimal(100_000_000), "100000000");
    assert_eq!(u64_to_decimal(u64::MAX), "18446744073709551615");
}

fn base_request() -> QuoteRequest {
    QuoteRequest {
        input_mint: Address::from_bytes(mint(1)),
        output_mint: Address::from_bytes(mint(2)),
        amount: 100_000_000,
        user_pubkey: Address::from_bytes(mint(3)),
        max_accounts: None,
        swap_mode: None,
        slippage_bps: 0,
        only_direct_routes: None,
        excluded_dexes: None,
        size_constraints: None,
        accounts_limit_writable: None,
        providers: None,
    }
}

#[test]
fn query_params_required_only() {
    let req = base_request();
    let params = build_query_params(&req);
    let keys: Vec<&str> = params.iter().map(|p| p.0).collect();
    assert_eq!(keys, vec!["inputMint", "outputMint", "amount", "userPublicKey"]);
    assert_eq!(params[0].1, Address::from_bytes(mint(1)).to_base58());
    assert_eq!(params[1].1, Address::from_bytes(mint(2)).to_base58());
    assert_eq!(params[2].1, "100000000");
    assert_eq!(params[3].1, Address::from_bytes(mint(3)).to_base58());
}

#[test]
fn query_params_omit_zero_slippage_and_include_positive() {
    let mut req = base_request();
    req.slippage_bps = 0;
    let params = build_query_params(&req);
    assert!(params.iter().all(|p| p.0 != "slippageBps"));

    req.slippage_bps = 50;
    let params = build_query_params(&req);
    let slip: Vec<&(&str, String)> = params.iter().filter(|p| p.0 == "slippageBps").collect();
    assert_eq!(slip.len(), 1);
    assert_eq!(slip[0].1, "50");
}

#[test]
fn query_params_full_order() {
    let mut req = base_request();
    req.max_accounts = Some(50);
    req.swap_mode = Some(SwapMode::ExactOut);
    req.slippage_bps = 75;
    req.only_direct_routes = Some(true);
    req.excluded_dexes = Some("DexA,DexB".to_string());
    req.size_constraints = Some(9);
    req.accounts_limit_writable = Some(4);
    req.providers = Some("prov1".to_string());
    let params = build_query_params(&req);
    let keys: Vec<&str> = params.iter().map(|p| p.0).collect();
    assert_eq!(
        keys,
        vec![
            "inputMint",
            "outputMint",
            "amount",
            "userPublicKey",
            "accountsLimitTotal",
            "swapMode",
            "slippageBps",
            "onlyDirectRoutes",
            "excludeDexes",
            "sizeConstraint",
            "accountsLimitWritable",
            "providers",
        ]
    );
    assert_eq!(params[4].1, "50");
    assert_eq!(params[5].1, "ExactOut");
    assert_eq!(params[6].1, "75");
    assert_eq!(params[7].1, "true");
    assert_eq!(params[8].1, "DexA,DexB");
    assert_eq!(params[9].1, "9");
    assert_eq!(params[10].1, "4");
    assert_eq!(params[11].1, "prov1");
}

#[test]
fn address_text_and_binary_agree() {
    let bytes = mint(42);
    let from_request = Address::from_bytes(bytes);
    let from_wire = Address::from_bytes(bytes);
    assert_eq!(from_request, from_wire);
    assert_eq!(from_request.to_base58(), from_wire.to_base58());
    let sdk = solana_sdk::pubkey::Pubkey::from(bytes);
    assert_eq!(from_request.to_base58(), sdk.to_string());
}

#[test]
fn zero_address_is_all_zero_bytes() {
    assert_eq!(Address::zero().bytes, [0u8; 32]);
}

#[test]
fn decode_wide_numeric_and_string_forms() {
    let long_label = "a-rather-long-venue-label-that-needs-a-length-byte".to_string();
    let step: StepTuple = (
        mint(7),
        long_label.clone(),
        mint(1),
        mint(2),
        u64::MAX,
        70_000,
        4_000_000_000,
        Some(mint(30)),
        Some(300u64),
        Some(65_000u64),
    );
    let route: RouteTuple = (
        u64::MAX,
        u64::MAX - 1,
        65_535,
        None,
        vec![step],
        vec![],
        vec![],
        None,
        None,
        None,
        None,
        None,
        None,
        Some(vec![9u8; 300]),
        Some("ref-1".to_string()),
    );
    let mut routes = BTreeMap::new();
    routes.insert("r".to_string(), route);
    let buf = response_with_routes(routes);
    let decoded = decode_swap_quotes(&buf).expect("decode");
    let (_, r) = &decoded.quotes[0];
    assert_eq!(r.in_amount, u64::MAX);
    assert_eq!(r.out_amount, u64::MAX - 1);
    assert_eq!(r.slippage_bps, 65_535);
    assert_eq!(r.steps[0].label, long_label);
    assert_eq!(r.steps[0].in_amount, u64::MAX);
    assert_eq!(r.steps[0].out_amount, 70_000);
    assert_eq!(r.steps[0].alloc_ppb, 4_000_000_000);
    assert_eq!(r.steps[0].fee_mint, Some(mint(30)));
    assert_eq!(r.steps[0].fee_amount, Some(300));
    assert_eq!(r.steps[0].context_slot, Some(65_000));
    assert_eq!(r.transaction, Some(vec![9u8; 300]));
    assert_eq!(r.reference_id, Some("ref-1".to_string()));
}
