use sell_engine::confirm::{PollRound, StatusObservation};
use sell_engine::dispatch::DexVariant;
use sell_engine::errors::FallbackError;
use sell_engine::fallback::{
    AggregatorReply, HoldingProbe, compute_sell_amount, execute_jupiter_fallback_sell,
    parse_balance_text, resolve_sell_amount, slippage_to_basis_points, validate_mint,
};
use sell_engine::{SellRequest, TradeRecord};

fn request() -> SellRequest {
    SellRequest { amount_in_numer: 25, amount_in_denom: 100, slippage_percent: 5 }
}

fn found(raw: &str) -> HoldingProbe {
    HoldingProbe::Found { raw_amount: raw.to_string() }
}

#[test]
fn sell_size_is_the_requested_fraction_rounded_down() {
    assert_eq!(compute_sell_amount(1_000_000, 25, 100), 250_000);
    assert_eq!(compute_sell_amount(1_000_000, 1, 1), 1_000_000);
    assert_eq!(compute_sell_amount(1_000_000, 3, 2), 1_000_000);
    assert_eq!(compute_sell_amount(7, 1, 3), 2);
    assert_eq!(compute_sell_amount(0, 1, 2), 0);
}

#[test]
fn resolve_scales_the_reported_balance() {
    assert_eq!(resolve_sell_amount(&found("1000000"), &request()), Ok(250_000));
    let sell_all = SellRequest { amount_in_numer: 1, amount_in_denom: 1, slippage_percent: 5 };
    assert_eq!(resolve_sell_amount(&found("1000000"), &sell_all), Ok(1_000_000));
}

#[test]
fn zero_balance_fails_before_the_aggregator() {
    assert_eq!(resolve_sell_amount(&found("0"), &request()), Err(FallbackError::NothingToSell));
}

#[test]
fn missing_or_unavailable_holding_fails_the_path() {
    assert_eq!(
        resolve_sell_amount(&HoldingProbe::Missing, &request()),
        Err(FallbackError::HoldingAccountMissing)
    );
    let probe = HoldingProbe::Unavailable { detail: "rpc down".to_string() };
    assert_eq!(
        resolve_sell_amount(&probe, &request()),
        Err(FallbackError::HoldingAccountUnavailable { detail: "rpc down".to_string() })
    );
}

#[test]
fn unreadable_balance_text_is_rejected() {
    assert_eq!(
        resolve_sell_amount(&found("12x3"), &request()),
        Err(FallbackError::MalformedBalance { raw: "12x3".to_string() })
    );
    assert_eq!(
        resolve_sell_amount(&found(""), &request()),
        Err(FallbackError::MalformedBalance { raw: "".to_string() })
    );
    assert_eq!(
        resolve_sell_amount(&found(" 5"), &request()),
        Err(FallbackError::MalformedBalance { raw: " 5".to_string() })
    );
}

#[test]
fn balance_parsing_handles_word_boundaries() {
    assert_eq!(parse_balance_text("0"), Some(0));
    assert_eq!(parse_balance_text("007"), Some(7));
    assert_eq!(parse_balance_text("18446744073709551615"), Some(u64::MAX));
    assert_eq!(parse_balance_text("18446744073709551616"), None);
    assert_eq!(parse_balance_text("99999999999999999999999"), None);
    assert_eq!(parse_balance_text("+5"), None);
}

#[test]
fn slippage_percent_becomes_basis_points() {
    assert_eq!(slippage_to_basis_points(5), 500);
    assert_eq!(slippage_to_basis_points(0), 0);
}

#[test]
fn mint_text_must_be_an_address() {
    assert!(validate_mint(&"1".repeat(32)).is_ok());
    let bad = "not-an-address!".to_string();
    assert_eq!(
        validate_mint(&bad),
        Err(FallbackError::InvalidMint { mint: bad.clone() })
    );
}

#[test]
fn whole_fallback_path_confirms_a_sale() {
    let trade = TradeRecord { mint: "1".repeat(32), dex: DexVariant::PumpFun };
    let reply = AggregatorReply::Accepted { signature_text: "1".repeat(64) };
    let rounds = vec![PollRound { elapsed_ms: 0, observation: StatusObservation::Succeeded }; 5];
    let sold = execute_jupiter_fallback_sell(&trade, &request(), &found("1000"), &reply, &rounds);
    assert_eq!(sold, Ok("1".repeat(64).parse().unwrap()));
}

#[test]
fn whole_fallback_path_rejects_a_malformed_identifier() {
    let trade = TradeRecord { mint: "1".repeat(32), dex: DexVariant::PumpFun };
    let reply = AggregatorReply::Accepted { signature_text: "!!!".to_string() };
    let rounds = vec![PollRound { elapsed_ms: 0, observation: StatusObservation::Succeeded }; 5];
    let sold = execute_jupiter_fallback_sell(&trade, &request(), &found("1000"), &reply, &rounds);
    assert_eq!(
        sold,
        Err(FallbackError::AggregatorResponseMalformed { raw: "!!!".to_string() })
    );
}

#[test]
fn whole_fallback_path_fails_without_confirmation() {
    let trade = TradeRecord { mint: "1".repeat(32), dex: DexVariant::PumpFun };
    let reply = AggregatorReply::Accepted { signature_text: "1".repeat(64) };
    let rounds = vec![PollRound { elapsed_ms: 0, observation: StatusObservation::Unknown }; 5];
    let sold = execute_jupiter_fallback_sell(&trade, &request(), &found("1000"), &reply, &rounds);
    assert_eq!(sold, Err(FallbackError::AggregatorVerificationFailed));
}

#[test]
fn whole_fallback_path_rejects_a_bad_mint() {
    let trade = TradeRecord { mint: "???".to_string(), dex: DexVariant::PumpFun };
    let reply = AggregatorReply::Rejected { detail: "unused".to_string() };
    let rounds = vec![PollRound { elapsed_ms: 0, observation: StatusObservation::Succeeded }; 5];
    let sold = execute_jupiter_fallback_sell(&trade, &request(), &found("1000"), &reply, &rounds);
    assert_eq!(sold, Err(FallbackError::InvalidMint { mint: "???".to_string() }));
}

#[test]
fn whole_fallback_path_passes_an_aggregator_refusal_through() {
    let trade = TradeRecord { mint: "1".repeat(32), dex: DexVariant::PumpSwap };
    let reply = AggregatorReply::Rejected { detail: "no route".to_string() };
    let rounds = vec![PollRound { elapsed_ms: 0, observation: StatusObservation::Succeeded }; 5];
    let sold = execute_jupiter_fallback_sell(&trade, &request(), &found("1000"), &reply, &rounds);
    assert_eq!(sold, Err(FallbackError::AggregatorRejected { detail: "no route".to_string() }));
}
