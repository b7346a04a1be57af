use obird::cli::args::{flag_value, has_arg, parse_command, Command};
use obird::cli::liquidate::{
    approval_variants, cancel_ids, held_quantities, liquidation_orders, liquidation_prices, nothing_held, tick_for,
    PredictHolding,
};
use obird::cli::markets::{
    classify_markets, default_min_shares, default_spread_threshold, is_boost_active, market_label,
    metrics_port_for_market, min_order_size, missing_poly_error, outcome_instrument_text,
    render_market_toml, should_write_config, MarketSummary, MarketToml,
};
use obird::decimal::Dec;
use obird::venues::predict_fun::PredictOpenOrderRaw;

fn args(words: &[&str]) -> Vec<String> {
    words.iter().map(|w| w.to_string()).collect()
}

fn d(m: i64, s: u32) -> Dec {
    Dec::new(m, s)
}

#[test]
fn flag_value_takes_the_word_after_the_flag() {
    let a = args(&["prog", "live", "--config", "x.toml"]);
    assert_eq!(flag_value(&a, "--config"), Some("x.toml"));
    assert_eq!(flag_value(&a, "--output-dir"), None);
    // A flag in last position has no value.
    let b = args(&["prog", "live", "--config"]);
    assert_eq!(flag_value(&b, "--config"), None);
}

#[test]
fn has_arg_finds_a_word_anywhere() {
    let a = args(&["prog", "poly-check", "--live"]);
    assert!(has_arg(&a, "--live"));
    assert!(!has_arg(&a, "--all"));
}

#[test]
fn parse_command_defaults_and_options() {
    match parse_command(&args(&["prog", "live"])) {
        Command::Live { config } => assert_eq!(config, "configs/quoter.toml"),
        other => panic!("unexpected {:?}", other),
    }
    match parse_command(&args(&["prog", "live", "--config", "a.toml"])) {
        Command::Live { config } => assert_eq!(config, "a.toml"),
        other => panic!("unexpected {:?}", other),
    }
    match parse_command(&args(&["prog", "poly-check", "--live"])) {
        Command::PolyCheck { live } => assert!(live),
        other => panic!("unexpected {:?}", other),
    }
    match parse_command(&args(&["prog", "predict-markets", "--all", "--write-configs"])) {
        Command::PredictMarkets { all, write_configs, fail_on_missing_poly_token, output_dir } => {
            assert!(all);
            assert!(write_configs);
            assert!(!fail_on_missing_poly_token);
            assert_eq!(output_dir, "configs/markets_poly");
        }
        other => panic!("unexpected {:?}", other),
    }
    match parse_command(&args(&["prog", "predict-approve", "--all"])) {
        Command::PredictApprove { config, all } => {
            assert_eq!(config, "configs/predict_quoter.toml");
            assert!(all);
        }
        other => panic!("unexpected {:?}", other),
    }
    match parse_command(&args(&["prog", "predict-liquidate", "--dry-run", "--config", "p.toml"])) {
        Command::PredictLiquidate { config, dry_run } => {
            assert_eq!(config, "p.toml");
            assert!(dry_run);
        }
        other => panic!("unexpected {:?}", other),
    }
    assert!(matches!(parse_command(&args(&["prog", "predict-check"])), Command::PredictCheck));
    assert!(matches!(parse_command(&args(&["prog", "backtest"])), Command::Backtest));
    assert!(matches!(parse_command(&args(&["prog", "record"])), Command::Record));
    assert!(matches!(parse_command(&args(&["prog", "bogus"])), Command::Help));
    assert!(matches!(parse_command(&args(&["prog"])), Command::Help));
}

#[test]
fn metrics_port_stays_in_its_range() {
    assert_eq!(metrics_port_for_market(0), 10_000);
    assert_eq!(metrics_port_for_market(1234), 11_234);
    assert_eq!(metrics_port_for_market(50_000), 10_000);
    assert_eq!(metrics_port_for_market(u64::MAX), 10_000 + (u64::MAX % 50_000) as u16);
}

// 2024-01-01T00:00:00Z
const NOW: (i64, u32) = (1_704_067_200, 0);

fn summary(id: u64, outcomes: usize, boosted: bool, start: Option<&str>, end: Option<&str>) -> MarketSummary {
    MarketSummary {
        id,
        title: format!("m{}", id),
        outcome_count: outcomes,
        is_boosted: boosted,
        boost_starts_at: start.map(|s| s.to_string()),
        boost_ends_at: end.map(|s| s.to_string()),
    }
}

#[test]
fn boost_needs_a_future_end() {
    let end = Some("2024-01-02T00:00:00Z".to_string());
    let past = Some("2023-12-31T00:00:00Z".to_string());
    assert!(is_boost_active(true, &None, &end, NOW));
    assert!(is_boost_active(true, &past, &end, NOW));
    assert!(!is_boost_active(false, &None, &end, NOW));
    // No end, or an end that does not parse: not active.
    assert!(!is_boost_active(true, &None, &None, NOW));
    assert!(!is_boost_active(true, &None, &Some("soon".to_string()), NOW));
    // A start that does not parse counts as started.
    assert!(is_boost_active(true, &Some("whenever".to_string()), &end, NOW));
    // A start in the future: not yet.
    assert!(!is_boost_active(true, &end, &Some("2024-01-03T00:00:00Z".to_string()), NOW));
    // An end exactly now has passed.
    assert!(!is_boost_active(true, &None, &Some("2024-01-01T00:00:00Z".to_string()), NOW));
    // Offsets are read as the same instant in UTC.
    assert!(is_boost_active(true, &None, &Some("2024-01-01T02:00:00+01:00".to_string()), NOW));
}

#[test]
fn classify_skips_duplicates_and_single_outcome_markets() {
    let end = Some("2024-01-02T00:00:00Z");
    let ms = vec![
        summary(1, 2, true, None, end),
        summary(2, 2, false, None, None),
        summary(1, 2, false, None, None),
        summary(3, 1, true, None, end),
        summary(4, 2, true, None, Some("2023-01-01T00:00:00Z")),
    ];
    let (boosted, others) = classify_markets(&ms, NOW);
    assert_eq!(boosted, vec![0]);
    assert_eq!(others, vec![1, 4]);
}

#[test]
fn labels_and_instrument_text() {
    assert_eq!(market_label(7, "Will it rain?"), "7:Will it rain?");
    assert_eq!(outcome_instrument_text(42, "Yes"), "PredictFun.Binary.42-Yes");
}

#[test]
fn min_order_size_covers_the_costlier_side() {
    // mid 0.5 -> binding 0.5 -> 50 -> 50
    assert_eq!(min_order_size(Some(d(45, 2)), Some(d(55, 2)), d(100, 0)), Some(d(50, 0)));
    // mid 0.3 -> binding 0.7 -> 70 -> 70
    assert_eq!(min_order_size(Some(d(28, 2)), Some(d(32, 2)), d(100, 0)), Some(d(70, 0)));
    // mid 0.615 -> 61.5 -> rounded up to 65
    assert_eq!(min_order_size(Some(d(61, 2)), Some(d(62, 2)), d(100, 0)), Some(d(65, 0)));
    // Without both sides: 70.
    assert_eq!(min_order_size(None, Some(d(5, 1)), d(100, 0)), Some(d(70, 0)));
    assert_eq!(min_order_size(Some(d(5, 1)), None, d(100, 0)), Some(d(70, 0)));
}

#[test]
fn defaults_for_missing_thresholds() {
    assert_eq!(default_spread_threshold().to_string(), "0.06");
    assert_eq!(default_min_shares(), d(100, 0));
}

#[test]
fn strict_mode_skips_and_reports() {
    assert!(should_write_config(true, false, true));
    assert!(!should_write_config(true, true, true));
    assert!(should_write_config(true, true, false));
    assert!(!should_write_config(false, false, false));
    let labels = vec!["1:a".to_string(), "2:b".to_string()];
    assert_eq!(missing_poly_error(false, &labels), None);
    assert_eq!(missing_poly_error(true, &vec![]), None);
    assert_eq!(
        missing_poly_error(true, &labels),
        Some("missing polymarket_yes_token_id for 2 market(s): 1:a, 2:b".to_string())
    );
}

fn toml_input(poly: Option<&str>) -> MarketToml {
    MarketToml {
        market_id: 42,
        is_neg_risk: true,
        is_yield_bearing: false,
        fee_rate_bps: 200,
        yes_name: "Yes".to_string(),
        yes_token_id: "111".to_string(),
        no_name: "No".to_string(),
        no_token_id: "222".to_string(),
        instr_yes: "PredictFun.Binary.42-Yes".to_string(),
        instr_no: "PredictFun.Binary.42-No".to_string(),
        order_size_usdt: d(65, 0),
        spread_threshold_v: d(6, 2),
        min_shares_per_side: d(100, 0),
        polymarket_yes_token_id: poly.map(|s| s.to_string()),
        metrics_port: 10_042,
    }
}

#[test]
fn market_toml_holds_the_market_fields() {
    let t = render_market_toml(&toml_input(Some("999")));
    assert!(t.starts_with("# Auto-generated by: trading-cli predict-markets --write-configs\n"));
    assert!(t.contains("market_id        = 42\n"));
    assert!(t.contains("yes_outcome_name = \"Yes\"\n"));
    assert!(t.contains("no_token_id      = \"222\"\n"));
    assert!(t.contains("is_neg_risk      = true\n"));
    assert!(t.contains("is_yield_bearing = false\n"));
    assert!(t.contains("fee_rate_bps     = 200\n"));
    assert!(t.contains("polymarket_yes_token_id = \"999\"\n"));
    assert!(t.contains("instruments    = [\"PredictFun.Binary.42-Yes\", \"PredictFun.Binary.42-No\"]\n"));
    assert!(t.contains("order_size_usdt      = \"65\"\n"));
    assert!(t.contains("spread_threshold_v   = \"0.06\"\n"));
    assert!(t.contains("min_shares_per_side  = \"100\"\n"));
    assert!(t.ends_with("metrics_port   = 10042\nenable_tracing = false\n"));

    let u = render_market_toml(&toml_input(None));
    assert!(u.contains("# polymarket_yes_token_id = \"\"  # unavailable from Gamma lookup for this market\n"));
    assert!(!u.contains("polymarket_yes_token_id = \"999\""));
}

#[test]
fn ticks_by_precision() {
    assert_eq!(tick_for(2), d(1, 2));
    assert_eq!(tick_for(3), d(1, 3));
}

#[test]
fn liquidation_sells_at_ask_or_a_tick_above_bid() {
    // YES: max(0.60, 0.55 + 0.01) = 0.60; NO book 0.40/0.45: max(0.45, 0.41) = 0.45.
    let (yes, no) = liquidation_prices(d(55, 2), d(60, 2), 2).unwrap();
    assert_eq!(yes, d(60, 2));
    assert_eq!(no, d(45, 2));
    // Tight book at precision 3: YES max(0.551, 0.551), NO max(0.450, 0.450).
    let (yes, no) = liquidation_prices(d(550, 3), d(551, 3), 3).unwrap();
    assert_eq!(yes, d(551, 3));
    assert_eq!(no, d(450, 3));
}

fn order(id: &str, token: &str) -> PredictOpenOrderRaw {
    PredictOpenOrderRaw {
        id: id.to_string(),
        hash: format!("0x{}", id),
        token_id: token.to_string(),
        side: 0,
        maker_amount: "0".to_string(),
        taker_amount: "0".to_string(),
        amount_filled: "0".to_string(),
    }
}

#[test]
fn cancel_only_orders_on_the_market_tokens() {
    let os = vec![order("1", "111"), order("2", "333"), order("3", "222")];
    assert_eq!(cancel_ids(&os, "111", "222"), vec!["1".to_string(), "3".to_string()]);
}

#[test]
fn held_quantities_sum_positive_amounts() {
    let hs = vec![
        PredictHolding { market_id: 42, on_chain_id: "111".to_string(), amount: "1000000000000000000".to_string() },
        PredictHolding { market_id: 42, on_chain_id: "111".to_string(), amount: "500000000000000000".to_string() },
        PredictHolding { market_id: 42, on_chain_id: "222".to_string(), amount: "2000000000000000000".to_string() },
        PredictHolding { market_id: 7, on_chain_id: "111".to_string(), amount: "9000000000000000000".to_string() },
        PredictHolding { market_id: 42, on_chain_id: "222".to_string(), amount: "0".to_string() },
    ];
    let (y, n) = held_quantities(&hs, 42, "111", "222").unwrap();
    assert_eq!(y, d(15, 1));
    assert_eq!(n, d(2, 0));
}

#[test]
fn approval_variants_all_or_own() {
    assert_eq!(approval_variants(true, false, false), vec![(false, false), (false, true), (true, false), (true, true)]);
    assert_eq!(approval_variants(false, true, false), vec![(true, false)]);
}

#[test]
fn liquidation_sells_only_what_is_held() {
    assert!(nothing_held(Dec::zero(), Dec::zero()));
    assert!(nothing_held(d(-1, 0), Dec::zero()));
    assert!(!nothing_held(d(1, 1), Dec::zero()));
    let both = liquidation_orders(d(15, 1), d(2, 0), d(6, 1), d(45, 2));
    assert_eq!(both.len(), 2);
    assert!(both[0].yes);
    assert_eq!(both[0].price, d(6, 1));
    assert_eq!(both[0].qty, d(15, 1));
    assert!(!both[1].yes);
    assert_eq!(both[1].qty, d(2, 0));
    let no_only = liquidation_orders(Dec::zero(), d(2, 0), d(6, 1), d(45, 2));
    assert_eq!(no_only.len(), 1);
    assert!(!no_only[0].yes);
    assert_eq!(no_only[0].price, d(45, 2));
    assert!(liquidation_orders(Dec::zero(), d(-1, 0), d(6, 1), d(45, 2)).is_empty());
}
