use nanocodex::pricing::{
    days_in_month, is_iso_date, parse_decimal_usd, CostStatus, InputTokenDetails,
    OutputTokenDetails, PricingError, PricingSnapshot, TokenRates, UsdAmount, UsdParseError,
    UsdPerMillionTokens, Usage,
};
use nanocodex::usage::{estimate_cost, ServicePricing, ServiceTier, TurnUsage, TurnUsageCounts};
use nanocodex::MODEL;

fn rate(text: &str) -> UsdPerMillionTokens {
    text.parse().unwrap()
}

fn pricing() -> PricingSnapshot {
    PricingSnapshot::new(
        "contract-v1",
        "billing-contract",
        "2026-07-01",
        TokenRates {
            input: rate("1.25"),
            cached_input: rate("0.125"),
            cache_write_input: rate("1.50"),
            output: rate("10"),
        },
    )
    .unwrap()
}

fn usage(input: u64, cached: u64, written: u64, output: u64) -> Usage {
    Usage {
        input_tokens: input,
        input_tokens_details: Some(InputTokenDetails {
            cached_tokens: cached,
            cache_write_tokens: written,
        }),
        output_tokens: output,
        output_tokens_details: None,
        total_tokens: input + output,
    }
}

#[test]
fn decimal_usd_is_exact_and_canonical() {
    let rate = "0.000000001".parse::<UsdPerMillionTokens>().unwrap();
    assert_eq!(rate.nano_usd(), 1);
    assert_eq!(rate.decimal(), "0.000000001");
    assert_eq!(
        "1.0000000001".parse::<UsdPerMillionTokens>(),
        Err(UsdParseError::TooPrecise { value: "1.0000000001".to_owned() })
    );
    assert!("1e-3".parse::<UsdPerMillionTokens>().is_err());
    assert!("-1".parse::<UsdPerMillionTokens>().is_err());
}

#[test]
fn decimal_usd_refuses_everything_else() {
    assert_eq!(parse_decimal_usd(""), Err(UsdParseError::Empty));
    for text in [".", ".5", "1.2.3", "+1", "1 ", "a", "1_000", "１"] {
        assert_eq!(
            parse_decimal_usd(text),
            Err(UsdParseError::Invalid { value: text.to_owned() }),
            "{}",
            text
        );
    }
    assert_eq!(parse_decimal_usd("1."), Ok(1_000_000_000));
    assert_eq!(
        parse_decimal_usd("18446744074"),
        Err(UsdParseError::Overflow { value: "18446744074".to_owned() })
    );
    assert_eq!(parse_decimal_usd("18446744073.709551615"), Ok(u64::MAX));
    assert_eq!(
        parse_decimal_usd("18446744073.709551616"),
        Err(UsdParseError::Overflow { value: "18446744073.709551616".to_owned() })
    );
    assert_eq!(parse_decimal_usd("007.500000000"), Ok(7_500_000_000));
}

#[test]
fn written_amounts_are_read_back() {
    for nano_usd in [0, 1, 10, 999_999_999, 1_000_000_000, 1_250_000_000, u64::MAX] {
        let amount = UsdAmount::from_nano_usd(nano_usd);
        assert_eq!(UsdAmount::parse(&amount.decimal()), Ok(amount));
    }
    assert_eq!(UsdAmount::from_nano_usd(1_250_000_000).decimal(), "1.25");
    assert_eq!(UsdAmount::from_nano_usd(2_000_000_000).decimal(), "2");
    assert_eq!(UsdAmount::from_nano_usd(1_250_000_000).display(), "$1.25");
}

#[test]
fn parse_errors_are_described() {
    assert_eq!(UsdParseError::Empty.message(), "USD amount must not be empty");
    assert_eq!(
        UsdParseError::Invalid { value: "a\"b".to_owned() }.message(),
        "invalid USD amount \"a\\\"b\"; expected a non-negative decimal"
    );
    assert_eq!(
        UsdParseError::TooPrecise { value: "0.0000000001".to_owned() }.message(),
        "USD amount \"0.0000000001\" has more than nine decimal places"
    );
    assert_eq!(
        UsdParseError::Overflow { value: "18446744074".to_owned() }.message(),
        "USD amount \"18446744074\" is too large"
    );
}

#[test]
fn estimate_prices_each_input_class_once_and_reasoning_as_output() {
    let estimate = pricing().estimate(&Usage {
        input_tokens: 1_000_000,
        input_tokens_details: Some(InputTokenDetails {
            cached_tokens: 250_000,
            cache_write_tokens: 100_000,
        }),
        output_tokens: 200_000,
        output_tokens_details: Some(OutputTokenDetails { reasoning_tokens: 150_000 }),
        total_tokens: 1_200_000,
    });

    assert_eq!(estimate.input().decimal(), "0.8125");
    assert_eq!(estimate.cached_input().decimal(), "0.03125");
    assert_eq!(estimate.cache_write_input().decimal(), "0.15");
    assert_eq!(estimate.output().decimal(), "2");
    assert_eq!(estimate.amount().decimal(), "2.99375");
}

#[test]
fn details_never_count_more_than_the_input() {
    let estimate = pricing().estimate_tokens(100, 400, 400, 0);
    assert_eq!(estimate.input(), UsdAmount::from_nano_usd(0));
    assert_eq!(estimate.cached_input(), UsdAmount::from_nano_usd(12_500));
    assert_eq!(estimate.cache_write_input(), UsdAmount::from_nano_usd(0));
    assert_eq!(estimate.amount(), UsdAmount::from_nano_usd(12_500));
}

#[test]
fn parts_of_a_nano_dollar_are_rounded_to_the_nearest() {
    let one = UsdPerMillionTokens::from_nano_usd(1);
    assert_eq!(one.estimate(499_999).nano_usd(), 0);
    assert_eq!(one.estimate(500_000).nano_usd(), 1);
    assert_eq!(one.estimate(1_499_999).nano_usd(), 1);
    assert_eq!(UsdPerMillionTokens::from_nano_usd(u64::MAX).estimate(u64::MAX).nano_usd(), u64::MAX);
}

#[test]
fn amounts_add_up_to_the_largest() {
    let most = UsdAmount::from_nano_usd(u64::MAX);
    assert_eq!(most.saturating_add(UsdAmount::from_nano_usd(1)), most);
    assert_eq!(
        UsdAmount::from_nano_usd(2).saturating_add(UsdAmount::from_nano_usd(3)).nano_usd(),
        5
    );
}

#[test]
fn snapshot_json_is_human_readable_validated_and_round_trips() {
    let pricing = pricing();
    assert_eq!(pricing.model(), MODEL);
    assert_eq!(pricing.rates().input.decimal(), "1.25");
    let read_back = PricingSnapshot::for_model(
        pricing.id(),
        pricing.source(),
        pricing.effective_date(),
        pricing.model(),
        TokenRates {
            input: rate(&pricing.rates().input.decimal()),
            cached_input: rate(&pricing.rates().cached_input.decimal()),
            cache_write_input: rate(&pricing.rates().cache_write_input.decimal()),
            output: rate(&pricing.rates().output.decimal()),
        },
    );
    assert_eq!(read_back.unwrap(), pricing);

    let wrong_model = serde_json::from_str::<serde_json::Value>(
        r#"{
            "id": "contract-v1",
            "source": "billing-contract",
            "effective_date": "2026-07-01",
            "model": "different-model",
            "rates": {
                "input_usd_per_million": "1",
                "cached_input_usd_per_million": "1",
                "cache_write_input_usd_per_million": "1",
                "output_usd_per_million": "1"
            }
        }"#,
    )
    .unwrap();
    let rates = &wrong_model["rates"];
    let read = PricingSnapshot::for_model(
        wrong_model["id"].as_str().unwrap(),
        wrong_model["source"].as_str().unwrap(),
        wrong_model["effective_date"].as_str().unwrap(),
        wrong_model["model"].as_str().unwrap(),
        TokenRates {
            input: rate(rates["input_usd_per_million"].as_str().unwrap()),
            cached_input: rate(rates["cached_input_usd_per_million"].as_str().unwrap()),
            cache_write_input: rate(rates["cache_write_input_usd_per_million"].as_str().unwrap()),
            output: rate(rates["output_usd_per_million"].as_str().unwrap()),
        },
    );
    assert!(read.is_err());
    assert_eq!(read, Err(PricingError::UnsupportedModel { model: "different-model".to_owned() }));
}

#[test]
fn effective_date_rejects_non_calendar_dates() {
    assert_eq!(
        PricingSnapshot::new("contract-v1", "billing-contract", "2026-02-29", pricing().rates()),
        Err(PricingError::InvalidEffectiveDate { value: "2026-02-29".to_owned() })
    );
    PricingSnapshot::new("contract-v1", "billing-contract", "2028-02-29", pricing().rates())
        .unwrap();
}

#[test]
fn only_iso_dates_of_the_calendar_are_dates() {
    for date in ["2000-02-29", "2400-02-29", "2026-12-31", "0001-01-01", "9999-11-30"] {
        assert!(is_iso_date(date), "{}", date);
    }
    for date in [
        "0000-01-01", "1900-02-29", "2026-00-10", "2026-13-01", "2026-04-31", "2026-01-00", "2026-1-01",
        "2026/01/01", "20260101", "2026-01-01 ", "", "２026-01-01",
    ] {
        assert!(!is_iso_date(date), "{}", date);
    }
    assert_eq!(days_in_month(2023, 2), 28);
    assert_eq!(days_in_month(2024, 2), 29);
    assert_eq!(days_in_month(2023, 9), 30);
    assert_eq!(days_in_month(2023, 8), 31);
}

#[test]
fn snapshots_name_their_fault() {
    let rates = pricing().rates();
    assert_eq!(PricingSnapshot::new(" ", "s", "2026-07-01", rates), Err(PricingError::EmptyId));
    assert_eq!(PricingSnapshot::new("i", "\t", "2026-07-01", rates), Err(PricingError::EmptySource));
    assert_eq!(PricingError::EmptyId.message(), "pricing snapshot id must not be empty");
    assert_eq!(PricingError::EmptySource.message(), "pricing snapshot source must not be empty");
    assert_eq!(
        PricingError::InvalidEffectiveDate { value: "x".to_owned() }.message(),
        "invalid pricing effective date \"x\"; expected YYYY-MM-DD"
    );
    assert_eq!(
        PricingError::UnsupportedModel { model: "m".to_owned() }.message(),
        "pricing snapshot targets unsupported model \"m\"; expected \"gpt-5.6-sol\""
    );
}

#[test]
fn cost_status_has_stable_wire_names_and_retains_unknown_values() {
    assert_eq!(CostStatus::EstimatedFromUsage.as_str(), "estimated_from_usage");
    assert_eq!(CostStatus::from_name("usage_not_reported"), CostStatus::UsageNotReported);
    assert_eq!(CostStatus::from_name("future_status"), CostStatus::Other);
    assert_eq!(CostStatus::PricingNotConfigured.as_str(), "pricing_not_configured");
}

#[test]
fn names_of_known_cost_statuses_are_read_back() {
    for status in [
        CostStatus::EstimatedFromUsage,
        CostStatus::PricingNotConfigured,
        CostStatus::UsageNotReported,
    ] {
        assert_eq!(CostStatus::from_name(status.as_str()), status);
    }
}

fn service_pricing() -> ServicePricing {
    ServicePricing {
        standard: pricing(),
        priority: PricingSnapshot::new(
            "contract-v1-priority",
            "billing-contract",
            "2026-07-01",
            TokenRates {
                input: rate("2.5"),
                cached_input: rate("0.25"),
                cache_write_input: rate("3"),
                output: rate("20"),
            },
        )
        .unwrap(),
    }
}

#[test]
fn missing_usage_never_becomes_a_zero_cost_estimate() {
    let (estimate, status) = estimate_cost(None, false, &service_pricing());
    assert!(estimate.is_none());
    assert_eq!(status, CostStatus::UsageNotReported);
}

#[test]
fn fast_mode_is_priced_as_priority() {
    let used = usage(1_000_000, 0, 0, 0);
    let (standard, status) = estimate_cost(Some(&used), false, &service_pricing());
    assert_eq!(standard.unwrap().amount().decimal(), "1.25");
    assert_eq!(status, CostStatus::EstimatedFromUsage);
    let (priority, _) = estimate_cost(Some(&used), true, &service_pricing());
    let priority = priority.unwrap();
    assert_eq!(priority.amount().decimal(), "2.5");
    assert_eq!(priority.pricing().id(), "contract-v1-priority");
    assert_eq!(ServiceTier::for_fast_mode(true), ServiceTier::Priority);
    assert_eq!(ServiceTier::for_fast_mode(false), ServiceTier::Standard);
}

#[test]
fn turn_usage_sums_operations() {
    let mut counts = TurnUsageCounts::new();
    let mut missing = counts;
    missing.add_operation(None);
    missing.add_operation(Some(&usage(10, 4, 1, 5)));
    let unreported = TurnUsage::from_counts(missing, Some(&pricing()));
    assert_eq!(unreported.cost_status(), CostStatus::UsageNotReported);
    assert!(unreported.estimated_cost().is_none());

    counts.add_operation(Some(&usage(10, 4, 1, 5)));
    counts.add_operation(Some(&usage(20, 6, 2, 7)));
    let turn = TurnUsage::from_counts(counts, Some(&pricing()));
    assert_eq!(turn.input_tokens(), 30);
    assert_eq!(turn.cached_input_tokens(), 10);
    assert_eq!(turn.cache_write_input_tokens(), 3);
    assert_eq!(turn.output_tokens(), 12);
    assert_eq!(turn.reasoning_output_tokens(), 0);
    assert_eq!(turn.total_tokens(), 42);
    assert_eq!(turn.cost_status(), CostStatus::EstimatedFromUsage);
    assert_eq!(turn.estimated_cost().unwrap().output().nano_usd(), 120_000);
    let unpriced = TurnUsage::from_counts(counts, None);
    assert_eq!(unpriced.cost_status(), CostStatus::PricingNotConfigured);
    assert!(unpriced.estimated_cost().is_none());
}

#[test]
fn counts_that_were_kept_apart_are_joined() {
    let counts = |input_tokens: u64, reported: bool| TurnUsageCounts {
        input_tokens,
        cached_input_tokens: 1,
        cache_write_input_tokens: 2,
        output_tokens: 3,
        reasoning_output_tokens: 4,
        total_tokens: u64::MAX - 1,
        reported,
    };
    let joined = counts(5, true).join(counts(6, true));
    assert_eq!(joined.input_tokens, 11);
    assert_eq!(joined.cached_input_tokens, 2);
    assert_eq!(joined.cache_write_input_tokens, 4);
    assert_eq!(joined.output_tokens, 6);
    assert_eq!(joined.reasoning_output_tokens, 8);
    assert_eq!(joined.total_tokens, u64::MAX);
    assert!(joined.reported);
    assert!(!counts(5, true).join(counts(6, false)).reported);
    assert!(!counts(5, false).join(counts(6, true)).reported);
}
