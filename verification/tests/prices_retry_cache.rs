use coinex::cache::{cache_age, check_coin_list, parse_cache_ttl, ttl_text_in_range, use_cached_coins, Timestamp};
use coinex::prices::{
    locate_prices, plan_conversion, price_rows, quote_key, ConversionPlan, Formula, PriceLookup, PriceRow, PriceSource,
    QuoteAnswer, QuoteEntry,
};
use coinex::resolve::CoinInfo;
use coinex::retry::{classify_response, next_retry_step, parse_u64, retry_after_delay, Attempt, RetryAction};
use coinex::{AssetKind, CoinexError};

fn s(x: &str) -> String {
    x.to_string()
}

fn lookup(coin: &str, cur: &str, e1: CoinexError, e2: CoinexError) -> PriceLookup {
    PriceLookup { coin: s(coin), currency: s(cur), if_coin_missing: e1, if_price_missing: e2 }
}

#[test]
fn coin_to_coin_bridges_through_usd() {
    let p = plan_conversion(&AssetKind::CoinId(s("ethereum")), &AssetKind::CoinId(s("bitcoin")));
    assert_eq!(
        p,
        ConversionPlan {
            ids: vec![s("ethereum"), s("bitcoin")],
            currencies: vec![s("usd")],
            lookups: vec![
                lookup("ethereum", "usd", CoinexError::NoUsdPrice(s("ethereum")), CoinexError::NoUsdPrice(s("ethereum"))),
                lookup("bitcoin", "usd", CoinexError::NoUsdPrice(s("bitcoin")), CoinexError::NoUsdPrice(s("bitcoin"))),
            ],
            formula: Formula::FirstOverSecond,
        }
    );
}

#[test]
fn coin_to_fiat_multiplies() {
    let p = plan_conversion(&AssetKind::CoinId(s("bitcoin")), &AssetKind::VsCurrency(s("twd")));
    let e = CoinexError::NoPrice(s("bitcoin"), s("twd"));
    assert_eq!(p.ids, vec![s("bitcoin")]);
    assert_eq!(p.currencies, vec![s("twd")]);
    assert_eq!(p.lookups, vec![lookup("bitcoin", "twd", e.clone(), e)]);
    assert_eq!(p.formula, Formula::Multiply);
}

#[test]
fn fiat_to_coin_divides() {
    let p = plan_conversion(&AssetKind::VsCurrency(s("usd")), &AssetKind::CoinId(s("solana")));
    let e = CoinexError::NoPrice(s("solana"), s("usd"));
    assert_eq!(p.ids, vec![s("solana")]);
    assert_eq!(p.currencies, vec![s("usd")]);
    assert_eq!(p.lookups, vec![lookup("solana", "usd", e.clone(), e)]);
    assert_eq!(p.formula, Formula::Divide);
}

#[test]
fn fiat_to_fiat_bridges_through_bitcoin() {
    let p = plan_conversion(&AssetKind::VsCurrency(s("USD")), &AssetKind::VsCurrency(s("twd")));
    assert_eq!(p.ids, vec![s("bitcoin")]);
    assert_eq!(p.currencies, vec![s("USD"), s("twd")]);
    assert_eq!(
        p.lookups,
        vec![
            lookup("bitcoin", "usd", CoinexError::NoBridgeQuotes, CoinexError::NoBridgePrice(s("USD"))),
            lookup("bitcoin", "twd", CoinexError::NoBridgeQuotes, CoinexError::NoBridgePrice(s("twd"))),
        ]
    );
    assert_eq!(p.formula, Formula::SecondOverFirst);
}

#[test]
fn quote_keys_skip_update_time_and_lowercase() {
    assert_eq!(quote_key("last_updated_at"), None);
    assert_eq!(quote_key("USD"), Some(s("usd")));
    assert_eq!(quote_key("twd"), Some(s("twd")));
}

fn row(coin: &str, curs: &[&str]) -> PriceRow {
    PriceRow { coin: s(coin), currencies: curs.iter().map(|c| s(c)).collect() }
}

#[test]
fn locate_finds_rows_and_columns() {
    let p = plan_conversion(&AssetKind::CoinId(s("ethereum")), &AssetKind::CoinId(s("bitcoin")));
    let rows = vec![row("bitcoin", &["usd"]), row("ethereum", &["eur", "usd"])];
    assert_eq!(locate_prices(&p, &rows), Ok(vec![(1, 1), (0, 0)]));
}

#[test]
fn locate_takes_last_duplicate_currency() {
    let p = plan_conversion(&AssetKind::CoinId(s("bitcoin")), &AssetKind::VsCurrency(s("usd")));
    let rows = vec![row("bitcoin", &["usd", "eur", "usd"])];
    assert_eq!(locate_prices(&p, &rows), Ok(vec![(0, 2)]));
}

#[test]
fn locate_reports_first_missing_lookup() {
    let p = plan_conversion(&AssetKind::CoinId(s("ethereum")), &AssetKind::CoinId(s("bitcoin")));
    let rows = vec![row("ethereum", &["usd"])];
    assert_eq!(locate_prices(&p, &rows), Err(CoinexError::NoUsdPrice(s("bitcoin"))));
    let rows = vec![row("ethereum", &["eur"])];
    assert_eq!(locate_prices(&p, &rows), Err(CoinexError::NoUsdPrice(s("ethereum"))));
}

#[test]
fn locate_bridge_errors() {
    let p = plan_conversion(&AssetKind::VsCurrency(s("usd")), &AssetKind::VsCurrency(s("twd")));
    assert_eq!(locate_prices(&p, &Vec::new()), Err(CoinexError::NoBridgeQuotes));
    let rows = vec![row("bitcoin", &["usd"])];
    assert_eq!(locate_prices(&p, &rows), Err(CoinexError::NoBridgePrice(s("twd"))));
    let rows = vec![row("bitcoin", &["twd"])];
    assert_eq!(locate_prices(&p, &rows), Err(CoinexError::NoBridgePrice(s("usd"))));
}

#[test]
fn parse_u64_follows_std() {
    let samples = ["", "+", "-", "0", "12", "+12", "-12", "007", " 1", "1 ", "18446744073709551615", "18446744073709551616", "99999999999999999999", "1a", "++1"];
    for t in samples {
        let ours = parse_u64(&t.as_bytes().to_vec());
        assert_eq!(ours, t.parse::<u64>().ok(), "{:?}", t);
    }
}

#[test]
fn retry_after_reads_seconds_capped_at_fifteen() {
    assert_eq!(retry_after_delay(&None), 2);
    assert_eq!(retry_after_delay(&Some(b"5".to_vec())), 5);
    assert_eq!(retry_after_delay(&Some(b"120".to_vec())), 15);
    assert_eq!(retry_after_delay(&Some(b"15".to_vec())), 15);
    assert_eq!(retry_after_delay(&Some(b"Wed, 21 Oct 2015 07:28:00 GMT".to_vec())), 2);
    assert_eq!(retry_after_delay(&Some(vec![0xff, b'1'])), 2);
    assert_eq!(retry_after_delay(&Some(b"".to_vec())), 2);
}

#[test]
fn retry_steps() {
    assert_eq!(next_retry_step(0, &Attempt::Success), (RetryAction::Accept, 0));
    assert_eq!(next_retry_step(3, &Attempt::HttpFailure(404)), (RetryAction::Fail(CoinexError::HttpStatus(404)), 3));
    assert_eq!(next_retry_step(9, &Attempt::RateLimited(Some(b"3".to_vec()))), (RetryAction::Wait(3000), 10));
    assert_eq!(next_retry_step(0, &Attempt::RateLimited(None)), (RetryAction::Wait(2000), 1));
    assert_eq!(next_retry_step(0, &Attempt::NetworkFailure), (RetryAction::Wait(400), 1));
    assert_eq!(next_retry_step(1, &Attempt::NetworkFailure), (RetryAction::Wait(800), 2));
    assert_eq!(next_retry_step(2, &Attempt::NetworkFailure), (RetryAction::Wait(1600), 3));
    assert_eq!(next_retry_step(3, &Attempt::NetworkFailure), (RetryAction::Wait(3200), 4));
    assert_eq!(next_retry_step(4, &Attempt::NetworkFailure), (RetryAction::Fail(CoinexError::RetriesExhausted), 4));
}

#[test]
fn network_failures_give_up_on_fifth_attempt() {
    let mut tries = 0usize;
    let mut waited = 0u64;
    loop {
        match next_retry_step(tries, &Attempt::NetworkFailure) {
            (RetryAction::Wait(ms), next) => {
                waited += ms;
                tries = next;
            }
            (RetryAction::Fail(e), _) => {
                assert_eq!(e, CoinexError::RetriesExhausted);
                break;
            }
            (RetryAction::Accept, _) => unreachable!(),
        }
    }
    assert_eq!(tries, 4);
    assert_eq!(waited, 6000);
}

#[test]
fn cache_ttl_parses_humantime() {
    assert_eq!(parse_cache_ttl("1d"), Ok(86_400_000_000_000));
    assert_eq!(parse_cache_ttl("12h"), Ok(43_200_000_000_000));
    assert_eq!(parse_cache_ttl("30m"), Ok(1_800_000_000_000));
    assert_eq!(parse_cache_ttl("2 fortnights"), Err(CoinexError::InvalidCacheTtl));
    assert_eq!(parse_cache_ttl("soon"), Err(CoinexError::InvalidCacheTtl));
}

fn at(secs: i64, nanos: u32) -> Timestamp {
    Timestamp { secs, nanos }
}

#[test]
fn cache_age_and_freshness() {
    assert_eq!(cache_age(at(100, 500), at(90, 700)), 9_999_999_800);
    assert_eq!(cache_age(at(90, 0), at(100, 0)), (u64::MAX as u128) * 1_000_000_000);
    let day = 86_400_000_000_000u128;
    assert!(use_cached_coins(false, at(86_400, 0), at(0, 0), day));
    assert!(!use_cached_coins(false, at(86_400, 1), at(0, 0), day));
    assert!(!use_cached_coins(true, at(10, 0), at(0, 0), day));
    assert!(!use_cached_coins(false, at(0, 0), at(10, 0), day));
}

#[test]
fn coin_list_must_not_be_empty() {
    assert_eq!(check_coin_list(Vec::new()), Err(CoinexError::EmptyCoinList));
    let list = vec![CoinInfo { id: s("bitcoin"), symbol: s("btc"), name: s("Bitcoin") }];
    assert_eq!(check_coin_list(list.clone()), Ok(list));
}

#[test]
fn cache_ttl_near_the_overflow_limit() {
    // humantime would panic on this one; it is refused like any unreadable text.
    assert_eq!(parse_cache_ttl("18446744073709551615s 1000ms"), Err(CoinexError::InvalidCacheTtl));
    assert!(!ttl_text_in_range("18446744073709551615s 1000ms"));
    // humantime reports an overflow on these.
    assert_eq!(parse_cache_ttl("18446744073709551615s 1s"), Err(CoinexError::InvalidCacheTtl));
    assert_eq!(parse_cache_ttl("999999999999y"), Err(CoinexError::InvalidCacheTtl));
    // Large numbers in small units are read as humantime reads them.
    assert_eq!(parse_cache_ttl("1000000000000ns"), Ok(1_000_000_000_000));
    assert_eq!(parse_cache_ttl("600000000000ns"), Ok(600_000_000_000));
    assert_eq!(parse_cache_ttl("1 2 3 4 5 6 7 8 9 0 1 2s"), Ok(123_456_789_012 * 1_000_000_000));
    assert_eq!(parse_cache_ttl("1h 1h 1h 1h 1h 1h 1h 1h 1h 1h 1h"), Ok(11 * 3_600_000_000_000));
    assert_eq!(parse_cache_ttl("99999999999y"), Ok(99_999_999_999u128 * 31_557_600 * 1_000_000_000));
    assert_eq!(parse_cache_ttl("18446744073709551615s"), Ok((u64::MAX as u128) * 1_000_000_000));
    assert_eq!(parse_cache_ttl("1.5h"), Ok(5_400_000_000_000));
    assert_eq!(parse_cache_ttl("2 fortnights 1s"), Err(CoinexError::InvalidCacheTtl));
}

#[test]
fn cache_age_follows_chrono_around_leap_seconds() {
    let pairs = [
        (at(86_410, 0), at(86_399, 1_500_000_000)),
        (at(100, 0), at(59, 1_500_000_000)),
        (at(86_399, 1_200_000_000), at(86_399, 500_000_000)),
        (at(86_400, 0), at(86_399, 1_999_999_999)),
        (at(1_700_000_000, 5), at(1_600_000_000, 7)),
    ];
    for (now, fetched) in pairs {
        let a = chrono::DateTime::from_timestamp(now.secs, now.nanos).unwrap();
        let b = chrono::DateTime::from_timestamp(fetched.secs, fetched.nanos).unwrap();
        let expected = match a.signed_duration_since(b).to_std() {
            Ok(d) => d.as_nanos(),
            Err(_) => (u64::MAX as u128) * 1_000_000_000,
        };
        assert_eq!(cache_age(now, fetched), expected, "{:?} {:?}", now, fetched);
    }
    // A leap second in the earlier stamp, with the later one further into the same day:
    // chrono counts one second more than plain subtraction (39.5 s).
    assert_eq!(cache_age(at(100, 0), at(59, 1_500_000_000)), 40_500_000_000);
}

#[test]
fn responses_are_classified_by_status() {
    assert_eq!(classify_response(None, None), Attempt::NetworkFailure);
    assert_eq!(classify_response(Some(200), None), Attempt::Success);
    assert_eq!(classify_response(Some(299), None), Attempt::Success);
    assert_eq!(classify_response(Some(429), Some(b"7".to_vec())), Attempt::RateLimited(Some(b"7".to_vec())));
    assert_eq!(classify_response(Some(300), None), Attempt::HttpFailure(300));
    assert_eq!(classify_response(Some(503), None), Attempt::HttpFailure(503));
}

fn entry(k: &str, n: bool) -> QuoteEntry {
    QuoteEntry { key: s(k), is_number: n }
}

#[test]
fn price_rows_keep_objects_and_numeric_quotes() {
    let answers = vec![
        QuoteAnswer {
            coin: s("bitcoin"),
            entries: Some(vec![entry("USD", true), entry("last_updated_at", true), entry("eur", false), entry("twd", true)]),
        },
        QuoteAnswer { coin: s("junk"), entries: None },
        QuoteAnswer { coin: s("ethereum"), entries: Some(vec![]) },
    ];
    let (rows, sources) = price_rows(&answers);
    assert_eq!(rows, vec![row("bitcoin", &["usd", "twd"]), row("ethereum", &[])]);
    assert_eq!(
        sources,
        vec![PriceSource { answer: 0, entries: vec![0, 3] }, PriceSource { answer: 2, entries: vec![] }]
    );
}
