use coinex::asset::{fiat_asset, supported_currencies};
use coinex::urls::{coins_list_url, join, search_url, simple_price_url, supported_vs_url};
use coinex::{ensure_vs, AssetKind, CoinexError};

fn strings(v: &[&str]) -> Vec<String> {
    v.iter().map(|s| s.to_string()).collect()
}

#[test]
fn ensure_vs_accepts_listed_currency() {
    let set = strings(&["usd", "twd", "eur"]);
    assert_eq!(ensure_vs(&set, "twd"), Ok(()));
}

#[test]
fn ensure_vs_rejects_unlisted_currency() {
    let set = strings(&["usd", "twd"]);
    assert_eq!(ensure_vs(&set, "xyz"), Err(CoinexError::UnsupportedCurrency("xyz".to_string())));
    assert_eq!(ensure_vs(&set, "USD"), Err(CoinexError::UnsupportedCurrency("USD".to_string())));
    assert_eq!(ensure_vs(&Vec::new(), "usd"), Err(CoinexError::UnsupportedCurrency("usd".to_string())));
}

#[test]
fn fiat_asset_lowercases_then_checks() {
    let set = strings(&["usd", "twd"]);
    assert_eq!(fiat_asset(&set, "USD"), Ok(AssetKind::VsCurrency("usd".to_string())));
    assert_eq!(fiat_asset(&set, "Jpy"), Err(CoinexError::UnsupportedCurrency("jpy".to_string())));
}

#[test]
fn supported_currencies_are_lowercased() {
    assert_eq!(supported_currencies(&strings(&["USD", "Twd", "btc"])), strings(&["usd", "twd", "btc"]));
    assert_eq!(supported_currencies(&Vec::new()), Vec::<String>::new());
}

#[test]
fn display_shows_coin_id_and_upper_currency() {
    assert_eq!(AssetKind::CoinId("bitcoin".to_string()).display(), "bitcoin");
    assert_eq!(AssetKind::VsCurrency("twd".to_string()).display(), "TWD");
}

#[test]
fn url_encode_percent_encodes_utf8_bytes() {
    let base = "https://api.coingecko.com/api/v3/search?query=";
    assert_eq!(search_url("abc-_.~09AZ"), format!("{}abc-_.~09AZ", base));
    assert_eq!(search_url("a b,c"), format!("{}a%20b%2Cc", base));
    assert_eq!(search_url("µ"), format!("{}%C2%B5", base));
    assert_eq!(search_url(""), base);
}

#[test]
fn join_uses_separator_between_items() {
    assert_eq!(join(&strings(&["a", "b", "c"]), ","), "a,b,c");
    assert_eq!(join(&strings(&["a"]), ","), "a");
    assert_eq!(join(&Vec::new(), ","), "");
}

#[test]
fn endpoint_urls() {
    assert_eq!(coins_list_url(), "https://api.coingecko.com/api/v3/coins/list?include_platform=false");
    assert_eq!(supported_vs_url(), "https://api.coingecko.com/api/v3/simple/supported_vs_currencies");
    assert_eq!(search_url("shiba inu"), "https://api.coingecko.com/api/v3/search?query=shiba%20inu");
    assert_eq!(
        simple_price_url(&strings(&["bitcoin", "ethereum"]), &strings(&["usd", "twd"])),
        "https://api.coingecko.com/api/v3/simple/price?ids=bitcoin%2Cethereum&vs_currencies=usd%2Ctwd&include_last_updated_at=true"
    );
}
