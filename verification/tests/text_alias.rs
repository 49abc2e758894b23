use coinex::alias_coin_id;
use coinex::client::api_key_header;
use coinex::asset::supported_currencies;
use coinex::text::{chars_of, str_eq_ignore_ascii_case, trim, white_space};
use coinex::AssetKind;

#[test]
fn alias_maps_known_symbols() {
    assert_eq!(alias_coin_id("tia"), Some("celestia"));
    assert_eq!(alias_coin_id("sol"), Some("solana"));
    assert_eq!(alias_coin_id("eth"), Some("ethereum"));
    assert_eq!(alias_coin_id("btc"), Some("bitcoin"));
    assert_eq!(alias_coin_id("ltc"), Some("litecoin"));
    assert_eq!(alias_coin_id("bch"), Some("bitcoin-cash"));
    assert_eq!(alias_coin_id("ada"), Some("cardano"));
    assert_eq!(alias_coin_id("xrp"), Some("ripple"));
    assert_eq!(alias_coin_id("dot"), Some("polkadot"));
}

#[test]
fn alias_ignores_ascii_case() {
    assert_eq!(alias_coin_id("BTC"), Some("bitcoin"));
    assert_eq!(alias_coin_id("Sol"), Some("solana"));
    assert_eq!(alias_coin_id("tIA"), Some("celestia"));
}

#[test]
fn alias_rejects_others() {
    assert_eq!(alias_coin_id("bitcoin"), None);
    assert_eq!(alias_coin_id(""), None);
    assert_eq!(alias_coin_id(" btc"), None);
    assert_eq!(alias_coin_id("doge"), None);
    assert_eq!(alias_coin_id("btcx"), None);
}

#[test]
fn chars_of_keeps_every_char() {
    assert_eq!(chars_of("aé€😀"), vec!['a', 'é', '€', '😀']);
    assert_eq!(chars_of(""), Vec::<char>::new());
}

#[test]
fn white_space_agrees_with_std() {
    for x in 0u32..=0x10ffff {
        if let Some(c) = char::from_u32(x) {
            assert_eq!(white_space(c), c.is_whitespace(), "code {:x}", x);
        }
    }
}

#[test]
fn trim_agrees_with_std() {
    let samples = [
        "", " ", "  a  ", "\tbtc\n", "\u{3000}x\u{2003}", "a b", " \u{85}é \u{a0}", "\u{200b}z\u{200b}",
        "no-space",
    ];
    for s in samples {
        assert_eq!(trim(s), s.trim(), "{:?}", s);
    }
}

#[test]
fn eq_ignore_ascii_case_agrees_with_std() {
    let pairs = [("BTC", "btc"), ("Éa", "éA"), ("Éa", "éa"), ("abc", "abd"), ("ab", "abc"), ("", "")];
    for (a, b) in pairs {
        assert_eq!(str_eq_ignore_ascii_case(a, b), a.eq_ignore_ascii_case(b), "{:?} {:?}", a, b);
    }
}

#[test]
fn case_mappings_follow_std() {
    assert_eq!(supported_currencies(&vec!["ÉTH".to_string()]), vec!["éth".to_string()]);
    assert_eq!(AssetKind::VsCurrency("twd".to_string()).display(), "TWD");
    assert_eq!(AssetKind::VsCurrency("ß".to_string()).display(), "SS");
}

#[test]
fn api_key_is_trimmed_and_blank_is_dropped() {
    assert_eq!(api_key_header(Some("  key-123 \n".to_string())), Some("key-123".to_string()));
    assert_eq!(api_key_header(Some("   ".to_string())), None);
    assert_eq!(api_key_header(Some(String::new())), None);
    assert_eq!(api_key_header(None), None);
}

