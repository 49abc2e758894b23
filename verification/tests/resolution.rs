use coinex::resolve::{
    begin_resolve, finish_resolve, pick_search_result, search_query, CoinInfo, ResolveStep, SearchCoin,
};
use coinex::CoinexError;

fn coin(id: &str, symbol: &str, name: &str) -> CoinInfo {
    CoinInfo { id: id.to_string(), symbol: symbol.to_string(), name: name.to_string() }
}

fn found(id: &str, symbol: &str, name: &str, rank: Option<i64>) -> SearchCoin {
    SearchCoin { id: id.to_string(), symbol: symbol.to_string(), name: name.to_string(), market_cap_rank: rank }
}

#[test]
fn empty_query_is_refused() {
    assert_eq!(begin_resolve(""), Err(CoinexError::EmptyCoin));
    assert_eq!(begin_resolve("  \t "), Err(CoinexError::EmptyCoin));
    assert_eq!(begin_resolve("   "), Err(CoinexError::EmptyCoin));
}

#[test]
fn alias_resolves_without_search() {
    assert_eq!(begin_resolve("  BTC "), Ok(ResolveStep::Resolved("bitcoin".to_string())));
    assert_eq!(begin_resolve("tia"), Ok(ResolveStep::Resolved("celestia".to_string())));
}

#[test]
fn other_queries_go_to_search_normalized() {
    assert_eq!(begin_resolve("  Shiba Inu "), Ok(ResolveStep::SearchOnline("shiba inu".to_string())));
}

#[test]
fn search_query_normalizes_or_skips() {
    assert_eq!(search_query(" DOGE "), Some("doge".to_string()));
    assert_eq!(search_query("   "), None);
}

#[test]
fn online_hit_wins() {
    let coins = vec![coin("dogecoin", "doge", "Dogecoin")];
    assert_eq!(finish_resolve(&coins, "doge", "doge", Some("other".to_string())), Ok("other".to_string()));
}

#[test]
fn local_id_then_symbol_then_name() {
    let coins = vec![
        coin("alpha", "beta", "Gamma"),
        coin("beta", "x", "y"),
        coin("z", "gamma", "q"),
    ];
    // id match beats a symbol match that comes earlier
    assert_eq!(finish_resolve(&coins, "beta", "beta", None), Ok("beta".to_string()));
    // symbol match beats a name match that comes earlier
    assert_eq!(finish_resolve(&coins, "gamma", "gamma", None), Ok("z".to_string()));
    // id match ignores ASCII case
    assert_eq!(finish_resolve(&coins, "ALPHA", "ALPHA", None), Ok("alpha".to_string()));
}

#[test]
fn local_name_match_is_lowercase_equality() {
    let coins = vec![coin("c1", "s1", "Shiba Inu")];
    assert_eq!(finish_resolve(&coins, "Shiba Inu", "shiba inu", None), Ok("c1".to_string()));
}

#[test]
fn unknown_coin_reports_original_text() {
    let coins = vec![coin("bitcoin", "btc", "Bitcoin")];
    assert_eq!(
        finish_resolve(&coins, " Nope ", "nope", None),
        Err(CoinexError::UnknownCoin(" Nope ".to_string()))
    );
}

#[test]
fn first_match_wins_among_equals() {
    let coins = vec![coin("a1", "dup", "n1"), coin("a2", "dup", "n2")];
    assert_eq!(finish_resolve(&coins, "dup", "dup", None), Ok("a1".to_string()));
}

#[test]
fn search_prefers_id_then_name_then_symbol() {
    let results = vec![
        found("x-token", "abc", "Other", Some(1)),
        found("y", "zz", "ABC", Some(5)),
        found("abc", "q", "Q", None),
    ];
    assert_eq!(pick_search_result(&results, "abc"), Some("abc".to_string()));
    let results = vec![found("x-token", "abc", "Other", Some(1)), found("y", "zz", "ABC", Some(5))];
    assert_eq!(pick_search_result(&results, "abc"), Some("y".to_string()));
}

#[test]
fn search_symbol_prefers_best_rank() {
    let results = vec![
        found("late", "sym", "A", None),
        found("mid", "SYM", "B", Some(40)),
        found("top", "sym", "C", Some(3)),
        found("other", "nope", "D", Some(1)),
    ];
    assert_eq!(pick_search_result(&results, "sym"), Some("top".to_string()));
}

#[test]
fn search_symbol_ties_keep_first() {
    let results = vec![found("first", "s", "A", Some(7)), found("second", "s", "B", Some(7))];
    assert_eq!(pick_search_result(&results, "s"), Some("first".to_string()));
    let results = vec![found("u1", "s", "A", None), found("u2", "s", "B", None)];
    assert_eq!(pick_search_result(&results, "s"), Some("u1".to_string()));
}

#[test]
fn search_without_exact_match_gives_none() {
    let results = vec![found("bitcoin", "btc", "Bitcoin", Some(1))];
    assert_eq!(pick_search_result(&results, "bit"), None);
    assert_eq!(pick_search_result(&Vec::new(), "bit"), None);
}
