//! Well-known aliases for popular coins.

use vstd::prelude::*;
use crate::text::{eq_ignore_ascii_case, str_eq_ignore_ascii_case};

verus! {

/// The CoinGecko id that an alias stands for, if `s` is one of the aliases
/// (compared ignoring ASCII case).
pub open spec fn alias_target(s: Seq<char>) -> Option<Seq<char>> {
    if eq_ignore_ascii_case(s, "tia"@) {
        Some("celestia"@)
    } else if eq_ignore_ascii_case(s, "sol"@) {
        Some("solana"@)
    } else if eq_ignore_ascii_case(s, "eth"@) {
        Some("ethereum"@)
    } else if eq_ignore_ascii_case(s, "btc"@) {
        Some("bitcoin"@)
    } else if eq_ignore_ascii_case(s, "ltc"@) {
        Some("litecoin"@)
    } else if eq_ignore_ascii_case(s, "bch"@) {
        Some("bitcoin-cash"@)
    } else if eq_ignore_ascii_case(s, "ada"@) {
        Some("cardano"@)
    } else if eq_ignore_ascii_case(s, "xrp"@) {
        Some("ripple"@)
    } else if eq_ignore_ascii_case(s, "dot"@) {
        Some("polkadot"@)
    } else {
        None
    }
}

/// The view of an optional string slice.
pub open spec fn opt_str_view(o: Option<&str>) -> Option<Seq<char>> {
    match o {
        Some(t) => Some(t@),
        None => None,
    }
}

/// Maps a popular symbol (such as `btc` or `SOL`) to the CoinGecko id it
/// denotes, so that shared symbols do not resolve to the wrong coin.
pub fn alias_coin_id(sym_or_id: &str) -> (r: Option<&'static str>)
    ensures
        opt_str_view(r) == alias_target(sym_or_id@),
{
    if str_eq_ignore_ascii_case(sym_or_id, "tia") {
        Some("celestia")
    } else if str_eq_ignore_ascii_case(sym_or_id, "sol") {
        Some("solana")
    } else if str_eq_ignore_ascii_case(sym_or_id, "eth") {
        Some("ethereum")
    } else if str_eq_ignore_ascii_case(sym_or_id, "btc") {
        Some("bitcoin")
    } else if str_eq_ignore_ascii_case(sym_or_id, "ltc") {
        Some("litecoin")
    } else if str_eq_ignore_ascii_case(sym_or_id, "bch") {
        Some("bitcoin-cash")
    } else if str_eq_ignore_ascii_case(sym_or_id, "ada") {
        Some("cardano")
    } else if str_eq_ignore_ascii_case(sym_or_id, "xrp") {
        Some("ripple")
    } else if str_eq_ignore_ascii_case(sym_or_id, "dot") {
        Some("polkadot")
    } else {
        None
    }
}

/// Aliases ignore ASCII case: two texts that differ only in the case of
/// ASCII letters stand for the same coin, or both for none.
pub proof fn lemma_alias_ignores_ascii_case(a: Seq<char>, b: Seq<char>)
    requires
        eq_ignore_ascii_case(a, b),
    ensures
        alias_target(a) == alias_target(b),
{
    assert forall|k: Seq<char>| eq_ignore_ascii_case(a, k) <==> eq_ignore_ascii_case(b, k) by {
        if eq_ignore_ascii_case(a, k) {
            assert forall|i: int| 0 <= i < b.len() implies #[trigger] crate::text::ascii_fold(b[i])
                == crate::text::ascii_fold(k[i]) by {
                assert(crate::text::ascii_fold(a[i]) == crate::text::ascii_fold(b[i]));
                assert(crate::text::ascii_fold(a[i]) == crate::text::ascii_fold(k[i]));
            }
        }
        if eq_ignore_ascii_case(b, k) {
            assert forall|i: int| 0 <= i < a.len() implies #[trigger] crate::text::ascii_fold(a[i])
                == crate::text::ascii_fold(k[i]) by {
                assert(crate::text::ascii_fold(a[i]) == crate::text::ascii_fold(b[i]));
                assert(crate::text::ascii_fold(b[i]) == crate::text::ascii_fold(k[i]));
            }
        }
    }
}

} // verus!
