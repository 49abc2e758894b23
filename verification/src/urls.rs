//! The addresses of the CoinGecko endpoints that the tool asks.

use vstd::prelude::*;
use vstd::string::StringExecFns;
use vstd::utf8::encode_utf8;
use crate::text::string_views;

verus! {

broadcast use vstd::string::group_string_axioms;

/// The root of the CoinGecko API.
pub const COINGECKO_BASE: &'static str = "https://api.coingecko.com/api/v3";

/// Bytes that percent-encoding leaves as they are: ASCII letters and digits,
/// `-`, `.`, `_` and `~`.
pub open spec fn url_safe(b: u8) -> bool {
    ||| 48 <= b && b <= 57
    ||| 65 <= b && b <= 90
    ||| 97 <= b && b <= 122
    ||| b == 45
    ||| b == 46
    ||| b == 95
    ||| b == 126
}

/// The upper-case hexadecimal digit for `d` (below 16).
pub open spec fn hex_upper(d: u8) -> char {
    if d < 10 {
        (48 + d) as char
    } else {
        (55 + d) as char
    }
}

/// Percent-encoding of a byte string: safe bytes stay, every other byte
/// becomes `%` followed by its two upper-case hexadecimal digits.
pub open spec fn percent_encoded(bs: Seq<u8>) -> Seq<char>
    decreases bs.len(),
{
    if bs.len() == 0 {
        Seq::empty()
    } else {
        let b = bs[0];
        (if url_safe(b) {
            seq![b as char]
        } else {
            seq!['%', hex_upper(b / 16), hex_upper(b % 16)]
        }) + percent_encoded(bs.drop_first())
    }
}

/// Calls `urlencoding::encode`, which percent-encodes every UTF-8 byte of `s`
/// except ASCII letters, digits, `-`, `.`, `_` and `~`, with upper-case hex digits.
#[verifier::external_body]
pub(crate) fn url_encode(s: &str) -> (r: String)
    ensures
        r@ == percent_encoded(encode_utf8(s@)),
{
    urlencoding::encode(s).into_owned()
}

/// The elements of `list` joined by `sep`.
pub open spec fn seq_join(list: Seq<Seq<char>>, sep: Seq<char>) -> Seq<char>
    decreases list.len(),
{
    if list.len() == 0 {
        Seq::empty()
    } else if list.len() == 1 {
        list[0]
    } else {
        seq_join(list.drop_last(), sep) + sep + list.last()
    }
}

/// The strings of `list` joined by `sep`.
pub fn join(list: &Vec<String>, sep: &str) -> (r: String)
    ensures
        r@ == seq_join(string_views(list@), sep@),
{
    let mut r = String::new();
    let ghost views = string_views(list@);
    let mut i: usize = 0;
    while i < list.len()
        invariant
            i <= list.len(),
            views == string_views(list@),
            r@ == seq_join(views.take(i as int), sep@),
        decreases list.len() - i,
    {
        assert(views.take(i + 1).drop_last() =~= views.take(i as int));
        if i != 0 {
            r.append(sep);
        }
        r.append(list[i].as_str());
        i = i + 1;
    }
    assert(views.take(list.len() as int) =~= views);
    r
}

/// The address of the coin list.
pub fn coins_list_url() -> (r: String)
    ensures
        r@ == COINGECKO_BASE@ + "/coins/list?include_platform=false"@,
{
    let mut r = COINGECKO_BASE.to_owned();
    r.append("/coins/list?include_platform=false");
    r
}

/// The address of the list of supported quote currencies.
pub fn supported_vs_url() -> (r: String)
    ensures
        r@ == COINGECKO_BASE@ + "/simple/supported_vs_currencies"@,
{
    let mut r = COINGECKO_BASE.to_owned();
    r.append("/simple/supported_vs_currencies");
    r
}

/// The address of the search for `q`.
pub fn search_url(q: &str) -> (r: String)
    ensures
        r@ == COINGECKO_BASE@ + "/search?query="@ + percent_encoded(encode_utf8(q@)),
{
    let mut r = COINGECKO_BASE.to_owned();
    r.append("/search?query=");
    let e = url_encode(q);
    r.append(e.as_str());
    r
}

/// The address that asks the prices of the coins `ids` in the currencies `vs`.
pub fn simple_price_url(ids: &Vec<String>, vs: &Vec<String>) -> (r: String)
    ensures
        r@ == COINGECKO_BASE@ + "/simple/price?ids="@ + percent_encoded(
            encode_utf8(seq_join(string_views(ids@), ","@)),
        ) + "&vs_currencies="@ + percent_encoded(
            encode_utf8(seq_join(string_views(vs@), ","@)),
        ) + "&include_last_updated_at=true"@,
{
    let mut r = COINGECKO_BASE.to_owned();
    r.append("/simple/price?ids=");
    let ids_joined = join(ids, ",");
    let e = url_encode(ids_joined.as_str());
    r.append(e.as_str());
    r.append("&vs_currencies=");
    let vs_joined = join(vs, ",");
    let e2 = url_encode(vs_joined.as_str());
    r.append(e2.as_str());
    r.append("&include_last_updated_at=true");
    r
}

} // verus!
