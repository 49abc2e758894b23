//! The two kinds of asset a conversion runs between, and the supported quote currencies.

use vstd::prelude::*;
use crate::error::CoinexError;
use crate::text::{contains_str, string_views, to_lowercase, to_uppercase, unicode_lowercase, unicode_uppercase};

verus! {

/// One side of a conversion.
#[derive(Debug, Clone, PartialEq, Eq)]
pub enum AssetKind {
    /// A cryptocurrency, by its CoinGecko id.
    CoinId(String),
    /// A fiat or quote currency, by its CoinGecko code (usd, twd, eur, btc...).
    VsCurrency(String),
}

impl AssetKind {
    /// How the asset is shown to the user: a coin by its id, a quote currency
    /// by its code in upper case.
    pub open spec fn display_view(&self) -> Seq<char> {
        match self {
            AssetKind::CoinId(id) => id@,
            AssetKind::VsCurrency(vs) => unicode_uppercase(vs@),
        }
    }

    /// The text that shows the asset to the user.
    pub fn display(&self) -> (r: String)
        ensures
            r@ == self.display_view(),
    {
        match self {
            AssetKind::CoinId(id) => id.clone(),
            AssetKind::VsCurrency(vs) => to_uppercase(vs.as_str()),
        }
    }
}

/// `vs` is one of the supported currencies.
pub open spec fn is_supported(vs_set: Seq<String>, vs: Seq<char>) -> bool {
    string_views(vs_set).contains(vs)
}

/// Accepts `vs` when it is among the supported quote currencies; otherwise
/// reports it as unsupported.
pub fn ensure_vs(vs_set: &Vec<String>, vs: &str) -> (r: Result<(), CoinexError>)
    ensures
        r is Ok <==> is_supported(vs_set@, vs@),
        r matches Err(e) ==> e matches CoinexError::UnsupportedCurrency(v) && v@ == vs@,
{
    if !contains_str(vs_set, vs) {
        return Err(CoinexError::UnsupportedCurrency(vs.to_owned()));
    }
    Ok(())
}

/// The supported quote currencies as the service lists them, each lowercased.
pub fn supported_currencies(raw: &Vec<String>) -> (r: Vec<String>)
    ensures
        r.len() == raw.len(),
        forall|i: int| 0 <= i < r.len() ==> #[trigger] r@[i]@ == unicode_lowercase(raw@[i]@),
{
    let mut r: Vec<String> = Vec::new();
    let mut i: usize = 0;
    while i < raw.len()
        invariant
            i <= raw.len(),
            r.len() == i,
            forall|k: int| 0 <= k < i ==> #[trigger] r@[k]@ == unicode_lowercase(raw@[k]@),
        decreases raw.len() - i,
    {
        r.push(to_lowercase(raw[i].as_str()));
        i = i + 1;
    }
    r
}

/// The source or destination given as a fiat or quote currency: its code is
/// lowercased and must be supported.
pub fn fiat_asset(vs_set: &Vec<String>, fiat: &str) -> (r: Result<AssetKind, CoinexError>)
    ensures
        r is Ok <==> is_supported(vs_set@, unicode_lowercase(fiat@)),
        r matches Ok(a) ==> a matches AssetKind::VsCurrency(v) && v@ == unicode_lowercase(fiat@),
        r matches Err(e) ==> e matches CoinexError::UnsupportedCurrency(v) && v@
            == unicode_lowercase(fiat@),
{
    let vs = to_lowercase(fiat);
    match ensure_vs(vs_set, vs.as_str()) {
        Ok(()) => Ok(AssetKind::VsCurrency(vs)),
        Err(e) => Err(e),
    }
}

} // verus!
