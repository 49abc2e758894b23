//! The errors that the library reports.

use vstd::prelude::*;

verus! {

/// Why a conversion could not be carried out.
#[derive(Debug, Clone, PartialEq, Eq)]
pub enum CoinexError {
    /// The quote currency is not among the supported ones.
    UnsupportedCurrency(String),
    /// The coin given was empty (or only white space).
    EmptyCoin,
    /// No coin matched the text given (the text as the user wrote it).
    UnknownCoin(String),
    /// The coin list came back empty.
    EmptyCoinList,
    /// The cache time-to-live could not be parsed.
    InvalidCacheTtl,
    /// No USD price for the coin.
    NoUsdPrice(String),
    /// No price for the coin in the currency.
    NoPrice(String, String),
    /// No prices at all for the bridge coin.
    NoBridgeQuotes,
    /// No price of the bridge coin in the currency.
    NoBridgePrice(String),
    /// The server answered with an unsuccessful status.
    HttpStatus(u16),
    /// The request kept failing after every retry.
    RetriesExhausted,
}

impl CoinexError {
    /// A copy of the error.
    pub fn duplicate(&self) -> (r: CoinexError)
        ensures
            r@ == self@,
    {
        match self {
            CoinexError::UnsupportedCurrency(v) => CoinexError::UnsupportedCurrency(v.clone()),
            CoinexError::EmptyCoin => CoinexError::EmptyCoin,
            CoinexError::UnknownCoin(s) => CoinexError::UnknownCoin(s.clone()),
            CoinexError::EmptyCoinList => CoinexError::EmptyCoinList,
            CoinexError::InvalidCacheTtl => CoinexError::InvalidCacheTtl,
            CoinexError::NoUsdPrice(c) => CoinexError::NoUsdPrice(c.clone()),
            CoinexError::NoPrice(c, v) => CoinexError::NoPrice(c.clone(), v.clone()),
            CoinexError::NoBridgeQuotes => CoinexError::NoBridgeQuotes,
            CoinexError::NoBridgePrice(v) => CoinexError::NoBridgePrice(v.clone()),
            CoinexError::HttpStatus(code) => CoinexError::HttpStatus(*code),
            CoinexError::RetriesExhausted => CoinexError::RetriesExhausted,
        }
    }
}

/// The mathematical content of a [`CoinexError`], with texts as character sequences.
pub ghost enum ErrorView {
    UnsupportedCurrency(Seq<char>),
    EmptyCoin,
    UnknownCoin(Seq<char>),
    EmptyCoinList,
    InvalidCacheTtl,
    NoUsdPrice(Seq<char>),
    NoPrice(Seq<char>, Seq<char>),
    NoBridgeQuotes,
    NoBridgePrice(Seq<char>),
    HttpStatus(u16),
    RetriesExhausted,
}

impl View for CoinexError {
    type V = ErrorView;

    open spec fn view(&self) -> ErrorView {
        match self {
            CoinexError::UnsupportedCurrency(v) => ErrorView::UnsupportedCurrency(v@),
            CoinexError::EmptyCoin => ErrorView::EmptyCoin,
            CoinexError::UnknownCoin(s) => ErrorView::UnknownCoin(s@),
            CoinexError::EmptyCoinList => ErrorView::EmptyCoinList,
            CoinexError::InvalidCacheTtl => ErrorView::InvalidCacheTtl,
            CoinexError::NoUsdPrice(c) => ErrorView::NoUsdPrice(c@),
            CoinexError::NoPrice(c, v) => ErrorView::NoPrice(c@, v@),
            CoinexError::NoBridgeQuotes => ErrorView::NoBridgeQuotes,
            CoinexError::NoBridgePrice(v) => ErrorView::NoBridgePrice(v@),
            CoinexError::HttpStatus(code) => ErrorView::HttpStatus(*code),
            CoinexError::RetriesExhausted => ErrorView::RetriesExhausted,
        }
    }
}

} // verus!
