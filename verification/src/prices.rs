//! Which prices a conversion needs, in which order they are looked up, and how
//! they combine with the amount.

use vstd::prelude::*;
use crate::asset::AssetKind;
use crate::error::{CoinexError, ErrorView};
use crate::text::{string_views, to_lowercase, unicode_lowercase};

verus! {

broadcast use vstd::string::group_string_axioms;

/// How the looked-up prices combine with the amount.
#[derive(Debug, Clone, Copy, PartialEq, Eq)]
pub enum Formula {
    /// `amount * p0`
    Multiply,
    /// `amount / p0`
    Divide,
    /// `amount * (p0 / p1)`
    FirstOverSecond,
    /// `amount * (p1 / p0)`
    SecondOverFirst,
}

/// One price that a conversion looks up: the price of `coin` in `currency`,
/// and the error to report when the coin, or the currency of that coin, is
/// missing from the answer.
#[derive(Debug, Clone, PartialEq, Eq)]
pub struct PriceLookup {
    pub coin: String,
    pub currency: String,
    pub if_coin_missing: CoinexError,
    pub if_price_missing: CoinexError,
}

/// The mathematical content of a [`PriceLookup`].
pub ghost struct LookupView {
    pub coin: Seq<char>,
    pub currency: Seq<char>,
    pub if_coin_missing: ErrorView,
    pub if_price_missing: ErrorView,
}

impl View for PriceLookup {
    type V = LookupView;

    open spec fn view(&self) -> LookupView {
        LookupView {
            coin: self.coin@,
            currency: self.currency@,
            if_coin_missing: self.if_coin_missing@,
            if_price_missing: self.if_price_missing@,
        }
    }
}

/// Everything a conversion asks of the price service: the coins and
/// currencies to request, the prices to look up (in order), and the formula.
#[derive(Debug, Clone, PartialEq, Eq)]
pub struct ConversionPlan {
    pub ids: Vec<String>,
    pub currencies: Vec<String>,
    pub lookups: Vec<PriceLookup>,
    pub formula: Formula,
}

/// The mathematical content of a [`ConversionPlan`].
pub ghost struct PlanView {
    pub ids: Seq<Seq<char>>,
    pub currencies: Seq<Seq<char>>,
    pub lookups: Seq<LookupView>,
    pub formula: Formula,
}

impl View for ConversionPlan {
    type V = PlanView;

    open spec fn view(&self) -> PlanView {
        PlanView {
            ids: string_views(self.ids@),
            currencies: string_views(self.currencies@),
            lookups: self.lookups@.map_values(|l: PriceLookup| l@),
            formula: self.formula,
        }
    }
}

/// The lookup of `coin`'s price in `currency` where a missing coin and a
/// missing price give the same error.
pub open spec fn plain_lookup(coin: Seq<char>, currency: Seq<char>, err: ErrorView) -> LookupView {
    LookupView { coin, currency, if_coin_missing: err, if_price_missing: err }
}

/// The plan of a conversion from `from` to `to`:
/// - coin to coin goes through USD: `amount * (price(from, usd) / price(to, usd))`;
/// - coin to currency takes the coin's price directly: `amount * price(from, to)`;
/// - currency to coin divides by the coin's price: `amount / price(to, from)`;
/// - currency to currency goes through Bitcoin:
///   `amount * (price(bitcoin, to) / price(bitcoin, from))`, the currencies
///   looked up lowercased.
pub open spec fn conversion_plan(from: AssetKind, to: AssetKind) -> PlanView {
    match (from, to) {
        (AssetKind::CoinId(f), AssetKind::CoinId(t)) => PlanView {
            ids: seq![f@, t@],
            currencies: seq!["usd"@],
            lookups: seq![
                plain_lookup(f@, "usd"@, ErrorView::NoUsdPrice(f@)),
                plain_lookup(t@, "usd"@, ErrorView::NoUsdPrice(t@)),
            ],
            formula: Formula::FirstOverSecond,
        },
        (AssetKind::CoinId(f), AssetKind::VsCurrency(v)) => PlanView {
            ids: seq![f@],
            currencies: seq![v@],
            lookups: seq![plain_lookup(f@, v@, ErrorView::NoPrice(f@, v@))],
            formula: Formula::Multiply,
        },
        (AssetKind::VsCurrency(v), AssetKind::CoinId(t)) => PlanView {
            ids: seq![t@],
            currencies: seq![v@],
            lookups: seq![plain_lookup(t@, v@, ErrorView::NoPrice(t@, v@))],
            formula: Formula::Divide,
        },
        (AssetKind::VsCurrency(a), AssetKind::VsCurrency(b)) => PlanView {
            ids: seq!["bitcoin"@],
            currencies: seq![a@, b@],
            lookups: seq![
                LookupView {
                    coin: "bitcoin"@,
                    currency: unicode_lowercase(a@),
                    if_coin_missing: ErrorView::NoBridgeQuotes,
                    if_price_missing: ErrorView::NoBridgePrice(a@),
                },
                LookupView {
                    coin: "bitcoin"@,
                    currency: unicode_lowercase(b@),
                    if_coin_missing: ErrorView::NoBridgeQuotes,
                    if_price_missing: ErrorView::NoBridgePrice(b@),
                },
            ],
            formula: Formula::SecondOverFirst,
        },
    }
}

/// The value a conversion gives, as a fraction `(numerator, denominator)`,
/// for an amount and the prices found for the plan's lookups, in lookup order:
/// this is how the formula is applied to the prices.
pub open spec fn planned_value(f: Formula, amount: int, p: Seq<int>) -> (int, int) {
    match f {
        Formula::Multiply => (amount * p[0], 1),
        Formula::Divide => (amount, p[0]),
        Formula::FirstOverSecond => (amount * p[0], p[1]),
        Formula::SecondOverFirst => (amount * p[1], p[0]),
    }
}

/// The prices the lookups of a plan find in a price table `price(coin, currency)`.
pub open spec fn looked_up(plan: PlanView, price: spec_fn(Seq<char>, Seq<char>) -> int) -> Seq<int> {
    plan.lookups.map_values(|l: LookupView| price(l.coin, l.currency))
}

/// Coin to coin goes through USD: the prices of both coins in `usd` are asked
/// for, the source's first, and whatever the prices are, the amount is
/// multiplied by the source's USD price and divided by the destination's.
pub proof fn lemma_coin_to_coin_bridges_through_usd(
    f: String,
    t: String,
    amount: int,
    price: spec_fn(Seq<char>, Seq<char>) -> int,
)
    ensures
        ({
            let p = conversion_plan(AssetKind::CoinId(f), AssetKind::CoinId(t));
            &&& p.ids == seq![f@, t@]
            &&& p.currencies == seq!["usd"@]
            &&& p.lookups.len() == 2
            &&& p.lookups[0].coin == f@ && p.lookups[0].currency == "usd"@
            &&& p.lookups[1].coin == t@ && p.lookups[1].currency == "usd"@
            &&& p.lookups[0].if_coin_missing == ErrorView::NoUsdPrice(f@)
            &&& p.lookups[0].if_price_missing == ErrorView::NoUsdPrice(f@)
            &&& p.lookups[1].if_coin_missing == ErrorView::NoUsdPrice(t@)
            &&& p.lookups[1].if_price_missing == ErrorView::NoUsdPrice(t@)
            &&& planned_value(p.formula, amount, looked_up(p, price)) == (
                amount * price(f@, "usd"@),
                price(t@, "usd"@),
            )
        }),
{
}

/// Coin to currency multiplies the amount by the coin's price in that currency.
pub proof fn lemma_coin_to_currency_multiplies(
    f: String,
    v: String,
    amount: int,
    price: spec_fn(Seq<char>, Seq<char>) -> int,
)
    ensures
        ({
            let p = conversion_plan(AssetKind::CoinId(f), AssetKind::VsCurrency(v));
            &&& p.ids == seq![f@]
            &&& p.currencies == seq![v@]
            &&& p.lookups.len() == 1
            &&& p.lookups[0].coin == f@ && p.lookups[0].currency == v@
            &&& p.lookups[0].if_coin_missing == ErrorView::NoPrice(f@, v@)
            &&& p.lookups[0].if_price_missing == ErrorView::NoPrice(f@, v@)
            &&& planned_value(p.formula, amount, looked_up(p, price)) == (amount * price(f@, v@), 1int)
        }),
{
}

/// Currency to coin divides the amount by the coin's price in that currency.
pub proof fn lemma_currency_to_coin_divides(
    v: String,
    t: String,
    amount: int,
    price: spec_fn(Seq<char>, Seq<char>) -> int,
)
    ensures
        ({
            let p = conversion_plan(AssetKind::VsCurrency(v), AssetKind::CoinId(t));
            &&& p.ids == seq![t@]
            &&& p.currencies == seq![v@]
            &&& p.lookups.len() == 1
            &&& p.lookups[0].coin == t@ && p.lookups[0].currency == v@
            &&& p.lookups[0].if_coin_missing == ErrorView::NoPrice(t@, v@)
            &&& p.lookups[0].if_price_missing == ErrorView::NoPrice(t@, v@)
            &&& planned_value(p.formula, amount, looked_up(p, price)) == (amount, price(t@, v@))
        }),
{
}

/// Currency to currency goes through Bitcoin: Bitcoin's prices in both
/// currencies (lowercased) are asked for, the source's first, and whatever the
/// prices are, the amount is multiplied by Bitcoin's price in the destination
/// currency and divided by its price in the source currency.
pub proof fn lemma_currency_to_currency_bridges_through_bitcoin(
    a: String,
    b: String,
    amount: int,
    price: spec_fn(Seq<char>, Seq<char>) -> int,
)
    ensures
        ({
            let p = conversion_plan(AssetKind::VsCurrency(a), AssetKind::VsCurrency(b));
            &&& p.ids == seq!["bitcoin"@]
            &&& p.currencies == seq![a@, b@]
            &&& p.lookups.len() == 2
            &&& p.lookups[0].coin == "bitcoin"@ && p.lookups[0].currency == unicode_lowercase(a@)
            &&& p.lookups[1].coin == "bitcoin"@ && p.lookups[1].currency == unicode_lowercase(b@)
            &&& p.lookups[0].if_coin_missing == ErrorView::NoBridgeQuotes
            &&& p.lookups[0].if_price_missing == ErrorView::NoBridgePrice(a@)
            &&& p.lookups[1].if_coin_missing == ErrorView::NoBridgeQuotes
            &&& p.lookups[1].if_price_missing == ErrorView::NoBridgePrice(b@)
            &&& planned_value(p.formula, amount, looked_up(p, price)) == (
                amount * price("bitcoin"@, unicode_lowercase(b@)),
                price("bitcoin"@, unicode_lowercase(a@)),
            )
        }),
{
}

fn lookup_same_error(coin: &String, currency: &String, err: CoinexError) -> (r: PriceLookup)
    ensures
        r@ == plain_lookup(coin@, currency@, err@),
{
    PriceLookup {
        coin: coin.clone(),
        currency: currency.clone(),
        if_coin_missing: err.duplicate(),
        if_price_missing: err,
    }
}

/// Plans the conversion from `from` to `to` (see [`conversion_plan`]).
pub fn plan_conversion(from: &AssetKind, to: &AssetKind) -> (r: ConversionPlan)
    ensures
        r@ == conversion_plan(*from, *to),
{
    let r = match (from, to) {
        (AssetKind::CoinId(f), AssetKind::CoinId(t)) => {
            let usd = "usd".to_owned();
            let ids = vec![f.clone(), t.clone()];
            let currencies = vec![usd.clone()];
            let lookups = vec![
                lookup_same_error(f, &usd, CoinexError::NoUsdPrice(f.clone())),
                lookup_same_error(t, &usd, CoinexError::NoUsdPrice(t.clone())),
            ];
            ConversionPlan { ids, currencies, lookups, formula: Formula::FirstOverSecond }
        },
        (AssetKind::CoinId(f), AssetKind::VsCurrency(v)) => {
            let ids = vec![f.clone()];
            let currencies = vec![v.clone()];
            let lookups = vec![lookup_same_error(f, v, CoinexError::NoPrice(f.clone(), v.clone()))];
            ConversionPlan { ids, currencies, lookups, formula: Formula::Multiply }
        },
        (AssetKind::VsCurrency(v), AssetKind::CoinId(t)) => {
            let ids = vec![t.clone()];
            let currencies = vec![v.clone()];
            let lookups = vec![lookup_same_error(t, v, CoinexError::NoPrice(t.clone(), v.clone()))];
            ConversionPlan { ids, currencies, lookups, formula: Formula::Divide }
        },
        (AssetKind::VsCurrency(a), AssetKind::VsCurrency(b)) => {
            let bridge = "bitcoin".to_owned();
            let ids = vec![bridge.clone()];
            let currencies = vec![a.clone(), b.clone()];
            let first = PriceLookup {
                coin: bridge.clone(),
                currency: to_lowercase(a.as_str()),
                if_coin_missing: CoinexError::NoBridgeQuotes,
                if_price_missing: CoinexError::NoBridgePrice(a.clone()),
            };
            let second = PriceLookup {
                coin: bridge,
                currency: to_lowercase(b.as_str()),
                if_coin_missing: CoinexError::NoBridgeQuotes,
                if_price_missing: CoinexError::NoBridgePrice(b.clone()),
            };
            let lookups = vec![first, second];
            ConversionPlan { ids, currencies, lookups, formula: Formula::SecondOverFirst }
        },
    };
    assert(r@.ids =~= conversion_plan(*from, *to).ids);
    assert(r@.currencies =~= conversion_plan(*from, *to).currencies);
    assert(r@.lookups =~= conversion_plan(*from, *to).lookups);
    r
}

/// Whether a key of a coin's price object names a price: every key but the
/// update time does, lowercased.
pub open spec fn quote_key_of(k: Seq<char>) -> Option<Seq<char>> {
    if k == "last_updated_at"@ {
        None
    } else {
        Some(unicode_lowercase(k))
    }
}

/// The currency under which a key of a coin's price object is recorded:
/// `None` for the update time, otherwise the key lowercased.
pub fn quote_key(k: &str) -> (r: Option<String>)
    ensures
        crate::resolve::opt_string_view(r) == quote_key_of(k@),
{
    let ks = k.to_owned();
    let skip = "last_updated_at".to_owned();
    if ks == skip {
        None
    } else {
        Some(to_lowercase(k))
    }
}

/// The currencies for which the price service quoted a coin, in the order
/// they were recorded; the prices themselves are kept alongside by position.
#[derive(Debug, Clone, PartialEq, Eq)]
pub struct PriceRow {
    pub coin: String,
    pub currencies: Vec<String>,
}

/// The last position in `names` holding `x` (a later entry replaces an earlier one).
pub open spec fn last_position(names: Seq<Seq<char>>, x: Seq<char>) -> Option<int>
    decreases names.len(),
{
    if names.len() == 0 {
        None
    } else if names.last() == x {
        Some(names.len() - 1)
    } else {
        last_position(names.drop_last(), x)
    }
}

/// What `last_position` finds: the last occurrence, or none at all.
pub proof fn lemma_last_position(names: Seq<Seq<char>>, x: Seq<char>)
    ensures
        match last_position(names, x) {
            Some(i) => 0 <= i < names.len() && names[i] == x && forall|j: int|
                i < j < names.len() ==> #[trigger] names[j] != x,
            None => forall|j: int| 0 <= j < names.len() ==> #[trigger] names[j] != x,
        },
    decreases names.len(),
{
    if names.len() > 0 {
        lemma_last_position(names.drop_last(), x);
        assert forall|j: int| 0 <= j < names.len() - 1 implies names.drop_last()[j] == names[j] by {}
    }
}

/// The coins of the rows.
pub open spec fn row_coins(rows: Seq<PriceRow>) -> Seq<Seq<char>> {
    rows.map_values(|r: PriceRow| r.coin@)
}

/// Where one lookup finds its price: the row of the coin and the position of
/// the currency in it, or the lookup's error.
pub open spec fn locate_one(rows: Seq<PriceRow>, l: LookupView) -> Result<(usize, usize), ErrorView> {
    match last_position(row_coins(rows), l.coin) {
        None => Err(l.if_coin_missing),
        Some(r) => match last_position(string_views(rows[r].currencies@), l.currency) {
            None => Err(l.if_price_missing),
            Some(c) => Ok((r as usize, c as usize)),
        },
    }
}

/// Where all lookups find their prices, in order; the first lookup that
/// fails gives the error.
pub open spec fn locate_all(rows: Seq<PriceRow>, ls: Seq<LookupView>) -> Result<Seq<(usize, usize)>, ErrorView>
    decreases ls.len(),
{
    if ls.len() == 0 {
        Ok(Seq::empty())
    } else {
        match locate_all(rows, ls.drop_last()) {
            Err(e) => Err(e),
            Ok(ps) => match locate_one(rows, ls.last()) {
                Err(e) => Err(e),
                Ok(p) => Ok(ps.push(p)),
            },
        }
    }
}

/// Once a prefix of the lookups fails, all of them fail with the same error.
proof fn lemma_locate_all_error_persists(rows: Seq<PriceRow>, ls: Seq<LookupView>, k: int)
    requires
        0 <= k <= ls.len(),
        locate_all(rows, ls.take(k)) is Err,
    ensures
        locate_all(rows, ls) == locate_all(rows, ls.take(k)),
    decreases ls.len() - k,
{
    if k < ls.len() {
        assert(ls.take(k + 1).drop_last() =~= ls.take(k));
        lemma_locate_all_error_persists(rows, ls, k + 1);
    } else {
        assert(ls.take(k) =~= ls);
    }
}

fn last_position_of(names: &Vec<String>, x: &String) -> (r: Option<usize>)
    ensures
        match r {
            Some(i) => last_position(string_views(names@), x@) == Some(i as int),
            None => last_position(string_views(names@), x@) is None,
        },
{
    let ghost views = string_views(names@);
    let mut i: usize = names.len();
    assert(views.take(i as int) =~= views);
    while i > 0
        invariant
            i <= names.len(),
            views == string_views(names@),
            last_position(views, x@) == last_position(views.take(i as int), x@),
        decreases i,
    {
        assert(views.take(i as int).drop_last() =~= views.take(i - 1));
        if names[i - 1] == *x {
            return Some(i - 1);
        }
        i = i - 1;
    }
    None
}

fn last_row_of(rows: &Vec<PriceRow>, x: &String) -> (r: Option<usize>)
    ensures
        match r {
            Some(i) => last_position(row_coins(rows@), x@) == Some(i as int),
            None => last_position(row_coins(rows@), x@) is None,
        },
{
    let ghost views = row_coins(rows@);
    let mut i: usize = rows.len();
    assert(views.take(i as int) =~= views);
    while i > 0
        invariant
            i <= rows.len(),
            views == row_coins(rows@),
            last_position(views, x@) == last_position(views.take(i as int), x@),
        decreases i,
    {
        assert(views.take(i as int).drop_last() =~= views.take(i - 1));
        if rows[i - 1].coin == *x {
            return Some(i - 1);
        }
        i = i - 1;
    }
    None
}

/// Finds, for each lookup of `plan` in order, the row of its coin and the
/// position of its currency in that row (the last one where a name occurs
/// twice); the first lookup that finds nothing gives its error.
pub fn locate_prices(plan: &ConversionPlan, rows: &Vec<PriceRow>) -> (r: Result<Vec<(usize, usize)>, CoinexError>)
    ensures
        match r {
            Ok(ps) => locate_all(rows@, plan@.lookups) == Ok::<Seq<(usize, usize)>, ErrorView>(ps@),
            Err(e) => locate_all(rows@, plan@.lookups) == Err::<Seq<(usize, usize)>, ErrorView>(e@),
        },
{
    let ghost ls = plan@.lookups;
    let mut out: Vec<(usize, usize)> = Vec::new();
    let mut i: usize = 0;
    while i < plan.lookups.len()
        invariant
            i <= plan.lookups.len(),
            ls == plan@.lookups,
            ls.len() == plan.lookups.len(),
            locate_all(rows@, ls.take(i as int)) == Ok::<Seq<(usize, usize)>, ErrorView>(out@),
        decreases plan.lookups.len() - i,
    {
        assert(ls.take(i + 1).drop_last() =~= ls.take(i as int));
        let l = &plan.lookups[i];
        assert(ls[i as int] == l@);
        match last_row_of(rows, &l.coin) {
            None => {
                proof { lemma_locate_all_error_persists(rows@, ls, i + 1); }
                return Err(l.if_coin_missing.duplicate());
            },
            Some(row) => {
                proof { lemma_last_position(row_coins(rows@), l.coin@); }
                match last_position_of(&rows[row].currencies, &l.currency) {
                    None => {
                        proof { lemma_locate_all_error_persists(rows@, ls, i + 1); }
                        return Err(l.if_price_missing.duplicate());
                    },
                    Some(col) => {
                        out.push((row, col));
                    },
                }
            },
        }
        i = i + 1;
    }
    assert(ls.take(i as int) =~= ls);
    Ok(out)
}

/// One entry of a coin's price object as answered: its key, and whether its
/// value is a number.
#[derive(Debug, Clone, PartialEq, Eq)]
pub struct QuoteEntry {
    pub key: String,
    pub is_number: bool,
}

/// One coin of a price answer: its id, and the entries of its value when that
/// value is an object (`None` otherwise).
#[derive(Debug, Clone, PartialEq, Eq)]
pub struct QuoteAnswer {
    pub coin: String,
    pub entries: Option<Vec<QuoteEntry>>,
}

/// Where the prices of a row come from: the position of the coin in the
/// answer, and for each recorded currency the position of its entry.
#[derive(Debug, Clone, PartialEq, Eq)]
pub struct PriceSource {
    pub answer: usize,
    pub entries: Vec<usize>,
}

/// An entry records a price: its value is a number and its key is not the
/// update time.
pub open spec fn entry_kept(e: QuoteEntry) -> bool {
    e.is_number && quote_key_of(e.key@) is Some
}

/// The positions of the entries that record a price, in order.
pub open spec fn kept_positions(es: Seq<QuoteEntry>) -> Seq<usize>
    decreases es.len(),
{
    if es.len() == 0 {
        Seq::empty()
    } else {
        let p = kept_positions(es.drop_last());
        if entry_kept(es.last()) {
            p.push((es.len() - 1) as usize)
        } else {
            p
        }
    }
}

/// The positions of the answered coins whose value is an object, in order.
pub open spec fn object_positions(ans: Seq<QuoteAnswer>) -> Seq<usize>
    decreases ans.len(),
{
    if ans.len() == 0 {
        Seq::empty()
    } else {
        let p = object_positions(ans.drop_last());
        if ans.last().entries is Some {
            p.push((ans.len() - 1) as usize)
        } else {
            p
        }
    }
}

/// Positions found by `kept_positions` lie within the entries.
pub proof fn lemma_kept_positions_in_range(es: Seq<QuoteEntry>)
    ensures
        forall|k: int| 0 <= k < kept_positions(es).len() ==> #[trigger] kept_positions(es)[k] < es.len(),
    decreases es.len(),
{
    if es.len() > 0 {
        let p = kept_positions(es.drop_last());
        lemma_kept_positions_in_range(es.drop_last());
        assert forall|k: int| 0 <= k < kept_positions(es).len() implies #[trigger] kept_positions(es)[k] < es.len() by {
            if k < p.len() {
                assert(kept_positions(es)[k] == p[k]);
            }
        }
    }
}

/// Positions found by `object_positions` lie within the answer.
pub proof fn lemma_object_positions_in_range(ans: Seq<QuoteAnswer>)
    ensures
        forall|k: int| 0 <= k < object_positions(ans).len() ==> #[trigger] object_positions(ans)[k] < ans.len(),
    decreases ans.len(),
{
    if ans.len() > 0 {
        let p = object_positions(ans.drop_last());
        lemma_object_positions_in_range(ans.drop_last());
        assert forall|k: int| 0 <= k < object_positions(ans).len() implies #[trigger] object_positions(ans)[k] < ans.len() by {
            if k < p.len() {
                assert(object_positions(ans)[k] == p[k]);
            }
        }
    }
}

/// The row recorded for one coin: the lowercased keys of the entries that
/// record a price, with their positions.
pub fn price_row(coin: &String, entries: &Vec<QuoteEntry>) -> (r: (PriceRow, Vec<usize>))
    ensures
        r.0.coin@ == coin@,
        r.1@ == kept_positions(entries@),
        r.0.currencies.len() == r.1.len(),
        forall|k: int| #![trigger r.1@[k]] 0 <= k < r.1.len() ==> r.1@[k] < entries.len() && r.0.currencies@[k]@
            == unicode_lowercase(entries@[r.1@[k] as int].key@),
{
    let mut currencies: Vec<String> = Vec::new();
    let mut positions: Vec<usize> = Vec::new();
    let mut i: usize = 0;
    while i < entries.len()
        invariant
            i <= entries.len(),
            positions@ == kept_positions(entries@.take(i as int)),
            currencies.len() == positions.len(),
            forall|k: int| #![trigger positions@[k]] 0 <= k < positions.len() ==> positions@[k] < i && currencies@[k]@
                == unicode_lowercase(entries@[positions@[k] as int].key@),
        decreases entries.len() - i,
    {
        assert(entries@.take(i + 1).drop_last() =~= entries@.take(i as int));
        assert(entries@.take(i + 1).last() == entries@[i as int]);
        let e = &entries[i];
        let ghost old_cur = currencies@;
        let ghost old_pos = positions@;
        if e.is_number {
            match quote_key(e.key.as_str()) {
                Some(key) => {
                    currencies.push(key);
                    positions.push(i);
                },
                None => {},
            }
        }
        assert forall|k: int| #![trigger positions@[k]] 0 <= k < positions.len() implies positions@[k] < i + 1
            && currencies@[k]@ == unicode_lowercase(entries@[positions@[k] as int].key@) by {
            if k < old_pos.len() {
                assert(positions@[k] == old_pos[k]);
                assert(currencies@[k] == old_cur[k]);
                assert(old_pos[k] < i);
            }
        }
        i = i + 1;
    }
    assert(entries@.take(entries.len() as int) =~= entries@);
    (PriceRow { coin: coin.clone(), currencies }, positions)
}

/// The rows of a price answer: one per coin whose value is an object, in the
/// answer's order, each with the sources of its prices.
pub fn price_rows(answers: &Vec<QuoteAnswer>) -> (r: (Vec<PriceRow>, Vec<PriceSource>))
    ensures
        r.0.len() == r.1.len(),
        r.1.len() == object_positions(answers@).len(),
        forall|j: int| 0 <= j < r.1.len() ==> {
            let a = #[trigger] r.1@[j].answer;
            &&& a == object_positions(answers@)[j]
            &&& a < answers.len()
            &&& answers@[a as int].entries is Some
            &&& r.0@[j].coin@ == answers@[a as int].coin@
            &&& r.1@[j].entries@ == kept_positions(answers@[a as int].entries->0@)
            &&& r.0@[j].currencies.len() == r.1@[j].entries.len()
            &&& forall|k: int| #![trigger r.1@[j].entries@[k]] 0 <= k < r.1@[j].entries.len() ==> r.1@[j].entries@[k]
                < answers@[a as int].entries->0.len() && r.0@[j].currencies@[k]@
                == unicode_lowercase(answers@[a as int].entries->0@[r.1@[j].entries@[k] as int].key@)
        },
{
    let mut rows: Vec<PriceRow> = Vec::new();
    let mut sources: Vec<PriceSource> = Vec::new();
    let mut i: usize = 0;
    while i < answers.len()
        invariant
            i <= answers.len(),
            rows.len() == sources.len(),
            sources.len() == object_positions(answers@.take(i as int)).len(),
            forall|j: int| 0 <= j < sources.len() ==> {
                let a = #[trigger] sources@[j].answer;
                &&& a == object_positions(answers@.take(i as int))[j]
                &&& a < i
                &&& answers@[a as int].entries is Some
                &&& rows@[j].coin@ == answers@[a as int].coin@
                &&& sources@[j].entries@ == kept_positions(answers@[a as int].entries->0@)
                &&& rows@[j].currencies.len() == sources@[j].entries.len()
                &&& forall|k: int| #![trigger sources@[j].entries@[k]] 0 <= k < sources@[j].entries.len() ==> sources@[j].entries@[k]
                    < answers@[a as int].entries->0.len() && rows@[j].currencies@[k]@
                    == unicode_lowercase(answers@[a as int].entries->0@[sources@[j].entries@[k] as int].key@)
            },
        decreases answers.len() - i,
    {
        assert(answers@.take(i + 1).drop_last() =~= answers@.take(i as int));
        assert(answers@.take(i + 1).last() == answers@[i as int]);
        let ans = &answers[i];
        let ghost old_rows = rows@;
        let ghost old_src = sources@;
        match &ans.entries {
            Some(es) => {
                let (row, positions) = price_row(&ans.coin, es);
                rows.push(row);
                sources.push(PriceSource { answer: i, entries: positions });
            },
            None => {},
        }
        assert forall|j: int| 0 <= j < sources.len() implies {
            let a = #[trigger] sources@[j].answer;
            &&& a == object_positions(answers@.take(i + 1))[j]
            &&& a < i + 1
            &&& answers@[a as int].entries is Some
            &&& rows@[j].coin@ == answers@[a as int].coin@
            &&& sources@[j].entries@ == kept_positions(answers@[a as int].entries->0@)
            &&& rows@[j].currencies.len() == sources@[j].entries.len()
            &&& forall|k: int| #![trigger sources@[j].entries@[k]] 0 <= k < sources@[j].entries.len() ==> sources@[j].entries@[k]
                < answers@[a as int].entries->0.len() && rows@[j].currencies@[k]@
                == unicode_lowercase(answers@[a as int].entries->0@[sources@[j].entries@[k] as int].key@)
        } by {
            if j < old_src.len() {
                assert(sources@[j] == old_src[j]);
                assert(rows@[j] == old_rows[j]);
                let a = old_src[j].answer;
                assert(object_positions(answers@.take(i + 1))[j] == object_positions(answers@.take(i as int))[j]);
            }
        }
        i = i + 1;
    }
    assert(answers@.take(answers.len() as int) =~= answers@);
    (rows, sources)
}

} // verus!
