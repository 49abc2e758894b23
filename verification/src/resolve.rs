//! Resolving what the user typed to a CoinGecko coin id: aliases first, then
//! the service's search, then the local coin list, with no fuzzy matching.

use vstd::prelude::*;
use crate::alias::{alias_coin_id, alias_target};
use crate::error::CoinexError;
use crate::text::{eq_ignore_ascii_case, str_eq_ignore_ascii_case, to_lowercase, trim, trimmed, unicode_lowercase};

verus! {

/// A coin of the CoinGecko coin list.
#[derive(Debug, Clone, PartialEq, Eq)]
pub struct CoinInfo {
    pub id: String,
    pub symbol: String,
    pub name: String,
}

/// A coin found by the CoinGecko search, with its market-cap rank when it has one.
#[derive(Debug, Clone, PartialEq, Eq)]
pub struct SearchCoin {
    pub id: String,
    pub symbol: String,
    pub name: String,
    pub market_cap_rank: Option<i64>,
}

/// Which field of a coin a query is matched against.
#[derive(Debug, Clone, Copy, PartialEq, Eq)]
pub enum MatchBy {
    /// The id, ignoring ASCII case.
    Id,
    /// The symbol, ignoring ASCII case.
    Symbol,
    /// The name, once lowercased, must equal the query.
    Name,
}

/// Whether a coin with these fields matches the (already lowercased) query `q`.
pub open spec fn fields_match(by: MatchBy, id: Seq<char>, symbol: Seq<char>, name: Seq<char>, q: Seq<char>) -> bool {
    match by {
        MatchBy::Id => eq_ignore_ascii_case(id, q),
        MatchBy::Symbol => eq_ignore_ascii_case(symbol, q),
        MatchBy::Name => unicode_lowercase(name) == q,
    }
}

/// Whether a listed coin matches `q`.
pub open spec fn coin_matches(by: MatchBy, c: CoinInfo, q: Seq<char>) -> bool {
    fields_match(by, c.id@, c.symbol@, c.name@, q)
}

/// Whether a search result matches `q`.
pub open spec fn search_matches(by: MatchBy, c: SearchCoin, q: Seq<char>) -> bool {
    fields_match(by, c.id@, c.symbol@, c.name@, q)
}

/// The index of the first listed coin that matches `q`.
pub open spec fn first_coin(s: Seq<CoinInfo>, by: MatchBy, q: Seq<char>) -> Option<int>
    decreases s.len(),
{
    if s.len() == 0 {
        None
    } else {
        match first_coin(s.drop_last(), by, q) {
            Some(i) => Some(i),
            None => if coin_matches(by, s.last(), q) {
                Some(s.len() - 1)
            } else {
                None
            },
        }
    }
}

/// The index of the first search result that matches `q`.
pub open spec fn first_search(s: Seq<SearchCoin>, by: MatchBy, q: Seq<char>) -> Option<int>
    decreases s.len(),
{
    if s.len() == 0 {
        None
    } else {
        match first_search(s.drop_last(), by, q) {
            Some(i) => Some(i),
            None => if search_matches(by, s.last(), q) {
                Some(s.len() - 1)
            } else {
                None
            },
        }
    }
}

/// The key by which search results are ranked: their market-cap rank, with
/// unranked coins last.
pub open spec fn rank_key(c: SearchCoin) -> i64 {
    match c.market_cap_rank {
        Some(r) => r,
        None => i64::MAX,
    }
}

/// The index of the search result whose symbol matches `q` with the best
/// (lowest) rank key; among equal keys, the earliest one.
pub open spec fn best_symbol(s: Seq<SearchCoin>, q: Seq<char>) -> Option<int>
    decreases s.len(),
{
    if s.len() == 0 {
        None
    } else {
        let prev = best_symbol(s.drop_last(), q);
        let i = s.len() - 1;
        if search_matches(MatchBy::Symbol, s[i], q) && (prev is None || rank_key(s[i]) < rank_key(
            s[prev->0],
        )) {
            Some(i)
        } else {
            prev
        }
    }
}

/// The id that the search results give for `q`: an id match first, then a
/// name match, then the symbol match with the best market-cap rank.
pub open spec fn search_pick(s: Seq<SearchCoin>, q: Seq<char>) -> Option<Seq<char>> {
    match first_search(s, MatchBy::Id, q) {
        Some(i) => Some(s[i].id@),
        None => match first_search(s, MatchBy::Name, q) {
            Some(i) => Some(s[i].id@),
            None => match best_symbol(s, q) {
                Some(i) => Some(s[i].id@),
                None => None,
            },
        },
    }
}

/// The id that the local coin list gives for `q`: an id match first, then a
/// symbol match, then a name match.
pub open spec fn local_pick(s: Seq<CoinInfo>, q: Seq<char>) -> Option<Seq<char>> {
    match first_coin(s, MatchBy::Id, q) {
        Some(i) => Some(s[i].id@),
        None => match first_coin(s, MatchBy::Symbol, q) {
            Some(i) => Some(s[i].id@),
            None => match first_coin(s, MatchBy::Name, q) {
                Some(i) => Some(s[i].id@),
                None => None,
            },
        },
    }
}

/// The view of an optional string.
pub open spec fn opt_string_view(o: Option<String>) -> Option<Seq<char>> {
    match o {
        Some(t) => Some(t@),
        None => None,
    }
}

/// The normalized form of a coin query: trimmed and lowercased.
pub open spec fn normalized_query(s: Seq<char>) -> Seq<char> {
    unicode_lowercase(trimmed(s))
}

/// What `first_coin` finds: the first match, or no match at all.
pub proof fn lemma_first_coin(s: Seq<CoinInfo>, by: MatchBy, q: Seq<char>)
    ensures
        match first_coin(s, by, q) {
            Some(i) => 0 <= i < s.len() && coin_matches(by, s[i], q) && forall|j: int|
                0 <= j < i ==> !coin_matches(by, #[trigger] s[j], q),
            None => forall|j: int| 0 <= j < s.len() ==> !coin_matches(by, #[trigger] s[j], q),
        },
    decreases s.len(),
{
    if s.len() > 0 {
        lemma_first_coin(s.drop_last(), by, q);
        assert forall|j: int| 0 <= j < s.len() - 1 implies s.drop_last()[j] == s[j] by {}
    }
}

/// What `first_search` finds: the first match, or no match at all.
pub proof fn lemma_first_search(s: Seq<SearchCoin>, by: MatchBy, q: Seq<char>)
    ensures
        match first_search(s, by, q) {
            Some(i) => 0 <= i < s.len() && search_matches(by, s[i], q) && forall|j: int|
                0 <= j < i ==> !search_matches(by, #[trigger] s[j], q),
            None => forall|j: int| 0 <= j < s.len() ==> !search_matches(by, #[trigger] s[j], q),
        },
    decreases s.len(),
{
    if s.len() > 0 {
        lemma_first_search(s.drop_last(), by, q);
        assert forall|j: int| 0 <= j < s.len() - 1 implies s.drop_last()[j] == s[j] by {}
    }
}

/// Among the search results whose symbol matches, the chosen one has the best
/// market-cap rank (unranked coins counting as worst), and no earlier match
/// ranks as well; when nothing is chosen, no symbol matches.
pub proof fn lemma_best_symbol_has_best_rank(s: Seq<SearchCoin>, q: Seq<char>)
    ensures
        match best_symbol(s, q) {
            Some(i) => {
                &&& 0 <= i < s.len()
                &&& search_matches(MatchBy::Symbol, s[i], q)
                &&& forall|j: int|
                    0 <= j < s.len() && search_matches(MatchBy::Symbol, #[trigger] s[j], q)
                        ==> rank_key(s[i]) <= rank_key(s[j])
                &&& forall|j: int|
                    0 <= j < i && search_matches(MatchBy::Symbol, #[trigger] s[j], q) ==> rank_key(
                        s[i],
                    ) < rank_key(s[j])
            },
            None => forall|j: int|
                0 <= j < s.len() ==> !search_matches(MatchBy::Symbol, #[trigger] s[j], q),
        },
    decreases s.len(),
{
    if s.len() > 0 {
        lemma_best_symbol_has_best_rank(s.drop_last(), q);
        assert forall|j: int| 0 <= j < s.len() - 1 implies s.drop_last()[j] == s[j] by {}
    }
}

fn fields_match_exec(by: MatchBy, id: &String, symbol: &String, name: &String, q: &str) -> (r: bool)
    ensures
        r == fields_match(by, id@, symbol@, name@, q@),
{
    match by {
        MatchBy::Id => str_eq_ignore_ascii_case(id.as_str(), q),
        MatchBy::Symbol => str_eq_ignore_ascii_case(symbol.as_str(), q),
        MatchBy::Name => {
            let lower = to_lowercase(name.as_str());
            let qs = q.to_owned();
            lower == qs
        },
    }
}

/// The position of the first listed coin that matches `q`.
pub fn find_coin(coins: &Vec<CoinInfo>, by: MatchBy, q: &str) -> (r: Option<usize>)
    ensures
        match r {
            Some(i) => first_coin(coins@, by, q@) == Some(i as int),
            None => first_coin(coins@, by, q@) is None,
        },
{
    let mut found: Option<usize> = None;
    let mut i: usize = 0;
    while i < coins.len()
        invariant
            i <= coins.len(),
            match found {
                Some(k) => first_coin(coins@.take(i as int), by, q@) == Some(k as int),
                None => first_coin(coins@.take(i as int), by, q@) is None,
            },
        decreases coins.len() - i,
    {
        assert(coins@.take(i + 1).drop_last() =~= coins@.take(i as int));
        if found.is_none() {
            let c = &coins[i];
            if fields_match_exec(by, &c.id, &c.symbol, &c.name, q) {
                found = Some(i);
            }
        }
        i = i + 1;
    }
    assert(coins@.take(coins.len() as int) =~= coins@);
    found
}

/// The position of the first search result that matches `q`.
pub fn find_search(coins: &Vec<SearchCoin>, by: MatchBy, q: &str) -> (r: Option<usize>)
    ensures
        match r {
            Some(i) => first_search(coins@, by, q@) == Some(i as int),
            None => first_search(coins@, by, q@) is None,
        },
{
    let mut found: Option<usize> = None;
    let mut i: usize = 0;
    while i < coins.len()
        invariant
            i <= coins.len(),
            match found {
                Some(k) => first_search(coins@.take(i as int), by, q@) == Some(k as int),
                None => first_search(coins@.take(i as int), by, q@) is None,
            },
        decreases coins.len() - i,
    {
        assert(coins@.take(i + 1).drop_last() =~= coins@.take(i as int));
        if found.is_none() {
            let c = &coins[i];
            if fields_match_exec(by, &c.id, &c.symbol, &c.name, q) {
                found = Some(i);
            }
        }
        i = i + 1;
    }
    assert(coins@.take(coins.len() as int) =~= coins@);
    found
}

fn rank_key_exec(c: &SearchCoin) -> (r: i64)
    ensures
        r == rank_key(*c),
{
    match c.market_cap_rank {
        Some(r) => r,
        None => i64::MAX,
    }
}

/// The position of the symbol match with the best market-cap rank.
pub fn find_best_symbol(coins: &Vec<SearchCoin>, q: &str) -> (r: Option<usize>)
    ensures
        match r {
            Some(i) => best_symbol(coins@, q@) == Some(i as int),
            None => best_symbol(coins@, q@) is None,
        },
{
    let mut best: Option<usize> = None;
    let mut i: usize = 0;
    while i < coins.len()
        invariant
            i <= coins.len(),
            match best {
                Some(k) => k < i && best_symbol(coins@.take(i as int), q@) == Some(k as int),
                None => best_symbol(coins@.take(i as int), q@) is None,
            },
        decreases coins.len() - i,
    {
        let ghost prefix = coins@.take(i + 1);
        assert(prefix.drop_last() =~= coins@.take(i as int));
        assert(prefix[i as int] == coins@[i as int]);
        let c = &coins[i];
        if fields_match_exec(MatchBy::Symbol, &c.id, &c.symbol, &c.name, q) {
            match best {
                None => {
                    best = Some(i);
                },
                Some(k) => {
                    assert(prefix[k as int] == coins@[k as int]);
                    if rank_key_exec(c) < rank_key_exec(&coins[k]) {
                        best = Some(i);
                    }
                },
            }
        }
        i = i + 1;
    }
    assert(coins@.take(coins.len() as int) =~= coins@);
    best
}

/// The coin id that the search results give for `q` (already trimmed and
/// lowercased): an exact id match (ignoring ASCII case), else an exact name
/// match, else among exact symbol matches the best market-cap rank.
pub fn pick_search_result(coins: &Vec<SearchCoin>, q: &str) -> (r: Option<String>)
    ensures
        opt_string_view(r) == search_pick(coins@, q@),
{
    proof {
        lemma_first_search(coins@, MatchBy::Id, q@);
        lemma_first_search(coins@, MatchBy::Name, q@);
        lemma_best_symbol_has_best_rank(coins@, q@);
    }
    if let Some(i) = find_search(coins, MatchBy::Id, q) {
        return Some(coins[i].id.clone());
    }
    if let Some(i) = find_search(coins, MatchBy::Name, q) {
        return Some(coins[i].id.clone());
    }
    if let Some(i) = find_best_symbol(coins, q) {
        return Some(coins[i].id.clone());
    }
    None
}

/// The query sent to the search: the text trimmed and lowercased, or nothing
/// when that leaves it empty.
pub fn search_query(query: &str) -> (r: Option<String>)
    ensures
        opt_string_view(r) == (if normalized_query(query@).len() == 0 {
            None
        } else {
            Some(normalized_query(query@))
        }),
        r is None <==> trimmed(query@).len() == 0,
{
    let t = trim(query);
    let q = to_lowercase(t.as_str());
    if q.as_str().is_empty() {
        None
    } else {
        Some(q)
    }
}

/// Where the resolution of a coin stands before the search is asked.
#[derive(Debug, Clone, PartialEq, Eq)]
pub enum ResolveStep {
    /// The coin is known without asking: this is its id.
    Resolved(String),
    /// The search must be asked with this normalized query.
    SearchOnline(String),
}

/// Starts resolving `s`: an empty query is refused, an alias is answered at
/// once, anything else goes to the search with its normalized form.
pub fn begin_resolve(s: &str) -> (r: Result<ResolveStep, CoinexError>)
    ensures
        normalized_query(s@).len() == 0 <==> r matches Err(CoinexError::EmptyCoin),
        trimmed(s@).len() == 0 <==> r matches Err(CoinexError::EmptyCoin),
        r is Err ==> r matches Err(CoinexError::EmptyCoin),
        r matches Ok(ResolveStep::Resolved(id)) <==> (normalized_query(s@).len() > 0
            && alias_target(normalized_query(s@)) is Some),
        r matches Ok(ResolveStep::Resolved(id)) ==> Some(id@) == alias_target(
            normalized_query(s@),
        ),
        r matches Ok(ResolveStep::SearchOnline(q)) ==> q@ == normalized_query(s@),
{
    let t = trim(s);
    let q = to_lowercase(t.as_str());
    if q.as_str().is_empty() {
        return Err(CoinexError::EmptyCoin);
    }
    match alias_coin_id(q.as_str()) {
        Some(id) => Ok(ResolveStep::Resolved(id.to_owned())),
        None => Ok(ResolveStep::SearchOnline(q)),
    }
}

/// Finishes resolving `s` (normalized to `q`) once the search has answered
/// `online`: a search hit wins, then the local list by id, symbol and name;
/// otherwise the coin is unknown.
pub fn finish_resolve(coins: &Vec<CoinInfo>, s: &str, q: &str, online: Option<String>) -> (r:
    Result<String, CoinexError>)
    ensures
        match online {
            Some(id) => r matches Ok(x) && x@ == id@,
            None => match local_pick(coins@, q@) {
                Some(id) => r matches Ok(x) && x@ == id,
                None => r matches Err(CoinexError::UnknownCoin(t)) && t@ == s@,
            },
        },
{
    if let Some(id) = online {
        return Ok(id);
    }
    proof {
        lemma_first_coin(coins@, MatchBy::Id, q@);
        lemma_first_coin(coins@, MatchBy::Symbol, q@);
        lemma_first_coin(coins@, MatchBy::Name, q@);
    }
    if let Some(i) = find_coin(coins, MatchBy::Id, q) {
        return Ok(coins[i].id.clone());
    }
    if let Some(i) = find_coin(coins, MatchBy::Symbol, q) {
        return Ok(coins[i].id.clone());
    }
    if let Some(i) = find_coin(coins, MatchBy::Name, q) {
        return Ok(coins[i].id.clone());
    }
    Err(CoinexError::UnknownCoin(s.to_owned()))
}

/// `x` equals `q` once ASCII capitals in `x` are lowercased (the query `q`
/// being already lowercase): written out character by character.
pub open spec fn equal_up_to_ascii_capitals(x: Seq<char>, q: Seq<char>) -> bool {
    &&& x.len() == q.len()
    &&& forall|i: int|
        0 <= i < q.len() ==> (#[trigger] x[i] == q[i] || (97 <= (q[i] as u32) && (q[i] as u32) <= 122
            && (x[i] as u32) + 32 == (q[i] as u32)))
}

/// A symbol, id or name that equals the query up to ASCII capitals matches
/// it: symbols and ids ignore ASCII case, in the search results and in the
/// local coin list alike; a symbol of another length never matches.
pub proof fn lemma_matching_ignores_ascii_case(c: SearchCoin, l: CoinInfo, q: Seq<char>)
    ensures
        equal_up_to_ascii_capitals(c.symbol@, q) ==> search_matches(MatchBy::Symbol, c, q),
        equal_up_to_ascii_capitals(c.id@, q) ==> search_matches(MatchBy::Id, c, q),
        equal_up_to_ascii_capitals(l.symbol@, q) ==> coin_matches(MatchBy::Symbol, l, q),
        equal_up_to_ascii_capitals(l.id@, q) ==> coin_matches(MatchBy::Id, l, q),
        c.symbol@.len() != q.len() ==> !search_matches(MatchBy::Symbol, c, q),
        l.symbol@.len() != q.len() ==> !coin_matches(MatchBy::Symbol, l, q),
{
    assert forall|x: Seq<char>| equal_up_to_ascii_capitals(x, q) implies eq_ignore_ascii_case(x, q) by {
        assert forall|i: int| 0 <= i < x.len() implies #[trigger] crate::text::ascii_fold(x[i])
            == crate::text::ascii_fold(q[i]) by {
            assert(x[i] == q[i] || (97 <= (q[i] as u32) && (q[i] as u32) <= 122 && (x[i] as u32)
                + 32 == (q[i] as u32)));
        }
    }
}

/// A lone search result whose symbol equals the query up to ASCII capitals
/// is the one picked.
pub proof fn lemma_lone_symbol_match_is_picked(c: SearchCoin, q: Seq<char>)
    requires
        equal_up_to_ascii_capitals(c.symbol@, q),
    ensures
        search_pick(seq![c], q) == Some(c.id@),
{
    lemma_matching_ignores_ascii_case(c, CoinInfo { id: c.id, symbol: c.symbol, name: c.name }, q);
    let s = seq![c];
    assert(s.drop_last() =~= Seq::<SearchCoin>::empty());
    assert(s.last() == c);
    assert(s[0] == c);
    assert(best_symbol(s.drop_last(), q) is None);
    assert(first_search(s.drop_last(), MatchBy::Id, q) is None);
    assert(first_search(s.drop_last(), MatchBy::Name, q) is None);
    assert(best_symbol(s, q) == Some(0int));
}

} // verus!
