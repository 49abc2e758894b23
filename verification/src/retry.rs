//! When a request to the price service is retried, how long to wait first,
//! and when to give up.

use vstd::prelude::*;
use crate::error::{CoinexError, ErrorView};

verus! {

/// A byte that may stand in a header value read as text: visible ASCII or tab.
pub open spec fn visible_ascii(b: u8) -> bool {
    (32 <= b && b < 127) || b == 9
}

/// An ASCII decimal digit.
pub open spec fn is_digit(b: u8) -> bool {
    48 <= b && b <= 57
}

/// The number that a string of decimal digits denotes.
pub open spec fn decimal_value(d: Seq<u8>) -> int
    decreases d.len(),
{
    if d.len() == 0 {
        0
    } else {
        decimal_value(d.drop_last()) * 10 + (d.last() - 48)
    }
}

/// The digits of a number text: without one leading `+`.
pub open spec fn unsigned_digits(b: Seq<u8>) -> Seq<u8> {
    if b.len() > 0 && b[0] == 43 {
        b.drop_first()
    } else {
        b
    }
}

/// What reading `b` as a `u64` in decimal gives: an optional `+`, then at least
/// one digit and nothing else, of a value that fits.
pub open spec fn parsed_u64(b: Seq<u8>) -> Option<u64> {
    let d = unsigned_digits(b);
    if d.len() == 0 || exists|i: int| 0 <= i < d.len() && !is_digit(#[trigger] d[i]) {
        None
    } else if decimal_value(d) > u64::MAX {
        None
    } else {
        Some(decimal_value(d) as u64)
    }
}

/// The pause, in seconds, that a `Retry-After` header asks for: its number
/// of seconds capped at 15, or 2 seconds when it is absent, not text, or not
/// a number.
pub open spec fn retry_after_secs(header: Option<Seq<u8>>) -> u64 {
    match header {
        Some(b) => if (forall|i: int| 0 <= i < b.len() ==> visible_ascii(#[trigger] b[i]))
            && parsed_u64(b) is Some {
            if parsed_u64(b)->0 < 15 {
                parsed_u64(b)->0
            } else {
                15
            }
        } else {
            2
        },
        None => 2,
    }
}

proof fn lemma_decimal_value_grows(d: Seq<u8>, k: int)
    requires
        0 <= k <= d.len(),
        forall|i: int| 0 <= i < d.len() ==> is_digit(#[trigger] d[i]),
    ensures
        decimal_value(d) >= decimal_value(d.take(k)),
        decimal_value(d) >= 0,
    decreases d.len(),
{
    if d.len() > 0 {
        let p = d.drop_last();
        assert forall|i: int| 0 <= i < p.len() implies is_digit(#[trigger] p[i]) by {
            assert(p[i] == d[i]);
        }
        if k < d.len() {
            assert(p.take(k) =~= d.take(k));
            lemma_decimal_value_grows(p, k);
        } else {
            assert(d.take(k) =~= d);
            lemma_decimal_value_grows(p, 0);
        }
    } else {
        assert(d.take(k) =~= d);
    }
}

/// Reads `b` as a `u64` written in decimal, as `str::parse::<u64>` does.
pub fn parse_u64(b: &Vec<u8>) -> (r: Option<u64>)
    ensures
        r == parsed_u64(b@),
{
    let start: usize = if b.len() > 0 && b[0] == 43 { 1 } else { 0 };
    let ghost d = unsigned_digits(b@);
    assert(d =~= b@.subrange(start as int, b.len() as int));
    if start >= b.len() {
        assert(d.len() == 0);
        return None;
    }
    let mut value: u64 = 0;
    let mut i: usize = start;
    while i < b.len()
        invariant
            start <= i <= b.len(),
            d == unsigned_digits(b@),
            d =~= b@.subrange(start as int, b.len() as int),
            forall|k: int| 0 <= k < i - start ==> is_digit(#[trigger] d[k]),
            value == decimal_value(d.take(i - start)),
        decreases b.len() - i,
    {
        let c = b[i];
        assert(d[i - start] == c);
        if c < 48 || c > 57 {
            assert(!is_digit(d[i - start]));
            return None;
        }
        assert(d.take(i - start + 1).drop_last() =~= d.take(i - start));
        let next: u128 = (value as u128) * 10 + ((c - 48) as u128);
        if next > u64::MAX as u128 {
            proof {
                if forall|k: int| 0 <= k < d.len() ==> is_digit(#[trigger] d[k]) {
                    lemma_decimal_value_grows(d, i - start + 1);
                }
            }
            return None;
        }
        value = next as u64;
        i = i + 1;
    }
    assert(d.take(d.len() as int) =~= d);
    Some(value)
}

/// The pause, in seconds, before retrying a rate-limited request, given the
/// raw value of its `Retry-After` header (when there is one).
pub fn retry_after_delay(header: &Option<Vec<u8>>) -> (r: u64)
    ensures
        r == retry_after_secs(
            match header {
                Some(b) => Some(b@),
                None => None,
            },
        ),
{
    match header {
        None => 2,
        Some(b) => {
            let mut i: usize = 0;
            while i < b.len()
                invariant
                    i <= b.len(),
                    *header == Some(*b),
                    forall|k: int| 0 <= k < i ==> visible_ascii(#[trigger] b@[k]),
                decreases b.len() - i,
            {
                let c = b[i];
                if !((32 <= c && c < 127) || c == 9) {
                    assert(!visible_ascii(b@[i as int]));
                    return 2;
                }
                i = i + 1;
            }
            match parse_u64(b) {
                Some(n) => if n < 15 {
                    n
                } else {
                    15
                },
                None => 2,
            }
        },
    }
}

/// What one attempt at a request came to.
#[derive(Debug, Clone, PartialEq, Eq)]
pub enum Attempt {
    /// The server answered with a success status.
    Success,
    /// The server answered 429, with the raw `Retry-After` header if any.
    RateLimited(Option<Vec<u8>>),
    /// The server answered with another unsuccessful status.
    HttpFailure(u16),
    /// The request did not get an answer.
    NetworkFailure,
}

/// Sorts the outcome of a request: no answer (`status` is `None`), a success
/// status (200 to 299), a 429 with its raw `Retry-After` header, or another
/// unsuccessful status.
pub fn classify_response(status: Option<u16>, retry_after: Option<Vec<u8>>) -> (r: Attempt)
    ensures
        r == (match status {
            None => Attempt::NetworkFailure,
            Some(c) => if 200 <= c && c < 300 {
                Attempt::Success
            } else if c == 429 {
                Attempt::RateLimited(retry_after)
            } else {
                Attempt::HttpFailure(c)
            },
        }),
{
    match status {
        None => Attempt::NetworkFailure,
        Some(c) => if 200 <= c && c < 300 {
            Attempt::Success
        } else if c == 429 {
            Attempt::RateLimited(retry_after)
        } else {
            Attempt::HttpFailure(c)
        },
    }
}

/// What to do after an attempt.
#[derive(Debug, Clone, PartialEq, Eq)]
pub enum RetryAction {
    /// Hand the answer back.
    Accept,
    /// Wait this many milliseconds, then try again.
    Wait(u64),
    /// Stop and report the error.
    Fail(CoinexError),
}

/// The mathematical content of a [`RetryAction`].
pub ghost enum ActionView {
    Accept,
    Wait(u64),
    Fail(ErrorView),
}

impl View for RetryAction {
    type V = ActionView;

    open spec fn view(&self) -> ActionView {
        match self {
            RetryAction::Accept => ActionView::Accept,
            RetryAction::Wait(ms) => ActionView::Wait(*ms),
            RetryAction::Fail(e) => ActionView::Fail(e@),
        }
    }
}

/// The number of failed attempts after which a request that gets no answer
/// is given up.
pub const MAX_NETWORK_RETRIES: usize = 4;

/// The pause before the next try after a request got no answer, `tries`
/// attempts having been retried so far: 400 ms, doubling each time.
pub open spec fn network_backoff_ms(tries: usize) -> u64 {
    if tries == 0 {
        400
    } else if tries == 1 {
        800
    } else if tries == 2 {
        1600
    } else if tries == 3 {
        3200
    } else {
        6400
    }
}

/// The decision after an attempt, `tries` retries having happened so far.
pub open spec fn retry_decision(tries: usize, a: Attempt) -> ActionView {
    match a {
        Attempt::Success => ActionView::Accept,
        Attempt::RateLimited(h) => ActionView::Wait(
            (retry_after_secs(
                match h {
                    Some(b) => Some(b@),
                    None => None,
                },
            ) * 1000) as u64,
        ),
        Attempt::HttpFailure(code) => ActionView::Fail(ErrorView::HttpStatus(code)),
        Attempt::NetworkFailure => if tries >= MAX_NETWORK_RETRIES {
            ActionView::Fail(ErrorView::RetriesExhausted)
        } else {
            ActionView::Wait(network_backoff_ms(tries))
        },
    }
}

/// Decides what follows an attempt, `tries` retries having happened so far,
/// and how many retries will have happened when the next attempt is made.
/// A success is accepted; a 429 is always retried after the pause its
/// `Retry-After` header asks for; another status fails at once; a request
/// without an answer is retried with a doubling pause until four retries
/// have been made.
pub fn next_retry_step(tries: usize, attempt: &Attempt) -> (r: (RetryAction, usize))
    requires
        tries < usize::MAX,
    ensures
        r.0@ == retry_decision(tries, *attempt),
        r.1 == (if r.0 is Wait { tries + 1 } else { tries as int }),
{
    match attempt {
        Attempt::Success => (RetryAction::Accept, tries),
        Attempt::RateLimited(h) => {
            let secs = retry_after_delay(h);
            (RetryAction::Wait(secs * 1000), tries + 1)
        },
        Attempt::HttpFailure(code) => (RetryAction::Fail(CoinexError::HttpStatus(*code)), tries),
        Attempt::NetworkFailure => {
            if tries >= MAX_NETWORK_RETRIES {
                (RetryAction::Fail(CoinexError::RetriesExhausted), tries)
            } else {
                let backoff: u64 = if tries == 0 {
                    400
                } else if tries == 1 {
                    800
                } else if tries == 2 {
                    1600
                } else {
                    3200
                };
                (RetryAction::Wait(backoff), tries + 1)
            }
        },
    }
}

/// A `Retry-After` pause never exceeds 15 seconds.
pub proof fn lemma_retry_after_capped(header: Option<Seq<u8>>)
    ensures
        retry_after_secs(header) <= 15,
{
}

/// Every pause the retry policy takes lasts at most 15 seconds.
pub proof fn lemma_waits_bounded(tries: usize, a: Attempt)
    ensures
        retry_decision(tries, a) matches ActionView::Wait(ms) ==> ms <= 15000,
{
}

/// A rate-limited request is never given up: it is always retried.
pub proof fn lemma_rate_limit_always_retried(tries: usize, h: Option<Vec<u8>>)
    ensures
        retry_decision(tries, Attempt::RateLimited(h)) is Wait,
{
}

/// A request that gets no answer is retried with pauses of 400, 800, 1600 and
/// 3200 ms (each twice the one before), and is given up exactly when four
/// retries have already been made.
pub proof fn lemma_network_backoff(tries: usize)
    ensures
        retry_decision(tries, Attempt::NetworkFailure) matches ActionView::Fail(e) <==> tries >= 4,
        tries < 4 ==> retry_decision(tries, Attempt::NetworkFailure) == ActionView::Wait(
            network_backoff_ms(tries),
        ),
        1 <= tries < 4 ==> network_backoff_ms(tries) == 2 * network_backoff_ms((tries - 1) as usize),
        network_backoff_ms(0) + network_backoff_ms(1) + network_backoff_ms(2) + network_backoff_ms(3) == 6000,
{
}

/// Any unsuccessful answer other than 429 is reported at once with its
/// status, however many retries came before: it is never waited on.
pub proof fn lemma_other_failures_reported_at_once(tries: usize, code: u16)
    ensures
        retry_decision(tries, Attempt::HttpFailure(code)) == ActionView::Fail(ErrorView::HttpStatus(code)),
{
}

/// Only a success is accepted, and only a 429 or a request without an answer
/// (before four retries) is waited on and tried again.
pub proof fn lemma_what_is_retried(tries: usize, a: Attempt)
    ensures
        retry_decision(tries, a) is Accept <==> a is Success,
        retry_decision(tries, a) is Wait <==> (a is RateLimited || (a is NetworkFailure && tries < 4)),
{
}

} // verus!
