//! The local copy of the coin list: how long it stays usable, and when it is
//! fetched anew.

use vstd::prelude::*;
use crate::error::CoinexError;
use crate::resolve::CoinInfo;
use crate::text::is_white_space;

verus! {

/// What `humantime::parse_duration` gives for a text, in nanoseconds, or
/// `None` when it refuses the text.
pub uninterp spec fn humantime_duration_nanos(s: Seq<char>) -> Option<u128>;

/// An ASCII decimal digit.
pub open spec fn is_ascii_digit(c: char) -> bool {
    48 <= (c as u32) && (c as u32) <= 57
}

/// A character that humantime reads as part of a unit name: an ASCII letter or `µ`.
pub open spec fn is_unit_letter(c: char) -> bool {
    let x = c as u32;
    (65 <= x && x <= 90) || (97 <= x && x <= 122) || x == 0xb5
}

/// The length of a humantime unit in nanoseconds, by its name; 0 for a name
/// humantime does not know.
pub open spec fn unit_nanos(u: Seq<char>) -> int {
    if u == "nanos"@ || u == "nsec"@ || u == "ns"@ {
        1
    } else if u == "usec"@ || u == "us"@ || u == "\u{b5}s"@ {
        1_000
    } else if u == "millis"@ || u == "msec"@ || u == "ms"@ {
        1_000_000
    } else if u == "seconds"@ || u == "second"@ || u == "secs"@ || u == "sec"@ || u == "s"@ {
        1_000_000_000
    } else if u == "minutes"@ || u == "minute"@ || u == "min"@ || u == "mins"@ || u == "m"@ {
        60_000_000_000
    } else if u == "hours"@ || u == "hour"@ || u == "hr"@ || u == "hrs"@ || u == "h"@ {
        3_600_000_000_000
    } else if u == "days"@ || u == "day"@ || u == "d"@ {
        86_400_000_000_000
    } else if u == "weeks"@ || u == "week"@ || u == "wk"@ || u == "wks"@ || u == "w"@ {
        604_800_000_000_000
    } else if u == "months"@ || u == "month"@ || u == "M"@ {
        2_630_016_000_000_000
    } else if u == "years"@ || u == "year"@ || u == "yr"@ || u == "yrs"@ || u == "y"@ {
        31_557_600_000_000_000
    } else {
        0
    }
}

/// `2^64` seconds in nanoseconds: no running total of a duration read by
/// humantime may reach it.
pub const TTL_LIMIT_NANOS: u128 = 18_446_744_073_709_551_616_000_000_000;

/// `x`, but no more than `TTL_LIMIT_NANOS`.
pub open spec fn capped(x: int) -> int {
    if x < TTL_LIMIT_NANOS {
        x
    } else {
        TTL_LIMIT_NANOS as int
    }
}

/// The bound a term contributes: its number times its unit, plus one more unit
/// when it has a fractional part.
pub open spec fn term_bound(v: int, frac: bool, unit: Seq<char>) -> int {
    v * unit_nanos(unit) + (if frac {
        unit_nanos(unit)
    } else {
        0
    })
}

/// The bound on the rest `s` of a time-to-live text, in nanoseconds, while
/// reading a term whose number so far is `v` (capped), which has a fractional
/// part when `frac`, and whose unit name read so far is `unit`.
///
/// The terms are read as humantime reads them: a number of digits (white space
/// inside it is skipped), an optional `.` and fractional digits, then a unit
/// name of letters. Each term adds at most its number times its unit, and its
/// fractional part less than one more unit; a term with an unknown unit makes
/// humantime stop with an error before it is added.
pub open spec fn ttl_bound_from(s: Seq<char>, v: int, frac: bool, unit: Seq<char>) -> int
    decreases s.len(), unit.len(),
{
    if unit.len() > 0 && (s.len() == 0 || !is_unit_letter(s[0])) {
        term_bound(v, frac, unit) + ttl_bound_from(s, 0, false, Seq::empty())
    } else if s.len() == 0 {
        0
    } else if is_unit_letter(s[0]) {
        ttl_bound_from(s.drop_first(), v, frac, unit.push(s[0]))
    } else if is_ascii_digit(s[0]) {
        if frac {
            ttl_bound_from(s.drop_first(), v, true, unit)
        } else {
            ttl_bound_from(s.drop_first(), capped(v * 10 + ((s[0] as u32) - 48)), false, unit)
        }
    } else if is_white_space(s[0]) {
        ttl_bound_from(s.drop_first(), v, frac, unit)
    } else if (s[0] as u32) == 46 {
        ttl_bound_from(s.drop_first(), v, true, unit)
    } else {
        ttl_bound_from(s.drop_first(), 0, false, unit)
    }
}

/// The bound, in nanoseconds, on every running total that humantime reaches
/// while reading `s`.
pub open spec fn ttl_bound(s: Seq<char>) -> int {
    ttl_bound_from(s, 0, false, Seq::empty())
}

/// Whether humantime may read `s` without its running total reaching
/// `2^64` seconds.
///
/// Under this bound `Duration::new` inside humantime cannot overflow, which is
/// the only way it can panic. On a text outside it humantime panics or
/// reports an error, unless its terms have fractional parts and the duration
/// it describes falls short of `2^64` seconds by less than those parts: such
/// a text is refused although humantime would read it.
pub open spec fn ttl_text_fits(s: Seq<char>) -> bool {
    ttl_bound(s) < TTL_LIMIT_NANOS
}

proof fn lemma_bound_nonneg(s: Seq<char>, v: int, frac: bool, unit: Seq<char>)
    requires
        v >= 0,
    ensures
        ttl_bound_from(s, v, frac, unit) >= 0,
    decreases s.len(), unit.len(),
{
    if unit.len() > 0 && (s.len() == 0 || !is_unit_letter(s[0])) {
        lemma_bound_nonneg(s, 0, false, Seq::empty());
        assert(unit_nanos(unit) >= 0);
        assert(v * unit_nanos(unit) >= 0) by (nonlinear_arith)
            requires
                v >= 0,
                unit_nanos(unit) >= 0,
        ;
    } else if s.len() == 0 {
    } else if is_unit_letter(s[0]) {
        lemma_bound_nonneg(s.drop_first(), v, frac, unit.push(s[0]));
    } else if is_ascii_digit(s[0]) {
        if frac {
            lemma_bound_nonneg(s.drop_first(), v, true, unit);
        } else {
            lemma_bound_nonneg(s.drop_first(), capped(v * 10 + ((s[0] as u32) - 48)), false, unit);
        }
    } else if is_white_space(s[0]) {
        lemma_bound_nonneg(s.drop_first(), v, frac, unit);
    } else if (s[0] as u32) == 46 {
        lemma_bound_nonneg(s.drop_first(), v, true, unit);
    } else {
        lemma_bound_nonneg(s.drop_first(), 0, false, unit);
    }
}

fn same_chars(a: &Vec<char>, b: &str) -> (r: bool)
    ensures
        r == (a@ == b@),
{
    let bv = crate::text::chars_of(b);
    if a.len() != bv.len() {
        return false;
    }
    let mut i: usize = 0;
    while i < a.len()
        invariant
            bv@ == b@,
            a.len() == bv.len(),
            i <= a.len(),
            forall|k: int| 0 <= k < i ==> a@[k] == bv@[k],
        decreases a.len() - i,
    {
        if a[i] != bv[i] {
            return false;
        }
        i = i + 1;
    }
    assert(a@ =~= bv@);
    true
}

fn unit_length(u: &Vec<char>) -> (r: u128)
    ensures
        r == unit_nanos(u@),
{
    if same_chars(u, "nanos") || same_chars(u, "nsec") || same_chars(u, "ns") {
        1
    } else if same_chars(u, "usec") || same_chars(u, "us") || same_chars(u, "\u{b5}s") {
        1_000
    } else if same_chars(u, "millis") || same_chars(u, "msec") || same_chars(u, "ms") {
        1_000_000
    } else if same_chars(u, "seconds") || same_chars(u, "second") || same_chars(u, "secs")
        || same_chars(u, "sec") || same_chars(u, "s") {
        1_000_000_000
    } else if same_chars(u, "minutes") || same_chars(u, "minute") || same_chars(u, "min")
        || same_chars(u, "mins") || same_chars(u, "m") {
        60_000_000_000
    } else if same_chars(u, "hours") || same_chars(u, "hour") || same_chars(u, "hr")
        || same_chars(u, "hrs") || same_chars(u, "h") {
        3_600_000_000_000
    } else if same_chars(u, "days") || same_chars(u, "day") || same_chars(u, "d") {
        86_400_000_000_000
    } else if same_chars(u, "weeks") || same_chars(u, "week") || same_chars(u, "wk")
        || same_chars(u, "wks") || same_chars(u, "w") {
        604_800_000_000_000
    } else if same_chars(u, "months") || same_chars(u, "month") || same_chars(u, "M") {
        2_630_016_000_000_000
    } else if same_chars(u, "years") || same_chars(u, "year") || same_chars(u, "yr")
        || same_chars(u, "yrs") || same_chars(u, "y") {
        31_557_600_000_000_000
    } else {
        0
    }
}

/// `acc` plus the bound of the finished term, or `None` once that reaches the limit.
fn add_term(acc: u128, v: u128, frac: bool, unit: &Vec<char>) -> (r: Option<u128>)
    requires
        acc < TTL_LIMIT_NANOS,
    ensures
        match r {
            Some(x) => x == acc + term_bound(v as int, frac, unit@) && x < TTL_LIMIT_NANOS,
            None => acc + term_bound(v as int, frac, unit@) >= TTL_LIMIT_NANOS,
        },
{
    let f = unit_length(unit);
    let prod = match v.checked_mul(f) {
        Some(p) => p,
        None => {
            return None;
        },
    };
    let extra: u128 = if frac { f } else { 0 };
    if prod >= TTL_LIMIT_NANOS || extra >= TTL_LIMIT_NANOS {
        return None;
    }
    let total = acc + prod + extra;
    if total >= TTL_LIMIT_NANOS {
        return None;
    }
    Some(total)
}

/// Whether `s` may be handed to humantime (see [`ttl_text_fits`]).
pub fn ttl_text_in_range(s: &str) -> (r: bool)
    ensures
        r == ttl_text_fits(s@),
{
    let chars = crate::text::chars_of(s);
    let mut acc: u128 = 0;
    let mut v: u128 = 0;
    let mut frac = false;
    let mut unit: Vec<char> = Vec::new();
    let mut i: usize = 0;
    assert(s@.skip(0) =~= s@);
    while i < chars.len()
        invariant
            chars@ == s@,
            i <= chars.len(),
            acc < TTL_LIMIT_NANOS,
            v <= TTL_LIMIT_NANOS,
            ttl_bound(s@) == acc + ttl_bound_from(s@.skip(i as int), v as int, frac, unit@),
        decreases chars.len() - i,
    {
        let c = chars[i];
        let ghost rest = s@.skip(i as int);
        assert(rest[0] == c);
        assert(rest.drop_first() =~= s@.skip(i + 1));
        let x = c as u32;
        let letter = (65 <= x && x <= 90) || (97 <= x && x <= 122) || x == 0xb5;
        if unit.len() > 0 && !letter {
            proof { lemma_bound_nonneg(rest, 0, false, Seq::empty()); }
            match add_term(acc, v, frac, &unit) {
                Some(t) => {
                    acc = t;
                },
                None => {
                    return false;
                },
            }
            v = 0;
            frac = false;
            unit = Vec::new();
        }
        if letter {
            unit.push(c);
        } else if 48 <= x && x <= 57 {
            if !frac {
                let next = v * 10 + ((x - 48) as u128);
                v = if next < TTL_LIMIT_NANOS { next } else { TTL_LIMIT_NANOS };
            }
        } else if crate::text::white_space(c) {
        } else if x == 46 {
            frac = true;
        } else {
            v = 0;
            frac = false;
        }
        i = i + 1;
    }
    let ghost rest = s@.skip(i as int);
    assert(rest.len() == 0);
    assert(ttl_bound_from(rest, 0, false, Seq::empty()) == 0);
    assert(unit@.len() == 0 ==> ttl_bound_from(rest, v as int, frac, unit@) == 0);
    assert(unit@.len() > 0 ==> ttl_bound_from(rest, v as int, frac, unit@) == term_bound(
        v as int,
        frac,
        unit@,
    ));
    if unit.len() > 0 {
        match add_term(acc, v, frac, &unit) {
            Some(t) => {
                acc = t;
            },
            None => {
                return false;
            },
        }
    }
    true
}

/// The number that a string of ASCII digits denotes.
pub open spec fn decimal_of(d: Seq<char>) -> int
    decreases d.len(),
{
    if d.len() == 0 {
        0
    } else {
        decimal_of(d.drop_last()) * 10 + ((d.last() as u32) - 48)
    }
}

/// The number the guard has read after the digits `d`, starting from `v`.
spec fn digits_read(v: int, d: Seq<char>) -> int
    decreases d.len(),
{
    if d.len() == 0 {
        v
    } else {
        capped(digits_read(v, d.drop_last()) * 10 + ((d.last() as u32) - 48))
    }
}

proof fn lemma_digits_read_front(v: int, d: Seq<char>)
    requires
        d.len() > 0,
    ensures
        digits_read(v, d) == digits_read(capped(v * 10 + ((d[0] as u32) - 48)), d.drop_first()),
    decreases d.len(),
{
    let c = capped(v * 10 + ((d[0] as u32) - 48));
    if d.len() == 1 {
        assert(digits_read(v, d.drop_last()) == v);
        assert(digits_read(c, d.drop_first()) == c);
        assert(d.last() == d[0]);
    } else {
        let p = d.drop_last();
        lemma_digits_read_front(v, p);
        assert(d.drop_first().drop_last() =~= p.drop_first());
        assert(p[0] == d[0]);
        assert(d.drop_first().last() == d.last());
        assert(digits_read(v, d) == capped(digits_read(v, p) * 10 + ((d.last() as u32) - 48)));
        assert(digits_read(c, d.drop_first()) == capped(
            digits_read(c, d.drop_first().drop_last()) * 10 + ((d.drop_first().last() as u32) - 48),
        ));
    }
}

proof fn lemma_read_digits(d: Seq<char>, r: Seq<char>, v: int)
    requires
        forall|i: int| 0 <= i < d.len() ==> is_ascii_digit(#[trigger] d[i]),
    ensures
        ttl_bound_from(d + r, v, false, Seq::empty()) == ttl_bound_from(r, digits_read(v, d), false, Seq::empty()),
    decreases d.len(),
{
    if d.len() == 0 {
        assert(d + r =~= r);
    } else {
        let rest = d.drop_first();
        assert((d + r)[0] == d[0]);
        assert((d + r).drop_first() =~= rest + r);
        assert(is_ascii_digit(d[0]));
        assert forall|i: int| 0 <= i < rest.len() implies is_ascii_digit(#[trigger] rest[i]) by {
            assert(rest[i] == d[i + 1]);
        }
        lemma_read_digits(rest, r, capped(v * 10 + ((d[0] as u32) - 48)));
        lemma_digits_read_front(v, d);
    }
}

proof fn lemma_digits_read_value(d: Seq<char>)
    requires
        forall|i: int| 0 <= i < d.len() ==> is_ascii_digit(#[trigger] d[i]),
        decimal_of(d) < TTL_LIMIT_NANOS,
    ensures
        digits_read(0, d) == decimal_of(d),
    decreases d.len(),
{
    if d.len() > 0 {
        let p = d.drop_last();
        assert forall|i: int| 0 <= i < p.len() implies is_ascii_digit(#[trigger] p[i]) by {
            assert(p[i] == d[i]);
        }
        assert(is_ascii_digit(d[d.len() - 1]));
        lemma_decimal_nonneg(p);
        lemma_digits_read_value(p);
    }
}

proof fn lemma_decimal_nonneg(d: Seq<char>)
    requires
        forall|i: int| 0 <= i < d.len() ==> is_ascii_digit(#[trigger] d[i]),
    ensures
        decimal_of(d) >= 0,
    decreases d.len(),
{
    if d.len() > 0 {
        let p = d.drop_last();
        assert forall|i: int| 0 <= i < p.len() implies is_ascii_digit(#[trigger] p[i]) by {
            assert(p[i] == d[i]);
        }
        assert(is_ascii_digit(d[d.len() - 1]));
        lemma_decimal_nonneg(p);
    }
}

proof fn lemma_read_letters(u: Seq<char>, r: Seq<char>, v: int, f: bool, unit: Seq<char>)
    requires
        forall|i: int| 0 <= i < u.len() ==> is_unit_letter(#[trigger] u[i]),
    ensures
        ttl_bound_from(u + r, v, f, unit) == ttl_bound_from(r, v, f, unit + u),
    decreases u.len(),
{
    if u.len() == 0 {
        assert(u + r =~= r);
        assert(unit + u =~= unit);
    } else {
        let rest = u.drop_first();
        assert((u + r)[0] == u[0]);
        assert(is_unit_letter(u[0]));
        assert((u + r).drop_first() =~= rest + r);
        assert forall|i: int| 0 <= i < rest.len() implies is_unit_letter(#[trigger] rest[i]) by {
            assert(rest[i] == u[i + 1]);
        }
        lemma_read_letters(rest, r, v, f, unit.push(u[0]));
        assert(unit.push(u[0]) + rest =~= unit + u);
    }
}

/// Each of humantime's unit names, with the length humantime gives it, is
/// charged that length by the guard; such a name is a non-empty run of unit
/// letters.
proof fn lemma_known_unit(u: Seq<char>, unit_len: int)
    requires
        ({
            ||| (u == "nanos"@ && unit_len == 1)
            ||| (u == "nsec"@ && unit_len == 1)
            ||| (u == "ns"@ && unit_len == 1)
            ||| (u == "usec"@ && unit_len == 1_000)
            ||| (u == "us"@ && unit_len == 1_000)
            ||| (u == "\u{b5}s"@ && unit_len == 1_000)
            ||| (u == "millis"@ && unit_len == 1_000_000)
            ||| (u == "msec"@ && unit_len == 1_000_000)
            ||| (u == "ms"@ && unit_len == 1_000_000)
            ||| (u == "seconds"@ && unit_len == 1_000_000_000)
            ||| (u == "second"@ && unit_len == 1_000_000_000)
            ||| (u == "secs"@ && unit_len == 1_000_000_000)
            ||| (u == "sec"@ && unit_len == 1_000_000_000)
            ||| (u == "s"@ && unit_len == 1_000_000_000)
            ||| (u == "minutes"@ && unit_len == 60_000_000_000)
            ||| (u == "minute"@ && unit_len == 60_000_000_000)
            ||| (u == "min"@ && unit_len == 60_000_000_000)
            ||| (u == "mins"@ && unit_len == 60_000_000_000)
            ||| (u == "m"@ && unit_len == 60_000_000_000)
            ||| (u == "hours"@ && unit_len == 3_600_000_000_000)
            ||| (u == "hour"@ && unit_len == 3_600_000_000_000)
            ||| (u == "hr"@ && unit_len == 3_600_000_000_000)
            ||| (u == "hrs"@ && unit_len == 3_600_000_000_000)
            ||| (u == "h"@ && unit_len == 3_600_000_000_000)
            ||| (u == "days"@ && unit_len == 86_400_000_000_000)
            ||| (u == "day"@ && unit_len == 86_400_000_000_000)
            ||| (u == "d"@ && unit_len == 86_400_000_000_000)
            ||| (u == "weeks"@ && unit_len == 604_800_000_000_000)
            ||| (u == "week"@ && unit_len == 604_800_000_000_000)
            ||| (u == "wk"@ && unit_len == 604_800_000_000_000)
            ||| (u == "wks"@ && unit_len == 604_800_000_000_000)
            ||| (u == "w"@ && unit_len == 604_800_000_000_000)
            ||| (u == "months"@ && unit_len == 2_630_016_000_000_000)
            ||| (u == "month"@ && unit_len == 2_630_016_000_000_000)
            ||| (u == "M"@ && unit_len == 2_630_016_000_000_000)
            ||| (u == "years"@ && unit_len == 31_557_600_000_000_000)
            ||| (u == "year"@ && unit_len == 31_557_600_000_000_000)
            ||| (u == "yr"@ && unit_len == 31_557_600_000_000_000)
            ||| (u == "yrs"@ && unit_len == 31_557_600_000_000_000)
            ||| (u == "y"@ && unit_len == 31_557_600_000_000_000)
        }),
    ensures
        unit_nanos(u) == unit_len,
        unit_len >= 1,
        u.len() > 0,
        forall|i: int| 0 <= i < u.len() ==> is_unit_letter(#[trigger] u[i]),
{
    reveal_strlit("nanos");
    reveal_strlit("nsec");
    reveal_strlit("ns");
    reveal_strlit("usec");
    reveal_strlit("us");
    reveal_strlit("\u{b5}s");
    reveal_strlit("millis");
    reveal_strlit("msec");
    reveal_strlit("ms");
    reveal_strlit("seconds");
    reveal_strlit("second");
    reveal_strlit("secs");
    reveal_strlit("sec");
    reveal_strlit("s");
    reveal_strlit("minutes");
    reveal_strlit("minute");
    reveal_strlit("min");
    reveal_strlit("mins");
    reveal_strlit("m");
    reveal_strlit("hours");
    reveal_strlit("hour");
    reveal_strlit("hr");
    reveal_strlit("hrs");
    reveal_strlit("h");
    reveal_strlit("days");
    reveal_strlit("day");
    reveal_strlit("d");
    reveal_strlit("weeks");
    reveal_strlit("week");
    reveal_strlit("wk");
    reveal_strlit("wks");
    reveal_strlit("w");
    reveal_strlit("months");
    reveal_strlit("month");
    reveal_strlit("M");
    reveal_strlit("years");
    reveal_strlit("year");
    reveal_strlit("yr");
    reveal_strlit("yrs");
    reveal_strlit("y");
    assert("nanos"@.len() == 5 && "nanos"@[0] == 'n' && "nanos"@[1] == 'a');
    assert("nsec"@.len() == 4 && "nsec"@[0] == 'n' && "nsec"@[1] == 's');
    assert("ns"@.len() == 2 && "ns"@[0] == 'n' && "ns"@[1] == 's');
    assert("usec"@.len() == 4 && "usec"@[0] == 'u' && "usec"@[1] == 's');
    assert("us"@.len() == 2 && "us"@[0] == 'u' && "us"@[1] == 's');
    assert("\u{b5}s"@.len() == 2 && "\u{b5}s"@[0] == '\u{b5}' && "\u{b5}s"@[1] == 's');
    assert("millis"@.len() == 6 && "millis"@[0] == 'm' && "millis"@[1] == 'i');
    assert("msec"@.len() == 4 && "msec"@[0] == 'm' && "msec"@[1] == 's');
    assert("ms"@.len() == 2 && "ms"@[0] == 'm' && "ms"@[1] == 's');
    assert("seconds"@.len() == 7 && "seconds"@[0] == 's' && "seconds"@[1] == 'e');
    assert("second"@.len() == 6 && "second"@[0] == 's' && "second"@[1] == 'e');
    assert("secs"@.len() == 4 && "secs"@[0] == 's' && "secs"@[1] == 'e');
    assert("sec"@.len() == 3 && "sec"@[0] == 's' && "sec"@[1] == 'e');
    assert("s"@.len() == 1 && "s"@[0] == 's');
    assert("minutes"@.len() == 7 && "minutes"@[0] == 'm' && "minutes"@[1] == 'i');
    assert("minute"@.len() == 6 && "minute"@[0] == 'm' && "minute"@[1] == 'i');
    assert("min"@.len() == 3 && "min"@[0] == 'm' && "min"@[1] == 'i');
    assert("mins"@.len() == 4 && "mins"@[0] == 'm' && "mins"@[1] == 'i');
    assert("m"@.len() == 1 && "m"@[0] == 'm');
    assert("hours"@.len() == 5 && "hours"@[0] == 'h' && "hours"@[1] == 'o');
    assert("hour"@.len() == 4 && "hour"@[0] == 'h' && "hour"@[1] == 'o');
    assert("hr"@.len() == 2 && "hr"@[0] == 'h' && "hr"@[1] == 'r');
    assert("hrs"@.len() == 3 && "hrs"@[0] == 'h' && "hrs"@[1] == 'r');
    assert("h"@.len() == 1 && "h"@[0] == 'h');
    assert("days"@.len() == 4 && "days"@[0] == 'd' && "days"@[1] == 'a');
    assert("day"@.len() == 3 && "day"@[0] == 'd' && "day"@[1] == 'a');
    assert("d"@.len() == 1 && "d"@[0] == 'd');
    assert("weeks"@.len() == 5 && "weeks"@[0] == 'w' && "weeks"@[1] == 'e');
    assert("week"@.len() == 4 && "week"@[0] == 'w' && "week"@[1] == 'e');
    assert("wk"@.len() == 2 && "wk"@[0] == 'w' && "wk"@[1] == 'k');
    assert("wks"@.len() == 3 && "wks"@[0] == 'w' && "wks"@[1] == 'k');
    assert("w"@.len() == 1 && "w"@[0] == 'w');
    assert("months"@.len() == 6 && "months"@[0] == 'm' && "months"@[1] == 'o');
    assert("month"@.len() == 5 && "month"@[0] == 'm' && "month"@[1] == 'o');
    assert("M"@.len() == 1 && "M"@[0] == 'M');
    assert("years"@.len() == 5 && "years"@[0] == 'y' && "years"@[1] == 'e');
    assert("year"@.len() == 4 && "year"@[0] == 'y' && "year"@[1] == 'e');
    assert("yr"@.len() == 2 && "yr"@[0] == 'y' && "yr"@[1] == 'r');
    assert("yrs"@.len() == 3 && "yrs"@[0] == 'y' && "yrs"@[1] == 'r');
    assert("y"@.len() == 1 && "y"@[0] == 'y');
    if u == "nanos"@ {
        assert(u =~= seq!['n', 'a', 'n', 'o', 's']);
        assert(unit_nanos(u) == 1);
    }
    if u == "nsec"@ {
        assert(u =~= seq!['n', 's', 'e', 'c']);
        assert(unit_nanos(u) == 1);
    }
    if u == "ns"@ {
        assert(u =~= seq!['n', 's']);
        assert(unit_nanos(u) == 1);
    }
    if u == "usec"@ {
        assert(u =~= seq!['u', 's', 'e', 'c']);
        assert(unit_nanos(u) == 1_000);
    }
    if u == "us"@ {
        assert(u =~= seq!['u', 's']);
        assert(unit_nanos(u) == 1_000);
    }
    if u == "\u{b5}s"@ {
        assert(u =~= seq!['\u{b5}', 's']);
        assert(unit_nanos(u) == 1_000);
    }
    if u == "millis"@ {
        assert(u =~= seq!['m', 'i', 'l', 'l', 'i', 's']);
        assert(unit_nanos(u) == 1_000_000);
    }
    if u == "msec"@ {
        assert(u =~= seq!['m', 's', 'e', 'c']);
        assert(unit_nanos(u) == 1_000_000);
    }
    if u == "ms"@ {
        assert(u =~= seq!['m', 's']);
        assert(unit_nanos(u) == 1_000_000);
    }
    if u == "seconds"@ {
        assert(u =~= seq!['s', 'e', 'c', 'o', 'n', 'd', 's']);
        assert(unit_nanos(u) == 1_000_000_000);
    }
    if u == "second"@ {
        assert(u =~= seq!['s', 'e', 'c', 'o', 'n', 'd']);
        assert(unit_nanos(u) == 1_000_000_000);
    }
    if u == "secs"@ {
        assert(u =~= seq!['s', 'e', 'c', 's']);
        assert(unit_nanos(u) == 1_000_000_000);
    }
    if u == "sec"@ {
        assert(u =~= seq!['s', 'e', 'c']);
        assert(unit_nanos(u) == 1_000_000_000);
    }
    if u == "s"@ {
        assert(u =~= seq!['s']);
        assert(unit_nanos(u) == 1_000_000_000);
    }
    if u == "minutes"@ {
        assert(u =~= seq!['m', 'i', 'n', 'u', 't', 'e', 's']);
        assert(unit_nanos(u) == 60_000_000_000);
    }
    if u == "minute"@ {
        assert(u =~= seq!['m', 'i', 'n', 'u', 't', 'e']);
        assert(unit_nanos(u) == 60_000_000_000);
    }
    if u == "min"@ {
        assert(u =~= seq!['m', 'i', 'n']);
        assert(unit_nanos(u) == 60_000_000_000);
    }
    if u == "mins"@ {
        assert(u =~= seq!['m', 'i', 'n', 's']);
        assert(unit_nanos(u) == 60_000_000_000);
    }
    if u == "m"@ {
        assert(u =~= seq!['m']);
        assert(unit_nanos(u) == 60_000_000_000);
    }
    if u == "hours"@ {
        assert(u =~= seq!['h', 'o', 'u', 'r', 's']);
        assert(unit_nanos(u) == 3_600_000_000_000);
    }
    if u == "hour"@ {
        assert(u =~= seq!['h', 'o', 'u', 'r']);
        assert(unit_nanos(u) == 3_600_000_000_000);
    }
    if u == "hr"@ {
        assert(u =~= seq!['h', 'r']);
        assert(unit_nanos(u) == 3_600_000_000_000);
    }
    if u == "hrs"@ {
        assert(u =~= seq!['h', 'r', 's']);
        assert(unit_nanos(u) == 3_600_000_000_000);
    }
    if u == "h"@ {
        assert(u =~= seq!['h']);
        assert(unit_nanos(u) == 3_600_000_000_000);
    }
    if u == "days"@ {
        assert(u =~= seq!['d', 'a', 'y', 's']);
        assert(unit_nanos(u) == 86_400_000_000_000);
    }
    if u == "day"@ {
        assert(u =~= seq!['d', 'a', 'y']);
        assert(unit_nanos(u) == 86_400_000_000_000);
    }
    if u == "d"@ {
        assert(u =~= seq!['d']);
        assert(unit_nanos(u) == 86_400_000_000_000);
    }
    if u == "weeks"@ {
        assert(u =~= seq!['w', 'e', 'e', 'k', 's']);
        assert(unit_nanos(u) == 604_800_000_000_000);
    }
    if u == "week"@ {
        assert(u =~= seq!['w', 'e', 'e', 'k']);
        assert(unit_nanos(u) == 604_800_000_000_000);
    }
    if u == "wk"@ {
        assert(u =~= seq!['w', 'k']);
        assert(unit_nanos(u) == 604_800_000_000_000);
    }
    if u == "wks"@ {
        assert(u =~= seq!['w', 'k', 's']);
        assert(unit_nanos(u) == 604_800_000_000_000);
    }
    if u == "w"@ {
        assert(u =~= seq!['w']);
        assert(unit_nanos(u) == 604_800_000_000_000);
    }
    if u == "months"@ {
        assert(u =~= seq!['m', 'o', 'n', 't', 'h', 's']);
        assert(unit_nanos(u) == 2_630_016_000_000_000);
    }
    if u == "month"@ {
        assert(u =~= seq!['m', 'o', 'n', 't', 'h']);
        assert(unit_nanos(u) == 2_630_016_000_000_000);
    }
    if u == "M"@ {
        assert(u =~= seq!['M']);
        assert(unit_nanos(u) == 2_630_016_000_000_000);
    }
    if u == "years"@ {
        assert(u =~= seq!['y', 'e', 'a', 'r', 's']);
        assert(unit_nanos(u) == 31_557_600_000_000_000);
    }
    if u == "year"@ {
        assert(u =~= seq!['y', 'e', 'a', 'r']);
        assert(unit_nanos(u) == 31_557_600_000_000_000);
    }
    if u == "yr"@ {
        assert(u =~= seq!['y', 'r']);
        assert(unit_nanos(u) == 31_557_600_000_000_000);
    }
    if u == "yrs"@ {
        assert(u =~= seq!['y', 'r', 's']);
        assert(unit_nanos(u) == 31_557_600_000_000_000);
    }
    if u == "y"@ {
        assert(u =~= seq!['y']);
        assert(unit_nanos(u) == 31_557_600_000_000_000);
    }
}

/// A text made of a number and one of humantime's units (with the unit's
/// length in nanoseconds as humantime defines it) fits whenever the duration
/// it names is below `2^64` seconds: the cache time-to-live is then read by
/// humantime, whatever the unit.
pub proof fn lemma_single_term_fits(d: Seq<char>, u: Seq<char>, unit_len: int)
    requires
        d.len() > 0,
        forall|i: int| 0 <= i < d.len() ==> is_ascii_digit(#[trigger] d[i]),
        ({
            ||| (u == "nanos"@ && unit_len == 1)
            ||| (u == "nsec"@ && unit_len == 1)
            ||| (u == "ns"@ && unit_len == 1)
            ||| (u == "usec"@ && unit_len == 1_000)
            ||| (u == "us"@ && unit_len == 1_000)
            ||| (u == "\u{b5}s"@ && unit_len == 1_000)
            ||| (u == "millis"@ && unit_len == 1_000_000)
            ||| (u == "msec"@ && unit_len == 1_000_000)
            ||| (u == "ms"@ && unit_len == 1_000_000)
            ||| (u == "seconds"@ && unit_len == 1_000_000_000)
            ||| (u == "second"@ && unit_len == 1_000_000_000)
            ||| (u == "secs"@ && unit_len == 1_000_000_000)
            ||| (u == "sec"@ && unit_len == 1_000_000_000)
            ||| (u == "s"@ && unit_len == 1_000_000_000)
            ||| (u == "minutes"@ && unit_len == 60_000_000_000)
            ||| (u == "minute"@ && unit_len == 60_000_000_000)
            ||| (u == "min"@ && unit_len == 60_000_000_000)
            ||| (u == "mins"@ && unit_len == 60_000_000_000)
            ||| (u == "m"@ && unit_len == 60_000_000_000)
            ||| (u == "hours"@ && unit_len == 3_600_000_000_000)
            ||| (u == "hour"@ && unit_len == 3_600_000_000_000)
            ||| (u == "hr"@ && unit_len == 3_600_000_000_000)
            ||| (u == "hrs"@ && unit_len == 3_600_000_000_000)
            ||| (u == "h"@ && unit_len == 3_600_000_000_000)
            ||| (u == "days"@ && unit_len == 86_400_000_000_000)
            ||| (u == "day"@ && unit_len == 86_400_000_000_000)
            ||| (u == "d"@ && unit_len == 86_400_000_000_000)
            ||| (u == "weeks"@ && unit_len == 604_800_000_000_000)
            ||| (u == "week"@ && unit_len == 604_800_000_000_000)
            ||| (u == "wk"@ && unit_len == 604_800_000_000_000)
            ||| (u == "wks"@ && unit_len == 604_800_000_000_000)
            ||| (u == "w"@ && unit_len == 604_800_000_000_000)
            ||| (u == "months"@ && unit_len == 2_630_016_000_000_000)
            ||| (u == "month"@ && unit_len == 2_630_016_000_000_000)
            ||| (u == "M"@ && unit_len == 2_630_016_000_000_000)
            ||| (u == "years"@ && unit_len == 31_557_600_000_000_000)
            ||| (u == "year"@ && unit_len == 31_557_600_000_000_000)
            ||| (u == "yr"@ && unit_len == 31_557_600_000_000_000)
            ||| (u == "yrs"@ && unit_len == 31_557_600_000_000_000)
            ||| (u == "y"@ && unit_len == 31_557_600_000_000_000)
        }),
        decimal_of(d) * unit_len < TTL_LIMIT_NANOS,
    ensures
        ttl_text_fits(d + u),
{
    lemma_known_unit(u, unit_len);
    lemma_decimal_nonneg(d);
    assert(unit_len >= 1);
    assert(decimal_of(d) < TTL_LIMIT_NANOS) by (nonlinear_arith)
        requires
            decimal_of(d) >= 0,
            unit_len >= 1,
            decimal_of(d) * unit_len < TTL_LIMIT_NANOS,
    ;
    assert(u.len() > 0);
    assert forall|i: int| 0 <= i < u.len() implies is_unit_letter(#[trigger] u[i]) by {}
    lemma_read_digits(d, u, 0);
    lemma_digits_read_value(d);
    let v = decimal_of(d);
    lemma_read_letters(u, Seq::empty(), v, false, Seq::empty());
    assert(u + Seq::<char>::empty() =~= u);
    assert(Seq::<char>::empty() + u =~= u);
    assert(ttl_bound_from(Seq::empty(), 0, false, Seq::empty()) == 0);
    assert(ttl_bound_from(Seq::empty(), v, false, u) == term_bound(v, false, u));
}

/// Calls `humantime::parse_duration` and returns the duration it reads, in
/// nanoseconds, or `None` when it reports an error. Its grammar (numbers with
/// units such as `12h`, `1d`, `30m`) is not written out here: the result is
/// taken as a function of the text alone. The text must fit
/// [`ttl_text_fits`], which keeps out the texts on which humantime can
/// overflow and panic.
#[verifier::external_body]
fn parse_duration_nanos(s: &str) -> (r: Option<u128>)
    requires
        ttl_text_fits(s@),
    ensures
        r == humantime_duration_nanos(s@),
{
    match humantime::parse_duration(s) {
        Ok(d) => Some(d.as_nanos()),
        Err(_) => None,
    }
}

/// Reads the time-to-live of the coin-list cache (humantime syntax, such as
/// `12h`, `1d` or `30m`), in nanoseconds. A text that describes `u64::MAX`
/// seconds or more (see [`ttl_text_fits`]) is refused like any other text
/// humantime cannot read.
pub fn parse_cache_ttl(s: &str) -> (r: Result<u128, CoinexError>)
    ensures
        !ttl_text_fits(s@) ==> r matches Err(CoinexError::InvalidCacheTtl),
        ttl_text_fits(s@) ==> match humantime_duration_nanos(s@) {
            Some(n) => r == Ok::<u128, CoinexError>(n),
            None => r matches Err(CoinexError::InvalidCacheTtl),
        },
{
    if !ttl_text_in_range(s) {
        return Err(CoinexError::InvalidCacheTtl);
    }
    match parse_duration_nanos(s) {
        Some(n) => Ok(n),
        None => Err(CoinexError::InvalidCacheTtl),
    }
}

/// A point in time: seconds since the Unix epoch and the nanoseconds past them
/// (up to two seconds' worth, for a leap second).
#[derive(Debug, Clone, Copy, PartialEq, Eq)]
pub struct Timestamp {
    pub secs: i64,
    pub nanos: u32,
}

/// Nanoseconds since the Unix epoch.
pub open spec fn timestamp_nanos(t: Timestamp) -> int {
    t.secs * 1_000_000_000 + t.nanos
}

/// A time stamp that is no leap second and lies well within chrono's range
/// (about 253,000 years either side of 1970).
pub open spec fn ordinary_timestamp(t: Timestamp) -> bool {
    t.nanos < 1_000_000_000 && -8_000_000_000_000 <= t.secs && t.secs <= 8_000_000_000_000
}

/// What chrono gives for the time elapsed from `fetched` to `now`, in
/// nanoseconds: `DateTime::signed_duration_since` turned into a standard
/// duration, or `None` when that is negative or a time stamp is out of range.
pub uninterp spec fn chrono_elapsed_nanos(now_secs: i64, now_nanos: u32, fetched_secs: i64, fetched_nanos: u32) -> Option<u128>;

/// Calls chrono: builds both instants with `DateTime::from_timestamp`, takes
/// `now.signed_duration_since(fetched)` and turns it into a standard duration
/// with `TimeDelta::to_std`. The result is a function of the four numbers;
/// chrono's leap-second rule is not written out. When neither instant is a
/// leap second and both are in range, chrono subtracts plainly, so the result
/// is the difference when it is not negative and `None` when it is.
#[verifier::external_body]
fn chrono_elapsed(now: Timestamp, fetched: Timestamp) -> (r: Option<u128>)
    ensures
        r == chrono_elapsed_nanos(now.secs, now.nanos, fetched.secs, fetched.nanos),
        ordinary_timestamp(now) && ordinary_timestamp(fetched) ==> r == (if timestamp_nanos(now)
            >= timestamp_nanos(fetched) {
            Some((timestamp_nanos(now) - timestamp_nanos(fetched)) as u128)
        } else {
            None
        }),
{
    let a = chrono::DateTime::from_timestamp(now.secs, now.nanos);
    let b = chrono::DateTime::from_timestamp(fetched.secs, fetched.nanos);
    match (a, b) {
        (Some(a), Some(b)) => match a.signed_duration_since(b).to_std() {
            Ok(d) => Some(d.as_nanos()),
            Err(_) => None,
        },
        _ => None,
    }
}

/// The age of a cache written at `fetched`, seen at `now`, in nanoseconds, as
/// chrono measures it; a cache from the future (or with a time stamp chrono
/// cannot hold) counts as `u64::MAX` seconds old.
pub open spec fn cache_age_nanos(now: Timestamp, fetched: Timestamp) -> int {
    match chrono_elapsed_nanos(now.secs, now.nanos, fetched.secs, fetched.nanos) {
        Some(d) => d as int,
        None => u64::MAX * 1_000_000_000,
    }
}

/// Whether a cache written at `fetched` may still be used at `now`.
pub open spec fn cache_fresh(now: Timestamp, fetched: Timestamp, ttl_nanos: u128) -> bool {
    cache_age_nanos(now, fetched) <= ttl_nanos
}

/// The age of a cache written at `fetched`, seen at `now`, in nanoseconds.
pub fn cache_age(now: Timestamp, fetched: Timestamp) -> (r: u128)
    ensures
        r == cache_age_nanos(now, fetched),
        ordinary_timestamp(now) && ordinary_timestamp(fetched) ==> r == (if timestamp_nanos(now)
            >= timestamp_nanos(fetched) {
            timestamp_nanos(now) - timestamp_nanos(fetched)
        } else {
            u64::MAX * 1_000_000_000
        }),
{
    match chrono_elapsed(now, fetched) {
        Some(d) => d,
        None => (u64::MAX as u128) * 1_000_000_000,
    }
}

/// Whether the cached coin list may be used: not when a fresh download is
/// asked for, otherwise when it is no older than the time-to-live.
pub fn use_cached_coins(refresh: bool, now: Timestamp, fetched: Timestamp, ttl_nanos: u128) -> (r:
    bool)
    ensures
        r == (!refresh && cache_fresh(now, fetched, ttl_nanos)),
        ordinary_timestamp(now) && ordinary_timestamp(fetched) ==> (r <==> !refresh && (if timestamp_nanos(
            now,
        ) >= timestamp_nanos(fetched) {
            timestamp_nanos(now) - timestamp_nanos(fetched) <= ttl_nanos
        } else {
            u64::MAX * 1_000_000_000 <= ttl_nanos
        })),
{
    !refresh && cache_age(now, fetched) <= ttl_nanos
}

/// A cache usable under some time-to-live stays usable under any longer one.
pub proof fn lemma_fresh_monotone(now: Timestamp, fetched: Timestamp, ttl: u128, longer: u128)
    requires
        cache_fresh(now, fetched, ttl),
        ttl <= longer,
    ensures
        cache_fresh(now, fetched, longer),
{
}

/// Accepts a downloaded coin list unless it is empty.
pub fn check_coin_list(coins: Vec<CoinInfo>) -> (r: Result<Vec<CoinInfo>, CoinexError>)
    ensures
        coins.len() == 0 <==> r matches Err(CoinexError::EmptyCoinList),
        r is Err ==> r matches Err(CoinexError::EmptyCoinList),
        r matches Ok(v) ==> v@ == coins@,
{
    if coins.len() == 0 {
        return Err(CoinexError::EmptyCoinList);
    }
    Ok(coins)
}

} // verus!
