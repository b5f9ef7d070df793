//! Money amounts as published: `$3.900,50` is three thousand nine hundred
//! and a half. Amounts are held exactly, as a decimal.
use vstd::prelude::*;
use crate::text::{is_white_space, trim, trimmed};

verus! {

/// The decimal number `mantissa / 10^scale`.
#[derive(Clone, Copy, Debug, PartialEq, Eq, Structural)]
pub struct Amount {
    pub mantissa: u64,
    pub scale: u32,
}

impl Amount {
    /// The amount zero.
    pub fn zero() -> (r: Amount)
        ensures
            r.mantissa == 0 && r.scale == 0,
    {
        Amount { mantissa: 0, scale: 0 }
    }

    /// The amount `mantissa / 10^scale`.
    pub fn from_parts(mantissa: u64, scale: u32) -> (r: Amount)
        ensures
            r.mantissa == mantissa && r.scale == scale,
    {
        Amount { mantissa, scale }
    }
}

/// An ASCII decimal digit.
pub open spec fn is_digit(c: char) -> bool {
    '0' <= c <= '9'
}

/// The value of a decimal digit.
pub open spec fn digit_value(c: char) -> int {
    c as int - '0' as int
}

/// `u` with every thousands separator (`.`) dropped and every decimal
/// comma turned into a point.
pub open spec fn separators_normalized(u: Seq<char>) -> Seq<char>
    decreases u.len(),
{
    if u.len() == 0 {
        u
    } else {
        let p = separators_normalized(u.drop_last());
        if u.last() == '.' {
            p
        } else if u.last() == ',' {
            p.push('.')
        } else {
            p.push(u.last())
        }
    }
}

/// `t` without one leading currency symbol.
pub open spec fn without_symbol(t: Seq<char>) -> Seq<char> {
    if t.len() > 0 && t[0] == '$' {
        t.drop_first()
    } else {
        t
    }
}

/// The money text in the notation of decimal literals: trimmed, without a
/// leading `$`, thousands separators dropped, the decimal comma a point.
pub open spec fn normalized_money(s: Seq<char>) -> Seq<char> {
    separators_normalized(without_symbol(trimmed(s)))
}

/// How many points `s` holds.
pub open spec fn dot_count(s: Seq<char>) -> nat
    decreases s.len(),
{
    if s.len() == 0 {
        0
    } else {
        dot_count(s.drop_last()) + if s.last() == '.' { 1nat } else { 0nat }
    }
}

/// The number that the digits of `s` spell, points skipped.
pub open spec fn digits_value(s: Seq<char>) -> nat
    decreases s.len(),
{
    if s.len() == 0 {
        0
    } else if is_digit(s.last()) {
        (digits_value(s.drop_last()) * 10 + digit_value(s.last())) as nat
    } else {
        digits_value(s.drop_last())
    }
}

/// How many digits follow the point in `s` (0 when there is none).
pub open spec fn fraction_len(s: Seq<char>) -> nat
    decreases s.len(),
{
    if s.len() == 0 || s.last() == '.' {
        0
    } else if dot_count(s.drop_last()) > 0 {
        fraction_len(s.drop_last()) + 1
    } else {
        0
    }
}

/// Digits with at most one point among them, and at least one digit.
pub open spec fn is_decimal_text(s: Seq<char>) -> bool {
    &&& forall|i: int| 0 <= i < s.len() ==> is_digit(#[trigger] s[i]) || s[i] == '.'
    &&& dot_count(s) <= 1
    &&& s.len() > dot_count(s)
}

/// The amount that a decimal literal denotes, where it fits an `Amount`.
pub open spec fn decimal_of(s: Seq<char>) -> Option<Amount> {
    if is_decimal_text(s) && digits_value(s) <= u64::MAX && fraction_len(s) <= u32::MAX {
        Some(Amount { mantissa: digits_value(s) as u64, scale: fraction_len(s) as u32 })
    } else {
        None
    }
}

/// The amount that a published money text denotes.
pub open spec fn money_of(s: Seq<char>) -> Option<Amount> {
    decimal_of(normalized_money(s))
}

proof fn lemma_prefix_bounds(s: Seq<char>, k: int)
    requires
        0 <= k <= s.len(),
    ensures
        dot_count(s.take(k)) <= dot_count(s),
        digits_value(s.take(k)) <= digits_value(s),
    decreases s.len(),
{
    if k == s.len() {
        assert(s.take(k) =~= s);
    } else {
        let t = s.drop_last();
        assert(s.take(k) =~= t.take(k));
        lemma_prefix_bounds(t, k);
    }
}

/// The money text brought to the notation of decimal literals.
pub fn normalize_money(value: &str) -> (r: Vec<char>)
    ensures
        r@ == normalized_money(value@),
{
    let t = trim(value);
    let n = t.unicode_len();
    let mut i: usize = 0;
    if n > 0 && t.get_char(0) == '$' {
        i = 1;
    }
    let ghost u = without_symbol(t@);
    let ghost start = i as int;
    assert(u =~= t@.subrange(start, n as int));
    let mut out: Vec<char> = Vec::new();
    while i < n
        invariant
            n == t@.len(),
            0 <= start <= i <= n,
            u == t@.subrange(start, n as int),
            out@ == separators_normalized(u.take(i - start)),
        decreases n - i,
    {
        let c = t.get_char(i);
        proof {
            let k = i - start;
            assert(u.len() == n - start);
            assert(u[k] == t@[i as int]);
            let p = u.take(k + 1);
            assert(p.drop_last() =~= u.take(k));
            assert(p.last() == c);
        }
        if c == ',' {
            out.push('.');
        } else if c != '.' {
            out.push(c);
        }
        i = i + 1;
    }
    assert(u.take(n - start) =~= u);
    out
}

/// The amount that a decimal literal denotes: digits with at most one
/// point, at least one digit, a mantissa that fits 64 bits.
pub fn parse_decimal(s: &Vec<char>) -> (r: Option<Amount>)
    ensures
        r == decimal_of(s@),
{
    let n = s.len();
    let mut i: usize = 0;
    let mut mantissa: u64 = 0;
    let mut dots: usize = 0;
    let mut dot_at: usize = 0;
    let mut frac: usize = 0;
    while i < n
        invariant
            n == s@.len(),
            i <= n,
            forall|k: int| 0 <= k < i ==> is_digit(#[trigger] s@[k]) || s@[k] == '.',
            dots == dot_count(s@.take(i as int)),
            dots <= 1,
            dots == 1 ==> dot_at < i && s@[dot_at as int] == '.',
            mantissa == digits_value(s@.take(i as int)),
            frac == fraction_len(s@.take(i as int)),
            frac <= i,
        decreases n - i,
    {
        let c = s[i];
        let ghost p = s@.take(i + 1);
        assert(p.drop_last() =~= s@.take(i as int));
        assert(p.last() == c);
        if c == '.' {
            if dots == 1 {
                proof {
                    lemma_prefix_bounds(s@, i + 1);
                }
                return None;
            }
            dots = 1;
            dot_at = i;
            frac = 0;
        } else if '0' <= c && c <= '9' {
            let d = (c as u32 - '0' as u32) as u64;
            if mantissa > (u64::MAX - d) / 10 {
                proof {
                    lemma_prefix_bounds(s@, i + 1);
                }
                return None;
            }
            mantissa = mantissa * 10 + d;
            if dots == 1 {
                frac = frac + 1;
            }
        } else {
            return None;
        }
        i = i + 1;
    }
    assert(s@.take(n as int) =~= s@);
    if n == dots || frac > u32::MAX as usize {
        return None;
    }
    Some(Amount { mantissa, scale: frac as u32 })
}

/// Characters of a published amount: digits, thousands points, decimal commas.
pub open spec fn is_money_char(c: char) -> bool {
    is_digit(c) || c == '.' || c == ','
}

/// How many commas `s` holds.
pub open spec fn comma_count(s: Seq<char>) -> nat
    decreases s.len(),
{
    if s.len() == 0 {
        0
    } else {
        comma_count(s.drop_last()) + if s.last() == ',' { 1nat } else { 0nat }
    }
}

/// How many digits `s` holds.
pub open spec fn digit_count(s: Seq<char>) -> nat
    decreases s.len(),
{
    if s.len() == 0 {
        0
    } else {
        digit_count(s.drop_last()) + if is_digit(s.last()) { 1nat } else { 0nat }
    }
}

/// The published text: the amount's characters, with or without a leading `$`.
pub open spec fn with_symbol(symbol: bool, u: Seq<char>) -> Seq<char> {
    if symbol {
        seq!['$'] + u
    } else {
        u
    }
}

proof fn lemma_separators(u: Seq<char>)
    requires
        forall|i: int| 0 <= i < u.len() ==> is_money_char(#[trigger] u[i]),
    ensures
        ({
            let out = separators_normalized(u);
            &&& forall|i: int| 0 <= i < out.len() ==> is_digit(#[trigger] out[i]) || out[i] == '.'
            &&& dot_count(out) == comma_count(u)
            &&& out.len() == digit_count(u) + comma_count(u)
            &&& digits_value(out) == digits_value(u)
            &&& fraction_len(out) <= out.len()
            &&& out.len() <= u.len()
        }),
    decreases u.len(),
{
    if u.len() > 0 {
        let t = u.drop_last();
        assert forall|i: int| 0 <= i < t.len() implies is_money_char(#[trigger] t[i]) by {
            assert(t[i] == u[i]);
        }
        lemma_separators(t);
        let p = separators_normalized(t);
        let c = u.last();
        assert(is_money_char(u[u.len() - 1]));
        if c != '.' {
            let d = if c == ',' { '.' } else { c };
            let q = p.push(d);
            assert(q.drop_last() =~= p);
            assert(q.last() == d);
            assert forall|i: int| 0 <= i < q.len() implies is_digit(#[trigger] q[i]) || q[i]
                == '.' by {
                if i < p.len() {
                    assert(q[i] == p[i]);
                }
            }
        }
    }
}

proof fn lemma_digits_unchanged(x: Seq<char>)
    requires
        forall|i: int| 0 <= i < x.len() ==> is_digit(#[trigger] x[i]),
    ensures
        separators_normalized(x) == x,
    decreases x.len(),
{
    if x.len() > 0 {
        let t = x.drop_last();
        assert forall|i: int| 0 <= i < t.len() implies is_digit(#[trigger] t[i]) by {
            assert(t[i] == x[i]);
        }
        lemma_digits_unchanged(t);
        assert(is_digit(x[x.len() - 1]));
        assert(t.push(x.last()) =~= x);
    }
}

proof fn lemma_no_dots_all_digits(x: Seq<char>)
    requires
        forall|i: int| 0 <= i < x.len() ==> is_digit(#[trigger] x[i]) || x[i] == '.',
        dot_count(x) == 0,
    ensures
        forall|i: int| 0 <= i < x.len() ==> is_digit(#[trigger] x[i]),
    decreases x.len(),
{
    if x.len() > 0 {
        let t = x.drop_last();
        assert forall|i: int| 0 <= i < t.len() implies is_digit(#[trigger] t[i]) || t[i]
            == '.' by {
            assert(t[i] == x[i]);
        }
        lemma_no_dots_all_digits(t);
        assert forall|i: int| 0 <= i < x.len() implies is_digit(#[trigger] x[i]) by {
            if i < t.len() {
                assert(t[i] == x[i]);
            }
        }
    }
}

proof fn lemma_normalized_parts(symbol: bool, u: Seq<char>)
    requires
        forall|i: int| 0 <= i < u.len() ==> is_money_char(#[trigger] u[i]),
    ensures
        normalized_money(with_symbol(symbol, u)) == separators_normalized(u),
{
    let s = with_symbol(symbol, u);
    if s.len() > 0 {
        assert(!is_white_space(s[0])) by {
            if !symbol {
                assert(is_money_char(u[0]));
            }
        }
        assert(!is_white_space(s.last())) by {
            if u.len() > 0 {
                assert(s.last() == u[u.len() - 1]);
                assert(is_money_char(u[u.len() - 1]));
            }
        }
    }
    assert(trimmed(s) == s);
    if symbol {
        assert(s.drop_first() =~= u);
    } else if u.len() > 0 {
        assert(is_money_char(u[0]));
    }
}

/// Normalizing a money text that has no decimal comma a second time
/// changes nothing. (A decimal comma becomes a point, which a second pass
/// would take for a thousands separator: `$3.900,50` gives `3900.50`, and
/// that gives `390050`.)
pub proof fn lemma_normalization_idempotent(symbol: bool, u: Seq<char>)
    requires
        forall|i: int| 0 <= i < u.len() ==> is_money_char(#[trigger] u[i]),
        comma_count(u) == 0,
    ensures
        normalized_money(normalized_money(with_symbol(symbol, u))) == normalized_money(
            with_symbol(symbol, u),
        ),
{
    lemma_normalized_parts(symbol, u);
    lemma_separators(u);
    let out = separators_normalized(u);
    lemma_no_dots_all_digits(out);
    assert forall|i: int| 0 <= i < out.len() implies is_money_char(#[trigger] out[i]) by {}
    lemma_normalized_parts(false, out);
    lemma_digits_unchanged(out);
}

/// Every money text of digits, thousands points and at most one decimal
/// comma, with or without a leading `$`, with at least one digit, denotes
/// an amount: the number its digits spell, scaled by the digits after the
/// comma; where that number fits 64 bits.
pub proof fn lemma_money_total(symbol: bool, u: Seq<char>)
    requires
        forall|i: int| 0 <= i < u.len() ==> is_money_char(#[trigger] u[i]),
        comma_count(u) <= 1,
        digit_count(u) >= 1,
        digits_value(u) <= u64::MAX,
        u.len() <= u32::MAX,
    ensures
        money_of(with_symbol(symbol, u)) is Some,
        money_of(with_symbol(symbol, u))->0.mantissa == digits_value(u),
{
    lemma_normalized_parts(symbol, u);
    lemma_separators(u);
    let out = separators_normalized(u);
    assert(is_decimal_text(out));
    assert(decimal_of(out) is Some);
}

} // verus!
