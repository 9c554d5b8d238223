//! Dice expressions such as `1d8`, `2d6+1` or `1d4-1`, and rolling them.
use vstd::prelude::*;

use crate::text::{digit_char, int_text, nat_text};

verus! {

/// `count` dice of `sides` sides, plus a flat modifier.
#[derive(Clone, Copy, Debug, PartialEq, Eq, Structural)]
pub struct DiceExpr {
    pub count: u32,
    pub sides: u32,
    pub modifier: i32,
}

/// Largest number of dice, of sides, and of the modifier's magnitude accepted.
pub const MAX_DICE: u32 = 100;
pub const MAX_SIDES: u32 = 1000;
pub const MAX_MODIFIER: i32 = 1000;

/// An expression within the limits that rolling supports.
pub open spec fn dice_in_limits(e: DiceExpr) -> bool {
    &&& 1 <= e.count <= MAX_DICE
    &&& 1 <= e.sides <= MAX_SIDES
    &&& -MAX_MODIFIER <= e.modifier <= MAX_MODIFIER
}

/// The written form of an expression: `NdS`, then `+M` or `-M` when the
/// modifier is not zero.
pub open spec fn dice_text(e: DiceExpr) -> Seq<char> {
    let base = nat_text(e.count as nat) + seq!['d'] + nat_text(e.sides as nat);
    if e.modifier > 0 {
        base + seq!['+'] + nat_text(e.modifier as nat)
    } else if e.modifier < 0 {
        base + int_text(e.modifier as int)
    } else {
        base
    }
}

pub open spec fn is_digit(c: char) -> bool {
    '0' <= c && c <= '9'
}

pub open spec fn digit_value(c: char) -> nat {
    ((c as int) - ('0' as int)) as nat
}

/// Value of a string of decimal digits.
pub open spec fn digits_value(s: Seq<char>) -> nat
    decreases s.len(),
{
    if s.len() == 0 {
        0
    } else {
        digits_value(s.drop_last()) * 10 + digit_value(s.last())
    }
}

/// A non-empty string of digits without a leading zero (or just `0`).
pub open spec fn canonical_digits(s: Seq<char>) -> bool {
    &&& s.len() >= 1
    &&& forall|i: int| 0 <= i < s.len() ==> is_digit(#[trigger] s[i])
    &&& (s.len() > 1 ==> s[0] != '0')
}

proof fn lemma_digit_char_value(c: char)
    requires
        is_digit(c),
    ensures
        digit_value(c) < 10,
        digit_char(digit_value(c)) == c,
{
}

proof fn lemma_digits_value_bound(s: Seq<char>)
    requires
        canonical_digits(s),
        s.len() > 1,
    ensures
        digits_value(s) >= 10,
    decreases s.len(),
{
    let p = s.drop_last();
    assert(p[0] == s[0]);
    assert(is_digit(p[0]));
    if p.len() > 1 {
        assert(canonical_digits(p));
        lemma_digits_value_bound(p);
    } else {
        assert(p =~= seq![s[0]]);
        assert(p.drop_last() =~= Seq::<char>::empty());
        assert(p.last() == s[0]);
        assert(digits_value(p.drop_last()) == 0);
        assert(digits_value(p) == digit_value(s[0]));
        assert(digit_value(s[0]) >= 1);
    }
}

/// A canonical digit string is the rendering of its value.
pub(crate) proof fn lemma_canonical_digits_text(s: Seq<char>)
    requires
        canonical_digits(s),
    ensures
        nat_text(digits_value(s)) == s,
    decreases s.len(),
{
    let v = digits_value(s);
    lemma_digit_char_value(s.last());
    if s.len() == 1 {
        assert(s.drop_last() =~= Seq::<char>::empty());
        assert(digits_value(s.drop_last()) == 0);
        assert(s.last() == s[0]);
        assert(v == digit_value(s[0]));
        assert(nat_text(v) =~= s);
    } else {
        let p = s.drop_last();
        assert(p[0] == s[0]);
        assert(forall|i: int| 0 <= i < p.len() ==> p[i] == s[i]);
        assert(canonical_digits(p));
        lemma_canonical_digits_text(p);
        lemma_digits_value_bound(s);
        assert(v / 10 == digits_value(p));
        assert(v % 10 == digit_value(s.last()));
        assert(nat_text(v) == nat_text(v / 10).push(digit_char(v % 10)));
        assert(nat_text(v) =~= s);
    }
}

/// Position of the first character from `i` on that is not a digit (the
/// length when there is none).
pub open spec fn run_end(s: Seq<char>, i: int) -> int
    decreases s.len() - i,
{
    if i >= s.len() {
        s.len() as int
    } else if i >= 0 && is_digit(s[i]) {
        run_end(s, i + 1)
    } else {
        i
    }
}

proof fn lemma_run_end(s: Seq<char>, i: int)
    requires
        0 <= i <= s.len(),
    ensures
        i <= run_end(s, i) <= s.len(),
        forall|j: int| i <= j < run_end(s, i) ==> is_digit(#[trigger] s[j]),
        run_end(s, i) < s.len() ==> !is_digit(s[run_end(s, i)]),
    decreases s.len() - i,
{
    if i < s.len() && is_digit(s[i]) {
        lemma_run_end(s, i + 1);
    }
}

pub(crate) proof fn lemma_run_end_at(s: Seq<char>, i: int, e: int)
    requires
        0 <= i <= e <= s.len(),
        forall|j: int| i <= j < e ==> is_digit(#[trigger] s[j]),
        e == s.len() || !is_digit(s[e]),
    ensures
        run_end(s, i) == e,
    decreases e - i,
{
    if i < e {
        lemma_run_end_at(s, i + 1, e);
    }
}

proof fn lemma_run_end_past(s: Seq<char>, i: int, j: int)
    requires
        0 <= i <= j <= s.len(),
        forall|k: int| i <= k < j ==> is_digit(#[trigger] s[k]),
    ensures
        run_end(s, i) >= j,
    decreases j - i,
{
    if i < j {
        assert(is_digit(s[i]));
        lemma_run_end_past(s, i + 1, j);
    } else {
        lemma_run_end(s, i);
    }
}

proof fn lemma_digit_char_is_digit(d: nat)
    requires
        d < 10,
    ensures
        is_digit(digit_char(d)),
        digit_value(digit_char(d)) == d,
        d >= 1 ==> digit_char(d) != '0',
{
}

/// The rendering of a number is a canonical digit string of its value, at
/// most `k` digits long below ten to the `k`.
pub(crate) proof fn lemma_nat_text_digits(v: nat)
    ensures
        canonical_digits(nat_text(v)),
        digits_value(nat_text(v)) == v,
        v >= 1 ==> nat_text(v)[0] != '0',
        v < 10 ==> nat_text(v).len() == 1,
        v < 100 ==> nat_text(v).len() <= 2,
        v < 1000 ==> nat_text(v).len() <= 3,
        v < 10000 ==> nat_text(v).len() <= 4,
    decreases v,
{
    lemma_digit_char_is_digit(v % 10);
    if v < 10 {
        let t = nat_text(v);
        assert(t =~= seq![digit_char(v)]);
        assert(t.drop_last() =~= Seq::<char>::empty());
        assert(digits_value(t.drop_last()) == 0);
    } else {
        lemma_nat_text_digits(v / 10);
        let p = nat_text(v / 10);
        let t = nat_text(v);
        assert(t == p.push(digit_char(v % 10)));
        assert(t.drop_last() =~= p);
        assert(t[0] == p[0]);
        assert(forall|j: int| 0 <= j < p.len() ==> t[j] == p[j]);
    }
}

/// Reads a canonical number of at most `max_len` digits starting at `start`.
/// Returns its value and the position after its last digit.
pub(crate) fn read_number(s: &str, n: usize, start: usize, max_len: usize) -> (r: Option<(u32, usize)>)
    requires
        n == s@.len(),
        start <= n,
        1 <= max_len <= 6,
    ensures
        r matches Some((v, end)) ==> {
            &&& start < end <= n
            &&& end - start <= max_len
            &&& canonical_digits(s@.subrange(start as int, end as int))
            &&& v as nat == digits_value(s@.subrange(start as int, end as int))
            &&& v < 1000000
            &&& (end < n ==> !is_digit(s@[end as int]))
        },
        ({
            let e = run_end(s@, start as int);
            (r is Some) == (start < e && e - start <= max_len && canonical_digits(
                s@.subrange(start as int, e),
            ))
        }),
        r matches Some((v, end)) ==> end == run_end(s@, start as int),
{
    proof {
        lemma_run_end(s@, start as int);
    }
    let mut i = start;
    let mut value: u32 = 0;
    let mut stop = false;
    while i < n && !stop
        invariant
            start <= i <= n,
            n == s@.len(),
            i - start <= max_len,
            max_len <= 6,
            forall|j: int| start <= j < i ==> is_digit(#[trigger] s@[j]),
            value as nat == digits_value(s@.subrange(start as int, i as int)),
            value < pow10((i - start) as nat),
            pow10((i - start) as nat) <= 1000000,
            stop ==> i < n && !is_digit(s@[i as int]),
        decreases n - i + (if stop { 0int } else { 1int }),
    {
        let c = s.get_char(i);
        if !('0' <= c && c <= '9') {
            stop = true;
        } else {
            if i - start == max_len {
                proof {
                    assert(is_digit(s@[i as int]));
                    lemma_run_end_past(s@, start as int, i as int + 1);
                }
                return None;
            }
            let d = (c as u32) - ('0' as u32);
            proof {
                let sub = s@.subrange(start as int, i as int + 1);
                assert(sub.drop_last() =~= s@.subrange(start as int, i as int));
                assert(sub.last() == c);
                lemma_pow10_le((i - start) as nat);
            }
            value = value * 10 + d;
            i = i + 1;
        }
    }
    proof {
        lemma_run_end_at(s@, start as int, i as int);
    }
    if i == start {
        return None;
    }
    let first = s.get_char(start);
    if i - start > 1 && first == '0' {
        proof {
            assert(s@.subrange(start as int, i as int)[0] == first);
        }
        return None;
    }
    proof {
        let sub = s@.subrange(start as int, i as int);
        assert(forall|j: int| 0 <= j < sub.len() ==> sub[j] == s@[start + j]);
    }
    Some((value, i))
}

/// A string of `k` digits has a value below ten to the `k`; below ten
/// thousand for at most four digits.
pub(crate) proof fn lemma_digits_value_below(s: Seq<char>)
    requires
        forall|i: int| 0 <= i < s.len() ==> is_digit(#[trigger] s[i]),
    ensures
        digits_value(s) < pow10(s.len()),
        s.len() <= 4 ==> digits_value(s) < 10000,
    decreases s.len(),
{
    if s.len() > 0 {
        let p = s.drop_last();
        assert(forall|i: int| 0 <= i < p.len() ==> p[i] == s[i]);
        lemma_digits_value_below(p);
        assert(is_digit(s[s.len() - 1]));
    }
    if s.len() <= 4 {
        reveal_with_fuel(pow10, 5);
        if s.len() < 4 {
            assert(pow10(s.len()) <= 1000);
        }
    }
}

/// `t` without a leading `+`.
pub open spec fn plus_stripped(t: Seq<char>) -> Seq<char> {
    if t.len() > 0 && t[0] == '+' {
        t.subrange(1, t.len() as int)
    } else {
        t
    }
}

/// Every character of `d` is a decimal digit.
pub open spec fn all_digits(d: Seq<char>) -> bool {
    forall|i: int| 0 <= i < d.len() ==> is_digit(#[trigger] d[i])
}

/// The value `u32::from_str` reads from `t`: an optional `+`, then decimal
/// digits of a value that fits a `u32`.
pub open spec fn u32_value(t: Seq<char>) -> Option<u32> {
    let d = plus_stripped(t);
    if d.len() > 0 && all_digits(d) && digits_value(d) <= u32::MAX {
        Some(digits_value(d) as u32)
    } else {
        None
    }
}

pub(crate) proof fn lemma_digits_value_prefix(s: Seq<char>, k: int)
    requires
        0 <= k <= s.len(),
    ensures
        digits_value(s.take(k)) <= digits_value(s),
    decreases s.len(),
{
    if k < s.len() {
        let p = s.drop_last();
        assert(p.take(k) =~= s.take(k));
        lemma_digits_value_prefix(p, k);
    } else {
        assert(s.take(k) =~= s);
    }
}

/// Reads a number as `u32::from_str` does: an optional `+`, then decimal
/// digits of a value that fits a `u32`.
pub fn parse_u32(t: &str) -> (r: Option<u32>)
    ensures
        r == u32_value(t@),
{
    let n = t.unicode_len();
    let start: usize = if n > 0 && t.get_char(0) == '+' {
        1
    } else {
        0
    };
    let ghost d = plus_stripped(t@);
    if start == n {
        return None;
    }
    let mut value: u64 = 0;
    let mut i: usize = start;
    while i < n
        invariant
            n == t@.len(),
            start <= i <= n,
            start < n,
            d == t@.subrange(start as int, n as int),
            d == plus_stripped(t@),
            forall|j: int| 0 <= j < i - start ==> is_digit(#[trigger] d[j]),
            value as nat == digits_value(d.take(i - start)),
            value <= u32::MAX,
        decreases n - i,
    {
        let c = t.get_char(i);
        if !('0' <= c && c <= '9') {
            proof {
                assert(d[i - start] == c);
                assert(!is_digit(d[i - start]));
                assert(!all_digits(d));
                assert(u32_value(t@) is None);
            }
            return None;
        }
        let ghost k = i - start;
        proof {
            assert(d[k] == c);
            assert(d.take(k + 1).drop_last() =~= d.take(k));
            assert(d.take(k + 1).last() == c);
        }
        let next = value * 10 + ((c as u32) - ('0' as u32)) as u64;
        proof {
            assert(digit_value(c) == (c as u32) - ('0' as u32));
            assert(next as nat == digits_value(d.take(k + 1)));
        }
        if next > u32::MAX as u64 {
            proof {
                lemma_digits_value_prefix(d, k + 1);
                assert(digits_value(d) > u32::MAX);
                assert(u32_value(t@) is None);
            }
            return None;
        }
        value = next;
        i = i + 1;
    }
    proof {
        assert(d.take(n - start) =~= d);
    }
    Some(value as u32)
}

/// The value `i32::from_str` reads from `t`: an optional sign, then
/// decimal digits of a value that fits an `i32`.
pub open spec fn i32_value(t: Seq<char>) -> Option<i32> {
    if t.len() > 0 && t[0] == '-' {
        let d = t.subrange(1, t.len() as int);
        if d.len() > 0 && all_digits(d) && digits_value(d) <= 0x8000_0000 {
            Some((0 - digits_value(d)) as i32)
        } else {
            None
        }
    } else {
        match u32_value(t) {
            Some(v) => if v <= i32::MAX {
                Some(v as i32)
            } else {
                None
            },
            None => None,
        }
    }
}

/// Reads a number as `i32::from_str` does: an optional sign, then decimal
/// digits of a value that fits an `i32`.
pub fn parse_i32(t: &str) -> (r: Option<i32>)
    ensures
        r == i32_value(t@),
{
    let n = t.unicode_len();
    if n > 0 && t.get_char(0) == '-' {
        let rest = t.substring_char(1, n);
        if rest.unicode_len() > 0 && rest.get_char(0) == '+' {
            proof {
                assert(!is_digit(rest@[0]));
            }
            return None;
        }
        proof {
            assert(plus_stripped(rest@) == rest@);
        }
        match parse_u32(rest) {
            Some(v) => {
                if v <= 0x8000_0000 {
                    Some((0 - (v as i64)) as i32)
                } else {
                    None
                }
            },
            None => None,
        }
    } else {
        match parse_u32(t) {
            Some(v) => if v <= 0x7fff_ffff {
                Some(v as i32)
            } else {
                None
            },
            None => None,
        }
    }
}

/// Ten to the power `n`.
pub open spec fn pow10(n: nat) -> nat
    decreases n,
{
    if n == 0 {
        1
    } else {
        10 * pow10((n - 1) as nat)
    }
}

proof fn lemma_pow10_le(k: nat)
    requires
        k <= 5,
    ensures
        pow10(k) <= 100000,
        pow10(k + 1) == 10 * pow10(k),
{
    reveal_with_fuel(pow10, 7);
}

/// The expression within limits written `s`, when there is one.
pub open spec fn dice_of(s: Seq<char>) -> Option<DiceExpr> {
    if exists|e: DiceExpr| dice_in_limits(e) && #[trigger] dice_text(e) == s {
        Some(choose|e: DiceExpr| dice_in_limits(e) && #[trigger] dice_text(e) == s)
    } else {
        None
    }
}

/// How the text of an expression is laid out: the count's digits up to a
/// `d`, the sides' digits, then a sign and the modifier's digits when the
/// modifier is not zero.
proof fn lemma_dice_text_shape(e: DiceExpr)
    requires
        dice_in_limits(e),
    ensures
        ({
            let s = dice_text(e);
            let i = nat_text(e.count as nat).len() as int;
            let j = i + 1 + nat_text(e.sides as nat).len();
            &&& 1 <= i <= 3
            &&& i < s.len()
            &&& run_end(s, 0) == i
            &&& canonical_digits(s.subrange(0, i))
            &&& digits_value(s.subrange(0, i)) == e.count
            &&& s[i] == 'd'
            &&& 1 <= j - (i + 1) <= 4
            &&& j <= s.len()
            &&& run_end(s, i + 1) == j
            &&& canonical_digits(s.subrange(i + 1, j))
            &&& digits_value(s.subrange(i + 1, j)) == e.sides
            &&& (e.modifier == 0 ==> s.len() == j)
            &&& (e.modifier != 0 ==> {
                &&& j < s.len()
                &&& s[j] == (if e.modifier > 0 {
                    '+'
                } else {
                    '-'
                })
                &&& run_end(s, j + 1) == s.len()
                &&& 1 <= s.len() - (j + 1) <= 4
                &&& canonical_digits(s.subrange(j + 1, s.len() as int))
                &&& digits_value(s.subrange(j + 1, s.len() as int)) == (if e.modifier > 0 {
                    e.modifier as int
                } else {
                    -e.modifier
                })
            })
        }),
{
    let s = dice_text(e);
    let ct = nat_text(e.count as nat);
    let st = nat_text(e.sides as nat);
    lemma_nat_text_digits(e.count as nat);
    lemma_nat_text_digits(e.sides as nat);
    let i = ct.len() as int;
    let j = i + 1 + st.len();
    let base = ct + seq!['d'] + st;
    assert(base.subrange(0, i) =~= ct);
    assert(base.subrange(i + 1, j) =~= st);
    let mag: nat = if e.modifier > 0 {
        e.modifier as nat
    } else {
        (-e.modifier) as nat
    };
    lemma_nat_text_digits(mag);
    let mt = nat_text(mag);
    let sign = if e.modifier > 0 {
        '+'
    } else {
        '-'
    };
    if e.modifier == 0 {
        assert(s == base);
    } else {
        assert(s =~= base + seq![sign] + mt);
        assert(s.subrange(j + 1, s.len() as int) =~= mt);
    }
    assert(s.subrange(0, i) =~= ct);
    assert(s.subrange(i + 1, j) =~= st);
    assert(forall|k: int| 0 <= k < i ==> s[k] == ct[k]);
    assert(forall|k: int| i + 1 <= k < j ==> s[k] == st[k - i - 1]);
    lemma_run_end_at(s, 0, i);
    lemma_run_end_at(s, i + 1, j);
    if e.modifier != 0 {
        assert(forall|k: int| j + 1 <= k < s.len() ==> s[k] == mt[k - j - 1]);
        lemma_run_end_at(s, j + 1, s.len() as int);
    }
}

/// Two expressions within limits with the same text are the same.
proof fn lemma_dice_text_injective(a: DiceExpr, b: DiceExpr)
    requires
        dice_in_limits(a),
        dice_in_limits(b),
        dice_text(a) == dice_text(b),
    ensures
        a == b,
{
    lemma_dice_text_shape(a);
    lemma_dice_text_shape(b);
    let s = dice_text(a);
    if a.modifier != 0 && b.modifier != 0 {
        assert(a.modifier > 0 <==> b.modifier > 0);
    }
}

proof fn lemma_dice_of_some(s: Seq<char>, e: DiceExpr)
    requires
        dice_in_limits(e),
        dice_text(e) == s,
    ensures
        dice_of(s) == Some(e),
{
    let w = choose|x: DiceExpr| dice_in_limits(x) && #[trigger] dice_text(x) == s;
    lemma_dice_text_injective(e, w);
}

/// What the text of the expression `dice_of(s)` looks like.
proof fn lemma_dice_of_shape(s: Seq<char>)
    ensures
        dice_of(s) matches Some(e) ==> dice_in_limits(e) && dice_text(e) == s,
{
    if dice_of(s) is Some {
        let w = choose|x: DiceExpr| dice_in_limits(x) && #[trigger] dice_text(x) == s;
        lemma_dice_text_shape(w);
    }
}

/// Parses an expression written in the form of `dice_text`, within the
/// limits of `dice_in_limits`.
#[verifier::rlimit(60)]
#[verifier::spinoff_prover]
pub fn parse(s: &str) -> (r: Option<DiceExpr>)
    ensures
        r == dice_of(s@),
        r matches Some(e) ==> dice_in_limits(e) && dice_text(e) == s@,
{
    let n = s.unicode_len();
    proof {
        lemma_dice_of_shape(s@);
        if dice_of(s@) is Some {
            lemma_dice_text_shape(dice_of(s@)->0);
        }
    }
    let (count, i) = match read_number(s, n, 0, 3) {
        Some(p) => p,
        None => return None,
    };
    if i >= n || s.get_char(i) != 'd' {
        return None;
    }
    let (sides, j) = match read_number(s, n, i + 1, 4) {
        Some(p) => p,
        None => return None,
    };
    if count < 1 || count > MAX_DICE || sides < 1 || sides > MAX_SIDES {
        return None;
    }
    proof {
        lemma_canonical_digits_text(s@.subrange(0, i as int));
        lemma_canonical_digits_text(s@.subrange(i as int + 1, j as int));
    }
    if j == n {
        let e = DiceExpr { count, sides, modifier: 0 };
        proof {
            assert(s@ =~= s@.subrange(0, i as int) + seq!['d'] + s@.subrange(i as int + 1, j as int));
            lemma_dice_of_some(s@, e);
        }
        return Some(e);
    }
    let sign = s.get_char(j);
    if sign != '+' && sign != '-' {
        return None;
    }
    let (m, k) = match read_number(s, n, j + 1, 4) {
        Some(p) => p,
        None => return None,
    };
    if k != n || m < 1 || m > 1000 {
        return None;
    }
    proof {
        lemma_canonical_digits_text(s@.subrange(j as int + 1, k as int));
    }
    let modifier: i32 = if sign == '+' {
        m as i32
    } else {
        0 - (m as i32)
    };
    let e = DiceExpr { count, sides, modifier };
    proof {
        assert(s@ =~= s@.subrange(0, i as int) + seq!['d'] + s@.subrange(i as int + 1, j as int)
            + seq![sign] + s@.subrange(j as int + 1, k as int));
        let base = nat_text(count as nat) + seq!['d'] + nat_text(sides as nat);
        assert(nat_text(count as nat) == s@.subrange(0, i as int));
        assert(nat_text(sides as nat) == s@.subrange(i as int + 1, j as int));
        assert(nat_text(m as nat) == s@.subrange(j as int + 1, k as int));
        if sign == '-' {
            assert(modifier < 0);
            assert(int_text(modifier as int) == seq!['-'] + nat_text(m as nat));
            assert(dice_text(e) == base + int_text(modifier as int));
            assert(dice_text(e) =~= s@);
        } else {
            assert(modifier > 0);
            assert(dice_text(e) == base + seq!['+'] + nat_text(modifier as nat));
            assert(dice_text(e) =~= s@);
        }
        lemma_dice_of_some(s@, e);
    }
    Some(e)
}

/// Total of a sequence of die results.
pub open spec fn sum_rolls(rolls: Seq<u32>) -> int
    decreases rolls.len(),
{
    if rolls.len() == 0 {
        0
    } else {
        sum_rolls(rolls.drop_last()) + rolls.last() as int
    }
}

/// The dice rolled for an expression and the total with the modifier.
#[derive(Clone, Debug)]
pub struct DiceRoll {
    pub total: i32,
    pub rolls: Vec<u32>,
}

/// A roll that an expression can produce: one result per die, each between
/// 1 and the number of sides, and the total of the results plus the modifier.
pub open spec fn valid_roll(e: DiceExpr, r: DiceRoll) -> bool {
    &&& r.rolls@.len() == e.count
    &&& forall|i: int| 0 <= i < r.rolls@.len() ==> 1 <= #[trigger] r.rolls@[i] <= e.sides
    &&& r.total as int == sum_rolls(r.rolls@) + e.modifier as int
}

proof fn lemma_sum_bounds(rolls: Seq<u32>, sides: u32)
    requires
        forall|i: int| 0 <= i < rolls.len() ==> 1 <= #[trigger] rolls[i] <= sides,
    ensures
        rolls.len() <= sum_rolls(rolls) <= rolls.len() * sides,
    decreases rolls.len(),
{
    if rolls.len() > 0 {
        let p = rolls.drop_last();
        assert(forall|i: int| 0 <= i < p.len() ==> p[i] == rolls[i]);
        lemma_sum_bounds(p, sides);
        assert(rolls.len() * sides == p.len() * sides + sides) by (nonlinear_arith)
            requires
                rolls.len() == p.len() + 1,
        ;
    }
}

/// A uniformly random whole number between `lo` and `hi` inclusive.
///
/// Calls `rand::thread_rng` and `rand::Rng::gen_range` on the inclusive
/// range; the contract claims only that the result lies in the range.
#[verifier::external_body]
pub fn random_between(lo: u32, hi: u32) -> (r: u32)
    requires
        lo <= hi,
    ensures
        lo <= r <= hi,
{
    rand::Rng::gen_range(&mut rand::thread_rng(), lo..=hi)
}

/// Rolls a single die of `sides` sides.
pub fn roll_die(sides: u32) -> (r: u32)
    requires
        sides >= 1,
    ensures
        1 <= r <= sides,
{
    random_between(1, sides)
}

/// Rolls an expression.
pub fn roll(e: DiceExpr) -> (r: DiceRoll)
    requires
        dice_in_limits(e),
    ensures
        valid_roll(e, r),
        e.count as int + e.modifier as int <= r.total as int <= e.count as int * e.sides as int
            + e.modifier as int,
{
    let mut rolls: Vec<u32> = Vec::new();
    let mut sum: i32 = 0;
    let mut i: u32 = 0;
    while i < e.count
        invariant
            dice_in_limits(e),
            i <= e.count,
            rolls@.len() == i,
            forall|j: int| 0 <= j < rolls@.len() ==> 1 <= #[trigger] rolls@[j] <= e.sides,
            sum as int == sum_rolls(rolls@),
            0 <= sum <= i * 1000,
        decreases e.count - i,
    {
        let d = roll_die(e.sides);
        let ghost before = rolls@;
        rolls.push(d);
        proof {
            assert(rolls@.drop_last() =~= before);
        }
        sum = sum + d as i32;
        i = i + 1;
    }
    proof {
        lemma_sum_bounds(rolls@, e.sides);
    }
    DiceRoll { total: sum + e.modifier, rolls }
}

} // verus!
