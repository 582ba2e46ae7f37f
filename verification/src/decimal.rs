//! Decimal number literals as `str::parse::<f64>` accepts them, and the
//! exact integer conversions the color parser applies to them.
//!
//! Accepted forms (ASCII case-insensitive):
//! `[+-]? ( inf | infinity | nan | Number )` with
//! `Number ::= ( Digit+ | Digit+ '.' Digit* | Digit* '.' Digit+ ) ( [eE] [+-]? Digit+ )?`.

use vstd::arithmetic::div_mod::{
    lemma_div_denominator, lemma_div_is_ordered, lemma_fundamental_div_mod_converse,
};
use vstd::prelude::*;

verus! {

pub open spec fn is_digit(c: char) -> bool {
    '0' <= c && c <= '9'
}

pub open spec fn digit_of(c: char) -> nat {
    (c as int - '0' as int) as nat
}

pub open spec fn all_digits(s: Seq<char>) -> bool {
    forall|i: int| 0 <= i < s.len() ==> is_digit(#[trigger] s[i])
}

pub open spec fn pow10(n: nat) -> nat
    decreases n,
{
    if n == 0 {
        1
    } else {
        10 * pow10((n - 1) as nat)
    }
}

/// The number a string of decimal digits denotes, most significant first.
pub open spec fn digits_value(s: Seq<char>) -> nat
    decreases s.len(),
{
    if s.len() == 0 {
        0
    } else {
        digits_value(s.drop_last()) * 10 + digit_of(s.last())
    }
}

/// `floor(x * 10^(-k))`.
pub open spec fn shift_floor(x: nat, k: int) -> nat {
    if k >= 0 {
        x / pow10(k as nat)
    } else {
        x * pow10((-k) as nat)
    }
}

/// A parsed float literal: `Finite` denotes `digits_value(digits) * 10^(-scale)`,
/// negated when `negative`.
pub enum FloatLit {
    NotANumber,
    Infinite { negative: bool },
    Finite { negative: bool, digits: Seq<char>, scale: int },
}

pub open spec fn ascii_lower(c: char) -> char {
    if 'A' <= c && c <= 'Z' {
        ((c as u32) + 32) as char
    } else {
        c
    }
}

/// `s`, lowercased in ASCII, is `word`.
pub open spec fn eq_ignore_case(s: Seq<char>, word: Seq<char>) -> bool {
    s.len() == word.len() && forall|i: int| 0 <= i < s.len() ==> ascii_lower(#[trigger] s[i]) == word[i]
}

/// Index of the first exponent mark (`e`/`E`), or `s.len()`.
pub open spec fn first_exp_mark(s: Seq<char>) -> int
    decreases s.len(),
{
    if s.len() == 0 {
        0
    } else if is_exp_mark(s[0]) {
        0
    } else {
        1 + first_exp_mark(s.drop_first())
    }
}

/// Index of the first '.', or `s.len()`.
pub open spec fn first_point(s: Seq<char>) -> int
    decreases s.len(),
{
    if s.len() == 0 {
        0
    } else if s[0] == '.' {
        0
    } else {
        1 + first_point(s.drop_first())
    }
}

pub open spec fn is_exp_mark(c: char) -> bool {
    c == 'e' || c == 'E'
}

/// The signed exponent `[+-]? Digit+`, if `x` is one.
pub open spec fn exponent_value(x: Seq<char>) -> Option<int> {
    let signed = x.len() > 0 && (x[0] == '+' || x[0] == '-');
    let ds = if signed {
        x.drop_first()
    } else {
        x
    };
    if ds.len() >= 1 && all_digits(ds) {
        if signed && x[0] == '-' {
            Some(-(digits_value(ds) as int))
        } else {
            Some(digits_value(ds) as int)
        }
    } else {
        None
    }
}

/// The unsigned `Number` production.
pub open spec fn number_literal(body: Seq<char>, negative: bool) -> Option<FloatLit> {
    let j = first_exp_mark(body);
    let mant = body.subrange(0, j);
    let exp = if j < body.len() {
        exponent_value(body.subrange(j + 1, body.len() as int))
    } else {
        Some(0int)
    };
    let p = first_point(mant);
    let ip = mant.subrange(0, p);
    let fp = if p < mant.len() {
        mant.subrange(p + 1, mant.len() as int)
    } else {
        Seq::<char>::empty()
    };
    if all_digits(ip) && all_digits(fp) && ip.len() + fp.len() >= 1 && exp is Some {
        Some(FloatLit::Finite { negative, digits: ip + fp, scale: fp.len() - exp->0 })
    } else {
        None
    }
}

/// What `s.parse::<f64>()` accepts, and the exact value of the literal.
pub open spec fn float_literal(s: Seq<char>) -> Option<FloatLit> {
    let signed = s.len() > 0 && (s[0] == '+' || s[0] == '-');
    let negative = s.len() > 0 && s[0] == '-';
    let body = if signed {
        s.drop_first()
    } else {
        s
    };
    if eq_ignore_case(body, seq!['i', 'n', 'f']) || eq_ignore_case(
        body,
        seq!['i', 'n', 'f', 'i', 'n', 'i', 't', 'y'],
    ) {
        Some(FloatLit::Infinite { negative })
    } else if eq_ignore_case(body, seq!['n', 'a', 'n']) {
        Some(FloatLit::NotANumber)
    } else {
        number_literal(body, negative)
    }
}

pub open spec fn min255(x: nat) -> u8 {
    if x >= 255 {
        255
    } else {
        x as u8
    }
}

/// `(v as u32).min(255)`: truncation toward zero, saturating, clamped to a byte.
pub open spec fn channel_of(f: FloatLit) -> u8 {
    match f {
        FloatLit::NotANumber => 0,
        FloatLit::Infinite { negative } => if negative {
            0
        } else {
            255
        },
        FloatLit::Finite { negative, digits, scale } => if negative {
            0
        } else {
            min255(shift_floor(digits_value(digits), scale))
        },
    }
}

/// `((v * 255 + 0.5) as u32).min(255)`: a fraction in `[0, 1]` scaled to a
/// byte, rounded half up.
pub open spec fn alpha_of(f: FloatLit) -> u8 {
    match f {
        FloatLit::NotANumber => 0,
        FloatLit::Infinite { negative } => if negative {
            0
        } else {
            255
        },
        FloatLit::Finite { negative, digits, scale } => if negative {
            0
        } else {
            min255(((shift_floor(510 * digits_value(digits), scale) + 1) / 2) as nat)
        },
    }
}

// ---------------------------------------------------------------------------
// Lemmas on digit strings
// ---------------------------------------------------------------------------

pub proof fn lemma_pow10_pos(n: nat)
    ensures
        pow10(n) >= 1,
    decreases n,
{
    if n > 0 {
        lemma_pow10_pos((n - 1) as nat);
    }
}

pub proof fn lemma_pow10_add(a: nat, b: nat)
    ensures
        pow10(a + b) == pow10(a) * pow10(b),
    decreases b,
{
    if b == 0 {
        assert(pow10(0) == 1);
        assert(a + b == a);
    } else {
        let b1 = (b - 1) as nat;
        lemma_pow10_add(a, b1);
        let x = pow10(a);
        let y = pow10(b1);
        assert(pow10(a + b1) == x * y);
        assert((a + b - 1) as nat == a + b1);
        assert(pow10(a + b) == 10 * pow10(a + b1));
        assert(pow10(b) == 10 * y);
        assert(10 * (x * y) == x * (10 * y)) by (nonlinear_arith);
    }
}

pub proof fn lemma_value_concat(s: Seq<char>, t: Seq<char>)
    ensures
        digits_value(s + t) == digits_value(s) * pow10(t.len()) + digits_value(t),
    decreases t.len(),
{
    if t.len() == 0 {
        assert(s + t =~= s);
        assert(pow10(0) == 1);
        assert(digits_value(t) == 0);
    } else {
        let t2 = t.drop_last();
        lemma_value_concat(s, t2);
        assert((s + t).drop_last() =~= s + t2);
        assert((s + t).last() == t.last());
        assert(digits_value(s + t) == digits_value((s + t).drop_last()) * 10 + digit_of((s + t).last()));
        assert(digits_value(t) == digits_value(t2) * 10 + digit_of(t.last()));
        let a = digits_value(s);
        let p = pow10(t2.len());
        let b = digits_value(t2);
        let d = digit_of(t.last());
        assert(digits_value(s + t2) == a * p + b);
        assert(t2.len() == (t.len() - 1) as nat);
        assert(pow10(t.len()) == 10 * p);
        assert(digits_value(s + t) == (a * p + b) * 10 + d);
        assert(digits_value(t) == b * 10 + d);
        assert((a * p + b) * 10 + d == a * (10 * p) + (b * 10 + d)) by (nonlinear_arith);
    }
}

pub proof fn lemma_value_bound(t: Seq<char>)
    requires
        all_digits(t),
    ensures
        digits_value(t) < pow10(t.len()),
    decreases t.len(),
{
    if t.len() > 0 {
        let t2 = t.drop_last();
        assert(all_digits(t2)) by {
            assert forall|i: int| 0 <= i < t2.len() implies is_digit(#[trigger] t2[i]) by {
                assert(t2[i] == t[i]);
            }
        }
        lemma_value_bound(t2);
        assert(is_digit(t[t.len() - 1]));
        let b = digits_value(t2);
        let p = pow10(t2.len());
        assert(b * 10 + digit_of(t.last()) < 10 * p) by (nonlinear_arith)
            requires
                b < p,
                digit_of(t.last()) <= 9,
        ;
    }
}

/// `floor(x / 10^k)` of a digit string is the value of its first `n - k` digits.
pub proof fn lemma_value_prefix(s: Seq<char>, k: nat)
    requires
        all_digits(s),
        k <= s.len(),
    ensures
        digits_value(s) / pow10(k) == digits_value(s.subrange(0, s.len() - k)),
{
    let p = s.subrange(0, s.len() - k);
    let q = s.subrange(s.len() - k, s.len() as int);
    assert(s =~= p + q);
    lemma_value_concat(p, q);
    assert(all_digits(q)) by {
        assert forall|i: int| 0 <= i < q.len() implies is_digit(#[trigger] q[i]) by {
            assert(q[i] == s[s.len() - k + i]);
        }
    }
    lemma_value_bound(q);
    lemma_pow10_pos(k);
    lemma_fundamental_div_mod_converse(
        digits_value(s) as int,
        pow10(k) as int,
        digits_value(p) as int,
        digits_value(q) as int,
    );
}

/// The carry into the units place when `0.t` is multiplied by 510.
pub open spec fn carry510(t: Seq<char>) -> int {
    (510 * digits_value(t)) as int / pow10(t.len()) as int
}

pub proof fn lemma_carry_step(t: Seq<char>)
    requires
        t.len() >= 1,
        is_digit(t[0]),
    ensures
        carry510(t) == (510 * digit_of(t[0]) + carry510(t.drop_first())) / 10,
{
    let x = digit_of(t[0]);
    let u = t.drop_first();
    assert(t =~= seq![t[0]] + u);
    lemma_value_concat(seq![t[0]], u);
    assert(seq![t[0]].drop_last() =~= Seq::<char>::empty());
    assert(digits_value(Seq::<char>::empty()) == 0);
    assert(seq![t[0]].last() == t[0]);
    assert(digits_value(seq![t[0]]) == x);
    let p = pow10(u.len()) as int;
    lemma_pow10_pos(u.len());
    assert(pow10(t.len()) == 10 * pow10(u.len()));
    let y = (510 * digits_value(u)) as int;
    let big = 510 * x * p + y;
    assert((510 * digits_value(t)) as int == big) by (nonlinear_arith)
        requires
            digits_value(t) == x * p + digits_value(u),
            y == 510 * digits_value(u),
            big == 510 * x * p + y,
    ;
    lemma_div_denominator(big, p, 10);
    assert(p * 10 == 10 * p) by (nonlinear_arith);
    // big / p == 510 * x + y / p
    assert(0 <= y % p < p) by {
        vstd::arithmetic::div_mod::lemma_mod_pos_bound(y, p);
    }
    assert(y == p * (y / p) + y % p) by {
        vstd::arithmetic::div_mod::lemma_fundamental_div_mod(y, p);
    }
    assert(big == (510 * x + y / p) * p + y % p) by (nonlinear_arith)
        requires
            big == 510 * x * p + y,
            y == p * (y / p) + y % p,
    ;
    lemma_fundamental_div_mod_converse(big, p, 510 * x + y / p, y % p);
}

pub proof fn lemma_carry_bound(t: Seq<char>)
    requires
        all_digits(t),
    ensures
        0 <= carry510(t) < 510,
{
    lemma_value_bound(t);
    lemma_pow10_pos(t.len());
    let p = pow10(t.len()) as int;
    let v = digits_value(t) as int;
    assert(510 * v < 510 * p) by (nonlinear_arith)
        requires
            v < p,
    ;
    vstd::arithmetic::div_mod::lemma_div_by_multiple_is_strongly_ordered(510 * v, 510 * p, 510, p);
    vstd::arithmetic::div_mod::lemma_div_by_multiple(510, p);
    vstd::arithmetic::div_mod::lemma_div_pos_is_pos(510 * v, p);
}

// ---------------------------------------------------------------------------
// Executable scanning and conversion
// ---------------------------------------------------------------------------

/// The parts of a scanned literal. `kind`: 0 = NaN, 1 = infinite, 2 = finite.
/// For finite literals, `scale` may be clamped when the exponent is so large
/// that the clamp cannot change any conversion result.
pub struct FloatScan {
    pub kind: u8,
    pub negative: bool,
    pub digits: Vec<char>,
    pub scale: i128,
}

/// `k1` and `k2` give the same conversions for a digit string of length `n`.
pub open spec fn same_effect(n: nat, k1: int, k2: int) -> bool {
    ||| k1 == k2
    ||| (k1 <= -3 && k2 <= -3)
    ||| (k1 >= n + 3 && k2 >= n + 3)
}

pub open spec fn scan_matches(x: FloatScan, f: FloatLit) -> bool {
    match f {
        FloatLit::NotANumber => x.kind == 0,
        FloatLit::Infinite { negative } => x.kind == 1 && x.negative == negative,
        FloatLit::Finite { negative, digits, scale } => {
            &&& x.kind == 2
            &&& x.negative == negative
            &&& x.digits@ == digits
            &&& all_digits(digits)
            &&& same_effect(digits.len(), x.scale as int, scale)
        },
    }
}

fn is_digit_char(c: char) -> (r: bool)
    ensures
        r == is_digit(c),
{
    '0' <= c && c <= '9'
}

fn digit_value(c: char) -> (r: u32)
    requires
        is_digit(c),
    ensures
        r == digit_of(c),
        r <= 9,
{
    (c as u32) - ('0' as u32)
}

fn lower_ascii(c: char) -> (r: char)
    ensures
        r == ascii_lower(c),
{
    if 'A' <= c && c <= 'Z' {
        proof {
            assert((c as u32) + 32 < 0xD800);
        }
        (((c as u32) + 32) as u8) as char
    } else {
        c
    }
}

/// `v[lo..hi]` lowercased is `w`.
fn matches_word(v: &Vec<char>, lo: usize, hi: usize, w: &Vec<char>) -> (r: bool)
    requires
        lo <= hi <= v@.len(),
    ensures
        r == eq_ignore_case(v@.subrange(lo as int, hi as int), w@),
{
    if hi - lo != w.len() {
        return false;
    }
    let mut i: usize = 0;
    while i < w.len()
        invariant
            hi - lo == w@.len(),
            lo <= hi <= v@.len(),
            0 <= i <= w@.len(),
            forall|j: int| 0 <= j < i ==> ascii_lower(v@[lo + j]) == w@[j],
        decreases w@.len() - i,
    {
        if lower_ascii(v[lo + i]) != w[i] {
            proof {
                let s = v@.subrange(lo as int, hi as int);
                assert(s[i as int] == v@[lo + i]);
            }
            return false;
        }
        i += 1;
    }
    proof {
        let s = v@.subrange(lo as int, hi as int);
        assert forall|j: int| 0 <= j < s.len() implies ascii_lower(#[trigger] s[j]) == w@[j] by {
            assert(s[j] == v@[lo + j]);
        }
    }
    true
}

pub proof fn lemma_first_exp_mark_bound(s: Seq<char>)
    ensures
        0 <= first_exp_mark(s) <= s.len(),
    decreases s.len(),
{
    if s.len() > 0 {
        lemma_first_exp_mark_bound(s.drop_first());
    }
}

pub proof fn lemma_first_point_bound(s: Seq<char>)
    ensures
        0 <= first_point(s) <= s.len(),
    decreases s.len(),
{
    if s.len() > 0 {
        lemma_first_point_bound(s.drop_first());
    }
}

proof fn lemma_first_exp_mark_at(s: Seq<char>, i: int)
    requires
        0 <= i <= s.len(),
        forall|j: int| 0 <= j < i ==> !is_exp_mark(#[trigger] s[j]),
        i == s.len() || is_exp_mark(s[i]),
    ensures
        first_exp_mark(s) == i,
    decreases s.len(),
{
    if s.len() > 0 && i > 0 {
        let t = s.drop_first();
        assert forall|j: int| 0 <= j < i - 1 implies !is_exp_mark(#[trigger] t[j]) by {
            assert(t[j] == s[j + 1]);
        }
        if i < s.len() {
            assert(t[i - 1] == s[i]);
        }
        assert(!is_exp_mark(s[0]));
        lemma_first_exp_mark_at(t, i - 1);
    }
}

proof fn lemma_first_point_at(s: Seq<char>, i: int)
    requires
        0 <= i <= s.len(),
        forall|j: int| 0 <= j < i ==> #[trigger] s[j] != '.',
        i == s.len() || s[i] == '.',
    ensures
        first_point(s) == i,
    decreases s.len(),
{
    if s.len() > 0 && i > 0 {
        let t = s.drop_first();
        assert forall|j: int| 0 <= j < i - 1 implies #[trigger] t[j] != '.' by {
            assert(t[j] == s[j + 1]);
        }
        if i < s.len() {
            assert(t[i - 1] == s[i]);
        }
        assert(s[0] != '.');
        lemma_first_point_at(t, i - 1);
    }
}

/// First index in `[lo, hi)` holding an exponent mark, or `hi`.
fn find_exp_mark(v: &Vec<char>, lo: usize, hi: usize) -> (r: usize)
    requires
        lo <= hi <= v@.len(),
    ensures
        lo <= r <= hi,
        r - lo == first_exp_mark(v@.subrange(lo as int, hi as int)),
{
    let mut i = lo;
    while i < hi && !(v[i] == 'e' || v[i] == 'E')
        invariant
            lo <= i <= hi <= v@.len(),
            forall|j: int| lo <= j < i ==> !is_exp_mark(#[trigger] v@[j]),
        decreases hi - i,
    {
        i += 1;
    }
    proof {
        let s = v@.subrange(lo as int, hi as int);
        assert forall|j: int| 0 <= j < i - lo implies !is_exp_mark(#[trigger] s[j]) by {
            assert(s[j] == v@[lo + j]);
        }
        if i < hi {
            assert(s[i - lo] == v@[i as int]);
        }
        lemma_first_exp_mark_at(s, i - lo);
    }
    i
}

/// First index in `[lo, hi)` holding a '.', or `hi`.
fn find_point(v: &Vec<char>, lo: usize, hi: usize) -> (r: usize)
    requires
        lo <= hi <= v@.len(),
    ensures
        lo <= r <= hi,
        r - lo == first_point(v@.subrange(lo as int, hi as int)),
{
    let mut i = lo;
    while i < hi && v[i] != '.'
        invariant
            lo <= i <= hi <= v@.len(),
            forall|j: int| lo <= j < i ==> #[trigger] v@[j] != '.',
        decreases hi - i,
    {
        i += 1;
    }
    proof {
        let s = v@.subrange(lo as int, hi as int);
        assert forall|j: int| 0 <= j < i - lo implies #[trigger] s[j] != '.' by {
            assert(s[j] == v@[lo + j]);
        }
        if i < hi {
            assert(s[i - lo] == v@[i as int]);
        }
        lemma_first_point_at(s, i - lo);
    }
    i
}

/// Whether every character of `v[lo..hi]` is a digit.
fn digits_only(v: &Vec<char>, lo: usize, hi: usize) -> (r: bool)
    requires
        lo <= hi <= v@.len(),
    ensures
        r == all_digits(v@.subrange(lo as int, hi as int)),
{
    let mut i = lo;
    while i < hi
        invariant
            lo <= i <= hi <= v@.len(),
            forall|j: int| lo <= j < i ==> is_digit(#[trigger] v@[j]),
        decreases hi - i,
    {
        if !is_digit_char(v[i]) {
            proof {
                let s = v@.subrange(lo as int, hi as int);
                assert(s[i - lo] == v@[i as int]);
            }
            return false;
        }
        i += 1;
    }
    proof {
        let s = v@.subrange(lo as int, hi as int);
        assert forall|j: int| 0 <= j < s.len() implies is_digit(#[trigger] s[j]) by {
            assert(s[j] == v@[lo + j]);
        }
    }
    true
}

pub proof fn lemma_sat_step(x: int, d: int, cap: int)
    requires
        x >= 0,
        0 <= d <= 9,
        cap >= 1,
    ensures
        min_int(min_int(x, cap) * 10 + d, cap) == min_int(x * 10 + d, cap),
{
}

pub open spec fn min_int(a: int, b: int) -> int {
    if a <= b {
        a
    } else {
        b
    }
}

/// `min(value of v[lo..hi], cap)`, for digit strings.
fn saturated_value(v: &Vec<char>, lo: usize, hi: usize, cap: u128) -> (r: u128)
    requires
        lo <= hi <= v@.len(),
        all_digits(v@.subrange(lo as int, hi as int)),
        1 <= cap <= 0x1_0000_0000_0000_0000_0000_0000,
    ensures
        r as int == min_int(digits_value(v@.subrange(lo as int, hi as int)) as int, cap as int),
{
    let mut acc: u128 = 0;
    let mut i = lo;
    while i < hi
        invariant
            lo <= i <= hi <= v@.len(),
            all_digits(v@.subrange(lo as int, hi as int)),
            1 <= cap <= 0x1_0000_0000_0000_0000_0000_0000,
            acc as int == min_int(digits_value(v@.subrange(lo as int, i as int)) as int, cap as int),
        decreases hi - i,
    {
        let ghost s = v@.subrange(lo as int, hi as int);
        assert(is_digit(s[i - lo]));
        assert(s[i - lo] == v@[i as int]);
        let d = digit_value(v[i]);
        let t = acc * 10 + (d as u128);
        acc = if t < cap {
            t
        } else {
            cap
        };
        proof {
            let pre = v@.subrange(lo as int, i as int);
            let now = v@.subrange(lo as int, i + 1);
            assert(now.drop_last() =~= pre);
            assert(now.last() == v@[i as int]);
            lemma_sat_step(digits_value(pre) as int, d as int, cap as int);
        }
        i += 1;
    }
    acc
}

/// The exponent `[+-]? Digit+` in `v[x0..hi]`, its magnitude clamped to `cap`.
fn scan_exponent(v: &Vec<char>, x0: usize, hi: usize, cap: u128) -> (r: Option<i128>)
    requires
        x0 <= hi <= v@.len(),
        1 <= cap <= 0x1_0000_0000_0000_0000_0000_0000,
    ensures
        match (r, exponent_value(v@.subrange(x0 as int, hi as int))) {
            (None, None) => true,
            (Some(e), Some(ev)) => e == ev || (ev >= cap && e == cap) || (ev <= -cap && e == -cap),
            _ => false,
        },
        r matches Some(e) ==> -cap <= e <= cap,
{
    let ghost xs = v@.subrange(x0 as int, hi as int);
    let mut x = x0;
    let mut eneg = false;
    if x < hi && (v[x] == '+' || v[x] == '-') {
        eneg = v[x] == '-';
        x += 1;
    }
    proof {
        assert(xs.len() > 0 ==> xs[0] == v@[x0 as int]);
        if x > x0 {
            assert(xs.drop_first() =~= v@.subrange(x as int, hi as int));
        } else {
            assert(xs =~= v@.subrange(x as int, hi as int));
        }
    }
    if x == hi || !digits_only(v, x, hi) {
        return None;
    }
    let e = saturated_value(v, x, hi, cap);
    if eneg {
        Some(-(e as i128))
    } else {
        Some(e as i128)
    }
}

/// Copy `v[a..b] ++ v[c..d]`.
fn concat_ranges(v: &Vec<char>, a: usize, b: usize, c: usize, d: usize) -> (out: Vec<char>)
    requires
        a <= b <= v@.len(),
        c <= d <= v@.len(),
    ensures
        out@ == v@.subrange(a as int, b as int) + v@.subrange(c as int, d as int),
{
    let mut out: Vec<char> = Vec::new();
    let mut q = a;
    while q < b
        invariant
            a <= q <= b <= v@.len(),
            out@ == v@.subrange(a as int, q as int),
        decreases b - q,
    {
        out.push(v[q]);
        q += 1;
        proof {
            assert(out@ =~= v@.subrange(a as int, q as int));
        }
    }
    let mut q = c;
    while q < d
        invariant
            c <= q <= d <= v@.len(),
            out@ == v@.subrange(a as int, b as int) + v@.subrange(c as int, q as int),
        decreases d - q,
    {
        out.push(v[q]);
        q += 1;
        proof {
            assert(out@ =~= v@.subrange(a as int, b as int) + v@.subrange(c as int, q as int));
        }
    }
    out
}

proof fn lemma_concat_digits(a: Seq<char>, b: Seq<char>)
    requires
        all_digits(a),
        all_digits(b),
    ensures
        all_digits(a + b),
{
    let ds = a + b;
    assert forall|t: int| 0 <= t < ds.len() implies is_digit(#[trigger] ds[t]) by {
        if t < a.len() {
            assert(ds[t] == a[t]);
        } else {
            assert(ds[t] == b[t - a.len()]);
        }
    }
}

/// Scan `v[i..hi]` as the unsigned `Number` production.
fn scan_number(v: &Vec<char>, i: usize, hi: usize, negative: bool) -> (r: Option<FloatScan>)
    requires
        i <= hi <= v@.len(),
    ensures
        match (r, number_literal(v@.subrange(i as int, hi as int), negative)) {
            (None, None) => true,
            (Some(x), Some(f)) => scan_matches(x, f),
            _ => false,
        },
{
    let ghost body = v@.subrange(i as int, hi as int);
    let j = find_exp_mark(v, i, hi);
    let p = find_point(v, i, j);
    let fstart = if p < j {
        p + 1
    } else {
        j
    };
    let ghost mant = body.subrange(0, j - i);
    let ghost ip = mant.subrange(0, p - i);
    let ghost fp = if p - i < mant.len() {
        mant.subrange(p - i + 1, mant.len() as int)
    } else {
        Seq::<char>::empty()
    };
    proof {
        assert(mant =~= v@.subrange(i as int, j as int));
        assert(ip =~= v@.subrange(i as int, p as int));
        assert(fp =~= v@.subrange(fstart as int, j as int));
    }
    if !digits_only(v, i, p) || !digits_only(v, fstart, j) || (p - i) + (j - fstart) == 0 {
        return None;
    }
    let cap: u128 = (hi as u128) + 4;
    let mut exp: i128 = 0;
    if j < hi {
        proof {
            assert(body.subrange(j - i + 1, body.len() as int) =~= v@.subrange(j + 1, hi as int));
        }
        match scan_exponent(v, j + 1, hi, cap) {
            None => {
                return None;
            },
            Some(e) => {
                exp = e;
            },
        }
    }
    let digits = concat_ranges(v, i, p, fstart, j);
    let flen = j - fstart;
    let scale = (flen as i128) - exp;
    proof {
        lemma_concat_digits(ip, fp);
        let ev = if j < hi {
            exponent_value(body.subrange(j - i + 1, body.len() as int))->0
        } else {
            0int
        };
        assert(digits@.len() <= hi);
        assert(same_effect(digits@.len(), scale as int, fp.len() - ev));
    }
    Some(FloatScan { kind: 2, negative, digits, scale })
}

/// Scan `v[lo..hi]` as a float literal.
pub(crate) fn scan_float(v: &Vec<char>, lo: usize, hi: usize) -> (r: Option<FloatScan>)
    requires
        lo <= hi <= v@.len(),
    ensures
        match (r, float_literal(v@.subrange(lo as int, hi as int))) {
            (None, None) => true,
            (Some(x), Some(f)) => scan_matches(x, f),
            _ => false,
        },
{
    let ghost s = v@.subrange(lo as int, hi as int);
    let mut i = lo;
    let mut negative = false;
    if i < hi && (v[i] == '+' || v[i] == '-') {
        negative = v[i] == '-';
        i += 1;
    }
    proof {
        assert(s.len() > 0 ==> s[0] == v@[lo as int]);
        if i > lo {
            assert(s.drop_first() =~= v@.subrange(i as int, hi as int));
        } else {
            assert(s =~= v@.subrange(i as int, hi as int));
        }
    }
    if matches_word(v, i, hi, &vec!['i', 'n', 'f']) || matches_word(
        v,
        i,
        hi,
        &vec!['i', 'n', 'f', 'i', 'n', 'i', 't', 'y'],
    ) {
        return Some(FloatScan { kind: 1, negative, digits: Vec::new(), scale: 0 });
    }
    if matches_word(v, i, hi, &vec!['n', 'a', 'n']) {
        return Some(FloatScan { kind: 0, negative, digits: Vec::new(), scale: 0 });
    }
    scan_number(v, i, hi, negative)
}

pub proof fn lemma_pow10_mono(a: nat, b: nat)
    requires
        a <= b,
    ensures
        pow10(a) <= pow10(b),
    decreases b,
{
    if a < b {
        lemma_pow10_mono(a, (b - 1) as nat);
        lemma_pow10_pos((b - 1) as nat);
    }
}

/// Scales that `same_effect` relates give the same conversions.
proof fn lemma_same_effect(ds: Seq<char>, k1: int, k2: int)
    requires
        all_digits(ds),
        same_effect(ds.len(), k1, k2),
    ensures
        min255(shift_floor(digits_value(ds), k1)) == min255(shift_floor(digits_value(ds), k2)),
        min255(((shift_floor(510 * digits_value(ds), k1) + 1) / 2) as nat) == min255(
            ((shift_floor(510 * digits_value(ds), k2) + 1) / 2) as nat,
        ),
{
    lemma_shift_regimes(ds, k1);
    lemma_shift_regimes(ds, k2);
}

proof fn lemma_shift_regimes(ds: Seq<char>, k: int)
    requires
        all_digits(ds),
    ensures
        k <= -3 && digits_value(ds) > 0 ==> shift_floor(digits_value(ds), k) >= 255 && shift_floor(
            510 * digits_value(ds),
            k,
        ) >= 510,
        digits_value(ds) == 0 ==> shift_floor(digits_value(ds), k) == 0 && shift_floor(
            510 * digits_value(ds),
            k,
        ) == 0,
        k >= ds.len() + 3 ==> shift_floor(digits_value(ds), k) == 0 && shift_floor(
            510 * digits_value(ds),
            k,
        ) == 0,
{
    let d = digits_value(ds);
    lemma_value_bound(ds);
    if k <= -3 && d > 0 {
        let m = (-k) as nat;
        lemma_pow10_mono(3, m);
        assert(pow10(3) == 1000) by {
            assert(pow10(0) == 1);
            assert(pow10(1) == 10);
            assert(pow10(2) == 100);
        }
        let p = pow10(m);
        assert(d * p >= 255 && 510 * d * p >= 510) by (nonlinear_arith)
            requires
                d >= 1,
                p >= 1000,
        ;
    }
    if d == 0 {
        lemma_pow10_pos((if k >= 0 { k } else { -k }) as nat);
        if k >= 0 {
            assert(0nat / pow10(k as nat) == 0) by {
                vstd::arithmetic::div_mod::lemma_div_basics(pow10(k as nat) as int);
            }
        }
    }
    if k >= ds.len() + 3 {
        let n = ds.len();
        lemma_pow10_add(n, (k - n) as nat);
        lemma_pow10_mono(3, (k - n) as nat);
        assert(pow10(3) == 1000) by {
            assert(pow10(0) == 1);
            assert(pow10(1) == 10);
            assert(pow10(2) == 100);
        }
        let pn = pow10(n);
        let pz = pow10((k - n) as nat);
        assert((n + (k - n) as nat) as nat == k as nat);
        assert(510 * d < pn * pz && d < pn * pz) by (nonlinear_arith)
            requires
                d < pn,
                pz >= 1000,
        ;
        vstd::arithmetic::div_mod::lemma_basic_div((510 * d) as int, (pn * pz) as int);
        vstd::arithmetic::div_mod::lemma_basic_div(d as int, (pn * pz) as int);
        assert((510 * d) as int / (pn * pz) as int == 0);
        assert(d as int / (pn * pz) as int == 0);
    }
}

/// The carry510 of `d[lo..hi]`.
fn carry_of(d: &Vec<char>, lo: usize, hi: usize) -> (c: u32)
    requires
        lo <= hi <= d@.len(),
        all_digits(d@.subrange(lo as int, hi as int)),
    ensures
        c as int == carry510(d@.subrange(lo as int, hi as int)),
        c < 510,
{
    let mut c: u32 = 0;
    let mut i = hi;
    proof {
        assert(d@.subrange(hi as int, hi as int) =~= Seq::<char>::empty());
        assert(digits_value(Seq::<char>::empty()) == 0);
        assert(pow10(0) == 1);
    }
    while i > lo
        invariant
            lo <= i <= hi <= d@.len(),
            all_digits(d@.subrange(lo as int, hi as int)),
            c as int == carry510(d@.subrange(i as int, hi as int)),
            c < 510,
        decreases i - lo,
    {
        i -= 1;
        let ghost t = d@.subrange(i as int, hi as int);
        proof {
            assert(t[0] == d@[i as int]);
            assert(d@.subrange(lo as int, hi as int)[i - lo] == d@[i as int]);
            assert(t.drop_first() =~= d@.subrange(i + 1, hi as int));
            lemma_carry_step(t);
            assert(all_digits(t)) by {
                assert forall|q: int| 0 <= q < t.len() implies is_digit(#[trigger] t[q]) by {
                    assert(t[q] == d@.subrange(lo as int, hi as int)[i - lo + q]);
                }
            }
            lemma_carry_bound(t);
        }
        let x = digit_value(d[i]);
        c = (510 * x + c) / 10;
    }
    c
}

/// `(v as u32).min(255)` for the scanned literal.
pub(crate) fn channel_from(x: &FloatScan, Ghost(f): Ghost<FloatLit>) -> (r: u8)
    requires
        scan_matches(*x, f),
    ensures
        r == channel_of(f),
{
    if x.kind == 0 {
        return 0;
    }
    if x.kind == 1 {
        return if x.negative {
            0
        } else {
            255
        };
    }
    if x.negative {
        return 0;
    }
    let d = &x.digits;
    let n = d.len();
    let k = x.scale;
    let ghost ds = d@;
    proof {
        assert(d@.subrange(0, n as int) =~= ds);
        lemma_same_effect(ds, k as int, f->scale);
        lemma_shift_regimes(ds, k as int);
    }
    if k <= 0 {
        let v = saturated_value(d, 0, n, 256);
        if v == 0 {
            return 0;
        }
        if k <= -3 {
            return 255;
        }
        let m: u128 = if k == 0 {
            1
        } else if k == -1 {
            10
        } else {
            100
        };
        proof {
            assert(pow10(0) == 1);
            assert(pow10(1) == 10);
            assert(pow10(2) == 100);
            let dv = digits_value(ds);
            vstd::arithmetic::div_mod::lemma_div_basics(dv as int);
            if k < 0 {
                assert(pow10((-k) as nat) == m);
                assert(shift_floor(dv, k as int) == dv * pow10((-k) as nat));
                let pk = pow10((-k) as nat);
                assert(dv * pk == dv * m) by (nonlinear_arith)
                    requires
                        pk == m,
                ;
            } else {
                assert(k == 0);
                assert(shift_floor(dv, k as int) == dv / pow10(0));
                assert(dv as int / 1 == dv);
                assert(m == 1);
                assert(dv * m == dv) by (nonlinear_arith)
                    requires
                        m == 1,
                ;
            }
            assert(shift_floor(dv, k as int) == dv * m);
            assert(min255((dv * m) as nat) == min255((v * m) as nat)) by (nonlinear_arith)
                requires
                    v as int == min_int(dv as int, 256),
                    m >= 1,
                    v >= 1,
            ;
        }
        let t = v * m;
        if t >= 255 {
            255
        } else {
            t as u8
        }
    } else if k >= n as i128 {
        proof {
            lemma_value_bound(ds);
            lemma_pow10_mono(n as nat, k as nat);
            vstd::arithmetic::div_mod::lemma_basic_div(digits_value(ds) as int, pow10(k as nat) as int);
        }
        0
    } else {
        let cut = n - (k as usize);
        proof {
            lemma_value_prefix(ds, k as nat);
            assert(d@.subrange(0, cut as int) =~= ds.subrange(0, ds.len() - k));
            assert(all_digits(d@.subrange(0, cut as int))) by {
                assert forall|q: int| 0 <= q < cut implies is_digit(#[trigger] d@.subrange(0, cut as int)[q]) by {
                    assert(d@.subrange(0, cut as int)[q] == ds[q]);
                }
            }
        }
        let v = saturated_value(d, 0, cut, 256);
        if v >= 255 {
            255
        } else {
            v as u8
        }
    }
}

/// `((v * 255 + 0.5) as u32).min(255)` for the scanned literal.
pub(crate) fn alpha_from(x: &FloatScan, Ghost(f): Ghost<FloatLit>) -> (r: u8)
    requires
        scan_matches(*x, f),
    ensures
        r == alpha_of(f),
{
    if x.kind == 0 {
        return 0;
    }
    if x.kind == 1 {
        return if x.negative {
            0
        } else {
            255
        };
    }
    if x.negative {
        return 0;
    }
    let d = &x.digits;
    let n = d.len();
    let k = x.scale;
    let ghost ds = d@;
    let ghost dv = digits_value(ds);
    proof {
        assert(d@.subrange(0, n as int) =~= ds);
        lemma_same_effect(ds, k as int, f->scale);
        lemma_shift_regimes(ds, k as int);
    }
    if k <= 0 {
        let v = saturated_value(d, 0, n, 256);
        if v == 0 {
            return 0;
        }
        proof {
            let p = pow10((-k) as nat);
            lemma_pow10_pos((-k) as nat);
            assert(510 * dv * p >= 510) by (nonlinear_arith)
                requires
                    dv >= 1,
                    p >= 1,
            ;
            vstd::arithmetic::div_mod::lemma_div_basics((510 * dv) as int);
            assert(pow10(0) == 1);
            assert(shift_floor(510 * dv, k as int) >= 510);
        }
        return 255;
    }
    let c: u32;
    if k < n as i128 {
        let cut = n - (k as usize);
        let ghost pre = ds.subrange(0, cut as int);
        let ghost suf = ds.subrange(cut as int, n as int);
        proof {
            lemma_value_prefix(ds, k as nat);
            assert(d@.subrange(0, cut as int) =~= pre);
            assert(d@.subrange(cut as int, n as int) =~= suf);
            assert(all_digits(pre)) by {
                assert forall|q: int| 0 <= q < pre.len() implies is_digit(#[trigger] pre[q]) by {
                    assert(pre[q] == ds[q]);
                }
            }
            assert(all_digits(suf)) by {
                assert forall|q: int| 0 <= q < suf.len() implies is_digit(#[trigger] suf[q]) by {
                    assert(suf[q] == ds[cut + q]);
                }
            }
            assert(ds =~= pre + suf);
            lemma_value_concat(pre, suf);
        }
        let i = saturated_value(d, 0, cut, 256);
        if i > 0 {
            proof {
                let p = pow10(k as nat);
                lemma_pow10_pos(k as nat);
                let iv = digits_value(pre);
                assert(dv == iv * p + digits_value(suf));
                assert(510 * dv >= 510 * p * iv) by (nonlinear_arith)
                    requires
                        dv == iv * p + digits_value(suf),
                ;
                vstd::arithmetic::div_mod::lemma_div_by_multiple((510 * iv) as int, p as int);
                assert(510 * p * iv == (510 * iv) * p) by (nonlinear_arith);
                lemma_div_is_ordered((510 * iv * p) as int, (510 * dv) as int, p as int);
                assert(iv >= 1);
            }
            return 255;
        }
        c = carry_of(d, cut, n);
        proof {
            assert(digits_value(pre) == 0);
            assert(dv == digits_value(suf)) by {
                assert(dv == digits_value(pre) * pow10(suf.len()) + digits_value(suf));
                assert(0 * pow10(suf.len()) == 0);
            }
            assert(suf.len() == k);
            assert(c == shift_floor(510 * dv, k as int));
        }
    } else {
        let c0 = carry_of(d, 0, n);
        let z = k - (n as i128);
        let ghost zn = z as nat;
        proof {
            lemma_pow10_add(n as nat, zn);
            lemma_pow10_pos(n as nat);
            lemma_pow10_pos(zn);
            assert((n as nat + zn) as nat == k as nat);
            lemma_div_denominator((510 * dv) as int, pow10(n as nat) as int, pow10(zn) as int);
            assert(c0 == (510 * dv) as int / pow10(n as nat) as int);
        }
        if z >= 3 {
            proof {
                lemma_pow10_mono(3, zn);
                assert(pow10(3) == 1000) by {
                    assert(pow10(0) == 1);
                    assert(pow10(1) == 10);
                    assert(pow10(2) == 100);
                }
                vstd::arithmetic::div_mod::lemma_basic_div(c0 as int, pow10(zn) as int);
                assert(c0 as int / pow10(zn) as int == 0);
            }
            c = 0;
        } else {
            let m: u32 = if z == 0 {
                1
            } else if z == 1 {
                10
            } else {
                100
            };
            proof {
                assert(pow10(0) == 1);
                assert(pow10(1) == 10);
                assert(pow10(2) == 100);
                assert(pow10(zn) == m);
            }
            c = c0 / m;
        }
        proof {
            assert(c == shift_floor(510 * dv, k as int));
        }
    }
    let h = (c + 1) / 2;
    if h >= 255 {
        255
    } else {
        h as u8
    }
}

/// Whether `v[lo..hi]` is a literal `str::parse::<f64>` accepts.
pub fn is_float_literal(v: &Vec<char>, lo: usize, hi: usize) -> (r: bool)
    requires
        lo <= hi <= v@.len(),
    ensures
        r == (float_literal(v@.subrange(lo as int, hi as int)) is Some),
{
    scan_float(v, lo, hi).is_some()
}

} // verus!
