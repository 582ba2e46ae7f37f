//! Character-level helpers shared by the theme-file parsers: whitespace as
//! Rust's `char::is_whitespace` defines it, trimming, and building strings.

use vstd::prelude::*;

verus! {

/// Unicode `White_Space`, the set `char::is_whitespace` tests.
pub open spec fn is_ws(c: char) -> bool {
    ||| c == '\t'
    ||| c == '\n'
    ||| c == '\x0B'
    ||| c == '\x0C'
    ||| c == '\r'
    ||| c == ' '
    ||| c == '\u{85}'
    ||| c == '\u{A0}'
    ||| c == '\u{1680}'
    ||| ('\u{2000}' <= c && c <= '\u{200A}')
    ||| c == '\u{2028}'
    ||| c == '\u{2029}'
    ||| c == '\u{202F}'
    ||| c == '\u{205F}'
    ||| c == '\u{3000}'
}

pub fn is_whitespace(c: char) -> (r: bool)
    ensures
        r == is_ws(c),
{
    c == '\t' || c == '\n' || c == '\x0B' || c == '\x0C' || c == '\r' || c == ' ' || c == '\u{85}'
        || c == '\u{A0}' || c == '\u{1680}' || ('\u{2000}' <= c && c <= '\u{200A}') || c
        == '\u{2028}' || c == '\u{2029}' || c == '\u{202F}' || c == '\u{205F}' || c == '\u{3000}'
}

/// `str::trim_start`: leading whitespace removed.
pub open spec fn trim_start(s: Seq<char>) -> Seq<char>
    decreases s.len(),
{
    if s.len() > 0 && is_ws(s[0]) {
        trim_start(s.drop_first())
    } else {
        s
    }
}

/// `str::trim_end`: trailing whitespace removed.
pub open spec fn trim_end(s: Seq<char>) -> Seq<char>
    decreases s.len(),
{
    if s.len() > 0 && is_ws(s.last()) {
        trim_end(s.drop_last())
    } else {
        s
    }
}

/// `str::trim`: whitespace removed at both ends.
pub open spec fn trim(s: Seq<char>) -> Seq<char> {
    trim_end(trim_start(s))
}

/// The characters of a string slice, in order.
pub fn chars_of(s: &str) -> (out: Vec<char>)
    ensures
        out@ == s@,
{
    let mut out: Vec<char> = Vec::new();
    for c in it: s.chars()
        invariant
            out@ == it.seq().take(it.index() as int),
    {
        out.push(c);
    }
    proof {
        assert(out@ =~= s@);
    }
    out
}

/// `String::push`: appends one character to the string.
#[verifier::external_body]
pub(crate) fn push_char(s: &mut String, c: char)
    ensures
        final(s)@ == old(s)@.push(c),
{
    s.push(c);
}

/// The decimal digit character for `d < 10`.
pub fn digit_char(d: u8) -> (c: char)
    requires
        d < 10,
    ensures
        c == (48 + d) as char,
{
    (48u8 + d) as char
}

/// `s` with every `from` replaced by `to`.
pub open spec fn replaced(s: Seq<char>, from: char, to: char) -> Seq<char> {
    Seq::new(s.len(), |i: int| if s[i] == from { to } else { s[i] })
}

/// `s` with every `from` replaced by `to`.
pub fn replace_char(s: &str, from: char, to: char) -> (r: String)
    ensures
        r@ == replaced(s@, from, to),
{
    let v = chars_of(s);
    let mut out = String::new();
    let mut i: usize = 0;
    while i < v.len()
        invariant
            i <= v@.len(),
            v@ == s@,
            out@ == replaced(v@.subrange(0, i as int), from, to),
        decreases v@.len() - i,
    {
        let c = if v[i] == from {
            to
        } else {
            v[i]
        };
        push_char(&mut out, c);
        i += 1;
        proof {
            assert(out@ =~= replaced(v@.subrange(0, i as int), from, to));
        }
    }
    proof {
        assert(v@.subrange(0, v@.len() as int) =~= v@);
    }
    out
}

/// A new string holding `v[lo..hi]`.
pub fn string_of(v: &Vec<char>, lo: usize, hi: usize) -> (out: String)
    requires
        lo <= hi <= v@.len(),
    ensures
        out@ == v@.subrange(lo as int, hi as int),
{
    let mut out = String::new();
    let mut i = lo;
    while i < hi
        invariant
            lo <= i <= hi <= v@.len(),
            out@ == v@.subrange(lo as int, i as int),
        decreases hi - i,
    {
        push_char(&mut out, v[i]);
        i += 1;
        proof {
            assert(out@ =~= v@.subrange(lo as int, i as int));
        }
    }
    out
}

pub proof fn lemma_trim_start_step(s: Seq<char>, i: int)
    requires
        0 <= i < s.len(),
        is_ws(s[i]),
    ensures
        trim_start(s.subrange(i, s.len() as int)) == trim_start(s.subrange(i + 1, s.len() as int)),
{
    let t = s.subrange(i, s.len() as int);
    assert(t.drop_first() =~= s.subrange(i + 1, s.len() as int));
}

pub proof fn lemma_trim_end_step(s: Seq<char>, j: int)
    requires
        0 < j <= s.len(),
        is_ws(s[j - 1]),
    ensures
        trim_end(s.subrange(0, j)) == trim_end(s.subrange(0, j - 1)),
{
    let t = s.subrange(0, j);
    assert(t.drop_last() =~= s.subrange(0, j - 1));
}

/// Bounds `(lo', hi')` with `v[lo'..hi'] == trim(v[lo..hi])`.
pub fn trim_bounds(v: &Vec<char>, lo: usize, hi: usize) -> (r: (usize, usize))
    requires
        lo <= hi <= v@.len(),
    ensures
        lo <= r.0 <= r.1 <= hi,
        v@.subrange(r.0 as int, r.1 as int) == trim(v@.subrange(lo as int, hi as int)),
        v@.subrange(r.0 as int, hi as int) == trim_start(v@.subrange(lo as int, hi as int)),
{
    let ghost s = v@.subrange(lo as int, hi as int);
    let mut a = lo;
    while a < hi && is_whitespace(v[a])
        invariant
            lo <= a <= hi <= v@.len(),
            s == v@.subrange(lo as int, hi as int),
            trim_start(s) == trim_start(v@.subrange(a as int, hi as int)),
        decreases hi - a,
    {
        proof {
            let t = v@.subrange(lo as int, hi as int);
            lemma_trim_start_step(t, a - lo);
            assert(t.subrange(a - lo, t.len() as int) =~= v@.subrange(a as int, hi as int));
            assert(t.subrange(a - lo + 1, t.len() as int) =~= v@.subrange(a + 1, hi as int));
        }
        a += 1;
    }
    proof {
        let u = v@.subrange(a as int, hi as int);
        if u.len() > 0 {
            assert(u[0] == v@[a as int]);
        }
        assert(trim_start(u) == u);
    }
    let mut b = hi;
    while b > a && is_whitespace(v[b - 1])
        invariant
            lo <= a <= b <= hi <= v@.len(),
            trim_start(s) == v@.subrange(a as int, hi as int),
            trim_end(v@.subrange(a as int, hi as int)) == trim_end(v@.subrange(a as int, b as int)),
        decreases b - a,
    {
        proof {
            let t = v@.subrange(a as int, hi as int);
            let w = v@.subrange(a as int, b as int);
            lemma_trim_end_step(w, b - a);
            assert(w.subrange(0, b - a) =~= w);
            assert(w.subrange(0, b - a - 1) =~= v@.subrange(a as int, b - 1));
        }
        b -= 1;
    }
    proof {
        let w = v@.subrange(a as int, b as int);
        if w.len() > 0 {
            assert(w.last() == v@[b - 1]);
        }
        assert(trim_end(w) == w);
    }
    (a, b)
}

/// `str::lines`: pieces between '\n' characters, a '\r' before the '\n'
/// dropped, no final empty piece after a trailing '\n'. `cur` is the line
/// under way.
pub open spec fn lines_from(s: Seq<char>, cur: Seq<char>) -> Seq<Seq<char>>
    decreases s.len(),
{
    if s.len() == 0 {
        if cur.len() == 0 {
            Seq::<Seq<char>>::empty()
        } else {
            seq![cur]
        }
    } else if s[0] == '\n' {
        seq![strip_cr(cur)] + lines_from(s.drop_first(), Seq::<char>::empty())
    } else {
        lines_from(s.drop_first(), cur.push(s[0]))
    }
}

pub open spec fn strip_cr(l: Seq<char>) -> Seq<char> {
    if l.len() > 0 && l.last() == '\r' {
        l.drop_last()
    } else {
        l
    }
}

/// The lines of a text, as `str::lines` yields them.
pub open spec fn lines_of(s: Seq<char>) -> Seq<Seq<char>> {
    lines_from(s, Seq::<char>::empty())
}

/// Index of the first `c` in `s`, or `s.len()`.
pub open spec fn index_of_char(s: Seq<char>, c: char) -> int
    decreases s.len(),
{
    if s.len() == 0 {
        0
    } else if s[0] == c {
        0
    } else {
        1 + index_of_char(s.drop_first(), c)
    }
}

pub proof fn lemma_index_of_char_at(s: Seq<char>, c: char, i: int)
    requires
        0 <= i <= s.len(),
        forall|j: int| 0 <= j < i ==> #[trigger] s[j] != c,
        i == s.len() || s[i] == c,
    ensures
        index_of_char(s, c) == i,
    decreases s.len(),
{
    if s.len() > 0 && i > 0 {
        let t = s.drop_first();
        assert forall|j: int| 0 <= j < i - 1 implies #[trigger] t[j] != c by {
            assert(t[j] == s[j + 1]);
        }
        if i < s.len() {
            assert(t[i - 1] == s[i]);
        }
        assert(s[0] != c);
        lemma_index_of_char_at(t, c, i - 1);
    }
}

/// First index in `[lo, hi)` holding `c`, or `hi`.
pub fn find_char(v: &Vec<char>, lo: usize, hi: usize, c: char) -> (r: usize)
    requires
        lo <= hi <= v@.len(),
    ensures
        lo <= r <= hi,
        r - lo == index_of_char(v@.subrange(lo as int, hi as int), c),
        forall|j: int| lo <= j < r ==> #[trigger] v@[j] != c,
        r < hi ==> v@[r as int] == c,
{
    let mut i = lo;
    while i < hi && v[i] != c
        invariant
            lo <= i <= hi <= v@.len(),
            forall|j: int| lo <= j < i ==> #[trigger] v@[j] != c,
        decreases hi - i,
    {
        i += 1;
    }
    proof {
        let s = v@.subrange(lo as int, hi as int);
        assert forall|j: int| 0 <= j < i - lo implies #[trigger] s[j] != c by {
            assert(s[j] == v@[lo + j]);
        }
        if i < hi {
            assert(s[i - lo] == v@[i as int]);
        }
        lemma_index_of_char_at(s, c, i - lo);
    }
    i
}

/// Bounds of the next line of `v[start..hi]` (its '\r' before '\n' dropped) and
/// where the line after it starts; `None` when no line is left.
pub fn next_line(v: &Vec<char>, start: usize, hi: usize) -> (r: Option<(usize, usize, usize)>)
    requires
        start <= hi <= v@.len(),
    ensures
        match r {
            None => lines_of(v@.subrange(start as int, hi as int)).len() == 0,
            Some((a, b, next)) => {
                &&& start == a <= b <= next <= hi
                &&& next > start
                &&& lines_of(v@.subrange(start as int, hi as int)) == seq![
                    v@.subrange(a as int, b as int),
                ] + lines_of(v@.subrange(next as int, hi as int))
            },
        },
{
    if start == hi {
        return None;
    }
    let nl = find_char(v, start, hi, '\n');
    proof {
        let s = v@.subrange(start as int, hi as int);
        assert forall|j: int| 0 <= j < nl - start implies #[trigger] s[j] != '\n' by {
            assert(s[j] == v@[start + j]);
        }
        if nl < hi {
            assert(s[nl - start] == v@[nl as int]);
        }
        lemma_lines_split(v@.subrange(start as int, hi as int), Seq::<char>::empty(), nl - start);
        assert(Seq::<char>::empty() + v@.subrange(start as int, hi as int).subrange(0, nl - start)
            =~= v@.subrange(start as int, nl as int));
    }
    if nl == hi {
        proof {
            assert(v@.subrange(hi as int, hi as int) =~= Seq::<char>::empty());
        }
        return Some((start, hi, hi));
    }
    proof {
        assert(v@.subrange(start as int, hi as int).subrange(nl - start + 1, hi - start) =~= v@.subrange(
            nl + 1,
            hi as int,
        ));
    }
    if nl > start && v[nl - 1] == '\r' {
        proof {
            let l = v@.subrange(start as int, nl as int);
            assert(l.last() == v@[nl - 1]);
            assert(l.drop_last() =~= v@.subrange(start as int, nl - 1));
        }
        Some((start, nl - 1, nl + 1))
    } else {
        proof {
            let l = v@.subrange(start as int, nl as int);
            if nl > start {
                assert(l.last() == v@[nl - 1]);
            }
        }
        Some((start, nl, nl + 1))
    }
}

/// `lines_from` over a piece of text whose first '\n' is at `k`.
pub proof fn lemma_lines_split(s: Seq<char>, cur: Seq<char>, k: int)
    requires
        0 <= k <= s.len(),
        forall|j: int| 0 <= j < k ==> #[trigger] s[j] != '\n',
        k == s.len() || s[k] == '\n',
    ensures
        k == s.len() ==> lines_from(s, cur) == (if (cur + s).len() == 0 {
            Seq::<Seq<char>>::empty()
        } else {
            seq![cur + s]
        }),
        k < s.len() ==> lines_from(s, cur) == seq![strip_cr(cur + s.subrange(0, k))] + lines_from(
            s.subrange(k + 1, s.len() as int),
            Seq::<char>::empty(),
        ),
    decreases k,
{
    if k == 0 {
        assert(cur + s.subrange(0, 0) =~= cur);
        if s.len() == 0 {
            assert(cur + s =~= cur);
        } else {
            assert(s.drop_first() =~= s.subrange(1, s.len() as int));
        }
    } else {
        let t = s.drop_first();
        assert forall|j: int| 0 <= j < k - 1 implies #[trigger] t[j] != '\n' by {
            assert(t[j] == s[j + 1]);
        }
        if k < s.len() {
            assert(t[k - 1] == s[k]);
        }
        assert(s[0] != '\n');
        lemma_lines_split(t, cur.push(s[0]), k - 1);
        assert(cur.push(s[0]) + t =~= cur + s);
        assert(cur.push(s[0]) + t.subrange(0, k - 1) =~= cur + s.subrange(0, k));
        if k < s.len() {
            assert(t.subrange(k, t.len() as int) =~= s.subrange(k + 1, s.len() as int));
        }
    }
}

} // verus!
