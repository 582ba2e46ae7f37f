//! `shell.toml` parsing: the Omarchy shell's semantic style tokens (control
//! states, surfaces, spacing, font scale).
//!
//! The file is flat TOML: `[section]` headers with `key = value` lines. The
//! parser understands the subset Omarchy generates (strings, numbers,
//! booleans) and resolves the two indirection conventions the template
//! engine uses:
//!
//! * references — `border = "hyprland.active-border"` names `section.key`
//!   in the same file;
//! * gradients — `active-border = "rgba(..) rgba(..) 45deg"`; consumers that
//!   cannot render them take the first stop.

use vstd::prelude::*;

use crate::color::{parse_color, Rgba};
use crate::palette::is_ascii_alnum;
use crate::table::{pair_views, sorted_key_listing, sorted_listing, Table};
use crate::text::{chars_of, find_char, index_of_char, lines_of, next_line, string_of, trim, trim_bounds};

verus! {

/// Section name -> key -> value.
pub type Sections = Map<Seq<char>, Map<Seq<char>, Seq<char>>>;

// ---------------------------------------------------------------------------
// The line grammar
// ---------------------------------------------------------------------------

/// What one line of `shell.toml` says.
pub enum StyleLine {
    Skip,
    Header(Seq<char>),
    Entry(Seq<char>, Seq<char>),
}

pub open spec fn is_token_key_char(c: char) -> bool {
    is_ascii_alnum(c) || c == '_' || c == '-' || c == '.'
}

/// A value with its quoting removed: a quoted value is the text up to the
/// closing quote; a bare value loses a trailing `#` comment and is trimmed.
pub open spec fn clean_value(v: Seq<char>) -> Seq<char> {
    if v.len() > 0 && v[0] == '"' {
        let inner = v.drop_first();
        inner.subrange(0, index_of_char(inner, '"'))
    } else {
        trim(v.subrange(0, index_of_char(v, '#')))
    }
}

/// Blank lines and comments are skipped; `[name]` opens a section; a
/// `key = value` line with a key of `[A-Za-z0-9_.-]+` is an entry.
pub open spec fn style_line(line: Seq<char>) -> StyleLine {
    let t = trim(line);
    if t.len() == 0 || t[0] == '#' {
        StyleLine::Skip
    } else if t[0] == '[' {
        let rest = t.drop_first();
        if rest.len() > 0 && rest.last() == ']' {
            StyleLine::Header(trim(rest.drop_last()))
        } else {
            StyleLine::Skip
        }
    } else {
        let j = index_of_char(t, '=');
        if j >= t.len() {
            StyleLine::Skip
        } else {
            let key = trim(t.subrange(0, j));
            if key.len() == 0 || !(forall|i: int|
                0 <= i < key.len() ==> is_token_key_char(#[trigger] key[i])) {
                StyleLine::Skip
            } else {
                StyleLine::Entry(key, clean_value(trim(t.subrange(j + 1, t.len() as int))))
            }
        }
    }
}

/// `m` with a section `name`, empty unless it was there.
pub open spec fn with_section(m: Sections, name: Seq<char>) -> Sections {
    if m.contains_key(name) {
        m
    } else {
        m.insert(name, Map::empty())
    }
}

/// `m` with `k = v` in section `sec`.
pub open spec fn with_entry(m: Sections, sec: Seq<char>, k: Seq<char>, v: Seq<char>) -> Sections {
    m.insert(sec, with_section(m, sec)[sec].insert(k, v))
}

/// One line applied to (current section, sections).
pub open spec fn style_step(st: (Seq<char>, Sections), line: Seq<char>) -> (Seq<char>, Sections) {
    match style_line(line) {
        StyleLine::Skip => st,
        StyleLine::Header(name) => (name, with_section(st.1, name)),
        StyleLine::Entry(k, v) => (st.0, with_entry(st.1, st.0, k, v)),
    }
}

pub open spec fn style_fold(st: (Seq<char>, Sections), ls: Seq<Seq<char>>) -> (Seq<char>, Sections)
    decreases ls.len(),
{
    if ls.len() == 0 {
        st
    } else {
        style_fold(style_step(st, ls[0]), ls.drop_first())
    }
}

/// The sections of a `shell.toml` text before references are resolved;
/// entries before the first header belong to the section named "".
pub open spec fn parsed_sections(raw: Seq<char>) -> Sections {
    style_fold((Seq::<char>::empty(), Map::empty()), lines_of(raw)).1
}

// ---------------------------------------------------------------------------
// References
// ---------------------------------------------------------------------------

pub open spec fn is_ref_char(c: char) -> bool {
    is_ascii_alnum(c) || c == '_' || c == '-'
}

/// `"hyprland.active-border"` -> `("hyprland", "active-border")`: exactly one
/// dot, both sides non-empty names of `[A-Za-z0-9_-]`, the section name not
/// starting with a digit (so numbers and colors never read as references).
pub open spec fn split_reference(v: Seq<char>) -> Option<(Seq<char>, Seq<char>)> {
    let dot = index_of_char(v, '.');
    if dot >= v.len() {
        None
    } else {
        let head = v.subrange(0, dot);
        let tail = v.subrange(dot + 1, v.len() as int);
        if head.len() == 0 || tail.len() == 0 || index_of_char(tail, '.') < tail.len() {
            None
        } else if !(forall|i: int| 0 <= i < head.len() ==> is_ref_char(#[trigger] head[i])) {
            None
        } else if !(forall|i: int| 0 <= i < tail.len() ==> is_ref_char(#[trigger] tail[i])) {
            None
        } else if '0' <= head[0] && head[0] <= '9' {
            None
        } else {
            Some((head, tail))
        }
    }
}

/// A value with one reference step taken against `snap`: the target's value
/// when `v` names an existing `section.key`, else `v` itself.
pub open spec fn resolve_value(snap: Sections, v: Seq<char>) -> Seq<char> {
    match split_reference(v) {
        Some((s, k)) => if snap.contains_key(s) && snap[s].contains_key(k) {
            snap[s][k]
        } else {
            v
        },
        None => v,
    }
}

/// Where the references from `v` lead within `fuel` steps: the first value
/// of the chain that resolves to itself (a value that is no reference, or a
/// reference to a missing entry), or `None` when the chain has not settled.
pub open spec fn settle(m: Sections, v: Seq<char>, fuel: nat) -> Option<Seq<char>>
    decreases fuel,
{
    if resolve_value(m, v) == v {
        Some(v)
    } else if fuel == 0 {
        None
    } else {
        settle(m, resolve_value(m, v), (fuel - 1) as nat)
    }
}

/// A value with its references followed to the end: the value its chain
/// settles on, or the value itself when the chain never settles (a cycle).
pub open spec fn settled(m: Sections, v: Seq<char>, fuel: nat) -> Seq<char> {
    match settle(m, v, fuel) {
        Some(w) => w,
        None => v,
    }
}

/// Each value of one section resolved against `snap`.
pub open spec fn resolve_section(snap: Sections, inner: Map<Seq<char>, Seq<char>>, fuel: nat) -> Map<
    Seq<char>,
    Seq<char>,
> {
    inner.map_values(|v: Seq<char>| settled(snap, v, fuel))
}

/// Each section of `part` resolved against `snap`.
pub open spec fn resolve_sections(snap: Sections, part: Sections, fuel: nat) -> Sections {
    part.map_values(|inner: Map<Seq<char>, Seq<char>>| resolve_section(snap, inner, fuel))
}

/// Every reference of `m` resolved against `m` itself, chains followed for
/// at most `fuel` steps.
pub open spec fn resolve_refs(m: Sections, fuel: nat) -> Sections {
    resolve_sections(m, m, fuel)
}

/// The tokens of a `shell.toml` text. Chains are followed for as many steps
/// as the text has characters: each entry takes a line of its own, so a
/// chain without a cycle settles sooner, and one that does not settle by then
/// is a cycle and keeps its parsed value.
pub open spec fn style_tokens(raw: Seq<char>) -> Sections {
    resolve_refs(parsed_sections(raw), raw.len())
}

// ---------------------------------------------------------------------------
// Gradient stops
// ---------------------------------------------------------------------------

/// Space-separated tokens of `s[i..]`, spaces inside parentheses kept;
/// `depth` is the parenthesis depth so far and `start` where the token
/// under way began.
pub open spec fn tokens_from(s: Seq<char>, i: int, depth: nat, start: int) -> Seq<Seq<char>>
    decreases s.len() - i,
{
    if i >= s.len() || i < 0 {
        if s.len() > start {
            seq![s.subrange(start, s.len() as int)]
        } else {
            Seq::empty()
        }
    } else if s[i] == '(' {
        tokens_from(s, i + 1, depth + 1, start)
    } else if s[i] == ')' {
        tokens_from(s, i + 1, if depth > 0 { (depth - 1) as nat } else { 0 }, start)
    } else if s[i] == ' ' && depth == 0 {
        let here = if i > start {
            seq![s.subrange(start, i)]
        } else {
            Seq::<Seq<char>>::empty()
        };
        here + tokens_from(s, i + 1, depth, i + 1)
    } else {
        tokens_from(s, i + 1, depth, start)
    }
}

/// `"rgba(1 2 3) #aabbcc 45deg"` -> `["rgba(1 2 3)", "#aabbcc", "45deg"]`.
pub open spec fn top_level_tokens(s: Seq<char>) -> Seq<Seq<char>> {
    tokens_from(s, 0, 0, 0)
}

/// The first token that parses as a color.
pub open spec fn first_color(ts: Seq<Seq<char>>) -> Option<Rgba>
    decreases ts.len(),
{
    if ts.len() == 0 {
        None
    } else {
        match parse_color(ts[0]) {
            Some(c) => Some(c),
            None => first_color(ts.drop_first()),
        }
    }
}


/// The value under `section.key`, if any.
pub open spec fn lookup(m: Sections, section: Seq<char>, key: Seq<char>) -> Option<Seq<char>> {
    if m.contains_key(section) && m[section].contains_key(key) {
        Some(m[section][key])
    } else {
        None
    }
}

/// The views of a list of strings.
pub open spec fn strings_view(v: Seq<String>) -> Seq<Seq<char>> {
    v.map_values(|t: String| t@)
}

// ---------------------------------------------------------------------------
// Executable line parsing
// ---------------------------------------------------------------------------

/// A line's meaning, as strings.
enum LineKind {
    Skip,
    Header(String),
    Entry(String, String),
}

spec fn kind_matches(k: LineKind, l: StyleLine) -> bool {
    match (k, l) {
        (LineKind::Skip, StyleLine::Skip) => true,
        (LineKind::Header(n), StyleLine::Header(m)) => n@ == m,
        (LineKind::Entry(a, b), StyleLine::Entry(c, d)) => a@ == c && b@ == d,
        _ => false,
    }
}

fn is_token_key_char_exec(c: char) -> (r: bool)
    ensures
        r == is_token_key_char(c),
{
    ('0' <= c && c <= '9') || ('a' <= c && c <= 'z') || ('A' <= c && c <= 'Z') || c == '_' || c
        == '-' || c == '.'
}

/// `clean_value(v[lo..hi])`.
fn clean_value_at(v: &Vec<char>, lo: usize, hi: usize) -> (out: String)
    requires
        lo <= hi <= v@.len(),
    ensures
        out@ == clean_value(v@.subrange(lo as int, hi as int)),
{
    let ghost s = v@.subrange(lo as int, hi as int);
    if lo < hi && v[lo] == '"' {
        let e = find_char(v, lo + 1, hi, '"');
        proof {
            assert(s[0] == v@[lo as int]);
            assert(s.drop_first() =~= v@.subrange(lo + 1, hi as int));
            assert(s.drop_first().subrange(0, e - lo - 1) =~= v@.subrange(lo + 1, e as int));
        }
        string_of(v, lo + 1, e)
    } else {
        let h = find_char(v, lo, hi, '#');
        let (c, d) = trim_bounds(v, lo, h);
        proof {
            if lo < hi {
                assert(s[0] == v@[lo as int]);
            }
            assert(s.subrange(0, h - lo) =~= v@.subrange(lo as int, h as int));
        }
        string_of(v, c, d)
    }
}

/// `style_line(v[lo..hi])`.
#[verifier::loop_isolation(false)]
fn classify_line(v: &Vec<char>, lo: usize, hi: usize) -> (r: LineKind)
    requires
        lo <= hi <= v@.len(),
    ensures
        kind_matches(r, style_line(v@.subrange(lo as int, hi as int))),
{
    let (a, b) = trim_bounds(v, lo, hi);
    let ghost t = v@.subrange(a as int, b as int);
    proof {
        if a < b {
            assert(t[0] == v@[a as int]);
        }
    }
    if a == b || v[a] == '#' {
        return LineKind::Skip;
    }
    if v[a] == '[' {
        if b - (a + 1) > 0 && v[b - 1] == ']' {
            let (c, d) = trim_bounds(v, a + 1, b - 1);
            proof {
                let rest = t.drop_first();
                assert(rest =~= v@.subrange(a + 1, b as int));
                assert(rest.last() == v@[b - 1]);
                assert(rest.drop_last() =~= v@.subrange(a + 1, b - 1));
            }
            return LineKind::Header(string_of(v, c, d));
        }
        proof {
            let rest = t.drop_first();
            assert(rest =~= v@.subrange(a + 1, b as int));
            if rest.len() > 0 {
                assert(rest.last() == v@[b - 1]);
            }
        }
        return LineKind::Skip;
    }
    let j = find_char(v, a, b, '=');
    if j == b {
        return LineKind::Skip;
    }
    let (ka, kb) = trim_bounds(v, a, j);
    proof {
        assert(t.subrange(0, j - a) =~= v@.subrange(a as int, j as int));
        assert(t.subrange(j - a + 1, t.len() as int) =~= v@.subrange(j + 1, b as int));
    }
    if ka == kb {
        return LineKind::Skip;
    }
    let mut i = ka;
    while i < kb
        invariant
            ka <= i <= kb <= v@.len(),
            forall|q: int| ka <= q < i ==> is_token_key_char(#[trigger] v@[q]),
        decreases kb - i,
    {
        if !is_token_key_char_exec(v[i]) {
            proof {
                let key = v@.subrange(ka as int, kb as int);
                assert(key[i - ka] == v@[i as int]);
            }
            return LineKind::Skip;
        }
        i += 1;
    }
    proof {
        let key = v@.subrange(ka as int, kb as int);
        assert forall|q: int| 0 <= q < key.len() implies is_token_key_char(#[trigger] key[q]) by {
            assert(key[q] == v@[ka + q]);
        }
    }
    let (c, d) = trim_bounds(v, j + 1, b);
    LineKind::Entry(string_of(v, ka, kb), clean_value_at(v, c, d))
}

/// `k = val` stored in section `sec`, the section made when missing.
fn add_entry(t: &mut Table<Table<String>>, sec: &String, k: String, val: String)
    ensures
        final(t)@ == with_entry(old(t)@, sec@, k@, val@),
{
    match t.find(sec) {
        Some(i) => {
            let mut inner = t.replace_value(i, Table::new());
            inner.insert(k, val);
            t.set_value(i, inner);
        },
        None => {
            let mut inner: Table<String> = Table::new();
            inner.insert(k, val);
            t.insert(sec.clone(), inner);
        },
    }
}

/// The sections of a `shell.toml` text, references not yet resolved.
fn parse_sections(v: &Vec<char>) -> (t: Table<Table<String>>)
    ensures
        t@ == parsed_sections(v@),
{
    let mut t: Table<Table<String>> = Table::new();
    let mut current = String::new();
    let mut start: usize = 0;
    proof {
        assert(v@.subrange(0, v@.len() as int) =~= v@);
        assert(current@ =~= Seq::<char>::empty());
    }
    loop
        invariant
            start <= v@.len(),
            style_fold((current@, t@), lines_of(v@.subrange(start as int, v@.len() as int)))
                == style_fold((Seq::<char>::empty(), Map::empty()), lines_of(v@)),
        decreases v@.len() - start,
    {
        match next_line(v, start, v.len()) {
            None => {
                return t;
            },
            Some((a, b, next)) => {
                let ghost ls = lines_of(v@.subrange(start as int, v@.len() as int));
                let ghost st = (current@, t@);
                proof {
                    assert(ls[0] == v@.subrange(a as int, b as int));
                    assert(ls.drop_first() =~= lines_of(v@.subrange(next as int, v@.len() as int)));
                }
                match classify_line(v, a, b) {
                    LineKind::Skip => {},
                    LineKind::Header(name) => {
                        if t.find(&name).is_none() {
                            t.insert(name.clone(), Table::new());
                        }
                        current = name;
                    },
                    LineKind::Entry(k, val) => {
                        add_entry(&mut t, &current, k, val);
                    },
                }
                proof {
                    assert((current@, t@) == style_step(st, ls[0]));
                }
                start = next;
            },
        }
    }
}


// ---------------------------------------------------------------------------
// Executable reference resolution
// ---------------------------------------------------------------------------

/// Every character of `v[lo..hi]` may stand in a reference name.
fn all_ref_chars(v: &Vec<char>, lo: usize, hi: usize) -> (r: bool)
    requires
        lo <= hi <= v@.len(),
    ensures
        r == forall|i: int|
            0 <= i < hi - lo ==> is_ref_char(#[trigger] v@.subrange(lo as int, hi as int)[i]),
{
    let ghost s = v@.subrange(lo as int, hi as int);
    let mut i = lo;
    while i < hi
        invariant
            lo <= i <= hi <= v@.len(),
            s == v@.subrange(lo as int, hi as int),
            forall|q: int| 0 <= q < i - lo ==> is_ref_char(#[trigger] s[q]),
        decreases hi - i,
    {
        let c = v[i];
        if !(('0' <= c && c <= '9') || ('a' <= c && c <= 'z') || ('A' <= c && c <= 'Z') || c == '_'
            || c == '-') {
            proof {
                assert(s[i - lo] == c);
            }
            return false;
        }
        proof {
            assert(s[i - lo] == c);
        }
        i += 1;
    }
    true
}

/// `split_reference`, as strings.
fn split_reference_exec(value: &String) -> (r: Option<(String, String)>)
    ensures
        match (r, split_reference(value@)) {
            (None, None) => true,
            (Some(p), Some(q)) => p.0@ == q.0 && p.1@ == q.1,
            _ => false,
        },
{
    let v = chars_of(value.as_str());
    let n = v.len();
    proof {
        assert(v@.subrange(0, n as int) =~= v@);
    }
    let dot = find_char(&v, 0, n, '.');
    if dot == n || dot == 0 || dot + 1 == n {
        return None;
    }
    let d2 = find_char(&v, dot + 1, n, '.');
    if d2 < n {
        return None;
    }
    if !all_ref_chars(&v, 0, dot) || !all_ref_chars(&v, dot + 1, n) {
        return None;
    }
    // A value holding `#` or `(` (a color) never gets here: the name
    // charset has already refused it.
    if '0' <= v[0] && v[0] <= '9' {
        proof {
            assert(v@.subrange(0, dot as int)[0] == v@[0]);
        }
        return None;
    }
    proof {
        assert(v@.subrange(0, dot as int)[0] == v@[0]);
    }
    Some((string_of(&v, 0, dot), string_of(&v, dot + 1, n)))
}

/// `resolve_value(snap, v)`.
fn resolve_value_exec(snap: &Table<Table<String>>, v: &String) -> (r: String)
    ensures
        r@ == resolve_value(snap@, v@),
{
    match split_reference_exec(v) {
        Some((sec, key)) => match snap.get(&sec) {
            Some(inner) => match inner.get(&key) {
                Some(target) => target.clone(),
                None => v.clone(),
            },
            None => v.clone(),
        },
        None => v.clone(),
    }
}

/// `settled(snap, v, fuel)`: the references from `v` followed until they
/// settle, `v` itself when they do not within `fuel` steps.
fn settle_exec(snap: &Table<Table<String>>, v: &String, fuel: usize) -> (r: String)
    ensures
        r@ == settled(snap@, v@, fuel as nat),
{
    let mut w = v.clone();
    let mut f = fuel;
    loop
        invariant
            f <= fuel,
            settle(snap@, v@, fuel as nat) == settle(snap@, w@, f as nat),
        decreases f,
    {
        let t = resolve_value_exec(snap, &w);
        if t == w {
            return w;
        }
        if f == 0 {
            return v.clone();
        }
        w = t;
        f = f - 1;
    }
}

/// One section resolved against `snap`.
fn resolve_section_exec(snap: &Table<Table<String>>, inner: &Table<String>, fuel: usize) -> (r: Table<String>)
    ensures
        r@ == resolve_section(snap@, inner@, fuel as nat),
{
    let mut out: Table<String> = Table::new();
    let n = inner.len();
    let mut j: usize = 0;
    proof {
        inner.lemma_view();
        assert(inner.pairs().subrange(0, 0) =~= Seq::<(String, String)>::empty());
        assert(resolve_section(snap@, Map::empty(), fuel as nat) =~= Map::<Seq<char>, Seq<char>>::empty());
    }
    while j < n
        invariant
            n == inner.pairs().len(),
            j <= n,
            inner@ == crate::table::pairs_map(inner.pairs()),
            out@ == resolve_section(
                snap@,
                crate::table::pairs_map(inner.pairs().subrange(0, j as int)),
                fuel as nat,
            ),
        decreases n - j,
    {
        let (k, v) = inner.at(j);
        let nv = settle_exec(snap, v, fuel);
        let ghost pre = crate::table::pairs_map(inner.pairs().subrange(0, j as int));
        out.insert(k.clone(), nv);
        proof {
            let p1 = inner.pairs().subrange(0, j + 1);
            assert(p1.drop_last() =~= inner.pairs().subrange(0, j as int));
            assert(p1.last() == inner.pairs()[j as int]);
            assert(crate::table::pairs_map(p1) == pre.insert(k@, v@));
            assert(resolve_section(snap@, pre.insert(k@, v@), fuel as nat) =~= resolve_section(
                snap@,
                pre,
                fuel as nat,
            ).insert(k@, settled(snap@, v@, fuel as nat)));
        }
        j += 1;
    }
    proof {
        assert(inner.pairs().subrange(0, n as int) =~= inner.pairs());
    }
    out
}

/// Every section resolved against `m` itself.
fn resolve_all(m: &Table<Table<String>>, fuel: usize) -> (r: Table<Table<String>>)
    ensures
        r@ == resolve_refs(m@, fuel as nat),
{
    let mut out: Table<Table<String>> = Table::new();
    let n = m.len();
    let mut i: usize = 0;
    proof {
        m.lemma_view();
        assert(m.pairs().subrange(0, 0) =~= Seq::<(String, Table<String>)>::empty());
        assert(resolve_sections(m@, Map::empty(), fuel as nat) =~= Map::<
            Seq<char>,
            Map<Seq<char>, Seq<char>>,
        >::empty());
    }
    while i < n
        invariant
            n == m.pairs().len(),
            i <= n,
            m@ == crate::table::pairs_map(m.pairs()),
            out@ == resolve_sections(
                m@,
                crate::table::pairs_map(m.pairs().subrange(0, i as int)),
                fuel as nat,
            ),
        decreases n - i,
    {
        let (name, inner) = m.at(i);
        let next = resolve_section_exec(m, inner, fuel);
        let ghost pre = crate::table::pairs_map(m.pairs().subrange(0, i as int));
        out.insert(name.clone(), next);
        proof {
            let p1 = m.pairs().subrange(0, i + 1);
            assert(p1.drop_last() =~= m.pairs().subrange(0, i as int));
            assert(p1.last() == m.pairs()[i as int]);
            assert(crate::table::pairs_map(p1) == pre.insert(name@, inner@));
            assert(resolve_sections(m@, pre.insert(name@, inner@), fuel as nat) =~= resolve_sections(
                m@,
                pre,
                fuel as nat,
            ).insert(name@, resolve_section(m@, inner@, fuel as nat)));
        }
        i += 1;
    }
    proof {
        assert(m.pairs().subrange(0, n as int) =~= m.pairs());
    }
    out
}

/// Split on spaces outside parentheses: `"rgba(1 2 3) #aabbcc 45deg"`
/// yields `["rgba(1 2 3)", "#aabbcc", "45deg"]`, keeping gradient stops
/// intact.
pub fn split_top_level_tokens(value: &str) -> (out: Vec<String>)
    ensures
        strings_view(out@) == top_level_tokens(value@),
{
    let v = chars_of(value);
    let n = v.len();
    let mut out: Vec<String> = Vec::new();
    let mut depth: usize = 0;
    let mut start: usize = 0;
    let mut i: usize = 0;
    proof {
        assert(strings_view(out@) =~= Seq::<Seq<char>>::empty());
        assert(Seq::<Seq<char>>::empty() + tokens_from(v@, 0, 0, 0) =~= tokens_from(v@, 0, 0, 0));
    }
    while i < n
        invariant
            n == v@.len(),
            v@ == value@,
            start <= i <= n,
            depth <= i,
            top_level_tokens(v@) == strings_view(out@) + tokens_from(v@, i as int, depth as nat, start as int),
        decreases n - i,
    {
        let c = v[i];
        let ghost before = strings_view(out@);
        if c == '(' {
            depth = depth + 1;
        } else if c == ')' {
            if depth > 0 {
                depth = depth - 1;
            }
        } else if c == ' ' && depth == 0 {
            if i > start {
                let t = string_of(&v, start, i);
                out.push(t);
                proof {
                    assert(strings_view(out@) =~= before.push(v@.subrange(start as int, i as int)));
                    assert(before + (seq![v@.subrange(start as int, i as int)] + tokens_from(v@, i + 1, 0, i + 1))
                        =~= strings_view(out@) + tokens_from(v@, i + 1, 0, i + 1));
                }
            } else {
                proof {
                    assert(Seq::<Seq<char>>::empty() + tokens_from(v@, i + 1, 0, i + 1) =~= tokens_from(v@, i + 1, 0, i + 1));
                }
            }
            start = i + 1;
        }
        i += 1;
    }
    if n > start {
        let ghost before = strings_view(out@);
        let t = string_of(&v, start, n);
        out.push(t);
        proof {
            assert(strings_view(out@) =~= before.push(v@.subrange(start as int, n as int)));
        }
    } else {
        proof {
            assert(strings_view(out@) + Seq::<Seq<char>>::empty() =~= strings_view(out@));
        }
    }
    out
}

// ---------------------------------------------------------------------------
// The tokens
// ---------------------------------------------------------------------------

/// A parsed `shell.toml` with resolved section references.
#[derive(Debug)]
pub struct StyleTokens {
    sections: Table<Table<String>>,
}

impl View for StyleTokens {
    type V = Sections;

    closed spec fn view(&self) -> Sections {
        self.sections@
    }
}

impl Clone for StyleTokens {
    /// The same sections and entries.
    fn clone(&self) -> (t: StyleTokens)
        ensures
            t@ == self@,
    {
        StyleTokens { sections: self.sections.duplicate() }
    }
}

impl Default for StyleTokens {
    /// No sections.
    fn default() -> (t: StyleTokens)
        ensures
            t@ == Map::<Seq<char>, Map<Seq<char>, Seq<char>>>::empty(),
    {
        StyleTokens { sections: Table::new() }
    }
}

impl StyleTokens {
    /// Parse `shell.toml` content. Unknown and extra sections are kept;
    /// malformed lines are skipped; references are then resolved.
    pub fn parse(raw: &str) -> (t: StyleTokens)
        ensures
            t@ == style_tokens(raw@),
    {
        let v = chars_of(raw);
        let mut t = StyleTokens { sections: parse_sections(&v) };
        t.resolve_references(v.len());
        t
    }

    /// A bare `section.key` value is a reference to that entry. Chains of
    /// references are followed, all against the values as parsed, until they
    /// settle on a value that is no reference (or names a missing entry); a
    /// reference that does not settle within `fuel` steps (a cycle) keeps its
    /// original value.
    fn resolve_references(&mut self, fuel: usize)
        ensures
            final(self)@ == resolve_refs(old(self)@, fuel as nat),
    {
        let next = resolve_all(&self.sections, fuel);
        self.sections = next;
    }

    /// The value under `section.key`.
    pub fn get(&self, section: &str, key: &str) -> (r: Option<&str>)
        ensures
            match r {
                Some(v) => lookup(self@, section@, key@) == Some(v@),
                None => lookup(self@, section@, key@) is None,
            },
    {
        let s = section.to_owned();
        match self.sections.get(&s) {
            Some(inner) => {
                let k = key.to_owned();
                match inner.get(&k) {
                    Some(v) => Some(v.as_str()),
                    None => None,
                }
            },
            None => None,
        }
    }

    /// `true` or `false`; `None` for any other value or a missing key.
    pub fn bool(&self, section: &str, key: &str) -> (r: Option<bool>)
        ensures
            r == match lookup(self@, section@, key@) {
                Some(v) => if v == seq!['t', 'r', 'u', 'e'] {
                    Some(true)
                } else if v == seq!['f', 'a', 'l', 's', 'e'] {
                    Some(false)
                } else {
                    None
                },
                None => None,
            },
    {
        match self.get(section, key) {
            Some(v) => {
                let v = v.to_owned();
                proof {
                    reveal_strlit("true");
                    reveal_strlit("false");
                }
                let t = "true".to_owned();
                let f = "false".to_owned();
                proof {
                    assert(t@ =~= seq!['t', 'r', 'u', 'e']);
                    assert(f@ =~= seq!['f', 'a', 'l', 's', 'e']);
                }
                if v == t {
                    Some(true)
                } else if v == f {
                    Some(false)
                } else {
                    None
                }
            },
            None => None,
        }
    }

    /// The first parseable color in a value: a flat color, the first stop of
    /// a gradient spec, or the resolved first stop of a reference.
    #[verifier::loop_isolation(false)]
    pub fn color(&self, section: &str, key: &str) -> (r: Option<Rgba>)
        ensures
            r == match lookup(self@, section@, key@) {
                Some(v) => first_color(top_level_tokens(v)),
                None => None,
            },
    {
        let value = match self.get(section, key) {
            Some(v) => v,
            None => {
                return None;
            },
        };
        let toks = split_top_level_tokens(value);
        let ghost ts = strings_view(toks@);
        let mut i: usize = 0;
        proof {
            assert(ts.subrange(0, ts.len() as int) =~= ts);
        }
        while i < toks.len()
            invariant
                i <= toks@.len(),
                ts == strings_view(toks@),
                first_color(ts) == first_color(ts.subrange(i as int, ts.len() as int)),
            decreases toks@.len() - i,
        {
            let ghost rest = ts.subrange(i as int, ts.len() as int);
            proof {
                assert(rest[0] == toks@[i as int]@);
                assert(rest.drop_first() =~= ts.subrange(i + 1, ts.len() as int));
            }
            match Rgba::parse(toks[i].as_str()) {
                Some(c) => {
                    return Some(c);
                },
                None => {},
            }
            i += 1;
        }
        proof {
            assert(ts.subrange(i as int, ts.len() as int) =~= Seq::<Seq<char>>::empty());
        }
        None
    }

    /// Section names present in the file, in increasing order.
    pub fn sections(&self) -> (out: Vec<String>)
        ensures
            sorted_key_listing(strings_view(out@), self@),
    {
        self.sections.sorted_keys()
    }

    /// A section's key/value pairs in increasing key order; none when the
    /// section is missing.
    pub fn iter_section(&self, section: &str) -> (out: Vec<(String, String)>)
        ensures
            self@.contains_key(section@) ==> sorted_listing(pair_views(out@), self@[section@]),
            !self@.contains_key(section@) ==> out@.len() == 0,
    {
        let s = section.to_owned();
        match self.sections.get(&s) {
            Some(inner) => inner.sorted_pairs(),
            None => Vec::new(),
        }
    }

    /// True when the file had no section at all.
    pub fn is_empty(&self) -> (r: bool)
        ensures
            r == (self@.dom().len() == 0),
    {
        self.sections.len() == 0
    }

    /// Every section with its entries.
    pub fn raw(&self) -> (r: &Table<Table<String>>)
        ensures
            r@ == self@,
    {
        &self.sections
    }
}

// ---------------------------------------------------------------------------
// Laws
// ---------------------------------------------------------------------------

proof fn lemma_entry_means_text(text: Seq<char>, s: Seq<char>, k: Seq<char>)
    requires
        lookup(parsed_sections(text), s, k) is Some,
    ensures
        text.len() > 0,
{
    if text.len() == 0 {
        assert(lines_of(text) =~= Seq::<Seq<char>>::empty());
        assert(parsed_sections(text) == Map::<Seq<char>, Map<Seq<char>, Seq<char>>>::empty());
    }
}

/// A reference to an entry of the same file whose value is not itself a
/// reference reads, after parsing, as that entry's value.
pub proof fn law_reference_resolves(text: Seq<char>, s: Seq<char>, k: Seq<char>, a: Seq<char>, b: Seq<char>)
    requires
        lookup(parsed_sections(text), s, k) matches Some(v) && split_reference(v) == Some((a, b)),
        lookup(parsed_sections(text), a, b) matches Some(t) && split_reference(t) is None,
    ensures
        lookup(style_tokens(text), s, k) == lookup(parsed_sections(text), a, b),
{
    let m = parsed_sections(text);
    let v = m[s][k];
    let t = m[a][b];
    lemma_entry_means_text(text, s, k);
    assert(resolve_value(m, v) == t);
    assert(t != v);
    assert(resolve_value(m, t) == t);
    reveal_with_fuel(settle, 2);
    assert(settle(m, v, text.len()) == Some(t));
}

/// A value that is not a reference is never changed by resolution.
pub proof fn law_plain_values_stay(text: Seq<char>, s: Seq<char>, k: Seq<char>)
    requires
        lookup(parsed_sections(text), s, k) matches Some(v) && split_reference(v) is None,
    ensures
        lookup(style_tokens(text), s, k) == lookup(parsed_sections(text), s, k),
{
    let m = parsed_sections(text);
    assert(settle(m, m[s][k], text.len()) == Some(m[s][k]));
}

proof fn lemma_cycle_never_settles(m: Sections, v: Seq<char>, w: Seq<char>, fuel: nat)
    requires
        v != w,
        resolve_value(m, v) == w,
        resolve_value(m, w) == v,
    ensures
        settle(m, v, fuel) is None,
        settle(m, w, fuel) is None,
    decreases fuel,
{
    if fuel > 0 {
        lemma_cycle_never_settles(m, v, w, (fuel - 1) as nat);
    }
}

/// Two references that name each other never settle, and each keeps the
/// value it was parsed with.
pub proof fn law_cycle_keeps_values(text: Seq<char>, s: Seq<char>, k: Seq<char>, a: Seq<char>, b: Seq<char>)
    requires
        lookup(parsed_sections(text), s, k) matches Some(v) && split_reference(v) == Some((a, b)),
        lookup(parsed_sections(text), a, b) matches Some(w) && split_reference(w) == Some((s, k)),
        (s, k) != (a, b),
    ensures
        lookup(style_tokens(text), s, k) == lookup(parsed_sections(text), s, k),
        lookup(style_tokens(text), a, b) == lookup(parsed_sections(text), a, b),
{
    let m = parsed_sections(text);
    let v = m[s][k];
    let w = m[a][b];
    assert(v != w) by {
        if v == w {
            assert(split_reference(v) == split_reference(w));
        }
    }
    lemma_cycle_never_settles(m, v, w, text.len());
}

} // verus!
