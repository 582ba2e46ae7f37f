//! The decisions behind locating the live theme and noticing that it
//! changed: the theme's observable identity, the change test that stays
//! quiet while a swap is in flight, the slug a theme is found under, and the
//! user-over-stock layering of theme files. Reading the files is left to
//! the caller.

use vstd::prelude::*;

use crate::text::{chars_of, is_whitespace, is_ws, push_char, string_of, trim, trim_bounds};

verus! {

// ---------------------------------------------------------------------------
// Signature
// ---------------------------------------------------------------------------

pub open spec fn opt_view(o: Option<String>) -> Option<Seq<char>> {
    match o {
        Some(s) => Some(s@),
        None => None,
    }
}

/// What a signature records.
pub struct SignatureView {
    pub name_file: Option<Seq<char>>,
    pub colors: Option<Seq<char>>,
    pub shell: Option<Seq<char>>,
    pub background_target: Option<Seq<char>>,
}

/// The observable identity of the current theme: the *content* of the three
/// files that define appearance plus the background symlink target.
///
/// Content, not mtime: filesystem timestamp granularity can make a swap
/// burst write and rename within one timestamp tick.
#[derive(Debug)]
pub struct Signature {
    name_file: Option<String>,
    colors: Option<String>,
    shell: Option<String>,
    background_target: Option<String>,
}

impl View for Signature {
    type V = SignatureView;

    closed spec fn view(&self) -> SignatureView {
        SignatureView {
            name_file: opt_view(self.name_file),
            colors: opt_view(self.colors),
            shell: opt_view(self.shell),
            background_target: opt_view(self.background_target),
        }
    }
}

fn same_text(a: &Option<String>, b: &Option<String>) -> (r: bool)
    ensures
        r == (opt_view(*a) == opt_view(*b)),
{
    match (a, b) {
        (Some(x), Some(y)) => *x == *y,
        (None, None) => true,
        _ => false,
    }
}

fn clone_text(o: &Option<String>) -> (r: Option<String>)
    ensures
        opt_view(r) == opt_view(*o),
{
    match o {
        Some(s) => Some(s.clone()),
        None => None,
    }
}

impl Clone for Signature {
    /// The same contents.
    fn clone(&self) -> (s: Signature)
        ensures
            s@ == self@,
    {
        Signature {
            name_file: clone_text(&self.name_file),
            colors: clone_text(&self.colors),
            shell: clone_text(&self.shell),
            background_target: clone_text(&self.background_target),
        }
    }
}

impl Signature {
    /// A signature from what was read: `theme.name`, `theme/colors.toml`,
    /// `theme/shell.toml` (each `None` when unreadable) and the target of
    /// the `background` link.
    pub fn new(
        name_file: Option<String>,
        colors: Option<String>,
        shell: Option<String>,
        background_target: Option<String>,
    ) -> (s: Signature)
        ensures
            s@ == (SignatureView {
                name_file: opt_view(name_file),
                colors: opt_view(colors),
                shell: opt_view(shell),
                background_target: opt_view(background_target),
            }),
    {
        Signature { name_file, colors, shell, background_target }
    }
}

impl Default for Signature {
    /// Nothing read.
    fn default() -> (s: Signature)
        ensures
            s@ == (SignatureView {
                name_file: None,
                colors: None,
                shell: None,
                background_target: None,
            }),
    {
        Signature { name_file: None, colors: None, shell: None, background_target: None }
    }
}

impl PartialEq for Signature {
    fn eq(&self, other: &Signature) -> (r: bool) {
        same_text(&self.name_file, &other.name_file) && same_text(&self.colors, &other.colors)
            && same_text(&self.shell, &other.shell) && same_text(
            &self.background_target,
            &other.background_target,
        )
    }
}

impl vstd::std_specs::cmp::PartialEqSpecImpl for Signature {
    open spec fn obeys_eq_spec() -> bool {
        true
    }

    open spec fn eq_spec(&self, other: &Signature) -> bool {
        self@ == other@
    }
}

impl Eq for Signature {
}

/// Has the theme changed since `loaded` was captured? `colors_present` says
/// whether `theme/colors.toml` is there now and `now` is the signature just
/// captured. While a swap is in flight the staged directory is momentarily
/// absent; that half-state reports no change, so callers observe exactly one
/// flip per theme switch.
pub fn theme_changed(colors_present: bool, now: &Signature, loaded: &Signature) -> (r: bool)
    ensures
        r == (colors_present && now@ != loaded@),
{
    colors_present && !(*now == *loaded)
}

// ---------------------------------------------------------------------------
// Names and slugs
// ---------------------------------------------------------------------------

/// The theme's name from the content of `theme.name`: trimmed, and none
/// when nothing is left.
pub fn theme_name(contents: &str) -> (r: Option<String>)
    ensures
        r is Some <==> trim(contents@).len() > 0,
        r matches Some(n) ==> n@ == trim(contents@),
{
    let v = chars_of(contents);
    proof {
        assert(v@.subrange(0, v@.len() as int) =~= v@);
    }
    let (a, b) = trim_bounds(&v, 0, v.len());
    if a == b {
        None
    } else {
        Some(string_of(&v, a, b))
    }
}

/// `str::to_lowercase` of a text: Unicode's lowercase mapping, a function
/// of the text alone.
pub uninterp spec fn lowercase(s: Seq<char>) -> Seq<char>;

/// `str::to_lowercase`; its result is `lowercase` of its argument.
#[verifier::external_body]
fn to_lowercase(s: &str) -> (r: String)
    ensures
        r@ == lowercase(s@),
{
    s.to_lowercase()
}

/// Every whitespace character replaced by a hyphen.
pub open spec fn dash_whitespace(s: Seq<char>) -> Seq<char> {
    Seq::new(s.len(), |i: int| if is_ws(s[i]) { '-' } else { s[i] })
}

/// `s` with every whitespace character replaced by a hyphen.
pub fn replace_whitespace(s: &str) -> (r: String)
    ensures
        r@ == dash_whitespace(s@),
{
    let v = chars_of(s);
    let mut out = String::new();
    let mut i: usize = 0;
    while i < v.len()
        invariant
            i <= v@.len(),
            v@ == s@,
            out@ == dash_whitespace(v@.subrange(0, i as int)),
        decreases v@.len() - i,
    {
        let c = if is_whitespace(v[i]) {
            '-'
        } else {
            v[i]
        };
        push_char(&mut out, c);
        i += 1;
        proof {
            assert(out@ =~= dash_whitespace(v@.subrange(0, i as int)));
        }
    }
    proof {
        assert(v@.subrange(0, v@.len() as int) =~= v@);
    }
    out
}

/// A slug may name a theme: non-empty, no path separator, not hidden.
pub open spec fn slug_allowed(s: Seq<char>) -> bool {
    &&& s.len() > 0
    &&& !s.contains('/')
    &&& !s.contains('\\')
    &&& s[0] != '.'
}

/// The directory name a theme is found under, as `omarchy-theme-set`
/// normalizes it: lowercase, each whitespace character a hyphen. `None`
/// for a slug that could leave the themes directory.
pub fn normalize_slug(slug: &str) -> (r: Option<String>)
    ensures
        r is Some <==> slug_allowed(slug@),
        r matches Some(n) ==> n@ == dash_whitespace(lowercase(slug@)),
{
    let v = chars_of(slug);
    if v.len() == 0 || v[0] == '.' {
        return None;
    }
    let mut i: usize = 0;
    while i < v.len()
        invariant
            i <= v@.len(),
            v@ == slug@,
            forall|j: int| 0 <= j < i ==> v@[j] != '/' && v@[j] != '\\',
        decreases v@.len() - i,
    {
        if v[i] == '/' || v[i] == '\\' {
            proof {
                assert(slug@.contains(v@[i as int]));
            }
            return None;
        }
        i += 1;
    }
    let lower = to_lowercase(slug);
    Some(replace_whitespace(lower.as_str()))
}

// ---------------------------------------------------------------------------
// Layering
// ---------------------------------------------------------------------------

/// The two places a theme's files come from.
#[derive(Clone, Copy, Debug, PartialEq, Eq, Structural)]
pub enum Layer {
    /// `~/.config/omarchy/themes/<slug>`.
    User,
    /// The stock (`$OMARCHY_PATH`) theme directory.
    Stock,
}

/// Where one theme file is taken from, given which layers hold it: the user
/// overlay wins per file, exactly like `omarchy-theme-set` staging.
pub fn pick_layer(in_user: bool, in_stock: bool) -> (r: Option<Layer>)
    ensures
        in_user ==> r == Some(Layer::User),
        !in_user && in_stock ==> r == Some(Layer::Stock),
        !in_user && !in_stock ==> r is None,
{
    if in_user {
        Some(Layer::User)
    } else if in_stock {
        Some(Layer::Stock)
    } else {
        None
    }
}

} // verus!
