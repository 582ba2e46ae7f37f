//! Font resolution. `omarchy font set` configures fontconfig's `monospace`
//! family, so fontconfig is the source of truth: the family comes from
//! `fc-match monospace -f '%{family}'`, whose output lists aliases separated
//! by commas, and the file from `%{file}` so that GUI apps can load it into
//! their own atlas.

use vstd::prelude::*;

use crate::text::{
    chars_of, find_char, index_of_char, lemma_index_of_char_at, string_of, trim, trim_bounds, trim_end,
    trim_start,
};

verus! {

#[verifier::external_type_specification]
#[verifier::external_body]
pub struct ExPathBuf(std::path::PathBuf);

/// The family name in `fc-match`'s `%{family}` output: the first entry of
/// the comma-separated alias list, trimmed.
pub open spec fn first_family(out: Seq<char>) -> Seq<char> {
    trim(out.subrange(0, index_of_char(out, ',')))
}

/// The resolved UI font: family name and, when available, the file to load.
#[derive(Clone, Debug)]
pub struct Font {
    pub family: String,
    pub file: Option<std::path::PathBuf>,
}

/// The UI font from fontconfig's answers: `family_out` is what
/// `fc-match monospace -f '%{family}'` printed (none when it failed), `file`
/// the font file it named when that is an existing file. No font when the
/// family is missing or empty.
pub fn resolve_ui_font(family_out: Option<&str>, file: Option<std::path::PathBuf>) -> (r: Option<Font>)
    ensures
        r is Some <==> (family_out is Some && first_family(family_out.unwrap()@).len() > 0),
        r matches Some(f) ==> f.family@ == first_family(family_out.unwrap()@) && f.file == file,
{
    let out = match family_out {
        Some(o) => o,
        None => {
            return None;
        },
    };
    let v = chars_of(out);
    proof {
        assert(v@.subrange(0, v@.len() as int) =~= v@);
    }
    let comma = find_char(&v, 0, v.len(), ',');
    let (a, b) = trim_bounds(&v, 0, comma);
    if a == b {
        return None;
    }
    Some(Font { family: string_of(&v, a, b), file })
}

/// The family is the first alias: whatever follows the first comma is
/// dropped, and output without a comma is the family as a whole, trimmed.
pub proof fn law_family_is_first_alias(a: Seq<char>, b: Seq<char>)
    requires
        !a.contains(','),
    ensures
        first_family(a + seq![','] + b) == trim(a),
        first_family(a) == trim(a),
{
    let s = a + seq![','] + b;
    assert forall|j: int| 0 <= j < a.len() implies #[trigger] s[j] != ',' by {
        assert(s[j] == a[j]);
    }
    assert(s[a.len() as int] == ',');
    lemma_index_of_char_at(s, ',', a.len() as int);
    assert(s.subrange(0, a.len() as int) =~= a);
    assert forall|j: int| 0 <= j < a.len() implies #[trigger] a[j] != ',' by {
        if a[j] == ',' {
            assert(a.contains(','));
        }
    }
    lemma_index_of_char_at(a, ',', a.len() as int);
    assert(a.subrange(0, a.len() as int) =~= a);
}

proof fn lemma_index_of_char_bounds(s: Seq<char>, c: char)
    ensures
        0 <= index_of_char(s, c) <= s.len(),
        forall|j: int| 0 <= j < index_of_char(s, c) ==> #[trigger] s[j] != c,
    decreases s.len(),
{
    if s.len() > 0 && s[0] != c {
        let t = s.drop_first();
        lemma_index_of_char_bounds(t, c);
        assert forall|j: int| 0 <= j < index_of_char(s, c) implies #[trigger] s[j] != c by {
            if j > 0 {
                assert(s[j] == t[j - 1]);
            }
        }
    }
}

proof fn lemma_trim_keeps_out(s: Seq<char>, c: char)
    requires
        !s.contains(c),
    ensures
        !trim_start(s).contains(c),
        !trim_end(s).contains(c),
    decreases s.len(),
{
    if s.len() > 0 {
        let f = s.drop_first();
        let l = s.drop_last();
        assert forall|j: int| 0 <= j < f.len() implies #[trigger] f[j] != c by {
            assert(f[j] == s[j + 1]);
        }
        assert forall|j: int| 0 <= j < l.len() implies #[trigger] l[j] != c by {
            assert(l[j] == s[j]);
        }
        lemma_trim_keeps_out(f, c);
        lemma_trim_keeps_out(l, c);
    }
}

/// The family name never holds a comma, whatever `fc-match` printed.
pub proof fn law_family_has_no_comma(out: Seq<char>)
    ensures
        !first_family(out).contains(','),
{
    lemma_index_of_char_bounds(out, ',');
    let a = out.subrange(0, index_of_char(out, ','));
    assert forall|j: int| 0 <= j < a.len() implies #[trigger] a[j] != ',' by {
        assert(a[j] == out[j]);
    }
    lemma_trim_keeps_out(a, ',');
    lemma_trim_keeps_out(trim_start(a), ',');
}

} // verus!
