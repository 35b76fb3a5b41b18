//! Normalisation of package names, as the receiving index does it.

use vstd::prelude::*;
use vstd::utf8::is_ascii_chars;
use crate::text::{lowercase, str_to_lowercase};

verus! {

/// The characters that separate the words of a package name.
pub open spec fn is_separator(c: char) -> bool {
    c == '-' || c == '_' || c == '.'
}

/// `s` with every maximal run of separators replaced by a single `-`.
///
/// Read from the right: a character that is no separator is kept, a
/// separator that follows another one vanishes, and a separator that starts
/// a run becomes `-`.
pub open spec fn collapse_runs(s: Seq<char>) -> Seq<char>
    decreases s.len(),
{
    if s.len() == 0 {
        s
    } else if !is_separator(s.last()) {
        collapse_runs(s.drop_last()).push(s.last())
    } else if s.len() >= 2 && is_separator(s[s.len() - 2]) {
        collapse_runs(s.drop_last())
    } else {
        collapse_runs(s.drop_last()).push('-')
    }
}

/// The canonical form of a package name: separator runs collapsed, then
/// lowercased.
pub open spec fn canonical_name(s: Seq<char>) -> Seq<char> {
    lowercase(collapse_runs(s))
}

/// `regex::Regex::new` and `regex::Regex::replace_all`, for one pattern and
/// one replacement. The pattern is the character class of the separators,
/// repeated greedily one or more times, so it compiles, and its matches are
/// the maximal runs of separators. Each match is replaced by the literal
/// `-`; the text between matches is kept.
#[verifier::external_body]
fn regex_replace_all(pattern: &str, text: &str, replacement: &str) -> (r: String)
    requires
        pattern@ == "[-_.]+"@,
        replacement@ == "-"@,
    ensures
        r@ == collapse_runs(text@),
{
    regex::Regex::new(pattern).unwrap().replace_all(text, replacement).into_owned()
}

/// Normalises a package name.
///
/// Of an ASCII name the result has the canonical shape, is no longer than
/// the name, and is left as it is by a second normalisation. Beyond ASCII
/// the result is what the Unicode tables make of the collapsed name, and
/// nothing more is known of it here.
pub fn canonicalize_name(name: &str) -> (r: String)
    ensures
        r@ == canonical_name(name@),
        is_ascii_chars(name@) ==> is_canonical_shape(r@) && is_ascii_chars(r@) && r@.len()
            <= name@.len() && canonical_name(r@) == r@,
{
    let collapsed = regex_replace_all("[-_.]+", name, "-");
    proof {
        if is_ascii_chars(name@) {
            lemma_canonical_name_shape_ascii(name@);
            lemma_canonical_name_idempotent_ascii(name@);
        }
    }
    str_to_lowercase(collapsed.as_str())
}

/// No separator other than `-` occurs, and no two separators are adjacent.
pub open spec fn is_collapsed(s: Seq<char>) -> bool {
    forall|i: int|
        0 <= i < s.len() && is_separator(#[trigger] s[i]) ==> s[i] == '-' && (i == 0
            || !is_separator(s[i - 1]))
}

/// The shape of a canonical name: `_` and `.` do not occur, no `-` follows
/// another, and no ASCII capital occurs.
pub open spec fn is_canonical_shape(s: Seq<char>) -> bool {
    &&& is_collapsed(s)
    &&& forall|i: int| 0 <= i < s.len() ==> !('A' <= #[trigger] s[i] && s[i] <= 'Z')
}

/// Collapsing yields a collapsed string of no greater length, which ends
/// in a separator only if the input does, and is ASCII if the input is.
pub proof fn lemma_collapse_runs_collapsed(s: Seq<char>)
    ensures
        is_collapsed(collapse_runs(s)),
        collapse_runs(s).len() <= s.len(),
        s.len() > 0 ==> collapse_runs(s).len() > 0 && is_separator(collapse_runs(s).last())
            == is_separator(s.last()),
        is_ascii_chars(s) ==> is_ascii_chars(collapse_runs(s)),
    decreases s.len(),
{
    if s.len() > 0 {
        lemma_collapse_runs_collapsed(s.drop_last());
        if is_ascii_chars(s) {
            assert forall|i: int| 0 <= i < s.drop_last().len() implies '\0'
                <= #[trigger] s.drop_last()[i] <= '\u{7f}' by {
                assert(s.drop_last()[i] == s[i]);
            }
        }
    }
}

/// Collapsing leaves a collapsed string as it is.
pub proof fn lemma_collapse_runs_fixed(s: Seq<char>)
    requires
        is_collapsed(s),
    ensures
        collapse_runs(s) == s,
    decreases s.len(),
{
    if s.len() > 0 {
        let p = s.drop_last();
        assert forall|i: int| 0 <= i < p.len() && is_separator(#[trigger] p[i]) implies p[i] == '-'
            && (i == 0 || !is_separator(p[i - 1])) by {
            assert(p[i] == s[i]);
        }
        lemma_collapse_runs_fixed(p);
        assert(p.push(s.last()) =~= s);
    }
}

/// Collapsing twice gives what collapsing once gives, for every string.
pub proof fn lemma_collapse_runs_idempotent(s: Seq<char>)
    ensures
        collapse_runs(collapse_runs(s)) == collapse_runs(s),
{
    lemma_collapse_runs_collapsed(s);
    lemma_collapse_runs_fixed(collapse_runs(s));
}

/// The canonical form of an ASCII name is ASCII, has the canonical shape,
/// and is no longer than the name.
pub proof fn lemma_canonical_name_shape_ascii(s: Seq<char>)
    requires
        is_ascii_chars(s),
    ensures
        is_ascii_chars(canonical_name(s)),
        is_canonical_shape(canonical_name(s)),
        canonical_name(s).len() <= s.len(),
{
    let c = collapse_runs(s);
    lemma_collapse_runs_collapsed(s);
    let l = lowercase(c);
    assert forall|i: int| 0 <= i < l.len() implies '\0' <= #[trigger] l[i] <= '\u{7f}'
        && is_separator(l[i]) == is_separator(c[i]) && !('A' <= l[i] && l[i] <= 'Z') by {
        assert('\0' <= c[i] <= '\u{7f}');
    }
    assert forall|i: int| 0 <= i < l.len() && is_separator(#[trigger] l[i]) implies l[i] == '-'
        && (i == 0 || !is_separator(l[i - 1])) by {
        assert(is_separator(c[i]));
    }
}

/// An ASCII string of the canonical shape is its own canonical form.
pub proof fn lemma_canonical_shape_fixed_ascii(s: Seq<char>)
    requires
        is_ascii_chars(s),
        is_canonical_shape(s),
    ensures
        canonical_name(s) == s,
{
    lemma_collapse_runs_fixed(s);
    assert(lowercase(s) =~= s);
}

/// Canonicalising an ASCII name twice gives what canonicalising it once
/// gives.
pub proof fn lemma_canonical_name_idempotent_ascii(s: Seq<char>)
    requires
        is_ascii_chars(s),
    ensures
        canonical_name(canonical_name(s)) == canonical_name(s),
{
    lemma_canonical_name_shape_ascii(s);
    lemma_canonical_shape_fixed_ascii(canonical_name(s));
}

} // verus!
