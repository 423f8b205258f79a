//! Characters that Windows does not accept in file names, found and removed
//! with a regular expression.

use crate::segment::{texts_of, concat};
use vstd::prelude::*;

verus! {

/// The characters `\ / : * ? " < > |`, as a regular expression.
pub const ILLEGAL_PATTERN: &'static str = r#"[\\/:*?"<>|]"#;

/// Whether the regular expression engine accepts `pattern`.
pub uninterp spec fn pattern_compiles(pattern: Seq<char>) -> bool;

/// The successive non-overlapping matches of `pattern` in `text`.
pub uninterp spec fn pattern_matches(pattern: Seq<char>, text: Seq<char>) -> Seq<Seq<char>>;

/// `text` with every match of `pattern` removed.
pub uninterp spec fn pattern_removed(pattern: Seq<char>, text: Seq<char>) -> Seq<char>;

/// Relies on `regex::Regex::new`, which fails exactly on the patterns it
/// does not accept, and on `Regex::find_iter`, which yields the successive
/// non-overlapping leftmost-first matches in `text`.
#[verifier::external_body]
fn find_matches(pattern: &str, text: &str) -> (r: Option<Vec<String>>)
    ensures
        r is Some <==> pattern_compiles(pattern@),
        r matches Some(v) ==> texts_of(v@) == pattern_matches(pattern@, text@),
{
    match regex::Regex::new(pattern) {
        Ok(re) => Some(re.find_iter(text).map(|m| m.as_str().to_string()).collect()),
        Err(_) => None,
    }
}

/// Relies on `regex::Regex::new`, which fails exactly on the patterns it
/// does not accept, and on `Regex::replace_all` with an empty replacement,
/// which removes the successive non-overlapping matches from `text`.
#[verifier::external_body]
fn remove_matches(pattern: &str, text: &str) -> (r: Option<String>)
    ensures
        r is Some <==> pattern_compiles(pattern@),
        r matches Some(t) ==> t@ == pattern_removed(pattern@, text@),
{
    match regex::Regex::new(pattern) {
        Ok(re) => Some(re.replace_all(text, "").into_owned()),
        Err(_) => None,
    }
}

/// The matches, joined in order.
pub fn join_matches(ms: &Vec<String>) -> (r: String)
    ensures
        r@ == concat(texts_of(ms@)),
{
    let ghost all = texts_of(ms@);
    let mut out = String::new();
    let mut i: usize = 0;
    while i < ms.len()
        invariant
            all == texts_of(ms@),
            i <= ms.len(),
            out@ == concat(all.take(i as int)),
        decreases ms.len() - i,
    {
        assert(all.take(i + 1).drop_last() =~= all.take(i as int));
        out.append(ms[i].as_str());
        i = i + 1;
    }
    assert(all.take(i as int) =~= all);
    out
}

/// The matches of `pattern` in `text`, joined in order; `None` when the
/// pattern is not a valid regular expression.
pub fn matched_text(pattern: &str, text: &str) -> (r: Option<String>)
    ensures
        r is Some <==> pattern_compiles(pattern@),
        r matches Some(t) ==> t@ == concat(pattern_matches(pattern@, text@)),
{
    match find_matches(pattern, text) {
        Some(ms) => Some(join_matches(&ms)),
        None => None,
    }
}

/// `text` without the matches of `pattern`; `None` when the pattern is not a
/// valid regular expression.
pub fn remove_pattern(pattern: &str, text: &str) -> (r: Option<String>)
    ensures
        r is Some <==> pattern_compiles(pattern@),
        r matches Some(t) ==> t@ == pattern_removed(pattern@, text@),
{
    remove_matches(pattern, text)
}

/// The characters of `text` that Windows does not accept in file names, in
/// order.
pub fn get_windows_illegal_characters(text: &str) -> (r: Option<String>)
    ensures
        r is Some <==> pattern_compiles(ILLEGAL_PATTERN@),
        r matches Some(t) ==> t@ == concat(pattern_matches(ILLEGAL_PATTERN@, text@)),
{
    matched_text(ILLEGAL_PATTERN, text)
}

/// `filename` without the characters that Windows does not accept in file
/// names.
pub fn replace_win_illegal(filename: &str) -> (r: Option<String>)
    ensures
        r is Some <==> pattern_compiles(ILLEGAL_PATTERN@),
        r matches Some(t) ==> t@ == pattern_removed(ILLEGAL_PATTERN@, filename@),
{
    remove_pattern(ILLEGAL_PATTERN, filename)
}

} // verus!
