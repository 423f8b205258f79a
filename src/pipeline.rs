//! The two operations offered on a file name: checking it and cleaning it.

use crate::emoji::{count_emojis, emoji_count, extracted, get_emojis, replace_emojis, stripped};
use crate::segment::{clusters, concat};
use crate::win_illegal::{
    get_windows_illegal_characters, pattern_compiles, pattern_matches, pattern_removed,
    remove_pattern, replace_win_illegal, ILLEGAL_PATTERN,
};
use vstd::prelude::*;

verus! {

/// What a check found in a text.
pub struct CheckReport {
    /// Number of emoji clusters (zero when emoji were not looked for).
    pub emoji_count: usize,
    /// The emoji clusters, joined.
    pub emojis: String,
    /// The characters that Windows does not accept in file names, joined.
    pub illegal: String,
    /// Whether anything that was looked for was found.
    pub flagged: bool,
}

/// Looks for emoji (when `emoji` holds) and for characters that Windows does
/// not accept in file names (when `illegal` holds). `None` only when the
/// latter are looked for and the regular expression engine refuses their
/// pattern.
pub fn check_text(text: &str, emoji: bool, illegal: bool) -> (r: Option<CheckReport>)
    ensures
        r is None <==> (illegal && !pattern_compiles(ILLEGAL_PATTERN@)),
        r matches Some(rep) ==> {
            &&& rep.emoji_count == (if emoji { emoji_count(clusters(text@)) } else { 0 })
            &&& rep.emojis@ == (if emoji { extracted(text@) } else { Seq::<char>::empty() })
            &&& rep.illegal@ == (if illegal { concat(pattern_matches(ILLEGAL_PATTERN@, text@)) } else { Seq::<char>::empty() })
            &&& rep.flagged == (rep.emoji_count > 0 || rep.illegal@.len() > 0)
        },
{
    let mut emoji_count: usize = 0;
    let mut emojis = String::new();
    if emoji {
        emojis = get_emojis(text);
        emoji_count = count_emojis(text);
    }
    let mut illegal_chars = String::new();
    if illegal {
        match get_windows_illegal_characters(text) {
            Some(found) => {
                illegal_chars = found;
            },
            None => {
                return None;
            },
        }
    }
    let flagged = emoji_count > 0 || illegal_chars.unicode_len() > 0;
    Some(CheckReport { emoji_count, emojis, illegal: illegal_chars, flagged })
}

/// What cleaning gives: the characters that Windows does not accept removed
/// (when `illegal` holds), then the emoji clusters (when `emoji` holds), then
/// the matches of `pattern`, if one is given. `None` when a pattern that is
/// used is refused by the regular expression engine.
pub open spec fn sanitized(text: Seq<char>, illegal: bool, emoji: bool, pattern: Option<Seq<char>>) -> Option<Seq<char>> {
    if illegal && !pattern_compiles(ILLEGAL_PATTERN@) {
        None
    } else {
        let a = if illegal { pattern_removed(ILLEGAL_PATTERN@, text) } else { text };
        let b = if emoji { stripped(a) } else { a };
        match pattern {
            Some(p) => if pattern_compiles(p) { Some(pattern_removed(p, b)) } else { None },
            None => Some(b),
        }
    }
}

/// The text of the pattern, if one is given.
pub open spec fn pattern_view(pattern: Option<&str>) -> Option<Seq<char>> {
    match pattern {
        Some(p) => Some(p@),
        None => None,
    }
}

/// Cleans `text` as `sanitized` describes.
pub fn sanitize(text: &str, illegal: bool, emoji: bool, pattern: Option<&str>) -> (r: Option<String>)
    ensures
        r matches Some(t) ==> sanitized(text@, illegal, emoji, pattern_view(pattern)) == Some(t@),
        r is None ==> sanitized(text@, illegal, emoji, pattern_view(pattern)) is None,
{
    let mut out = text.to_string();
    if illegal {
        match replace_win_illegal(text) {
            Some(t) => {
                out = t;
            },
            None => {
                return None;
            },
        }
    }
    if emoji {
        out = replace_emojis(out.as_str());
    }
    match pattern {
        Some(p) => remove_pattern(p, out.as_str()),
        None => Some(out),
    }
}

} // verus!
