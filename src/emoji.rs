//! Emoji detection, counting, extraction and removal. A cluster counts as an
//! emoji when one of its code points lies in the emoji range table, so a
//! flag or a joined sequence is kept or dropped as one unit.

use crate::segment::{texts_of, clusters, concat, split_graphemes};
use vstd::prelude::*;
use vstd::string::*;

verus! {

/// The emoji range table: the code point lies in one of these inclusive ranges.
pub open spec fn is_emoji_char(c: char) -> bool {
    let v = c as u32;
    ||| 0x1F300 <= v <= 0x1F5FF
    ||| 0x1F600 <= v <= 0x1F64F
    ||| 0x1F680 <= v <= 0x1F6FF
    ||| 0x2600 <= v <= 0x26FF
    ||| 0x2700 <= v <= 0x27BF
    ||| 0x1F900 <= v <= 0x1F9FF
}

/// Some code point of the cluster is in the emoji range table.
pub open spec fn emoji_cluster(g: Seq<char>) -> bool {
    exists|i: int| 0 <= i < g.len() && is_emoji_char(#[trigger] g[i])
}

/// No code point of the text is in the emoji range table.
pub open spec fn emoji_free(t: Seq<char>) -> bool {
    forall|i: int| 0 <= i < t.len() ==> !is_emoji_char(#[trigger] t[i])
}

/// The emoji clusters, in their original order.
pub open spec fn emoji_part(cs: Seq<Seq<char>>) -> Seq<Seq<char>>
    decreases cs.len(),
{
    if cs.len() == 0 {
        Seq::empty()
    } else if emoji_cluster(cs.last()) {
        emoji_part(cs.drop_last()).push(cs.last())
    } else {
        emoji_part(cs.drop_last())
    }
}

/// The clusters that are not emoji, in their original order.
pub open spec fn plain_part(cs: Seq<Seq<char>>) -> Seq<Seq<char>>
    decreases cs.len(),
{
    if cs.len() == 0 {
        Seq::empty()
    } else if emoji_cluster(cs.last()) {
        plain_part(cs.drop_last())
    } else {
        plain_part(cs.drop_last()).push(cs.last())
    }
}

/// How many clusters are emoji.
pub open spec fn emoji_count(cs: Seq<Seq<char>>) -> nat
    decreases cs.len(),
{
    if cs.len() == 0 {
        0
    } else {
        emoji_count(cs.drop_last()) + if emoji_cluster(cs.last()) {
            1nat
        } else {
            0nat
        }
    }
}

/// The emoji clusters of `s`, joined.
pub open spec fn extracted(s: Seq<char>) -> Seq<char> {
    concat(emoji_part(clusters(s)))
}

/// The clusters of `s` that are not emoji, joined.
pub open spec fn stripped(s: Seq<char>) -> Seq<char> {
    concat(plain_part(clusters(s)))
}

/// Whether the code point is in the emoji range table.
pub fn is_emoji(c: char) -> (r: bool)
    ensures
        r == is_emoji_char(c),
{
    let v = c as u32;
    (0x1F300 <= v && v <= 0x1F5FF) || (0x1F600 <= v && v <= 0x1F64F) || (0x1F680 <= v && v
        <= 0x1F6FF) || (0x2600 <= v && v <= 0x26FF) || (0x2700 <= v && v <= 0x27BF) || (0x1F900
        <= v && v <= 0x1F9FF)
}

/// Whether some code point of the cluster is in the emoji range table.
pub fn is_emoji_cluster(g: &str) -> (r: bool)
    ensures
        r == emoji_cluster(g@),
{
    let n = g.unicode_len();
    let mut i: usize = 0;
    while i < n
        invariant
            n == g@.len(),
            i <= n,
            forall|j: int| 0 <= j < i ==> !is_emoji_char(#[trigger] g@[j]),
        decreases n - i,
    {
        let c = g.get_char(i);
        if is_emoji(c) {
            assert(is_emoji_char(g@[i as int]));
            return true;
        }
        i = i + 1;
    }
    false
}

/// How many of the given clusters are emoji.
pub fn count_emoji_clusters(cs: &Vec<String>) -> (r: usize)
    ensures
        r == emoji_count(texts_of(cs@)),
{
    let ghost all = texts_of(cs@);
    let mut n: usize = 0;
    let mut i: usize = 0;
    while i < cs.len()
        invariant
            all == texts_of(cs@),
            i <= cs.len(),
            n <= i,
            n == emoji_count(all.take(i as int)),
        decreases cs.len() - i,
    {
        assert(all.take(i + 1).drop_last() =~= all.take(i as int));
        assert(all.take(i + 1).last() == cs@[i as int]@);
        if is_emoji_cluster(cs[i].as_str()) {
            n = n + 1;
        }
        i = i + 1;
    }
    assert(all.take(i as int) =~= all);
    n
}

/// The given clusters that are emoji (or, with `emoji` false, those that
/// are not), joined in their original order.
fn join_clusters(cs: &Vec<String>, emoji: bool) -> (r: String)
    ensures
        emoji ==> r@ == concat(emoji_part(texts_of(cs@))),
        !emoji ==> r@ == concat(plain_part(texts_of(cs@))),
{
    let ghost all = texts_of(cs@);
    let mut out = String::new();
    let mut i: usize = 0;
    while i < cs.len()
        invariant
            all == texts_of(cs@),
            i <= cs.len(),
            emoji ==> out@ == concat(emoji_part(all.take(i as int))),
            !emoji ==> out@ == concat(plain_part(all.take(i as int))),
        decreases cs.len() - i,
    {
        assert(all.take(i + 1).drop_last() =~= all.take(i as int));
        assert(all.take(i + 1).last() == cs@[i as int]@);
        let g = cs[i].as_str();
        if is_emoji_cluster(g) == emoji {
            out.append(g);
        }
        proof {
            let p = emoji_part(all.take(i as int));
            let q = plain_part(all.take(i as int));
            assert(p.push(cs@[i as int]@).drop_last() =~= p);
            assert(q.push(cs@[i as int]@).drop_last() =~= q);
        }
        i = i + 1;
    }
    assert(all.take(i as int) =~= all);
    out
}

/// The given clusters that are emoji, joined in their original order.
pub fn join_emoji_clusters(cs: &Vec<String>) -> (r: String)
    ensures
        r@ == concat(emoji_part(texts_of(cs@))),
{
    join_clusters(cs, true)
}

/// The given clusters that are not emoji, joined in their original order.
pub fn join_plain_clusters(cs: &Vec<String>) -> (r: String)
    ensures
        r@ == concat(plain_part(texts_of(cs@))),
{
    join_clusters(cs, false)
}

/// The number of grapheme clusters of `s` that are emoji.
pub fn count_emojis(s: &str) -> (r: usize)
    ensures
        r == emoji_count(clusters(s@)),
{
    let cs = split_graphemes(s);
    count_emoji_clusters(&cs)
}

/// The emoji clusters of `s`, joined in their original order.
pub fn get_emojis(s: &str) -> (r: String)
    ensures
        r@ == extracted(s@),
{
    let cs = split_graphemes(s);
    join_emoji_clusters(&cs)
}

/// `s` without its emoji clusters.
pub fn replace_emojis(s: &str) -> (r: String)
    ensures
        r@ == stripped(s@),
{
    let cs = split_graphemes(s);
    join_plain_clusters(&cs)
}

/// Whether `s` has an emoji cluster; that is, an emoji code point.
pub fn has_emojis(s: &str) -> (r: bool)
    ensures
        r == (emoji_count(clusters(s@)) > 0),
        r == !emoji_free(s@),
{
    proof {
        crate::laws::lemma_has_emoji_char(s@);
    }
    count_emojis(s) > 0
}

} // verus!
