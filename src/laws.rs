//! What holds of counting, extracting and stripping together.

use crate::emoji::{
    emoji_cluster, emoji_count, emoji_free, emoji_part, extracted, is_emoji_char, plain_part,
    stripped,
};
use crate::segment::{clusters, concat, lemma_clusters_split};
use vstd::prelude::*;

verus! {

/// Rebuilds a sequence from its two halves: `kinds[k]` tells from which
/// half the item at position `k` is taken, `a` when true and `b` when false.
pub open spec fn interleave(kinds: Seq<bool>, a: Seq<Seq<char>>, b: Seq<Seq<char>>) -> Seq<
    Seq<char>,
>
    decreases kinds.len(),
{
    if kinds.len() == 0 {
        Seq::empty()
    } else if kinds.last() {
        interleave(kinds.drop_last(), a.drop_last(), b).push(a.last())
    } else {
        interleave(kinds.drop_last(), a, b.drop_last()).push(b.last())
    }
}

/// For each cluster, whether it is an emoji.
pub open spec fn cluster_kinds(cs: Seq<Seq<char>>) -> Seq<bool> {
    cs.map_values(|g: Seq<char>| emoji_cluster(g))
}

proof fn lemma_count_len(cs: Seq<Seq<char>>)
    ensures
        emoji_count(cs) == emoji_part(cs).len(),
        emoji_part(cs).len() + plain_part(cs).len() == cs.len(),
    decreases cs.len(),
{
    if cs.len() > 0 {
        lemma_count_len(cs.drop_last());
    }
}

proof fn lemma_interleave_parts(cs: Seq<Seq<char>>)
    ensures
        interleave(cluster_kinds(cs), emoji_part(cs), plain_part(cs)) == cs,
    decreases cs.len(),
{
    if cs.len() > 0 {
        let dl = cs.drop_last();
        lemma_interleave_parts(dl);
        assert(cluster_kinds(cs).drop_last() =~= cluster_kinds(dl));
        if emoji_cluster(cs.last()) {
            assert(emoji_part(cs).drop_last() =~= emoji_part(dl));
        } else {
            assert(plain_part(cs).drop_last() =~= plain_part(dl));
        }
        assert(dl.push(cs.last()) =~= cs);
    } else {
        assert(cs =~= Seq::<Seq<char>>::empty());
    }
}

proof fn lemma_free_append(a: Seq<char>, b: Seq<char>)
    ensures
        emoji_free(a + b) <==> emoji_free(a) && emoji_free(b),
{
    if emoji_free(a + b) {
        assert forall|i: int| 0 <= i < a.len() implies !is_emoji_char(#[trigger] a[i]) by {
            assert((a + b)[i] == a[i]);
        }
        assert forall|i: int| 0 <= i < b.len() implies !is_emoji_char(#[trigger] b[i]) by {
            assert((a + b)[a.len() + i] == b[i]);
        }
    }
    if emoji_free(a) && emoji_free(b) {
        assert forall|i: int| 0 <= i < (a + b).len() implies !is_emoji_char(
            #[trigger] (a + b)[i],
        ) by {
            if i < a.len() {
                assert((a + b)[i] == a[i]);
            } else {
                assert((a + b)[i] == b[i - a.len()]);
            }
        }
    }
}

proof fn lemma_free_cluster(g: Seq<char>)
    ensures
        emoji_free(g) <==> !emoji_cluster(g),
{
}

/// The joined text has no emoji code point exactly when no piece is an emoji.
proof fn lemma_free_concat(cs: Seq<Seq<char>>)
    ensures
        emoji_free(concat(cs)) <==> forall|k: int| 0 <= k < cs.len() ==> !emoji_cluster(#[trigger] cs[k]),
    decreases cs.len(),
{
    if cs.len() > 0 {
        let dl = cs.drop_last();
        lemma_free_concat(dl);
        lemma_free_append(concat(dl), cs.last());
        lemma_free_cluster(cs.last());
        if forall|k: int| 0 <= k < cs.len() ==> !emoji_cluster(#[trigger] cs[k]) {
            assert forall|k: int| 0 <= k < dl.len() implies !emoji_cluster(#[trigger] dl[k]) by {
                assert(dl[k] == cs[k]);
            }
            assert(!emoji_cluster(cs[cs.len() - 1]));
        }
        if emoji_free(concat(cs)) {
            assert forall|k: int| 0 <= k < cs.len() implies !emoji_cluster(#[trigger] cs[k]) by {
                if k < dl.len() {
                    assert(dl[k] == cs[k]);
                }
            }
        }
    }
}

proof fn lemma_all_plain(cs: Seq<Seq<char>>)
    requires
        forall|k: int| 0 <= k < cs.len() ==> !emoji_cluster(#[trigger] cs[k]),
    ensures
        plain_part(cs) == cs,
        emoji_part(cs).len() == 0,
        emoji_count(cs) == 0,
    decreases cs.len(),
{
    if cs.len() > 0 {
        let dl = cs.drop_last();
        assert forall|k: int| 0 <= k < dl.len() implies !emoji_cluster(#[trigger] dl[k]) by {
            assert(dl[k] == cs[k]);
        }
        lemma_all_plain(dl);
        assert(!emoji_cluster(cs[cs.len() - 1]));
        assert(dl.push(cs.last()) =~= cs);
    } else {
        assert(cs =~= Seq::<Seq<char>>::empty());
    }
}

proof fn lemma_count_zero(cs: Seq<Seq<char>>)
    ensures
        emoji_count(cs) == 0 <==> forall|k: int| 0 <= k < cs.len() ==> !emoji_cluster(#[trigger] cs[k]),
    decreases cs.len(),
{
    if cs.len() > 0 {
        let dl = cs.drop_last();
        lemma_count_zero(dl);
        if emoji_count(cs) == 0 {
            assert forall|k: int| 0 <= k < cs.len() implies !emoji_cluster(#[trigger] cs[k]) by {
                if k < dl.len() {
                    assert(dl[k] == cs[k]);
                }
            }
        } else if forall|k: int| 0 <= k < cs.len() ==> !emoji_cluster(#[trigger] cs[k]) {
            lemma_all_plain(cs);
        }
    }
}

proof fn lemma_plain_part_plain(cs: Seq<Seq<char>>)
    ensures
        forall|k: int| 0 <= k < plain_part(cs).len() ==> !emoji_cluster(#[trigger] plain_part(cs)[k]),
    decreases cs.len(),
{
    if cs.len() > 0 {
        let dl = cs.drop_last();
        lemma_plain_part_plain(dl);
        if !emoji_cluster(cs.last()) {
            let p = plain_part(dl);
            assert forall|k: int| 0 <= k < p.len() + 1 implies !emoji_cluster(
                #[trigger] p.push(cs.last())[k],
            ) by {
                if k < p.len() {
                    assert(p.push(cs.last())[k] == p[k]);
                }
            }
        }
    }
}

proof fn lemma_emoji_part_emoji(cs: Seq<Seq<char>>)
    ensures
        forall|k: int| 0 <= k < emoji_part(cs).len() ==> emoji_cluster(#[trigger] emoji_part(cs)[k]),
    decreases cs.len(),
{
    if cs.len() > 0 {
        let dl = cs.drop_last();
        lemma_emoji_part_emoji(dl);
        if emoji_cluster(cs.last()) {
            let p = emoji_part(dl);
            assert forall|k: int| 0 <= k < p.len() + 1 implies emoji_cluster(
                #[trigger] p.push(cs.last())[k],
            ) by {
                if k < p.len() {
                    assert(p.push(cs.last())[k] == p[k]);
                }
            }
        }
    }
}

/// The count is the number of clusters that extraction joins.
pub proof fn lemma_count_matches_extraction(s: Seq<char>)
    ensures
        emoji_count(clusters(s)) == emoji_part(clusters(s)).len(),
        extracted(s) == concat(emoji_part(clusters(s))),
{
    lemma_count_len(clusters(s));
}

/// Extraction and stripping partition the clusters of the text: every
/// cluster goes to exactly one of the two, each keeps the original order,
/// and putting them back in their original positions gives the text again.
/// Every extracted cluster is an emoji and no stripped one is.
pub proof fn lemma_extract_strip_partition(s: Seq<char>)
    ensures
        interleave(cluster_kinds(clusters(s)), emoji_part(clusters(s)), plain_part(clusters(s)))
            == clusters(s),
        emoji_part(clusters(s)).len() + plain_part(clusters(s)).len() == clusters(s).len(),
        concat(clusters(s)) == s,
        extracted(s) == concat(emoji_part(clusters(s))),
        stripped(s) == concat(plain_part(clusters(s))),
        forall|k: int|
            0 <= k < emoji_part(clusters(s)).len() ==> emoji_cluster(
                #[trigger] emoji_part(clusters(s))[k],
            ),
        forall|k: int|
            0 <= k < plain_part(clusters(s)).len() ==> !emoji_cluster(
                #[trigger] plain_part(clusters(s))[k],
            ),
{
    lemma_clusters_split(s);
    lemma_emoji_part_emoji(clusters(s));
    lemma_plain_part_plain(clusters(s));
    lemma_count_len(clusters(s));
    lemma_interleave_parts(clusters(s));
}

/// Text with no code point in the emoji range table has no emoji: the count
/// is zero, extraction gives the empty text and stripping gives it back.
pub proof fn lemma_emoji_free_text(s: Seq<char>)
    requires
        emoji_free(s),
    ensures
        emoji_count(clusters(s)) == 0,
        extracted(s) == Seq::<char>::empty(),
        stripped(s) == s,
{
    let cs = clusters(s);
    lemma_clusters_split(s);
    lemma_free_concat(cs);
    lemma_all_plain(cs);
    assert(emoji_part(cs) =~= Seq::<Seq<char>>::empty());
}

/// The text has an emoji cluster exactly when it has an emoji code point.
pub proof fn lemma_has_emoji_char(s: Seq<char>)
    ensures
        emoji_count(clusters(s)) > 0 <==> !emoji_free(s),
{
    let cs = clusters(s);
    lemma_clusters_split(s);
    lemma_free_concat(cs);
    lemma_count_zero(cs);
}

/// Stripping leaves no emoji code point, so stripping twice is stripping once.
pub proof fn lemma_strip_idempotent(s: Seq<char>)
    ensures
        emoji_free(stripped(s)),
        stripped(stripped(s)) == stripped(s),
{
    lemma_plain_part_plain(clusters(s));
    lemma_free_concat(plain_part(clusters(s)));
    lemma_emoji_free_text(stripped(s));
}

} // verus!
