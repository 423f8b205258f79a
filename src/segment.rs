//! Splitting text into extended grapheme clusters.

use unicode_segmentation::UnicodeSegmentation;
use vstd::prelude::*;

verus! {

/// The pieces joined end to end, in order.
pub open spec fn concat(pieces: Seq<Seq<char>>) -> Seq<char>
    decreases pieces.len(),
{
    if pieces.len() == 0 {
        Seq::empty()
    } else {
        concat(pieces.drop_last()) + pieces.last()
    }
}

/// `pieces` cuts `s` into non-empty pieces that, joined, give `s` back.
pub open spec fn is_split_of(pieces: Seq<Seq<char>>, s: Seq<char>) -> bool {
    &&& concat(pieces) == s
    &&& forall|i: int| 0 <= i < pieces.len() ==> (#[trigger] pieces[i]).len() > 0
}

/// The extended grapheme clusters of `s`, by the Unicode default segmentation.
pub uninterp spec fn extended_graphemes(s: Seq<char>) -> Seq<Seq<char>>;

/// One piece for each character.
pub open spec fn singletons(s: Seq<char>) -> Seq<Seq<char>> {
    s.map_values(|c: char| seq![c])
}

/// The clusters of `s`. A grapheme segmentation is always a split of the
/// text; reading it through `is_split_of` makes that hold of every text,
/// including those that are never segmented at run time.
pub open spec fn clusters(s: Seq<char>) -> Seq<Seq<char>> {
    if is_split_of(extended_graphemes(s), s) {
        extended_graphemes(s)
    } else {
        singletons(s)
    }
}

/// The text that each string holds.
pub open spec fn texts_of(v: Seq<String>) -> Seq<Seq<char>> {
    v.map_values(|g: String| g@)
}

proof fn lemma_singletons_split(s: Seq<char>)
    ensures
        is_split_of(singletons(s), s),
    decreases s.len(),
{
    if s.len() > 0 {
        lemma_singletons_split(s.drop_last());
        assert(singletons(s).drop_last() =~= singletons(s.drop_last()));
        assert(singletons(s).last() == seq![s.last()]);
        assert(concat(singletons(s)) == concat(singletons(s.drop_last())) + seq![s.last()]);
        assert(s.drop_last() + seq![s.last()] =~= s);
        assert forall|i: int| 0 <= i < singletons(s).len() implies (#[trigger] singletons(
            s,
        )[i]).len() > 0 by {
            assert(singletons(s)[i] == seq![s[i]]);
        }
    } else {
        assert(singletons(s) =~= Seq::<Seq<char>>::empty());
        assert(s =~= Seq::<char>::empty());
    }
}

/// Segmentation is lossless: the clusters of any text are non-empty and,
/// joined in order, give the text back.
pub proof fn lemma_clusters_split(s: Seq<char>)
    ensures
        is_split_of(clusters(s), s),
{
    lemma_singletons_split(s);
}

/// Relies on `UnicodeSegmentation::graphemes(s, true)`: it yields the
/// extended grapheme clusters of `s`, left to right, as non-empty slices of
/// `s` that follow one another and together cover it.
#[verifier::external_body]
pub(crate) fn split_graphemes(s: &str) -> (r: Vec<String>)
    ensures
        texts_of(r@) == extended_graphemes(s@),
        is_split_of(texts_of(r@), s@),
{
    s.graphemes(true).map(|g| g.to_string()).collect()
}

} // verus!
