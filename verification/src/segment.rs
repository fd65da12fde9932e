//! Grapheme clusters of a text, and text rebuilt from clusters.

use unicode_segmentation::UnicodeSegmentation;
use vstd::prelude::*;
use vstd::string::StringExecFns;

verus! {

/// The extended grapheme clusters of `text`, in order, as the Unicode
/// segmentation rules cut them. The rules themselves are not modelled: this
/// only names what the segmentation of a given text is.
pub uninterp spec fn grapheme_clusters(text: Seq<char>) -> Seq<Seq<char>>;

/// The texts of a sequence of owned strings.
pub open spec fn cluster_texts(clusters: Seq<String>) -> Seq<Seq<char>> {
    Seq::new(clusters.len(), |i: int| clusters[i]@)
}

/// All the parts, one after the other, as one text.
pub open spec fn concat_all(parts: Seq<Seq<char>>) -> Seq<char>
    decreases parts.len(),
{
    if parts.len() == 0 {
        Seq::empty()
    } else {
        concat_all(parts.drop_last()) + parts.last()
    }
}

/// Calls `UnicodeSegmentation::graphemes(text, true)` and collects each
/// cluster into a `String` of its own. Trusted: the clusters returned are
/// exactly `grapheme_clusters` of the text; nothing is claimed about where the
/// cuts fall.
#[verifier::external_body]
pub(crate) fn split_graphemes(text: &str) -> (clusters: Vec<String>)
    ensures
        cluster_texts(clusters@) == grapheme_clusters(text@),
{
    text.graphemes(true).map(String::from).collect()
}

/// Copies the clusters `from..to` of `clusters`.
pub fn copy_clusters(clusters: &Vec<String>, from: usize, to: usize) -> (out: Vec<String>)
    requires
        from <= to <= clusters.len(),
    ensures
        cluster_texts(out@) == cluster_texts(clusters@).subrange(from as int, to as int),
{
    let mut out: Vec<String> = Vec::new();
    let mut i: usize = from;
    while i < to
        invariant
            from <= i <= to <= clusters.len(),
            out.len() == i - from,
            forall|j: int| 0 <= j < out.len() ==> out[j]@ == clusters[from + j]@,
        decreases to - i,
    {
        out.push(clusters[i].clone());
        i += 1;
    }
    assert(cluster_texts(out@) =~= cluster_texts(clusters@).subrange(from as int, to as int));
    out
}

/// Joins the clusters into one string, in order and with nothing between them.
pub fn join_clusters(clusters: &Vec<String>) -> (out: String)
    ensures
        out@ == concat_all(cluster_texts(clusters@)),
{
    let mut out = String::new();
    let mut i: usize = 0;
    while i < clusters.len()
        invariant
            i <= clusters.len(),
            out@ == concat_all(cluster_texts(clusters@).take(i as int)),
        decreases clusters.len() - i,
    {
        proof {
            let texts = cluster_texts(clusters@);
            assert(texts.take(i + 1).drop_last() =~= texts.take(i as int));
            assert(texts.take(i + 1).last() == clusters[i as int]@);
        }
        out.append(clusters[i].as_str());
        i += 1;
    }
    assert(cluster_texts(clusters@).take(clusters.len() as int) =~= cluster_texts(clusters@));
    out
}

} // verus!
