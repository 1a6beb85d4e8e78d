//! Grapheme cluster boundaries of a text.

use unicode_segmentation::UnicodeSegmentation;
use vstd::prelude::*;
use vstd::string::*;
use vstd::utf8::*;

verus! {

/// The byte offsets at which the extended grapheme clusters of `text`
/// start, in increasing order.
pub uninterp spec fn grapheme_offsets(text: Seq<char>) -> Seq<int>;

/// What every list of grapheme start offsets into `bytes` satisfies: it
/// increases strictly, and each offset lies inside the text on a character
/// boundary.
pub open spec fn valid_offsets(offsets: Seq<int>, bytes: Seq<u8>) -> bool {
    &&& forall|i: int, j: int| 0 <= i < j < offsets.len() ==> offsets[i] < offsets[j]
    &&& forall|i: int|
        0 <= i < offsets.len() ==> 0 <= #[trigger] offsets[i] < bytes.len() && is_char_boundary(
            bytes,
            offsets[i],
        )
}

/// The offsets of a vector as mathematical integers.
pub open spec fn offsets_view(starts: Seq<usize>) -> Seq<int> {
    starts.map_values(|o: usize| o as int)
}

/// Calls `UnicodeSegmentation::grapheme_indices` in extended mode and keeps
/// the byte offset of each cluster.
///
/// Trusted: the offsets are the ones named by [`grapheme_offsets`], and they
/// satisfy [`valid_offsets`]: the iterator hands out consecutive string
/// slices of the text, none of them empty.
#[verifier::external_body]
pub(crate) fn grapheme_starts(text: &str) -> (starts: Vec<usize>)
    ensures
        offsets_view(starts@) == grapheme_offsets(text@),
        valid_offsets(offsets_view(starts@), text.spec_bytes()),
{
    text.grapheme_indices(true).map(|(offset, _)| offset).collect()
}

/// The byte offsets at which the extended grapheme clusters of `text`
/// start.
pub fn grapheme_indices(text: &str) -> (starts: Vec<usize>)
    ensures
        offsets_view(starts@) == grapheme_offsets(text@),
        valid_offsets(offsets_view(starts@), text.spec_bytes()),
{
    grapheme_starts(text)
}

/// The number of extended grapheme clusters in `text`.
pub fn grapheme_count(text: &str) -> (count: usize)
    ensures
        count == grapheme_offsets(text@).len(),
{
    let starts = grapheme_starts(text);
    starts.len()
}

} // verus!
