//! Password masking: a text is shown as one mask character per grapheme.

use vstd::prelude::*;
use vstd::string::*;

verus! {

/// The mask token: sixteen bullets, each a grapheme of its own.
pub const PASSWORD_STR: &'static str =
    "\u{2022}\u{2022}\u{2022}\u{2022}\u{2022}\u{2022}\u{2022}\u{2022}\u{2022}\u{2022}\u{2022}\u{2022}\u{2022}\u{2022}\u{2022}\u{2022}";

/// The number of graphemes in the mask token.
pub const PASSWORD_STR_GRAPHEME_COUNT: usize = 16;

/// The character that stands for one hidden grapheme.
pub open spec fn mask_char() -> char {
    '\u{2022}'
}

/// A mask of `count` characters.
pub open spec fn mask_text(count: nat) -> Seq<char> {
    Seq::new(count, |i: int| mask_char())
}

/// The sections that mask `count` graphemes: one whole token for each full
/// sixteen, then the rest of the count as a prefix of the token (empty when
/// the count is a multiple of sixteen).
pub open spec fn mask_sections(count: nat) -> Seq<Seq<char>> {
    Seq::new(
        count / 16 + 1,
        |i: int|
            if i < count / 16 {
                mask_text(16)
            } else {
                mask_text(count % 16)
            },
    )
}

/// The mask token holds sixteen mask characters.
pub proof fn lemma_password_str()
    ensures
        PASSWORD_STR@ == mask_text(16),
{
    reveal_strlit(
        "\u{2022}\u{2022}\u{2022}\u{2022}\u{2022}\u{2022}\u{2022}\u{2022}\u{2022}\u{2022}\u{2022}\u{2022}\u{2022}\u{2022}\u{2022}\u{2022}",
    );
    assert(PASSWORD_STR@ =~= mask_text(16));
}

/// The sections of mask text for `grapheme_count` hidden graphemes.
pub fn password_sections(grapheme_count: usize) -> (sections: Vec<&'static str>)
    ensures
        sections@.len() == mask_sections(grapheme_count as nat).len(),
        forall|i: int|
            0 <= i < sections@.len() ==> (#[trigger] sections@[i])@ == mask_sections(
                grapheme_count as nat,
            )[i],
{
    let full_chunks: usize = grapheme_count / PASSWORD_STR_GRAPHEME_COUNT;
    let remaining_graphemes: usize = grapheme_count % PASSWORD_STR_GRAPHEME_COUNT;
    let mut sections: Vec<&'static str> = Vec::new();
    let mut i: usize = 0;
    proof {
        lemma_password_str();
    }
    while i < full_chunks
        invariant
            i <= full_chunks,
            full_chunks == grapheme_count as nat / 16,
            sections@.len() == i,
            PASSWORD_STR@ == mask_text(16),
            forall|k: int| 0 <= k < i ==> (#[trigger] sections@[k])@ == mask_text(16),
        decreases full_chunks - i,
    {
        sections.push(PASSWORD_STR);
        i += 1;
    }
    let rest: &'static str = PASSWORD_STR.substring_char(0, remaining_graphemes);
    assert(rest@ =~= mask_text(remaining_graphemes as nat));
    sections.push(rest);
    sections
}

/// The text of all sections, put end to end.
pub open spec fn sections_text(sections: Seq<Seq<char>>) -> Seq<char>
    decreases sections.len(),
{
    if sections.len() == 0 {
        Seq::empty()
    } else {
        sections_text(sections.drop_last()) + sections.last()
    }
}

/// The first `full` sections of a mask are whole tokens.
proof fn lemma_full_sections(count: nat, full: nat)
    requires
        full <= count / 16,
    ensures
        sections_text(mask_sections(count).take(full as int)) == mask_text(16 * full),
    decreases full,
{
    let sections = mask_sections(count).take(full as int);
    if full == 0 {
        assert(sections_text(sections) =~= mask_text(0));
    } else {
        lemma_full_sections(count, (full - 1) as nat);
        assert(sections.drop_last() =~= mask_sections(count).take(full - 1));
        assert(sections.last() == mask_text(16));
        assert(mask_text((16 * (full - 1)) as nat) + mask_text(16) =~= mask_text(16 * full));
    }
}

/// The mask of a text of `count` graphemes holds `count` mask characters,
/// whatever `count` is: the sections, put end to end, are the mask text.
pub proof fn lemma_mask_sections_text(count: nat)
    ensures
        sections_text(mask_sections(count)) == mask_text(count),
        sections_text(mask_sections(count)).len() == count,
{
    let sections = mask_sections(count);
    let full = count / 16;
    lemma_full_sections(count, full);
    assert(sections.drop_last() =~= sections.take(full as int));
    assert(sections.last() == mask_text(count % 16));
    assert(mask_text(16 * full) + mask_text(count % 16) =~= mask_text(count));
}

/// The sections of a mask: one whole token for every full sixteen, and a
/// last section of fewer than sixteen characters.
pub proof fn lemma_mask_sections_shape(count: nat)
    ensures
        mask_sections(count).len() == count / 16 + 1,
        forall|i: int| 0 <= i < count / 16 ==> (#[trigger] mask_sections(count)[i]).len() == 16,
        mask_sections(count).last().len() == count % 16,
{
}

} // verus!
