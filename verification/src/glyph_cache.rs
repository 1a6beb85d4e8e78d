//! Reconciling the retained glyph positions of an element with a new layout.
//!
//! The layout engine hands back the glyphs it placed, which may be fewer
//! than the characters of the content: a wrapped line drops the white space
//! at its end. The cache keeps one position per character. It walks the
//! characters and the placed glyphs side by side: where the next character
//! has the glyph identifier of the next placed glyph, it takes that glyph's
//! position and moves on in both; where it has not, it puts the character
//! right after the previous entry and moves on in the characters alone.

use crate::text::{CachedGlyph, UiText};
use crate::units::{sat_add, sat_neg, saturate};
use vstd::prelude::*;

verus! {

/// What the font says of one character of the content: its glyph and how
/// far that glyph advances the pen at the element's scale.
#[derive(Clone, Copy, Debug, PartialEq, Eq, Structural, Hash)]
pub struct CharGlyph {
    pub id: u16,
    pub advance_width: i64,
}

/// A glyph as the layout engine placed it, in layout space, where `y` grows
/// downwards, with the advance of the glyph at the element's scale.
#[derive(Clone, Copy, Debug, PartialEq, Eq, Structural, Hash)]
pub struct SectionGlyph {
    pub id: u16,
    pub x: i64,
    pub y: i64,
    pub advance_width: i64,
}

/// The cache entry of a placed glyph: its position with `y` turned upwards.
pub open spec fn placed_entry(glyph: SectionGlyph) -> CachedGlyph {
    CachedGlyph {
        x: glyph.x,
        y: saturate(-glyph.y) as i64,
        advance_width: glyph.advance_width,
    }
}

/// The cache entry of a character that the layout did not place: right
/// after the entry before it, or at the origin where it is the first.
pub open spec fn extrapolated_entry(before: Seq<CachedGlyph>, advance_width: i64) -> CachedGlyph {
    if before.len() > 0 {
        CachedGlyph {
            x: saturate(before.last().x + before.last().advance_width) as i64,
            y: before.last().y,
            advance_width,
        }
    } else {
        CachedGlyph { x: 0, y: 0, advance_width }
    }
}

/// Whether character `index` takes the placed glyph at `cursor`.
pub open spec fn is_hit(chars: Seq<CharGlyph>, glyphs: Seq<SectionGlyph>, index: int, cursor: int) -> bool {
    0 <= cursor < glyphs.len() && chars[index].id == glyphs[cursor].id
}

/// How many placed glyphs the first `count` characters take.
pub open spec fn consumed(chars: Seq<CharGlyph>, glyphs: Seq<SectionGlyph>, count: int) -> int
    decreases count,
{
    if count <= 0 {
        0
    } else {
        let cursor = consumed(chars, glyphs, count - 1);
        if is_hit(chars, glyphs, count - 1, cursor) {
            cursor + 1
        } else {
            cursor
        }
    }
}

/// The cache entries of the first `count` characters.
pub open spec fn reconciled(chars: Seq<CharGlyph>, glyphs: Seq<SectionGlyph>, count: int) -> Seq<
    CachedGlyph,
>
    decreases count,
{
    if count <= 0 {
        Seq::empty()
    } else {
        let before = reconciled(chars, glyphs, count - 1);
        let cursor = consumed(chars, glyphs, count - 1);
        if is_hit(chars, glyphs, count - 1, cursor) {
            before.push(placed_entry(glyphs[cursor]))
        } else {
            before.push(extrapolated_entry(before, chars[count - 1].advance_width))
        }
    }
}

/// The cache of a masked text: every placed glyph, as it was placed.
pub open spec fn placed_entries(glyphs: Seq<SectionGlyph>) -> Seq<CachedGlyph> {
    glyphs.map_values(|glyph: SectionGlyph| placed_entry(glyph))
}

/// The cache of an element after a layout: for a masked text the placed
/// glyphs, else the characters of the content reconciled with them.
pub open spec fn spec_cached_glyphs(
    password: bool,
    chars: Seq<CharGlyph>,
    glyphs: Seq<SectionGlyph>,
) -> Seq<CachedGlyph> {
    if password {
        placed_entries(glyphs)
    } else {
        reconciled(chars, glyphs, chars.len() as int)
    }
}

/// The first `count` characters take at most `count` placed glyphs, and
/// never more than there are.
pub proof fn lemma_consumed_bounds(chars: Seq<CharGlyph>, glyphs: Seq<SectionGlyph>, count: int)
    ensures
        0 <= consumed(chars, glyphs, count) <= glyphs.len(),
        count >= 0 ==> consumed(chars, glyphs, count) <= count,
    decreases count,
{
    if count > 0 {
        lemma_consumed_bounds(chars, glyphs, count - 1);
    }
}

/// The cache holds one entry for each character.
pub proof fn lemma_reconciled_len(chars: Seq<CharGlyph>, glyphs: Seq<SectionGlyph>, count: int)
    ensures
        reconciled(chars, glyphs, count).len() == if count >= 0 {
            count
        } else {
            0
        },
    decreases count,
{
    if count > 0 {
        lemma_reconciled_len(chars, glyphs, count - 1);
    }
}

/// While characters and placed glyphs agree from the start, each character
/// takes the glyph at its own index, verbatim.
pub proof fn lemma_reconciled_shared_prefix(
    chars: Seq<CharGlyph>,
    glyphs: Seq<SectionGlyph>,
    shared: int,
    count: int,
)
    requires
        0 <= shared <= count <= chars.len(),
        shared <= glyphs.len(),
        forall|i: int| 0 <= i < shared ==> chars[i].id == glyphs[i].id,
    ensures
        forall|i: int|
            0 <= i < shared ==> #[trigger] reconciled(chars, glyphs, count)[i] == placed_entry(
                glyphs[i],
            ),
        consumed(chars, glyphs, shared) == shared,
    decreases count,
{
    if count > shared {
        lemma_reconciled_shared_prefix(chars, glyphs, shared, count - 1);
        lemma_reconciled_len(chars, glyphs, count - 1);
    } else if count > 0 {
        lemma_reconciled_shared_prefix(chars, glyphs, shared - 1, count - 1);
        lemma_reconciled_len(chars, glyphs, count - 1);
    }
}

/// Where the layout placed a glyph for every character, the cache holds
/// the placed glyphs, verbatim and in order.
pub proof fn lemma_reconciled_all_hits(chars: Seq<CharGlyph>, glyphs: Seq<SectionGlyph>)
    requires
        chars.len() == glyphs.len(),
        forall|i: int| 0 <= i < chars.len() ==> chars[i].id == glyphs[i].id,
    ensures
        reconciled(chars, glyphs, chars.len() as int) == placed_entries(glyphs),
{
    let count = chars.len() as int;
    lemma_reconciled_shared_prefix(chars, glyphs, count, count);
    lemma_reconciled_len(chars, glyphs, count);
    assert(reconciled(chars, glyphs, count) =~= placed_entries(glyphs));
}

/// The cache entry of a placed glyph.
pub fn cache_placed(glyph: &SectionGlyph) -> (entry: CachedGlyph)
    ensures
        entry == placed_entry(*glyph),
{
    CachedGlyph { x: glyph.x, y: sat_neg(glyph.y), advance_width: glyph.advance_width }
}

/// The cache entries of every placed glyph, in order.
pub fn cache_all(glyphs: &Vec<SectionGlyph>) -> (cache: Vec<CachedGlyph>)
    ensures
        cache@ == placed_entries(glyphs@),
{
    let mut cache: Vec<CachedGlyph> = Vec::new();
    let mut i: usize = 0;
    while i < glyphs.len()
        invariant
            i <= glyphs@.len(),
            cache@ == placed_entries(glyphs@).take(i as int),
        decreases glyphs@.len() - i,
    {
        cache.push(cache_placed(&glyphs[i]));
        i += 1;
        assert(cache@ =~= placed_entries(glyphs@).take(i as int));
    }
    assert(placed_entries(glyphs@).take(i as int) =~= placed_entries(glyphs@));
    cache
}

/// Reconciles the characters of the content with the placed glyphs.
pub fn reconcile(chars: &Vec<CharGlyph>, glyphs: &Vec<SectionGlyph>) -> (cache: Vec<CachedGlyph>)
    ensures
        cache@ == reconciled(chars@, glyphs@, chars@.len() as int),
        cache@.len() == chars@.len(),
{
    let mut cache: Vec<CachedGlyph> = Vec::new();
    let mut cursor: usize = 0;
    let mut i: usize = 0;
    while i < chars.len()
        invariant
            i <= chars@.len(),
            cursor <= glyphs@.len(),
            cursor == consumed(chars@, glyphs@, i as int),
            cache@ == reconciled(chars@, glyphs@, i as int),
            cache@.len() == i,
        decreases chars@.len() - i,
    {
        let entry = if cursor < glyphs.len() && chars[i].id == glyphs[cursor].id {
            let placed = cache_placed(&glyphs[cursor]);
            cursor += 1;
            placed
        } else if cache.len() > 0 {
            let last = cache[cache.len() - 1];
            CachedGlyph {
                x: sat_add(last.x, last.advance_width),
                y: last.y,
                advance_width: chars[i].advance_width,
            }
        } else {
            CachedGlyph { x: 0, y: 0, advance_width: chars[i].advance_width }
        };
        cache.push(entry);
        i += 1;
    }
    cache
}

impl UiText {
    /// Forgets the retained glyph positions.
    pub fn clear_cached_glyphs(&mut self)
        ensures
            final(self).cached_glyphs@.len() == 0,
            final(self).text == old(self).text,
            final(self).color == old(self).color,
            final(self).password == old(self).password,
            final(self).line_mode == old(self).line_mode,
            final(self).align == old(self).align,
    {
        self.cached_glyphs.clear();
    }

    /// Rebuilds the retained glyph positions from a new layout, where
    /// `chars` describes the characters of the content and `glyphs` are the
    /// glyphs that the layout placed.
    pub fn update_cached_glyphs(&mut self, chars: &Vec<CharGlyph>, glyphs: &Vec<SectionGlyph>)
        ensures
            final(self).cached_glyphs@ == spec_cached_glyphs(old(self).password, chars@, glyphs@),
            final(self).text == old(self).text,
            final(self).color == old(self).color,
            final(self).password == old(self).password,
            final(self).line_mode == old(self).line_mode,
            final(self).align == old(self).align,
    {
        if self.password {
            self.cached_glyphs = cache_all(glyphs);
        } else {
            self.cached_glyphs = reconcile(chars, glyphs);
        }
    }
}

} // verus!
