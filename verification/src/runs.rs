//! Splitting the content of a text element into coloured runs.
//!
//! A run is a piece of text with one colour. The runs of an element, put
//! end to end, are the text that the layout engine lays out: the content
//! itself, or its mask where the element is a password field. A selection
//! splits the text in three: before, inside and after the selection.

use crate::grapheme::{grapheme_offsets, grapheme_starts, offsets_view, valid_offsets};
use crate::mask::{
    lemma_mask_sections_text, mask_sections, mask_text, password_sections, sections_text,
};
use crate::text::{Color, TextEditing, UiText};
use core::ops::Range;
use vstd::prelude::*;
use vstd::string::*;
use vstd::utf8::*;

verus! {

/// `index`, held to the positions `0 ..= len` of a sequence of `len` items.
pub open spec fn clamp_index(index: int, len: int) -> int {
    if index < 0 {
        0
    } else if index > len {
        len
    } else {
        index
    }
}

impl TextEditing {
    /// The end of the selection that is not the cursor.
    pub open spec fn highlight_position(self) -> int {
        self.cursor_position + self.highlight_vector
    }

    /// Where the highlighted range starts in a sequence of `len` items.
    pub open spec fn range_start(self, len: int) -> int {
        if self.cursor_position <= self.highlight_position() {
            clamp_index(self.cursor_position as int, len)
        } else {
            clamp_index(self.highlight_position(), len)
        }
    }

    /// Where the highlighted range ends in a sequence of `len` items.
    pub open spec fn range_end(self, len: int) -> int {
        if self.cursor_position <= self.highlight_position() {
            clamp_index(self.highlight_position(), len)
        } else {
            clamp_index(self.cursor_position as int, len)
        }
    }

    /// The highlighted range in a sequence of `len` items: from the lesser
    /// to the greater of cursor and highlight position, both held to the
    /// sequence.
    pub fn highlighted_range(&self, len: usize) -> (range: Range<usize>)
        ensures
            range.start == self.range_start(len as int),
            range.end == self.range_end(len as int),
            range.start <= range.end <= len,
    {
        let cursor: i128 = self.cursor_position as i128;
        let highlight: i128 = cursor + self.highlight_vector as i128;
        let low: i128 = if cursor <= highlight {
            cursor
        } else {
            highlight
        };
        let high: i128 = if cursor <= highlight {
            highlight
        } else {
            cursor
        };
        let start: usize = clamped(low, len);
        let end: usize = clamped(high, len);
        start..end
    }
}

/// `index`, held to the positions `0 ..= len`.
pub fn clamped(index: i128, len: usize) -> (r: usize)
    ensures
        r == clamp_index(index as int, len as int),
{
    if index < 0 {
        0
    } else if index > len as i128 {
        len
    } else {
        index as usize
    }
}

/// The range of glyphs of `ui_text` that the selection highlights.
pub fn highlighted_glyphs_range(text_editing: &TextEditing, ui_text: &UiText) -> (range: Range<
    usize,
>)
    ensures
        range.start == text_editing.range_start(ui_text.cached_glyphs@.len() as int),
        range.end == text_editing.range_end(ui_text.cached_glyphs@.len() as int),
        range.start <= range.end <= ui_text.cached_glyphs@.len(),
{
    text_editing.highlighted_range(ui_text.cached_glyphs.len())
}

/// The byte offset at which grapheme `index` starts; the length of the text
/// where there is no such grapheme.
pub open spec fn offset_at(offsets: Seq<int>, index: int, byte_len: int) -> int {
    if 0 <= index < offsets.len() {
        offsets[index]
    } else {
        byte_len
    }
}

/// The bytes of a text that the selection covers, where `offsets` are the
/// byte offsets of its graphemes and `byte_len` is its length: none without
/// a selection, or where the selection covers no byte.
pub open spec fn spec_selected_bytes(
    text_editing: TextEditing,
    offsets: Seq<int>,
    byte_len: int,
) -> Option<(int, int)> {
    let start = offset_at(offsets, text_editing.range_start(offsets.len() as int), byte_len);
    let end = offset_at(offsets, text_editing.range_end(offsets.len() as int), byte_len);
    if text_editing.highlight_vector == 0 || start == end {
        None
    } else {
        Some((start, end))
    }
}

/// Whether `range` is the range of bytes that `expected` names.
pub open spec fn is_byte_range(range: Option<Range<usize>>, expected: Option<(int, int)>) -> bool {
    match (range, expected) {
        (None, None) => true,
        (Some(r), Some((start, end))) => r.start == start && r.end == end,
        _ => false,
    }
}

/// The byte offset at which grapheme `index` starts.
fn start_of(offsets: &Vec<usize>, index: usize, byte_len: usize) -> (r: usize)
    ensures
        r == offset_at(offsets_view(offsets@), index as int, byte_len as int),
{
    if index < offsets.len() {
        offsets[index]
    } else {
        byte_len
    }
}

/// The bytes that the selection covers in a text of `byte_len` bytes whose
/// graphemes start at `offsets`.
pub fn selected_bytes_at(text_editing: &TextEditing, offsets: &Vec<usize>, byte_len: usize) -> (range:
    Option<Range<usize>>)
    ensures
        is_byte_range(
            range,
            spec_selected_bytes(*text_editing, offsets_view(offsets@), byte_len as int),
        ),
{
    if text_editing.highlight_vector == 0 {
        return None;
    }
    let graphemes = text_editing.highlighted_range(offsets.len());
    let start_byte = start_of(offsets, graphemes.start, byte_len);
    let end_byte = start_of(offsets, graphemes.end, byte_len);
    if start_byte == end_byte {
        None
    } else {
        Some(start_byte..end_byte)
    }
}

/// The length of `text` in bytes.
pub fn byte_len(text: &str) -> (len: usize)
    ensures
        len == text.spec_bytes().len(),
{
    text.as_bytes().len()
}

/// The bytes of `text` that the selection covers.
pub fn selected_bytes(text_editing: &TextEditing, text: &str) -> (range: Option<Range<usize>>)
    ensures
        is_byte_range(
            range,
            spec_selected_bytes(
                *text_editing,
                grapheme_offsets(text@),
                text.spec_bytes().len() as int,
            ),
        ),
{
    let offsets = grapheme_starts(text);
    selected_bytes_at(text_editing, &offsets, byte_len(text))
}

/// A piece of text with one colour.
#[derive(Clone, Copy, Debug)]
pub struct ColoredRun<'a> {
    pub text: &'a str,
    pub color: Color,
}

/// A run as its characters and its colour.
pub struct RunView {
    pub text: Seq<char>,
    pub color: Color,
}

impl<'a> View for ColoredRun<'a> {
    type V = RunView;

    open spec fn view(&self) -> RunView {
        RunView { text: self.text@, color: self.color }
    }
}

/// The runs of a vector as characters and colours.
pub open spec fn runs_view(runs: Seq<ColoredRun>) -> Seq<RunView> {
    runs.map_values(|run: ColoredRun| run@)
}

/// The text of all runs, put end to end.
pub open spec fn runs_text(runs: Seq<RunView>) -> Seq<char>
    decreases runs.len(),
{
    if runs.len() == 0 {
        Seq::empty()
    } else {
        runs_text(runs.drop_last()) + runs.last().text
    }
}

/// The characters that the bytes `start .. end` of a text encode.
pub open spec fn slice_chars(bytes: Seq<u8>, start: int, end: int) -> Seq<char> {
    decode_utf8(bytes.subrange(start, end))
}

/// A range of bytes as a pair of integers.
pub open spec fn range_pair(range: Option<Range<usize>>) -> Option<(int, int)> {
    match range {
        Some(r) => Some((r.start as int, r.end as int)),
        None => None,
    }
}

/// Whether `range` names a non-empty piece of the text `bytes` that starts
/// and ends between two characters.
pub open spec fn splits_text(bytes: Seq<u8>, range: Option<(int, int)>) -> bool {
    match range {
        Some((start, end)) => 0 <= start < end <= bytes.len() && is_char_boundary(bytes, start)
            && is_char_boundary(bytes, end),
        None => false,
    }
}

/// The runs of a text that is shown as it is: three where `range` splits
/// it, with the piece inside the range in the selected colour, else the
/// whole text in the base colour.
pub open spec fn plain_runs(
    text: Seq<char>,
    range: Option<(int, int)>,
    base: Color,
    selected: Color,
) -> Seq<RunView> {
    let bytes = encode_utf8(text);
    if splits_text(bytes, range) {
        let (start, end) = range.unwrap();
        seq![
            RunView { text: slice_chars(bytes, 0, start), color: base },
            RunView { text: slice_chars(bytes, start, end), color: selected },
            RunView { text: slice_chars(bytes, end, bytes.len() as int), color: base },
        ]
    } else {
        seq![RunView { text, color: base }]
    }
}

/// The mask for `count` graphemes as runs of one colour.
pub open spec fn mask_runs(count: nat, color: Color) -> Seq<RunView> {
    mask_sections(count).map_values(|section: Seq<char>| RunView { text: section, color })
}

/// The runs of a masked text of `count` graphemes: its mask in the base
/// colour, or with a selection the masks of what lies before, inside and
/// after the highlighted range.
pub open spec fn password_runs(count: nat, text_editing: Option<TextEditing>, base: Color) -> Seq<
    RunView,
> {
    match text_editing {
        None => mask_runs(count, base),
        Some(editing) => {
            let start = editing.range_start(count as int);
            let end = editing.range_end(count as int);
            mask_runs(start as nat, base) + mask_runs(
                (end - start) as nat,
                editing.selected_text_color,
            ) + mask_runs((count - end) as nat, base)
        },
    }
}

/// The runs of a text element, where `offsets` are the byte offsets of the
/// graphemes of `text`.
pub open spec fn spec_text_runs(
    text: Seq<char>,
    offsets: Seq<int>,
    password: bool,
    text_editing: Option<TextEditing>,
    base: Color,
) -> Seq<RunView> {
    if password {
        password_runs(offsets.len(), text_editing, base)
    } else {
        match text_editing {
            None => seq![RunView { text, color: base }],
            Some(editing) => plain_runs(
                text,
                spec_selected_bytes(editing, offsets, encode_utf8(text).len() as int),
                base,
                editing.selected_text_color,
            ),
        }
    }
}

/// Splits `text` around `range`, where the range names a non-empty piece of
/// it between two characters; any other range leaves the text whole.
pub fn split_runs<'a>(text: &'a str, range: Option<Range<usize>>, base: Color, selected: Color) -> (runs:
    Vec<ColoredRun<'a>>)
    ensures
        runs_view(runs@) == plain_runs(text@, range_pair(range), base, selected),
{
    broadcast use {encode_utf8_valid_utf8, encode_utf8_decode_utf8};

    let ghost bytes = text.spec_bytes();
    let mut runs: Vec<ColoredRun<'a>> = Vec::new();
    if let Some(r) = range {
        let start: usize = r.start;
        let end: usize = r.end;
        if start < end && end <= byte_len(text) && text.is_char_boundary(start)
            && text.is_char_boundary(end) {
            let (front, tail) = text.split_at(end);
            proof {
                assert(valid_utf8(bytes));
                assert(valid_utf8(front.spec_bytes()));
                is_char_boundary_iff_not_is_continuation_byte(bytes, start as int);
                is_char_boundary_iff_not_is_continuation_byte(front.spec_bytes(), start as int);
            }
            let (head, middle) = front.split_at(start);
            proof {
                assert(head.spec_bytes() =~= bytes.subrange(0, start as int));
                assert(middle.spec_bytes() =~= bytes.subrange(start as int, end as int));
                assert(head@ == decode_utf8(head.spec_bytes()));
                assert(middle@ == decode_utf8(middle.spec_bytes()));
                assert(tail@ == decode_utf8(tail.spec_bytes()));
            }
            runs.push(ColoredRun { text: head, color: base });
            runs.push(ColoredRun { text: middle, color: selected });
            runs.push(ColoredRun { text: tail, color: base });
            assert(runs_view(runs@) =~= plain_runs(text@, range_pair(range), base, selected));
            return runs;
        }
    }
    runs.push(ColoredRun { text, color: base });
    assert(runs_view(runs@) =~= plain_runs(text@, range_pair(range), base, selected));
    runs
}

/// Appends the mask for `count` graphemes to `runs`, in one colour.
pub fn push_mask_runs<'a>(runs: &mut Vec<ColoredRun<'a>>, count: usize, color: Color)
    ensures
        runs_view(final(runs)@) == runs_view(old(runs)@) + mask_runs(count as nat, color),
{
    let sections = password_sections(count);
    let ghost before = runs_view(runs@);
    let mut i: usize = 0;
    while i < sections.len()
        invariant
            i <= sections@.len(),
            sections@.len() == mask_sections(count as nat).len(),
            forall|k: int|
                0 <= k < sections@.len() ==> (#[trigger] sections@[k])@ == mask_sections(
                    count as nat,
                )[k],
            runs_view(runs@) == before + mask_runs(count as nat, color).take(i as int),
        decreases sections@.len() - i,
    {
        let text: &'static str = sections[i];
        let ghost earlier = runs@;
        runs.push(ColoredRun { text, color });
        proof {
            let masks = mask_runs(count as nat, color);
            assert(masks[i as int] == RunView { text: text@, color });
            assert(runs_view(runs@) =~= runs_view(earlier).push(masks[i as int]));
            assert(masks.take(i + 1) =~= masks.take(i as int).push(masks[i as int]));
        }
        i += 1;
    }
    assert(mask_runs(count as nat, color).take(i as int) =~= mask_runs(count as nat, color));
}

/// The runs of a text element whose graphemes start at the byte offsets
/// `offsets`.
pub fn text_runs_at<'a>(
    text: &'a str,
    offsets: &Vec<usize>,
    password: bool,
    text_editing: Option<&TextEditing>,
    base_color: Color,
) -> (runs: Vec<ColoredRun<'a>>)
    ensures
        runs_view(runs@) == spec_text_runs(
            text@,
            offsets_view(offsets@),
            password,
            editing_view(text_editing),
            base_color,
        ),
{
    let count: usize = offsets.len();
    match (password, text_editing) {
        (false, None) => {
            let mut runs: Vec<ColoredRun<'a>> = Vec::new();
            runs.push(ColoredRun { text, color: base_color });
            assert(runs_view(runs@) =~= seq![RunView { text: text@, color: base_color }]);
            runs
        },
        (false, Some(editing)) => {
            let range = selected_bytes_at(editing, offsets, byte_len(text));
            split_runs(text, range, base_color, editing.selected_text_color)
        },
        (true, None) => {
            let mut runs: Vec<ColoredRun<'a>> = Vec::new();
            push_mask_runs(&mut runs, count, base_color);
            assert(runs_view(runs@) =~= mask_runs(count as nat, base_color));
            runs
        },
        (true, Some(editing)) => {
            let range = editing.highlighted_range(count);
            let mut runs: Vec<ColoredRun<'a>> = Vec::new();
            push_mask_runs(&mut runs, range.start, base_color);
            push_mask_runs(&mut runs, range.end - range.start, editing.selected_text_color);
            push_mask_runs(&mut runs, count - range.end, base_color);
            assert(runs_view(runs@) =~= password_runs(
                count as nat,
                editing_view(text_editing),
                base_color,
            ));
            runs
        },
    }
}

/// The editing state behind an optional reference.
pub open spec fn editing_view(text_editing: Option<&TextEditing>) -> Option<TextEditing> {
    match text_editing {
        Some(editing) => Some(*editing),
        None => None,
    }
}

/// The runs of a text element: the content in its colour, split around the
/// selection where there is one, or its mask where `password` is set.
pub fn text_runs<'a>(
    text: &'a str,
    password: bool,
    text_editing: Option<&TextEditing>,
    base_color: Color,
) -> (runs: Vec<ColoredRun<'a>>)
    ensures
        runs_view(runs@) == spec_text_runs(
            text@,
            grapheme_offsets(text@),
            password,
            editing_view(text_editing),
            base_color,
        ),
        valid_offsets(grapheme_offsets(text@), text.spec_bytes()),
{
    let offsets = grapheme_starts(text);
    text_runs_at(text, &offsets, password, text_editing, base_color)
}

/// The text of two lists of runs, one after the other, is the text of the
/// first followed by the text of the second.
pub proof fn lemma_runs_text_concat(first: Seq<RunView>, second: Seq<RunView>)
    ensures
        runs_text(first + second) == runs_text(first) + runs_text(second),
    decreases second.len(),
{
    if second.len() == 0 {
        assert(first + second =~= first);
        assert(runs_text(first) + runs_text(second) =~= runs_text(first));
    } else {
        lemma_runs_text_concat(first, second.drop_last());
        assert((first + second).drop_last() =~= first + second.drop_last());
        assert((first + second).last() == second.last());
        assert(runs_text(first + second) =~= runs_text(first) + runs_text(second));
    }
}

/// The runs of a mask hold the text of its sections.
proof fn lemma_mask_runs_sections(sections: Seq<Seq<char>>, color: Color)
    ensures
        runs_text(sections.map_values(|section: Seq<char>| RunView { text: section, color }))
            == sections_text(sections),
    decreases sections.len(),
{
    let runs = sections.map_values(|section: Seq<char>| RunView { text: section, color });
    if sections.len() > 0 {
        lemma_mask_runs_sections(sections.drop_last(), color);
        assert(runs.drop_last() =~= sections.drop_last().map_values(
            |section: Seq<char>| RunView { text: section, color },
        ));
    }
}

/// The runs of a mask for `count` graphemes hold `count` mask characters.
pub proof fn lemma_mask_runs_text(count: nat, color: Color)
    ensures
        runs_text(mask_runs(count, color)) == mask_text(count),
{
    lemma_mask_runs_sections(mask_sections(count), color);
    lemma_mask_sections_text(count);
}

/// The runs of a masked text hold one mask character for each grapheme of
/// the content, with or without a selection, wherever the selection lies.
pub proof fn lemma_password_runs_text(count: nat, text_editing: Option<TextEditing>, base: Color)
    ensures
        runs_text(password_runs(count, text_editing, base)) == mask_text(count),
        runs_text(password_runs(count, text_editing, base)).len() == count,
{
    match text_editing {
        None => {
            lemma_mask_runs_text(count, base);
        },
        Some(editing) => {
            let start = editing.range_start(count as int) as nat;
            let end = editing.range_end(count as int) as nat;
            let before = mask_runs(start, base);
            let inside = mask_runs((end - start) as nat, editing.selected_text_color);
            let after = mask_runs((count - end) as nat, base);
            lemma_mask_runs_text(start, base);
            lemma_mask_runs_text((end - start) as nat, editing.selected_text_color);
            lemma_mask_runs_text((count - end) as nat, base);
            lemma_runs_text_concat(before, inside);
            lemma_runs_text_concat(before + inside, after);
            assert(mask_text(start) + mask_text((end - start) as nat) + mask_text(
                (count - end) as nat,
            ) =~= mask_text(count));
        },
    }
}

/// The runs of a text that is shown as it is hold the text, whole and in
/// order, whether or not a range splits it.
pub proof fn lemma_plain_runs_text(
    text: Seq<char>,
    range: Option<(int, int)>,
    base: Color,
    selected: Color,
)
    ensures
        runs_text(plain_runs(text, range, base, selected)) == text,
{
    broadcast use {encode_utf8_valid_utf8, encode_utf8_decode_utf8};

    let bytes = encode_utf8(text);
    let runs = plain_runs(text, range, base, selected);
    if splits_text(bytes, range) {
        let (start, end) = range.unwrap();
        let front = bytes.subrange(0, end);
        valid_utf8_split(bytes, end);
        decode_utf8_split(bytes, end);
        is_char_boundary_iff_not_is_continuation_byte(bytes, start);
        is_char_boundary_iff_not_is_continuation_byte(front, start);
        decode_utf8_split(front, start);
        assert(front.subrange(0, start) =~= bytes.subrange(0, start));
        assert(front.subrange(start, front.len() as int) =~= bytes.subrange(start, end));
        assert(decode_utf8(bytes) == text);
        let head = seq![runs[0]];
        let middle = seq![runs[1]];
        let tail = seq![runs[2]];
        lemma_single_run_text(runs[0]);
        lemma_single_run_text(runs[1]);
        lemma_single_run_text(runs[2]);
        lemma_runs_text_concat(head, middle);
        lemma_runs_text_concat(head + middle, tail);
        assert(runs =~= head + middle + tail);
    } else {
        lemma_single_run_text(runs[0]);
        assert(runs =~= seq![runs[0]]);
    }
}

/// The text of one run alone is its own text.
pub proof fn lemma_single_run_text(run: RunView)
    ensures
        runs_text(seq![run]) == run.text,
{
    let runs = seq![run];
    assert(runs.drop_last() =~= Seq::<RunView>::empty());
    assert(runs_text(runs.drop_last()) =~= Seq::<char>::empty());
    assert(runs_text(runs) =~= run.text);
}

/// The runs of an element hold the text that is laid out: the content, or
/// for a masked text one mask character for each grapheme of the content.
pub proof fn lemma_text_runs_text(
    text: Seq<char>,
    offsets: Seq<int>,
    password: bool,
    text_editing: Option<TextEditing>,
    base: Color,
)
    ensures
        runs_text(spec_text_runs(text, offsets, password, text_editing, base)) == if password {
            mask_text(offsets.len())
        } else {
            text
        },
{
    if password {
        lemma_password_runs_text(offsets.len(), text_editing, base);
    } else {
        match text_editing {
            None => {
                lemma_plain_runs_text(text, None, base, base);
            },
            Some(editing) => {
                lemma_plain_runs_text(
                    text,
                    spec_selected_bytes(editing, offsets, encode_utf8(text).len() as int),
                    base,
                    editing.selected_text_color,
                );
            },
        }
    }
}

/// Where the graphemes of a text start at `offsets`, the selection covers
/// bytes exactly if its highlighted range holds a grapheme, and the bytes
/// it covers can be split off: they start and end between two characters.
pub proof fn lemma_selection_splits(text: Seq<char>, offsets: Seq<int>, text_editing: TextEditing)
    requires
        valid_offsets(offsets, encode_utf8(text)),
    ensures
        spec_selected_bytes(text_editing, offsets, encode_utf8(text).len() as int) is Some
            <==> text_editing.range_start(offsets.len() as int) < text_editing.range_end(
            offsets.len() as int,
        ),
        spec_selected_bytes(text_editing, offsets, encode_utf8(text).len() as int) is Some
            ==> splits_text(
            encode_utf8(text),
            spec_selected_bytes(text_editing, offsets, encode_utf8(text).len() as int),
        ),
{
    broadcast use encode_utf8_valid_utf8;

    let bytes = encode_utf8(text);
    let count = offsets.len() as int;
    let first = text_editing.range_start(count);
    let last = text_editing.range_end(count);
    is_char_boundary_start_end_of_seq(bytes);
    if first < last {
        assert(offsets[first] < offset_at(offsets, last, bytes.len() as int));
    }
}

/// The runs of a text that is shown as it is, while it is edited, where
/// its graphemes start at `offsets`: a highlighted range that holds a
/// grapheme splits the text in three at the graphemes where the range
/// starts and ends; with any other range the text is one run.
pub proof fn lemma_edited_text_runs(
    text: Seq<char>,
    offsets: Seq<int>,
    text_editing: TextEditing,
    base: Color,
)
    requires
        valid_offsets(offsets, encode_utf8(text)),
    ensures
        ({
            let bytes = encode_utf8(text);
            let len = bytes.len() as int;
            let first = text_editing.range_start(offsets.len() as int);
            let last = text_editing.range_end(offsets.len() as int);
            let start = offset_at(offsets, first, len);
            let end = offset_at(offsets, last, len);
            spec_text_runs(text, offsets, false, Some(text_editing), base) == if first < last {
                seq![
                    RunView { text: slice_chars(bytes, 0, start), color: base },
                    RunView {
                        text: slice_chars(bytes, start, end),
                        color: text_editing.selected_text_color,
                    },
                    RunView { text: slice_chars(bytes, end, len), color: base },
                ]
            } else {
                seq![RunView { text, color: base }]
            }
        }),
{
    lemma_selection_splits(text, offsets, text_editing);
}

} // verus!
