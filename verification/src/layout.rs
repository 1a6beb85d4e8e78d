//! The request that an element makes of the layout engine.

use crate::geometry::{text_origin, Point};
use crate::grapheme::grapheme_offsets;
use crate::runs::{editing_view, runs_view, spec_text_runs, text_runs, ColoredRun, RunView};
use crate::text::{
    Anchor, CustomLineBreaker, HorizontalAlign, LineMode, TextEditing, UiText, UiTransform,
    VerticalAlign,
};
use crate::units::{sat_neg, saturate};
use vstd::prelude::*;

verus! {

/// How the layout engine places the text of a section.
#[derive(Clone, Copy, Debug, PartialEq, Eq, Structural, Hash)]
pub enum Layout {
    /// On one line, whatever its length.
    SingleLine { line_breaker: CustomLineBreaker, h_align: HorizontalAlign, v_align: VerticalAlign },
    /// On as many lines as the bounds ask for.
    Wrap { line_breaker: CustomLineBreaker, h_align: HorizontalAlign, v_align: VerticalAlign },
}

/// The layout of a text: a single line never breaks, a wrapped text breaks
/// where the Unicode rules allow; both are aligned as the anchor says.
pub open spec fn spec_layout(line_mode: LineMode, align: Anchor) -> Layout {
    match line_mode {
        LineMode::Single => Layout::SingleLine {
            line_breaker: CustomLineBreaker::NoBreaks,
            h_align: align.spec_horizontal_align(),
            v_align: align.spec_vertical_align(),
        },
        LineMode::Wrap => Layout::Wrap {
            line_breaker: CustomLineBreaker::BuiltIn,
            h_align: align.spec_horizontal_align(),
            v_align: align.spec_vertical_align(),
        },
    }
}

/// The layout of a text.
pub fn layout_for(line_mode: LineMode, align: Anchor) -> (layout: Layout)
    ensures
        layout == spec_layout(line_mode, align),
{
    match line_mode {
        LineMode::Single => Layout::SingleLine {
            line_breaker: CustomLineBreaker::NoBreaks,
            h_align: align.horizontal_align(),
            v_align: align.vertical_align(),
        },
        LineMode::Wrap => Layout::Wrap {
            line_breaker: CustomLineBreaker::BuiltIn,
            h_align: align.horizontal_align(),
            v_align: align.vertical_align(),
        },
    }
}

/// One layout request: runs of text that share bounds and alignment.
#[derive(Debug)]
pub struct Section<'a> {
    /// The origin of the text in layout space, where `y` grows downwards.
    pub screen_position: Point,
    /// The width and height that the text may take.
    pub bounds: Point,
    /// How the text is placed.
    pub layout: Layout,
    /// The runs, in reading order.
    pub text: Vec<ColoredRun<'a>>,
}

/// A section as mathematical values.
pub struct SectionView {
    pub screen_position: Point,
    pub bounds: Point,
    pub layout: Layout,
    pub text: Seq<RunView>,
}

impl<'a> View for Section<'a> {
    type V = SectionView;

    open spec fn view(&self) -> SectionView {
        SectionView {
            screen_position: self.screen_position,
            bounds: self.bounds,
            layout: self.layout,
            text: runs_view(self.text@),
        }
    }
}

/// The section of an element: its runs, laid out in the box of the element
/// from the point that its alignment names, with `y` turned downwards.
pub open spec fn spec_section(
    transform: UiTransform,
    ui_text: UiText,
    text_editing: Option<TextEditing>,
) -> SectionView {
    SectionView {
        screen_position: Point {
            x: text_origin(transform, ui_text).x,
            y: saturate(-text_origin(transform, ui_text).y) as i64,
        },
        bounds: Point { x: transform.pixel_width, y: transform.pixel_height },
        layout: spec_layout(ui_text.line_mode, ui_text.align),
        text: spec_text_runs(
            ui_text.text@,
            grapheme_offsets(ui_text.text@),
            ui_text.password,
            text_editing,
            ui_text.color,
        ),
    }
}

/// The section of an element.
pub fn section<'a>(
    transform: &UiTransform,
    ui_text: &'a UiText,
    text_editing: Option<&TextEditing>,
) -> (section: Section<'a>)
    ensures
        section@ == spec_section(*transform, *ui_text, editing_view(text_editing)),
{
    let origin = transform.aligned_origin(ui_text.align);
    Section {
        screen_position: Point { x: origin.0, y: sat_neg(origin.1) },
        bounds: Point { x: transform.pixel_width, y: transform.pixel_height },
        layout: layout_for(ui_text.line_mode, ui_text.align),
        text: text_runs(ui_text.text.as_str(), ui_text.password, text_editing, ui_text.color),
    }
}

/// Equal elements make equal requests: the section depends on nothing but
/// the box, the text and the editing state of its element.
pub proof fn lemma_section_deterministic(
    first: SectionView,
    second: SectionView,
    transform: UiTransform,
    ui_text: UiText,
    text_editing: Option<TextEditing>,
)
    requires
        first == spec_section(transform, ui_text, text_editing),
        second == spec_section(transform, ui_text, text_editing),
    ensures
        first == second,
{
}

} // verus!
