//! The data of a text element: colours, placement, content and retained
//! glyph positions.

use crate::units::{half, half_of, narrow, saturate, wide_product};
use vstd::prelude::*;

verus! {

/// A linear RGBA colour. Each component is the bit pattern of a single
/// precision number, as the renderer consumes it; the library compares and
/// carries colours and never computes with them.
#[derive(Clone, Copy, Debug, PartialEq, Eq, Structural, Hash)]
pub struct Color {
    pub r: u32,
    pub g: u32,
    pub b: u32,
    pub a: u32,
}

/// The bit pattern of the component value one.
pub const COMPONENT_ONE: u32 = 0x3f80_0000;

/// One whole texture side in texture coordinate units.
pub const TEX_COORD_ONE: i64 = 65536;

/// Whether a text is laid out on one line or wrapped at its bounds.
#[derive(Clone, Copy, Debug, PartialEq, Eq, Structural, Hash)]
pub enum LineMode {
    /// One line that may run over the bounds.
    Single,
    /// Lines broken at the bounds.
    Wrap,
}

/// Where a layout may break a line.
#[derive(Clone, Copy, Debug, PartialEq, Eq, Structural, Hash)]
pub enum CustomLineBreaker {
    /// At the boundaries that the Unicode line breaking rules allow.
    BuiltIn,
    /// Nowhere.
    NoBreaks,
}

/// Horizontal placement of text in its bounds.
#[derive(Clone, Copy, Debug, PartialEq, Eq, Structural, Hash)]
pub enum HorizontalAlign {
    Left,
    Center,
    Right,
}

/// Vertical placement of text in its bounds.
#[derive(Clone, Copy, Debug, PartialEq, Eq, Structural, Hash)]
pub enum VerticalAlign {
    Top,
    Center,
    Bottom,
}

/// The point of its bounds that a text is aligned to.
#[derive(Clone, Copy, Debug, PartialEq, Eq, Structural, Hash)]
pub enum Anchor {
    TopLeft,
    TopMiddle,
    TopRight,
    MiddleLeft,
    Middle,
    MiddleRight,
    BottomLeft,
    BottomMiddle,
    BottomRight,
}

impl Anchor {
    /// The anchor's offset from the centre of the bounds, in halves of the
    /// bounds' width and height: `-1`, `0` or `1` on each axis, with the
    /// vertical axis pointing up.
    pub open spec fn offset_halves(self) -> (int, int) {
        match self {
            Anchor::TopLeft => (-1, 1),
            Anchor::TopMiddle => (0, 1),
            Anchor::TopRight => (1, 1),
            Anchor::MiddleLeft => (-1, 0),
            Anchor::Middle => (0, 0),
            Anchor::MiddleRight => (1, 0),
            Anchor::BottomLeft => (-1, -1),
            Anchor::BottomMiddle => (0, -1),
            Anchor::BottomRight => (1, -1),
        }
    }

    /// The horizontal alignment that goes with the anchor.
    pub open spec fn spec_horizontal_align(self) -> HorizontalAlign {
        if self.offset_halves().0 < 0 {
            HorizontalAlign::Left
        } else if self.offset_halves().0 == 0 {
            HorizontalAlign::Center
        } else {
            HorizontalAlign::Right
        }
    }

    /// The vertical alignment that goes with the anchor.
    pub open spec fn spec_vertical_align(self) -> VerticalAlign {
        if self.offset_halves().1 > 0 {
            VerticalAlign::Top
        } else if self.offset_halves().1 == 0 {
            VerticalAlign::Center
        } else {
            VerticalAlign::Bottom
        }
    }

    /// The anchor's offset from the centre of the bounds, in halves of the
    /// bounds' width and height.
    pub fn normalized_offset(self) -> (halves: (i64, i64))
        ensures
            halves.0 == self.offset_halves().0,
            halves.1 == self.offset_halves().1,
    {
        match self {
            Anchor::TopLeft => (-1, 1),
            Anchor::TopMiddle => (0, 1),
            Anchor::TopRight => (1, 1),
            Anchor::MiddleLeft => (-1, 0),
            Anchor::Middle => (0, 0),
            Anchor::MiddleRight => (1, 0),
            Anchor::BottomLeft => (-1, -1),
            Anchor::BottomMiddle => (0, -1),
            Anchor::BottomRight => (1, -1),
        }
    }

    /// The horizontal alignment that goes with the anchor.
    pub fn horizontal_align(self) -> (align: HorizontalAlign)
        ensures
            align == self.spec_horizontal_align(),
    {
        match self {
            Anchor::TopLeft | Anchor::MiddleLeft | Anchor::BottomLeft => HorizontalAlign::Left,
            Anchor::TopMiddle | Anchor::Middle | Anchor::BottomMiddle => HorizontalAlign::Center,
            Anchor::TopRight | Anchor::MiddleRight | Anchor::BottomRight => HorizontalAlign::Right,
        }
    }

    /// The vertical alignment that goes with the anchor.
    pub fn vertical_align(self) -> (align: VerticalAlign)
        ensures
            align == self.spec_vertical_align(),
    {
        match self {
            Anchor::TopLeft | Anchor::TopMiddle | Anchor::TopRight => VerticalAlign::Top,
            Anchor::MiddleLeft | Anchor::Middle | Anchor::MiddleRight => VerticalAlign::Center,
            Anchor::BottomLeft | Anchor::BottomMiddle | Anchor::BottomRight => VerticalAlign::Bottom,
        }
    }
}

/// The box of a text element in pixel space: the position of its centre and
/// its size.
#[derive(Clone, Copy, Debug, PartialEq, Eq, Structural, Hash)]
pub struct UiTransform {
    pub pixel_x: i64,
    pub pixel_y: i64,
    pub pixel_width: i64,
    pub pixel_height: i64,
}

/// A position moved by `halves` half extents along one axis.
pub open spec fn aligned(position: int, extent: int, halves: int) -> int {
    saturate(position + half(extent * halves))
}

impl UiTransform {
    /// The point of the box that `align` names: the origin of the text.
    pub open spec fn spec_aligned_origin(self, align: Anchor) -> (int, int) {
        (
            aligned(self.pixel_x as int, self.pixel_width as int, align.offset_halves().0),
            aligned(self.pixel_y as int, self.pixel_height as int, align.offset_halves().1),
        )
    }

    /// The point of the box that `align` names: the origin of the text.
    pub fn aligned_origin(&self, align: Anchor) -> (origin: (i64, i64))
        ensures
            origin.0 == self.spec_aligned_origin(align).0,
            origin.1 == self.spec_aligned_origin(align).1,
    {
        let halves = align.normalized_offset();
        (
            shifted(self.pixel_x, self.pixel_width, halves.0),
            shifted(self.pixel_y, self.pixel_height, halves.1),
        )
    }
}

/// A position moved by `halves` half extents along one axis.
pub fn shifted(position: i64, extent: i64, halves: i64) -> (r: i64)
    ensures
        r == aligned(position as int, extent as int, halves as int),
{
    let product: i128 = wide_product(extent, halves);
    let moved: i128 = half_of(product);
    narrow(position as i128 + moved)
}

/// The retained position of one glyph of an element: where it starts, and
/// how far it advances the pen.
#[derive(Clone, Copy, Debug, PartialEq, Eq, Structural, Hash)]
pub struct CachedGlyph {
    pub x: i64,
    pub y: i64,
    pub advance_width: i64,
}

/// The cursor and the selection of an element that is being edited.
///
/// `highlight_vector` is the signed distance from the cursor to the other
/// end of the selection, counted in graphemes; zero means no selection.
#[derive(Clone, Copy, Debug, PartialEq, Eq, Structural, Hash)]
pub struct TextEditing {
    pub cursor_position: isize,
    pub highlight_vector: isize,
    /// The colour of selected text, as it is drawn.
    pub selected_text_color: Color,
    /// The colour of the highlight behind selected text, as it is drawn.
    pub selected_background_color: Color,
}

/// One text element.
#[derive(Clone, Debug)]
pub struct UiText {
    /// The content.
    pub text: String,
    /// The colour of unselected text.
    pub color: Color,
    /// Whether the content is shown masked.
    pub password: bool,
    /// Single line or wrapped.
    pub line_mode: LineMode,
    /// The point of the bounds that the text is aligned to.
    pub align: Anchor,
    /// The retained glyph positions, one per character of the rendered text.
    pub cached_glyphs: Vec<CachedGlyph>,
}

} // verus!
