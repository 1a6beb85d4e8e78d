//! The quads that draw an element: one per visible glyph, one per selected
//! glyph for the highlight, and the place of the cursor.

use crate::runs::{clamp_index, highlighted_glyphs_range};
use core::ops::Range;
use crate::text::{CachedGlyph, Color, TextEditing, UiText, UiTransform, COMPONENT_ONE, TEX_COORD_ONE};
use crate::units::{half, half_of, narrow, rescale, rescaled, sat_add, sat_sub, saturate};
use vstd::prelude::*;

verus! {

/// A point or an extent in the plane.
#[derive(Clone, Copy, Debug, PartialEq, Eq, Structural, Hash)]
pub struct Point {
    pub x: i64,
    pub y: i64,
}

/// A box given by two corners.
#[derive(Clone, Copy, Debug, PartialEq, Eq, Structural, Hash)]
pub struct Rect {
    pub min: Point,
    pub max: Point,
}

/// What a run carries through layout and rasterization to its vertices: the
/// element it belongs to and its colour.
#[derive(Clone, Copy, Debug, PartialEq, Eq, Structural, Hash)]
pub struct ExtraTextData {
    entity: u64,
    color: Color,
}

impl ExtraTextData {
    /// The element that the run belongs to.
    pub closed spec fn spec_entity(&self) -> u64 {
        self.entity
    }

    /// The colour of the run.
    pub closed spec fn spec_color(&self) -> Color {
        self.color
    }

    /// The data of a run of `entity` in `color`.
    pub fn new(entity: u64, color: Color) -> (data: Self)
        ensures
            data.spec_entity() == entity,
            data.spec_color() == color,
    {
        ExtraTextData { entity, color }
    }

    /// The element that the run belongs to.
    pub fn entity(&self) -> (entity: u64)
        ensures
            entity == self.spec_entity(),
    {
        self.entity
    }

    /// The colour of the run.
    pub fn color(&self) -> (color: Color)
        ensures
            color == self.spec_color(),
    {
        self.color
    }
}

/// A rasterized glyph as the atlas hands it out: where it lies in the
/// texture, where its pixels lie on the screen (`y` growing downwards), the
/// bounds of the section it belongs to, and the data of its run.
#[derive(Clone, Copy, Debug, PartialEq, Eq, Structural, Hash)]
pub struct GlyphVertex {
    pub tex_coords: Rect,
    pub pixel_coords: Rect,
    pub bounds: Rect,
    pub extra: ExtraTextData,
}

/// One quad of the draw call: centre, size, texture box and colours.
#[derive(Clone, Copy, Debug, PartialEq, Eq, Structural, Hash)]
pub struct UiArgs {
    pub position: Point,
    pub dimensions: Point,
    pub tex_coords_bounds: Rect,
    pub color: Color,
    pub color_bias: Color,
}

/// One axis of a glyph: the extent of its pixels and of its texture box.
#[derive(Clone, Copy, Debug, PartialEq, Eq, Structural, Hash)]
pub struct Axis {
    pub coords_min: i64,
    pub coords_max: i64,
    pub uv_min: i64,
    pub uv_max: i64,
}

impl Axis {
    /// The axis cut off at `bound_max`: where the pixels reach beyond it,
    /// they end there, and the texture box keeps the share of its extent
    /// that the pixels keep of theirs, measured from its lower edge.
    pub open spec fn clamp_high(self, bound_max: i64) -> Axis {
        if self.coords_max > bound_max {
            let span = saturate(self.uv_max - self.uv_min);
            let part = saturate(bound_max - self.coords_min);
            let whole = saturate(self.coords_max - self.coords_min);
            Axis {
                coords_min: self.coords_min,
                coords_max: bound_max,
                uv_min: self.uv_min,
                uv_max: saturate(self.uv_min + rescale(span, part, whole)) as i64,
            }
        } else {
            self
        }
    }

    /// The axis cut off at `bound_min`: where the pixels start before it,
    /// they start there, and the texture box keeps the share of its extent
    /// that the pixels keep of theirs, measured from its upper edge.
    pub open spec fn clamp_low(self, bound_min: i64) -> Axis {
        if self.coords_min < bound_min {
            let span = saturate(self.uv_max - self.uv_min);
            let part = saturate(self.coords_max - bound_min);
            let whole = saturate(self.coords_max - self.coords_min);
            Axis {
                coords_min: bound_min,
                coords_max: self.coords_max,
                uv_min: saturate(self.uv_max - rescale(span, part, whole)) as i64,
                uv_max: self.uv_max,
            }
        } else {
            self
        }
    }

    /// The axis cut off at both bounds, the upper one first.
    pub open spec fn clamp(self, bound_min: i64, bound_max: i64) -> Axis {
        self.clamp_high(bound_max).clamp_low(bound_min)
    }

    /// The middle of the pixels, rounded down.
    pub open spec fn center(self) -> int {
        half(self.coords_max + self.coords_min)
    }

    /// The extent of the pixels.
    pub open spec fn extent(self) -> int {
        saturate(self.coords_max - self.coords_min)
    }

    /// Cuts the axis off at `bound_max`.
    pub fn clamped_high(self, bound_max: i64) -> (axis: Axis)
        ensures
            axis == self.clamp_high(bound_max),
    {
        if self.coords_max > bound_max {
            let span = sat_sub(self.uv_max, self.uv_min);
            let part = sat_sub(bound_max, self.coords_min);
            let whole = sat_sub(self.coords_max, self.coords_min);
            let kept: i128 = rescaled(span, part, whole);
            Axis {
                coords_min: self.coords_min,
                coords_max: bound_max,
                uv_min: self.uv_min,
                uv_max: narrow(self.uv_min as i128 + kept),
            }
        } else {
            self
        }
    }

    /// Cuts the axis off at `bound_min`.
    pub fn clamped_low(self, bound_min: i64) -> (axis: Axis)
        ensures
            axis == self.clamp_low(bound_min),
    {
        if self.coords_min < bound_min {
            let span = sat_sub(self.uv_max, self.uv_min);
            let part = sat_sub(self.coords_max, bound_min);
            let whole = sat_sub(self.coords_max, self.coords_min);
            let kept: i128 = rescaled(span, part, whole);
            Axis {
                coords_min: bound_min,
                coords_max: self.coords_max,
                uv_min: narrow(self.uv_max as i128 - kept),
                uv_max: self.uv_max,
            }
        } else {
            self
        }
    }

    /// Cuts the axis off at both bounds, the upper one first.
    pub fn clamped(self, bound_min: i64, bound_max: i64) -> (axis: Axis)
        ensures
            axis == self.clamp(bound_min, bound_max),
    {
        self.clamped_high(bound_max).clamped_low(bound_min)
    }
}

/// The quotient of a product by a positive divisor, rounded down, lies
/// within one divisor of the product.
proof fn lemma_rescale_bounds(span: int, part: int, whole: int)
    requires
        whole > 0,
    ensures
        rescale(span, part, whole) * whole <= span * part < (rescale(span, part, whole) + 1)
            * whole,
{
    let product = span * part;
    assert((product / whole) * whole <= product < (product / whole + 1) * whole)
        by (nonlinear_arith)
        requires
            whole > 0,
    ;
}

/// Where the pixels of a glyph reach beyond the upper bound, the upper edge
/// of its texture box moves inwards from where it was: strictly below the
/// old edge, not below the lower edge, and to the share of the texture
/// extent that the pixels keep of theirs, rounded down.
///
/// This holds for a glyph that still reaches into the bounds, with a
/// texture box that is not empty, and extents that are coordinates.
pub proof fn lemma_clamp_high_rescales(axis: Axis, bound_max: i64)
    requires
        axis.coords_min <= bound_max < axis.coords_max,
        axis.uv_min < axis.uv_max,
        axis.coords_max - axis.coords_min <= i64::MAX,
        axis.uv_max - axis.uv_min <= i64::MAX,
    ensures
        axis.clamp_high(bound_max).coords_min == axis.coords_min,
        axis.clamp_high(bound_max).coords_max == bound_max,
        axis.clamp_high(bound_max).uv_min == axis.uv_min,
        axis.uv_min <= axis.clamp_high(bound_max).uv_max < axis.uv_max,
        (axis.clamp_high(bound_max).uv_max - axis.uv_min) * (axis.coords_max - axis.coords_min) <= (
        axis.uv_max - axis.uv_min) * (bound_max - axis.coords_min),
        (axis.uv_max - axis.uv_min) * (bound_max - axis.coords_min) < (axis.clamp_high(
            bound_max,
        ).uv_max - axis.uv_min + 1) * (axis.coords_max - axis.coords_min),
{
    let span = axis.uv_max - axis.uv_min;
    let part = bound_max - axis.coords_min;
    let whole = axis.coords_max - axis.coords_min;
    let kept = rescale(span, part, whole);
    lemma_rescale_bounds(span, part, whole);
    assert(0 <= kept < span) by (nonlinear_arith)
        requires
            kept * whole <= span * part < (kept + 1) * whole,
            0 <= part < whole,
            span > 0,
    ;
}

/// Where the pixels of a glyph start before the lower bound, the lower edge
/// of its texture box moves inwards from where it was: strictly above the
/// old edge, not above the upper edge, and leaving the share of the texture
/// extent that the pixels keep of theirs, rounded down.
///
/// This holds for a glyph that still reaches into the bounds, with a
/// texture box that is not empty, and extents that are coordinates.
pub proof fn lemma_clamp_low_rescales(axis: Axis, bound_min: i64)
    requires
        axis.coords_min < bound_min <= axis.coords_max,
        axis.uv_min < axis.uv_max,
        axis.coords_max - axis.coords_min <= i64::MAX,
        axis.uv_max - axis.uv_min <= i64::MAX,
    ensures
        axis.clamp_low(bound_min).coords_min == bound_min,
        axis.clamp_low(bound_min).coords_max == axis.coords_max,
        axis.clamp_low(bound_min).uv_max == axis.uv_max,
        axis.uv_min < axis.clamp_low(bound_min).uv_min <= axis.uv_max,
        (axis.uv_max - axis.clamp_low(bound_min).uv_min) * (axis.coords_max - axis.coords_min) <= (
        axis.uv_max - axis.uv_min) * (axis.coords_max - bound_min),
        (axis.uv_max - axis.uv_min) * (axis.coords_max - bound_min) < (axis.uv_max
            - axis.clamp_low(bound_min).uv_min + 1) * (axis.coords_max - axis.coords_min),
{
    let span = axis.uv_max - axis.uv_min;
    let part = axis.coords_max - bound_min;
    let whole = axis.coords_max - axis.coords_min;
    let kept = rescale(span, part, whole);
    lemma_rescale_bounds(span, part, whole);
    assert(0 <= kept < span) by (nonlinear_arith)
        requires
            kept * whole <= span * part < (kept + 1) * whole,
            0 <= part < whole,
            span > 0,
    ;
}

/// A glyph whose pixels lie within the bounds keeps its pixels and its
/// texture box.
pub proof fn lemma_clamp_inside(axis: Axis, bound_min: i64, bound_max: i64)
    requires
        bound_min <= axis.coords_min,
        axis.coords_max <= bound_max,
    ensures
        axis.clamp(bound_min, bound_max) == axis,
{
}

impl GlyphVertex {
    /// The horizontal axis of the glyph.
    pub open spec fn axis_x(self) -> Axis {
        Axis {
            coords_min: self.pixel_coords.min.x,
            coords_max: self.pixel_coords.max.x,
            uv_min: self.tex_coords.min.x,
            uv_max: self.tex_coords.max.x,
        }
    }

    /// The vertical axis of the glyph.
    pub open spec fn axis_y(self) -> Axis {
        Axis {
            coords_min: self.pixel_coords.min.y,
            coords_max: self.pixel_coords.max.y,
            uv_min: self.tex_coords.min.y,
            uv_max: self.tex_coords.max.y,
        }
    }

    /// The quad that draws the glyph: its pixels cut off at the bounds of
    /// its section, the texture box cut in proportion, the centre with `y`
    /// turned upwards, in the colour of its run.
    pub open spec fn spec_to_vertex(self) -> UiArgs {
        let x = self.axis_x().clamp(self.bounds.min.x, self.bounds.max.x);
        let y = self.axis_y().clamp(self.bounds.min.y, self.bounds.max.y);
        UiArgs {
            position: Point { x: x.center() as i64, y: saturate(-y.center()) as i64 },
            dimensions: Point { x: x.extent() as i64, y: y.extent() as i64 },
            tex_coords_bounds: Rect {
                min: Point { x: x.uv_min, y: y.uv_min },
                max: Point { x: x.uv_max, y: y.uv_max },
            },
            color: self.extra.spec_color(),
            color_bias: glyph_color_bias(),
        }
    }

    /// The element that the glyph belongs to, and the quad that draws it.
    pub fn to_vertex(&self) -> (vertex: (u64, UiArgs))
        ensures
            vertex.0 == self.extra.spec_entity(),
            vertex.1 == self.spec_to_vertex(),
    {
        let x = Axis {
            coords_min: self.pixel_coords.min.x,
            coords_max: self.pixel_coords.max.x,
            uv_min: self.tex_coords.min.x,
            uv_max: self.tex_coords.max.x,
        }.clamped(self.bounds.min.x, self.bounds.max.x);
        let y = Axis {
            coords_min: self.pixel_coords.min.y,
            coords_max: self.pixel_coords.max.y,
            uv_min: self.tex_coords.min.y,
            uv_max: self.tex_coords.max.y,
        }.clamped(self.bounds.min.y, self.bounds.max.y);
        let center_x: i128 = half_of(x.coords_max as i128 + x.coords_min as i128);
        let center_y: i128 = half_of(y.coords_max as i128 + y.coords_min as i128);
        (
            self.extra.entity(),
            UiArgs {
                position: Point { x: narrow(center_x), y: narrow(0i128 - center_y) },
                dimensions: Point {
                    x: sat_sub(x.coords_max, x.coords_min),
                    y: sat_sub(y.coords_max, y.coords_min),
                },
                tex_coords_bounds: Rect {
                    min: Point { x: x.uv_min, y: y.uv_min },
                    max: Point { x: x.uv_max, y: y.uv_max },
                },
                color: self.extra.color(),
                color_bias: Color { r: COMPONENT_ONE, g: COMPONENT_ONE, b: COMPONENT_ONE, a: 0 },
            },
        )
    }
}

/// The bias of a glyph quad: the texture holds coverage alone, so the
/// colour channels are lifted to one.
pub open spec fn glyph_color_bias() -> Color {
    Color { r: COMPONENT_ONE, g: COMPONENT_ONE, b: COMPONENT_ONE, a: 0 }
}

/// The bias of a highlight quad: none.
pub open spec fn no_color_bias() -> Color {
    Color { r: 0, g: 0, b: 0, a: 0 }
}

/// The whole texture.
pub open spec fn whole_texture() -> Rect {
    Rect { min: Point { x: 0, y: 0 }, max: Point { x: TEX_COORD_ONE, y: TEX_COORD_ONE } }
}

/// What the font says of a line of text at the element's scale.
#[derive(Clone, Copy, Debug, PartialEq, Eq, Structural, Hash)]
pub struct FontMetrics {
    /// How far the font rises above the baseline.
    pub ascent: i64,
    /// How far the font falls below the baseline, as a negative number.
    pub descent: i64,
    /// The advance of the space character.
    pub space_width: i64,
}

impl FontMetrics {
    /// The height of cursor and highlight: from descent to ascent.
    pub open spec fn spec_height(self) -> int {
        saturate(self.ascent - self.descent)
    }

    /// The offset from the baseline to the middle of cursor and highlight.
    pub open spec fn spec_offset(self) -> int {
        half(self.ascent + self.descent)
    }

    /// The height of cursor and highlight: from descent to ascent.
    pub fn height(&self) -> (height: i64)
        ensures
            height == self.spec_height(),
    {
        sat_sub(self.ascent, self.descent)
    }

    /// The offset from the baseline to the middle of cursor and highlight.
    pub fn offset(&self) -> (offset: i64)
        ensures
            offset == self.spec_offset(),
    {
        narrow(half_of(self.ascent as i128 + self.descent as i128))
    }
}

/// The highlight quad behind one glyph: as wide as the glyph's advance, as
/// high as the line, centred on the glyph.
pub open spec fn selection_quad(glyph: CachedGlyph, offset: i64, height: i64, color: Color) -> UiArgs {
    UiArgs {
        position: Point {
            x: saturate(glyph.x + half(glyph.advance_width as int)) as i64,
            y: saturate(glyph.y + offset) as i64,
        },
        dimensions: Point { x: glyph.advance_width, y: height },
        tex_coords_bounds: whole_texture(),
        color,
        color_bias: no_color_bias(),
    }
}

/// The highlight quads behind the glyphs `start .. end`, where both ends
/// are held to the sequence; none where the range is empty or inverted.
pub open spec fn selection_quads(
    glyphs: Seq<CachedGlyph>,
    start: int,
    end: int,
    offset: i64,
    height: i64,
    color: Color,
) -> Seq<UiArgs> {
    let first = clamp_index(start, glyphs.len() as int);
    let last = clamp_index(end, glyphs.len() as int);
    if first <= last {
        glyphs.subrange(first, last).map_values(
            |glyph: CachedGlyph| selection_quad(glyph, offset, height, color),
        )
    } else {
        Seq::empty()
    }
}

/// The highlight quads of an element: one behind each glyph of its
/// highlighted range.
pub open spec fn spec_selection_vertices(
    text_editing: TextEditing,
    glyphs: Seq<CachedGlyph>,
    offset: i64,
    height: i64,
) -> Seq<UiArgs> {
    selection_quads(
        glyphs,
        text_editing.range_start(glyphs.len() as int),
        text_editing.range_end(glyphs.len() as int),
        offset,
        height,
        text_editing.selected_background_color,
    )
}

/// The highlight quad behind one glyph.
pub fn selection_vertex(glyph: &CachedGlyph, offset: i64, height: i64, color: Color) -> (quad: UiArgs)
    ensures
        quad == selection_quad(*glyph, offset, height, color),
{
    let middle: i128 = half_of(glyph.advance_width as i128);
    UiArgs {
        position: Point { x: narrow(glyph.x as i128 + middle), y: sat_add(glyph.y, offset) },
        dimensions: Point { x: glyph.advance_width, y: height },
        tex_coords_bounds: Rect {
            min: Point { x: 0, y: 0 },
            max: Point { x: TEX_COORD_ONE, y: TEX_COORD_ONE },
        },
        color,
        color_bias: Color { r: 0, g: 0, b: 0, a: 0 },
    }
}

/// The highlight quads behind the glyphs of `range`.
pub fn highlight_quads(
    glyphs: &Vec<CachedGlyph>,
    range: Range<usize>,
    offset: i64,
    height: i64,
    color: Color,
) -> (quads: Vec<UiArgs>)
    ensures
        quads@ == selection_quads(glyphs@, range.start as int, range.end as int, offset, height, color),
{
    let count: usize = glyphs.len();
    let first: usize = if range.start > count {
        count
    } else {
        range.start
    };
    let last: usize = if range.end > count {
        count
    } else {
        range.end
    };
    let ghost expected = selection_quads(
        glyphs@,
        range.start as int,
        range.end as int,
        offset,
        height,
        color,
    );
    let mut quads: Vec<UiArgs> = Vec::new();
    if first > last {
        assert(quads@ =~= expected);
        return quads;
    }
    let mut i: usize = first;
    while i < last
        invariant
            first <= i <= last <= glyphs@.len(),
            expected == glyphs@.subrange(first as int, last as int).map_values(
                |glyph: CachedGlyph| selection_quad(glyph, offset, height, color),
            ),
            quads@ == expected.take(i - first),
        decreases last - i,
    {
        quads.push(selection_vertex(&glyphs[i], offset, height, color));
        i += 1;
        assert(quads@ =~= expected.take(i - first));
    }
    assert(expected.take(i - first) =~= expected);
    quads
}

/// The highlight quads of an element.
pub fn selection_vertices(text_editing: &TextEditing, ui_text: &UiText, offset: i64, height: i64) -> (quads:
    Vec<UiArgs>)
    ensures
        quads@ == spec_selection_vertices(*text_editing, ui_text.cached_glyphs@, offset, height),
        quads@.len() == text_editing.range_end(ui_text.cached_glyphs@.len() as int)
            - text_editing.range_start(ui_text.cached_glyphs@.len() as int),
{
    let range = highlighted_glyphs_range(text_editing, ui_text);
    highlight_quads(
        &ui_text.cached_glyphs,
        range,
        offset,
        height,
        text_editing.selected_background_color,
    )
}

/// A range inside the glyphs has one highlight quad for each of its glyphs,
/// the quad of glyph `start + k` at place `k`; an empty or inverted range
/// has none.
pub proof fn lemma_selection_quad_count(
    glyphs: Seq<CachedGlyph>,
    start: int,
    end: int,
    offset: i64,
    height: i64,
    color: Color,
)
    requires
        0 <= start <= glyphs.len(),
        0 <= end <= glyphs.len(),
    ensures
        start <= end ==> selection_quads(glyphs, start, end, offset, height, color).len() == end
            - start,
        end <= start ==> selection_quads(glyphs, start, end, offset, height, color).len() == 0,
        forall|k: int|
            0 <= k < end - start ==> #[trigger] selection_quads(
                glyphs,
                start,
                end,
                offset,
                height,
                color,
            )[k] == selection_quad(glyphs[start + k], offset, height, color),
{
}

/// The highlight of an element whose cursor and highlight position lie in
/// the text covers the glyphs between the two, whichever comes first.
pub proof fn lemma_selection_vertices_count(
    text_editing: TextEditing,
    glyphs: Seq<CachedGlyph>,
    offset: i64,
    height: i64,
)
    requires
        0 <= text_editing.cursor_position <= glyphs.len(),
        0 <= text_editing.highlight_position() <= glyphs.len(),
    ensures
        text_editing.highlight_vector >= 0 ==> spec_selection_vertices(
            text_editing,
            glyphs,
            offset,
            height,
        ).len() == text_editing.highlight_vector,
        text_editing.highlight_vector <= 0 ==> spec_selection_vertices(
            text_editing,
            glyphs,
            offset,
            height,
        ).len() == -text_editing.highlight_vector,
{
}

/// Where the cursor is drawn: at the glyph at `cursor_position`; with no
/// such glyph, right after the last one; in an empty text, at `origin`.
pub open spec fn spec_cursor_position(
    glyphs: Seq<CachedGlyph>,
    origin: Point,
    cursor_position: int,
    offset: i64,
) -> Point {
    if 0 <= cursor_position < glyphs.len() {
        Point {
            x: glyphs[cursor_position].x,
            y: saturate(glyphs[cursor_position].y + offset) as i64,
        }
    } else if glyphs.len() > 0 {
        Point {
            x: saturate(glyphs.last().x + glyphs.last().advance_width) as i64,
            y: saturate(glyphs.last().y + offset) as i64,
        }
    } else {
        origin
    }
}

/// The origin of the text of an element: the point of its box that its
/// alignment names.
pub open spec fn text_origin(transform: UiTransform, ui_text: UiText) -> Point {
    Point {
        x: transform.spec_aligned_origin(ui_text.align).0 as i64,
        y: transform.spec_aligned_origin(ui_text.align).1 as i64,
    }
}

/// In an empty text the cursor stands at the origin of the element.
pub proof fn lemma_cursor_in_empty_text(origin: Point, cursor_position: int, offset: i64)
    ensures
        spec_cursor_position(Seq::<CachedGlyph>::empty(), origin, cursor_position, offset)
            == origin,
{
}

/// A cursor at the end of a text that is not empty stands where the last
/// glyph ends: at its start plus its advance, as far as that is a
/// coordinate.
pub proof fn lemma_cursor_at_end(glyphs: Seq<CachedGlyph>, origin: Point, offset: i64)
    requires
        glyphs.len() > 0,
    ensures
        spec_cursor_position(glyphs, origin, glyphs.len() as int, offset).x == saturate(
            glyphs.last().x + glyphs.last().advance_width,
        ),
        i64::MIN <= glyphs.last().x + glyphs.last().advance_width <= i64::MAX
            ==> spec_cursor_position(glyphs, origin, glyphs.len() as int, offset).x
            == glyphs.last().x + glyphs.last().advance_width,
{
}

/// A cursor inside the text stands where its glyph starts.
pub proof fn lemma_cursor_at_glyph(
    glyphs: Seq<CachedGlyph>,
    origin: Point,
    cursor_position: int,
    offset: i64,
)
    requires
        0 <= cursor_position < glyphs.len(),
    ensures
        spec_cursor_position(glyphs, origin, cursor_position, offset).x
            == glyphs[cursor_position].x,
        spec_cursor_position(glyphs, origin, cursor_position, offset).y == saturate(
            glyphs[cursor_position].y + offset,
        ),
{
}

/// The geometry of one element.
#[derive(Clone, Debug)]
pub struct UiGlyphs {
    /// The quads of the glyphs.
    pub vertices: Vec<UiArgs>,
    /// The quads of the selection highlight.
    pub selection_vertices: Vec<UiArgs>,
    /// Where the cursor is drawn.
    pub cursor_position: Point,
    /// The height of cursor and highlight.
    pub height: i64,
    /// The advance of the space character.
    pub space_width: i64,
}

impl Default for UiGlyphs {
    /// Geometry with no quads, the cursor at zero.
    fn default() -> (glyphs: Self)
        ensures
            glyphs.vertices@.len() == 0,
            glyphs.selection_vertices@.len() == 0,
            glyphs.cursor_position == (Point { x: 0, y: 0 }),
            glyphs.height == 0,
            glyphs.space_width == 0,
    {
        UiGlyphs::new()
    }
}

impl UiGlyphs {
    /// Geometry with no quads, the cursor at zero.
    pub fn new() -> (glyphs: Self)
        ensures
            glyphs.vertices@.len() == 0,
            glyphs.selection_vertices@.len() == 0,
            glyphs.cursor_position == (Point { x: 0, y: 0 }),
            glyphs.height == 0,
            glyphs.space_width == 0,
    {
        UiGlyphs {
            vertices: Vec::new(),
            selection_vertices: Vec::new(),
            cursor_position: Point { x: 0, y: 0 },
            height: 0,
            space_width: 0,
        }
    }
}

/// The geometry of an element as mathematical values.
pub struct GlyphsView {
    pub vertices: Seq<UiArgs>,
    pub selection_vertices: Seq<UiArgs>,
    pub cursor_position: Point,
    pub height: i64,
    pub space_width: i64,
}

impl View for UiGlyphs {
    type V = GlyphsView;

    open spec fn view(&self) -> GlyphsView {
        GlyphsView {
            vertices: self.vertices@,
            selection_vertices: self.selection_vertices@,
            cursor_position: self.cursor_position,
            height: self.height,
            space_width: self.space_width,
        }
    }
}

/// The view of geometry that may be missing.
pub open spec fn glyphs_view(glyphs: Option<UiGlyphs>) -> Option<GlyphsView> {
    match glyphs {
        Some(g) => Some(g@),
        None => None,
    }
}

/// Places the cursor of an element.
pub fn update_cursor_position(
    glyph_data: &mut UiGlyphs,
    ui_text: &UiText,
    transform: &UiTransform,
    cursor_position: usize,
    offset: i64,
)
    ensures
        final(glyph_data).cursor_position == spec_cursor_position(
            ui_text.cached_glyphs@,
            text_origin(*transform, *ui_text),
            cursor_position as int,
            offset,
        ),
        final(glyph_data).vertices == old(glyph_data).vertices,
        final(glyph_data).selection_vertices == old(glyph_data).selection_vertices,
        final(glyph_data).height == old(glyph_data).height,
        final(glyph_data).space_width == old(glyph_data).space_width,
{
    let count: usize = ui_text.cached_glyphs.len();
    glyph_data.cursor_position = if cursor_position < count {
        let glyph = ui_text.cached_glyphs[cursor_position];
        Point { x: glyph.x, y: sat_add(glyph.y, offset) }
    } else if count > 0 {
        let glyph = ui_text.cached_glyphs[count - 1];
        Point { x: sat_add(glyph.x, glyph.advance_width), y: sat_add(glyph.y, offset) }
    } else {
        let origin = transform.aligned_origin(ui_text.align);
        Point { x: origin.0, y: origin.1 }
    };
}

} // verus!
