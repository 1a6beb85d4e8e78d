use ui_glyphs::geometry::{
    highlight_quads, selection_vertex, selection_vertices, update_cursor_position, Axis,
    ExtraTextData, FontMetrics, GlyphVertex, Point, Rect, UiArgs, UiGlyphs,
};
use ui_glyphs::text::{
    shifted, Anchor, CachedGlyph, Color, HorizontalAlign, LineMode, TextEditing, UiText,
    UiTransform, VerticalAlign, COMPONENT_ONE, TEX_COORD_ONE,
};

fn red() -> Color {
    Color { r: COMPONENT_ONE, g: 0, b: 0, a: COMPONENT_ONE }
}

fn grey() -> Color {
    Color { r: 5, g: 6, b: 7, a: 8 }
}

fn rect(min_x: i64, min_y: i64, max_x: i64, max_y: i64) -> Rect {
    Rect { min: Point { x: min_x, y: min_y }, max: Point { x: max_x, y: max_y } }
}

fn glyph(tex_coords: Rect, pixel_coords: Rect, bounds: Rect) -> GlyphVertex {
    GlyphVertex { tex_coords, pixel_coords, bounds, extra: ExtraTextData::new(42, red()) }
}

fn cached(x: i64, y: i64, advance_width: i64) -> CachedGlyph {
    CachedGlyph { x, y, advance_width }
}

fn ui_text(align: Anchor, cached_glyphs: Vec<CachedGlyph>) -> UiText {
    UiText {
        text: String::new(),
        color: red(),
        password: false,
        line_mode: LineMode::Single,
        align,
        cached_glyphs,
    }
}

fn editing(cursor_position: isize, highlight_vector: isize) -> TextEditing {
    TextEditing {
        cursor_position,
        highlight_vector,
        selected_text_color: red(),
        selected_background_color: grey(),
    }
}

fn transform() -> UiTransform {
    UiTransform { pixel_x: 100, pixel_y: 200, pixel_width: 50, pixel_height: 30 }
}

fn glyph_bias() -> Color {
    Color { r: COMPONENT_ONE, g: COMPONENT_ONE, b: COMPONENT_ONE, a: 0 }
}

#[test]
fn extra_text_data_keeps_entity_and_colour() {
    let data = ExtraTextData::new(7, grey());
    assert_eq!(data.entity(), 7);
    assert_eq!(data.color(), grey());
}

#[test]
fn a_glyph_inside_its_bounds_is_drawn_as_it_is() {
    let vertex = glyph(rect(1000, 2000, 1400, 2800), rect(10, 20, 50, 100), rect(0, 0, 500, 500));
    assert_eq!(
        vertex.to_vertex(),
        (
            42,
            UiArgs {
                position: Point { x: 30, y: -60 },
                dimensions: Point { x: 40, y: 80 },
                tex_coords_bounds: rect(1000, 2000, 1400, 2800),
                color: red(),
                color_bias: glyph_bias(),
            }
        )
    );
}

#[test]
fn a_glyph_beyond_the_right_edge_is_cut_and_its_texture_box_with_it() {
    let vertex = glyph(rect(1000, 2000, 1400, 2800), rect(10, 20, 50, 100), rect(0, 0, 30, 1000));
    let (entity, quad) = vertex.to_vertex();
    assert_eq!(entity, 42);
    assert_eq!(quad.position, Point { x: 20, y: -60 });
    assert_eq!(quad.dimensions, Point { x: 20, y: 80 });
    assert_eq!(quad.tex_coords_bounds, rect(1000, 2000, 1200, 2800));
    assert!(quad.tex_coords_bounds.max.x < 1400);
}

#[test]
fn a_glyph_beyond_the_left_edge_is_cut_and_its_texture_box_with_it() {
    let vertex = glyph(rect(1000, 2000, 1400, 2800), rect(10, 20, 50, 100), rect(20, 0, 500, 500));
    let (_, quad) = vertex.to_vertex();
    assert_eq!(quad.position, Point { x: 35, y: -60 });
    assert_eq!(quad.dimensions, Point { x: 30, y: 80 });
    assert_eq!(quad.tex_coords_bounds, rect(1100, 2000, 1400, 2800));
}

#[test]
fn a_glyph_beyond_the_bottom_edge_is_cut() {
    let vertex = glyph(rect(1000, 2000, 1400, 2800), rect(10, 20, 50, 100), rect(0, 0, 500, 40));
    let (_, quad) = vertex.to_vertex();
    assert_eq!(quad.position, Point { x: 30, y: -30 });
    assert_eq!(quad.dimensions, Point { x: 40, y: 20 });
    assert_eq!(quad.tex_coords_bounds, rect(1000, 2000, 1400, 2200));
}

#[test]
fn a_glyph_beyond_the_top_edge_is_cut() {
    let vertex = glyph(rect(1000, 2000, 1400, 2800), rect(10, 20, 50, 100), rect(0, 80, 500, 500));
    let (_, quad) = vertex.to_vertex();
    assert_eq!(quad.position, Point { x: 30, y: -90 });
    assert_eq!(quad.dimensions, Point { x: 40, y: 20 });
    assert_eq!(quad.tex_coords_bounds, rect(1000, 2600, 1400, 2800));
}

#[test]
fn a_glyph_beyond_both_edges_is_cut_at_the_upper_one_first() {
    let vertex = glyph(rect(1000, 2000, 1400, 2800), rect(10, 20, 50, 100), rect(20, 40, 30, 60));
    let (_, quad) = vertex.to_vertex();
    assert_eq!(quad.position, Point { x: 25, y: -50 });
    assert_eq!(quad.dimensions, Point { x: 10, y: 20 });
    assert_eq!(quad.tex_coords_bounds, rect(1100, 2200, 1200, 2400));
}

#[test]
fn the_share_of_the_texture_box_is_rounded_down() {
    let axis = Axis { coords_min: 0, coords_max: 3, uv_min: 0, uv_max: 10 };
    assert_eq!(
        axis.clamped_high(2),
        Axis { coords_min: 0, coords_max: 2, uv_min: 0, uv_max: 6 }
    );
    assert_eq!(
        axis.clamped_low(1),
        Axis { coords_min: 1, coords_max: 3, uv_min: 4, uv_max: 10 }
    );
    assert_eq!(axis.clamped(0, 3), axis);
    assert_eq!(axis.clamped(-5, 8), axis);
}

#[test]
fn an_axis_without_extent_loses_its_texture_extent_when_cut() {
    let axis = Axis { coords_min: 5, coords_max: 5, uv_min: 10, uv_max: 20 };
    assert_eq!(
        axis.clamped_high(3),
        Axis { coords_min: 5, coords_max: 3, uv_min: 10, uv_max: 10 }
    );
    assert_eq!(
        axis.clamped_low(7),
        Axis { coords_min: 7, coords_max: 5, uv_min: 20, uv_max: 20 }
    );
}

#[test]
fn the_centre_of_a_quad_is_rounded_down_before_y_is_turned() {
    let vertex = glyph(rect(0, 0, 10, 10), rect(0, 0, 3, 3), rect(-10, -10, 10, 10));
    assert_eq!(vertex.to_vertex().1.position, Point { x: 1, y: -1 });
    let vertex = glyph(rect(0, 0, 10, 10), rect(-3, -3, 0, 0), rect(-10, -10, 10, 10));
    assert_eq!(vertex.to_vertex().1.position, Point { x: -2, y: 2 });
}

#[test]
fn font_metrics_give_height_and_offset() {
    let metrics = FontMetrics { ascent: 30, descent: -10, space_width: 8 };
    assert_eq!(metrics.height(), 40);
    assert_eq!(metrics.offset(), 10);
    let metrics = FontMetrics { ascent: 31, descent: -10, space_width: 8 };
    assert_eq!(metrics.height(), 41);
    assert_eq!(metrics.offset(), 10);
    let metrics = FontMetrics { ascent: 10, descent: -31, space_width: 8 };
    assert_eq!(metrics.offset(), -11);
    let metrics = FontMetrics { ascent: i64::MAX, descent: i64::MIN, space_width: 0 };
    assert_eq!(metrics.height(), i64::MAX);
    assert_eq!(metrics.offset(), -1);
}

#[test]
fn a_selection_quad_is_centred_on_its_glyph() {
    assert_eq!(
        selection_vertex(&cached(100, -40, 21), 7, 30, grey()),
        UiArgs {
            position: Point { x: 110, y: -33 },
            dimensions: Point { x: 21, y: 30 },
            tex_coords_bounds: rect(0, 0, TEX_COORD_ONE, TEX_COORD_ONE),
            color: grey(),
            color_bias: Color { r: 0, g: 0, b: 0, a: 0 },
        }
    );
}

#[test]
fn highlight_quads_has_one_quad_for_each_glyph_of_the_range() {
    let glyphs = vec![cached(0, 0, 10), cached(10, 0, 12), cached(22, 0, 8), cached(30, 0, 6)];
    for start in 0usize..=4 {
        for end in start..=4 {
            let quads = highlight_quads(&glyphs, start..end, 7, 30, grey());
            assert_eq!(quads.len(), end - start);
            for (k, quad) in quads.iter().enumerate() {
                assert_eq!(*quad, selection_vertex(&glyphs[start + k], 7, 30, grey()));
            }
        }
    }
}

#[test]
fn highlight_quads_of_an_inverted_range_is_empty() {
    let glyphs = vec![cached(0, 0, 10), cached(10, 0, 12), cached(22, 0, 8)];
    assert!(highlight_quads(&glyphs, 2..1, 7, 30, grey()).is_empty());
    assert!(highlight_quads(&glyphs, 3..0, 7, 30, grey()).is_empty());
    assert!(highlight_quads(&glyphs, 1..1, 7, 30, grey()).is_empty());
}

#[test]
fn highlight_quads_holds_the_range_to_the_glyphs() {
    let glyphs = vec![cached(0, 0, 10), cached(10, 0, 12), cached(22, 0, 8)];
    assert_eq!(highlight_quads(&glyphs, 1..9, 7, 30, grey()).len(), 2);
    assert!(highlight_quads(&glyphs, 5..9, 7, 30, grey()).is_empty());
    assert!(highlight_quads(&Vec::new(), 0..3, 7, 30, grey()).is_empty());
}

#[test]
fn selection_vertices_cover_the_highlighted_glyphs() {
    let text = ui_text(
        Anchor::Middle,
        vec![cached(0, -5, 10), cached(10, -5, 12), cached(22, -5, 8)],
    );
    let quads = selection_vertices(&editing(1, 1), &text, 7, 30);
    assert_eq!(quads, vec![selection_vertex(&cached(10, -5, 12), 7, 30, grey())]);
    let quads = selection_vertices(&editing(3, -3), &text, 7, 30);
    assert_eq!(quads.len(), 3);
    assert_eq!(quads[0].position, Point { x: 5, y: 2 });
    assert_eq!(quads[2].position, Point { x: 26, y: 2 });
    assert!(selection_vertices(&editing(1, 0), &text, 7, 30).is_empty());
    assert!(selection_vertices(&editing(8, 3), &text, 7, 30).is_empty());
    assert_eq!(selection_vertices(&editing(2, 30), &text, 7, 30).len(), 1);
}

#[test]
fn the_cursor_stands_at_its_glyph() {
    let text = ui_text(Anchor::Middle, vec![cached(0, -5, 10), cached(10, -5, 12)]);
    let mut glyphs = UiGlyphs::new();
    update_cursor_position(&mut glyphs, &text, &transform(), 0, 7);
    assert_eq!(glyphs.cursor_position, Point { x: 0, y: 2 });
    update_cursor_position(&mut glyphs, &text, &transform(), 1, 7);
    assert_eq!(glyphs.cursor_position, Point { x: 10, y: 2 });
}

#[test]
fn the_cursor_at_the_end_stands_after_the_last_glyph() {
    let text = ui_text(Anchor::Middle, vec![cached(0, -5, 10), cached(10, -5, 12)]);
    let mut glyphs = UiGlyphs::new();
    update_cursor_position(&mut glyphs, &text, &transform(), 2, 7);
    assert_eq!(glyphs.cursor_position, Point { x: 22, y: 2 });
    update_cursor_position(&mut glyphs, &text, &transform(), 9, 7);
    assert_eq!(glyphs.cursor_position, Point { x: 22, y: 2 });
    update_cursor_position(&mut glyphs, &text, &transform(), usize::MAX, 7);
    assert_eq!(glyphs.cursor_position, Point { x: 22, y: 2 });
}

#[test]
fn the_cursor_of_an_empty_text_stands_at_the_aligned_origin() {
    let mut glyphs = UiGlyphs::new();
    let expected = [
        (Anchor::TopLeft, Point { x: 75, y: 215 }),
        (Anchor::TopMiddle, Point { x: 100, y: 215 }),
        (Anchor::TopRight, Point { x: 125, y: 215 }),
        (Anchor::MiddleLeft, Point { x: 75, y: 200 }),
        (Anchor::Middle, Point { x: 100, y: 200 }),
        (Anchor::MiddleRight, Point { x: 125, y: 200 }),
        (Anchor::BottomLeft, Point { x: 75, y: 185 }),
        (Anchor::BottomMiddle, Point { x: 100, y: 185 }),
        (Anchor::BottomRight, Point { x: 125, y: 185 }),
    ];
    for (align, origin) in expected {
        let text = ui_text(align, Vec::new());
        update_cursor_position(&mut glyphs, &text, &transform(), 0, 7);
        assert_eq!(glyphs.cursor_position, origin);
        update_cursor_position(&mut glyphs, &text, &transform(), 3, 7);
        assert_eq!(glyphs.cursor_position, origin);
    }
}

#[test]
fn update_cursor_position_leaves_the_rest_of_the_geometry() {
    let text = ui_text(Anchor::Middle, vec![cached(0, -5, 10)]);
    let quad = selection_vertex(&cached(1, 2, 3), 4, 5, grey());
    let mut glyphs = UiGlyphs {
        vertices: vec![quad],
        selection_vertices: vec![quad, quad],
        cursor_position: Point { x: 9, y: 9 },
        height: 11,
        space_width: 12,
    };
    update_cursor_position(&mut glyphs, &text, &transform(), 1, 7);
    assert_eq!(glyphs.cursor_position, Point { x: 10, y: 2 });
    assert_eq!(glyphs.vertices, vec![quad]);
    assert_eq!(glyphs.selection_vertices, vec![quad, quad]);
    assert_eq!(glyphs.height, 11);
    assert_eq!(glyphs.space_width, 12);
}

#[test]
fn new_geometry_is_empty() {
    let glyphs = UiGlyphs::new();
    assert!(glyphs.vertices.is_empty());
    assert!(glyphs.selection_vertices.is_empty());
    assert_eq!(glyphs.cursor_position, Point { x: 0, y: 0 });
    assert_eq!(glyphs.height, 0);
    assert_eq!(glyphs.space_width, 0);
}

#[test]
fn shifted_moves_by_half_extents_rounded_down() {
    assert_eq!(shifted(100, 50, 0), 100);
    assert_eq!(shifted(100, 50, 1), 125);
    assert_eq!(shifted(100, 50, -1), 75);
    assert_eq!(shifted(100, 51, 1), 125);
    assert_eq!(shifted(100, 51, -1), 74);
    assert_eq!(shifted(i64::MAX, 50, 1), i64::MAX);
    assert_eq!(shifted(i64::MIN, i64::MAX, -1), i64::MIN);
}

#[test]
fn aligned_origin_of_a_box() {
    assert_eq!(transform().aligned_origin(Anchor::TopLeft), (75, 215));
    assert_eq!(transform().aligned_origin(Anchor::BottomRight), (125, 185));
    assert_eq!(transform().aligned_origin(Anchor::Middle), (100, 200));
}

#[test]
fn anchors_name_their_offsets_and_alignments() {
    assert_eq!(Anchor::TopLeft.normalized_offset(), (-1, 1));
    assert_eq!(Anchor::Middle.normalized_offset(), (0, 0));
    assert_eq!(Anchor::BottomMiddle.normalized_offset(), (0, -1));
    assert_eq!(Anchor::MiddleRight.normalized_offset(), (1, 0));
    assert_eq!(Anchor::TopLeft.horizontal_align(), HorizontalAlign::Left);
    assert_eq!(Anchor::BottomMiddle.horizontal_align(), HorizontalAlign::Center);
    assert_eq!(Anchor::MiddleRight.horizontal_align(), HorizontalAlign::Right);
    assert_eq!(Anchor::TopLeft.vertical_align(), VerticalAlign::Top);
    assert_eq!(Anchor::MiddleRight.vertical_align(), VerticalAlign::Center);
    assert_eq!(Anchor::BottomMiddle.vertical_align(), VerticalAlign::Bottom);
}
