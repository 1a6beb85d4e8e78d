use ui_glyphs::geometry::{
    selection_vertex, FontMetrics, Point, Rect, UiArgs, UiGlyphs,
};
use ui_glyphs::glyph_cache::{CharGlyph, SectionGlyph};
use ui_glyphs::layout::Layout;
use ui_glyphs::atlas::{
    create_glyph_texture, BrushOutcome, Component, GlyphTexture, Swizzle, UiGlyphsResource,
    INITIAL_CACHE_HEIGHT, INITIAL_CACHE_WIDTH,
};
use ui_glyphs::pass::{
    apply_draw, apply_redraw, build_ui_glyphs_system, cursor_index, take_run, Resolution,
    TextElement,
};
use ui_glyphs::text::{
    Anchor, CachedGlyph, Color, CustomLineBreaker, HorizontalAlign, LineMode, TextEditing, UiText,
    UiTransform, VerticalAlign, COMPONENT_ONE,
};

fn black() -> Color {
    Color { r: 0, g: 0, b: 0, a: COMPONENT_ONE }
}

fn white() -> Color {
    Color { r: COMPONENT_ONE, g: COMPONENT_ONE, b: COMPONENT_ONE, a: COMPONENT_ONE }
}

fn grey() -> Color {
    Color { r: 5, g: 6, b: 7, a: 8 }
}

fn quad(tag: i64) -> UiArgs {
    UiArgs {
        position: Point { x: tag, y: -tag },
        dimensions: Point { x: 10, y: 20 },
        tex_coords_bounds: Rect { min: Point { x: 0, y: 0 }, max: Point { x: tag, y: tag } },
        color: black(),
        color_bias: Color { r: COMPONENT_ONE, g: COMPONENT_ONE, b: COMPONENT_ONE, a: 0 },
    }
}

fn cached(x: i64, y: i64, advance_width: i64) -> CachedGlyph {
    CachedGlyph { x, y, advance_width }
}

fn editing(cursor_position: isize, highlight_vector: isize) -> TextEditing {
    TextEditing {
        cursor_position,
        highlight_vector,
        selected_text_color: white(),
        selected_background_color: grey(),
    }
}

fn metrics() -> FontMetrics {
    FontMetrics { ascent: 30, descent: -10, space_width: 8 }
}

fn element(entity: u64, text: &str) -> TextElement {
    TextElement {
        entity,
        transform: UiTransform { pixel_x: 100, pixel_y: 200, pixel_width: 50, pixel_height: 30 },
        ui_text: UiText {
            text: String::from(text),
            color: black(),
            password: false,
            line_mode: LineMode::Single,
            align: Anchor::TopLeft,
            cached_glyphs: vec![cached(0, -5, 10), cached(10, -5, 12)],
        },
        text_editing: None,
        metrics: Some(metrics()),
        glyphs: None,
    }
}

fn stale_glyphs() -> UiGlyphs {
    UiGlyphs {
        vertices: vec![quad(90), quad(91)],
        selection_vertices: vec![quad(92)],
        cursor_position: Point { x: 7, y: 8 },
        height: 9,
        space_width: 10,
    }
}

#[test]
fn take_run_takes_the_vertices_of_one_element() {
    let vertices = vec![(1, quad(1)), (1, quad(2)), (2, quad(3)), (1, quad(4))];
    assert_eq!(take_run(&vertices, 0, 1), vec![quad(1), quad(2)]);
    assert_eq!(take_run(&vertices, 1, 1), vec![quad(2)]);
    assert_eq!(take_run(&vertices, 2, 2), vec![quad(3)]);
    assert_eq!(take_run(&vertices, 3, 1), vec![quad(4)]);
    assert!(take_run(&vertices, 0, 2).is_empty());
    assert!(take_run(&vertices, 4, 1).is_empty());
    assert!(take_run(&vertices, 9, 1).is_empty());
    assert!(take_run(&Vec::new(), 0, 1).is_empty());
}

#[test]
fn cursor_index_holds_the_cursor_to_the_glyphs() {
    assert_eq!(cursor_index(0, 3), 0);
    assert_eq!(cursor_index(2, 3), 2);
    assert_eq!(cursor_index(3, 3), 3);
    assert_eq!(cursor_index(9, 3), 3);
    assert_eq!(cursor_index(-1, 3), 3);
    assert_eq!(cursor_index(0, 0), 0);
}

#[test]
fn a_draw_gives_each_element_its_run_in_the_order_of_the_list() {
    let mut elements = vec![element(1, "ab"), element(2, "c"), element(3, "def")];
    let vertices = vec![
        (1, quad(1)),
        (1, quad(2)),
        (2, quad(3)),
        (3, quad(4)),
        (3, quad(5)),
        (3, quad(6)),
    ];
    apply_draw(&mut elements, &vertices);
    assert_eq!(elements[0].glyphs.as_ref().unwrap().vertices, vec![quad(1), quad(2)]);
    assert_eq!(elements[1].glyphs.as_ref().unwrap().vertices, vec![quad(3)]);
    assert_eq!(elements[2].glyphs.as_ref().unwrap().vertices, vec![quad(4), quad(5), quad(6)]);
}

#[test]
fn an_element_without_vertices_gets_none() {
    let mut elements = vec![element(1, "ab"), element(2, " "), element(3, "d")];
    let vertices = vec![(1, quad(1)), (1, quad(2)), (3, quad(4))];
    apply_draw(&mut elements, &vertices);
    assert_eq!(elements[0].glyphs.as_ref().unwrap().vertices, vec![quad(1), quad(2)]);
    assert!(elements[1].glyphs.as_ref().unwrap().vertices.is_empty());
    assert_eq!(elements[2].glyphs.as_ref().unwrap().vertices, vec![quad(4)]);
}

#[test]
fn vertices_out_of_the_order_of_the_list_stay_behind() {
    let mut elements = vec![element(1, "a"), element(2, "b")];
    let vertices = vec![(2, quad(3)), (1, quad(1))];
    apply_draw(&mut elements, &vertices);
    assert!(elements[0].glyphs.as_ref().unwrap().vertices.is_empty());
    assert_eq!(elements[1].glyphs.as_ref().unwrap().vertices, vec![quad(3)]);
}

#[test]
fn a_draw_makes_new_geometry_with_the_vertices_alone() {
    let mut first = element(1, "ab");
    first.text_editing = Some(editing(1, 1));
    first.draw(vec![quad(1)]);
    let glyphs = first.glyphs.unwrap();
    assert_eq!(glyphs.vertices, vec![quad(1)]);
    assert!(glyphs.selection_vertices.is_empty());
    assert_eq!(glyphs.cursor_position, Point { x: 0, y: 0 });
    assert_eq!(glyphs.height, 0);
    assert_eq!(glyphs.space_width, 0);
}

#[test]
fn a_draw_of_an_edited_element_rebuilds_highlight_cursor_and_metrics() {
    let mut first = element(1, "ab");
    first.text_editing = Some(editing(1, 1));
    first.glyphs = Some(stale_glyphs());
    first.draw(vec![quad(1)]);
    let glyphs = first.glyphs.unwrap();
    assert_eq!(glyphs.vertices, vec![quad(1)]);
    assert_eq!(
        glyphs.selection_vertices,
        vec![selection_vertex(&cached(10, -5, 12), 10, 40, grey())]
    );
    assert_eq!(glyphs.selection_vertices[0].position, Point { x: 16, y: 5 });
    assert_eq!(glyphs.selection_vertices[0].dimensions, Point { x: 12, y: 40 });
    assert_eq!(glyphs.cursor_position, Point { x: 10, y: 5 });
    assert_eq!(glyphs.height, 40);
    assert_eq!(glyphs.space_width, 8);
}

#[test]
fn a_draw_of_an_element_that_is_not_edited_empties_the_highlight() {
    let mut first = element(1, "ab");
    first.glyphs = Some(stale_glyphs());
    first.draw(vec![quad(1)]);
    let glyphs = first.glyphs.unwrap();
    assert_eq!(glyphs.vertices, vec![quad(1)]);
    assert!(glyphs.selection_vertices.is_empty());
    assert_eq!(glyphs.cursor_position, Point { x: 7, y: 8 });
    assert_eq!(glyphs.height, 9);
    assert_eq!(glyphs.space_width, 10);
}

#[test]
fn a_draw_without_the_font_leaves_cursor_and_metrics() {
    let mut first = element(1, "ab");
    first.text_editing = Some(editing(1, 1));
    first.metrics = None;
    first.glyphs = Some(stale_glyphs());
    first.draw(Vec::new());
    let glyphs = first.glyphs.unwrap();
    assert!(glyphs.vertices.is_empty());
    assert!(glyphs.selection_vertices.is_empty());
    assert_eq!(glyphs.cursor_position, Point { x: 7, y: 8 });
    assert_eq!(glyphs.height, 9);
}

#[test]
fn a_redraw_leaves_the_vertices_and_moves_the_cursor() {
    let mut first = element(1, "ab");
    first.text_editing = Some(editing(2, 0));
    first.glyphs = Some(stale_glyphs());
    first.redraw();
    let glyphs = first.glyphs.as_ref().unwrap();
    assert_eq!(glyphs.vertices, vec![quad(90), quad(91)]);
    assert_eq!(glyphs.selection_vertices, vec![quad(92)]);
    assert_eq!(glyphs.cursor_position, Point { x: 22, y: 5 });
    assert_eq!(glyphs.height, 40);
    assert_eq!(glyphs.space_width, 8);
    first.redraw();
    let again = first.glyphs.as_ref().unwrap();
    assert_eq!(again.vertices, vec![quad(90), quad(91)]);
    assert_eq!(again.selection_vertices, vec![quad(92)]);
    assert_eq!(again.cursor_position, Point { x: 22, y: 5 });
    assert_eq!(again.height, 40);
    assert_eq!(again.space_width, 8);
}

#[test]
fn a_redraw_of_an_element_that_is_not_edited_changes_nothing() {
    let mut first = element(1, "ab");
    first.glyphs = Some(stale_glyphs());
    first.redraw();
    let glyphs = first.glyphs.as_ref().unwrap();
    assert_eq!(glyphs.vertices, vec![quad(90), quad(91)]);
    assert_eq!(glyphs.selection_vertices, vec![quad(92)]);
    assert_eq!(glyphs.cursor_position, Point { x: 7, y: 8 });
    assert_eq!(glyphs.height, 9);
    let mut second = element(2, "ab");
    second.text_editing = Some(editing(1, 1));
    second.redraw();
    assert!(second.glyphs.is_none());
}

#[test]
fn redraws_after_a_draw_keep_the_vertices_of_the_draw() {
    let mut elements = vec![element(1, "ab"), element(2, "c")];
    elements[0].text_editing = Some(editing(0, 2));
    let vertices = vec![(1, quad(1)), (1, quad(2)), (2, quad(3))];
    apply_draw(&mut elements, &vertices);
    apply_redraw(&mut elements);
    apply_redraw(&mut elements);
    assert_eq!(elements[0].glyphs.as_ref().unwrap().vertices, vec![quad(1), quad(2)]);
    assert_eq!(elements[1].glyphs.as_ref().unwrap().vertices, vec![quad(3)]);
    assert_eq!(elements[0].glyphs.as_ref().unwrap().cursor_position, Point { x: 0, y: 5 });
}

#[test]
fn the_pass_starts_with_the_initial_texture_size() {
    let system = build_ui_glyphs_system();
    assert_eq!(system.texture_dimensions(), (512, 512));
    assert_eq!((INITIAL_CACHE_WIDTH, INITIAL_CACHE_HEIGHT), (512, 512));
}

#[test]
fn resolve_after_a_draw_rebuilds_the_geometry() {
    let mut system = build_ui_glyphs_system();
    let mut elements = vec![element(1, "ab"), element(2, "c")];
    let outcome = BrushOutcome::Draw(vec![(1, quad(1)), (2, quad(2)), (2, quad(3))]);
    assert_eq!(system.resolve(&mut elements, outcome), Resolution::Drawn);
    assert_eq!(system.texture_dimensions(), (512, 512));
    assert_eq!(elements[0].glyphs.as_ref().unwrap().vertices, vec![quad(1)]);
    assert_eq!(elements[1].glyphs.as_ref().unwrap().vertices, vec![quad(2), quad(3)]);
}

#[test]
fn resolve_after_a_redraw_leaves_the_vertices() {
    let mut system = build_ui_glyphs_system();
    let mut elements = vec![element(1, "ab")];
    elements[0].glyphs = Some(stale_glyphs());
    elements[0].text_editing = Some(editing(0, 0));
    assert_eq!(system.resolve(&mut elements, BrushOutcome::ReDraw), Resolution::Redrawn);
    assert_eq!(system.texture_dimensions(), (512, 512));
    let glyphs = elements[0].glyphs.as_ref().unwrap();
    assert_eq!(glyphs.vertices, vec![quad(90), quad(91)]);
    assert_eq!(glyphs.cursor_position, Point { x: 0, y: 5 });
}

#[test]
fn resolve_of_a_texture_that_is_too_small_asks_for_the_suggested_size() {
    let mut system = build_ui_glyphs_system();
    let mut elements = vec![element(1, "ab")];
    elements[0].glyphs = Some(stale_glyphs());
    let outcome = BrushOutcome::TextureTooSmall { suggested: (1024, 2048) };
    assert_eq!(
        system.resolve(&mut elements, outcome),
        Resolution::Resize { width: 1024, height: 2048 }
    );
    assert_eq!(system.texture_dimensions(), (1024, 2048));
    let glyphs = elements[0].glyphs.as_ref().unwrap();
    assert_eq!(glyphs.vertices, vec![quad(90), quad(91)]);
    assert_eq!(glyphs.selection_vertices, vec![quad(92)]);
    let outcome = BrushOutcome::TextureTooSmall { suggested: (4096, 4096) };
    assert_eq!(
        system.resolve(&mut elements, outcome),
        Resolution::Resize { width: 4096, height: 4096 }
    );
    assert_eq!(system.texture_dimensions(), (4096, 4096));
}

#[test]
fn begin_cycle_forgets_the_glyph_cache() {
    let mut first = element(1, "ab");
    first.glyphs = Some(stale_glyphs());
    first.begin_cycle();
    assert!(first.ui_text.cached_glyphs.is_empty());
    assert_eq!(first.ui_text.text, "ab");
    assert_eq!(first.glyphs.as_ref().unwrap().vertices, vec![quad(90), quad(91)]);
}

#[test]
fn an_element_without_its_font_asks_for_no_section() {
    let mut first = element(1, "ab");
    first.metrics = None;
    assert!(first.section().is_none());
}

#[test]
fn the_section_of_an_element() {
    let mut first = element(1, "AB");
    first.text_editing = Some(editing(1, 1));
    let section = first.section().unwrap();
    assert_eq!(section.screen_position, Point { x: 75, y: -215 });
    assert_eq!(section.bounds, Point { x: 50, y: 30 });
    assert_eq!(
        section.layout,
        Layout::SingleLine {
            line_breaker: CustomLineBreaker::NoBreaks,
            h_align: HorizontalAlign::Left,
            v_align: VerticalAlign::Top,
        }
    );
    let runs: Vec<(&str, Color)> = section.text.iter().map(|run| (run.text, run.color)).collect();
    assert_eq!(runs, vec![("A", black()), ("B", white()), ("", black())]);
}

#[test]
fn two_letters_with_the_second_selected_through_a_whole_cycle() {
    let mut system = build_ui_glyphs_system();
    let mut elements = vec![element(1, "AB")];
    elements[0].text_editing = Some(editing(1, 1));
    elements[0].glyphs = Some(UiGlyphs::new());
    elements[0].begin_cycle();
    let runs: Vec<(String, Color)> = elements[0]
        .section()
        .unwrap()
        .text
        .iter()
        .map(|run| (String::from(run.text), run.color))
        .collect();
    assert_eq!(
        runs,
        vec![
            (String::from("A"), black()),
            (String::from("B"), white()),
            (String::new(), black())
        ]
    );
    let chars = vec![
        CharGlyph { id: 36, advance_width: 14 },
        CharGlyph { id: 37, advance_width: 13 },
    ];
    let placed = vec![
        SectionGlyph { id: 36, x: 75, y: -215, advance_width: 14 },
        SectionGlyph { id: 37, x: 89, y: -215, advance_width: 13 },
    ];
    elements[0].store_layout(&chars, &placed);
    assert_eq!(elements[0].ui_text.cached_glyphs, vec![cached(75, 215, 14), cached(89, 215, 13)]);
    let outcome = BrushOutcome::Draw(vec![(1, quad(1)), (1, quad(2))]);
    assert_eq!(system.resolve(&mut elements, outcome), Resolution::Drawn);
    let glyphs = elements[0].glyphs.as_ref().unwrap();
    assert_eq!(glyphs.vertices, vec![quad(1), quad(2)]);
    assert_eq!(
        glyphs.selection_vertices,
        vec![selection_vertex(&cached(89, 215, 13), 10, 40, grey())]
    );
    assert_eq!(glyphs.cursor_position, Point { x: 89, y: 225 });
}

#[test]
fn a_wrapped_text_breaks_by_the_unicode_rules() {
    let mut first = element(1, "ab");
    first.ui_text.line_mode = LineMode::Wrap;
    first.ui_text.align = Anchor::BottomRight;
    assert_eq!(
        first.section().unwrap().layout,
        Layout::Wrap {
            line_breaker: CustomLineBreaker::BuiltIn,
            h_align: HorizontalAlign::Right,
            v_align: VerticalAlign::Bottom,
        }
    );
}

#[test]
fn the_resource_holds_the_texture_once_it_is_set() {
    let mut resource = UiGlyphsResource::new();
    assert_eq!(resource.glyph_texture(), None);
    resource.set_glyph_texture(7);
    assert_eq!(resource.glyph_texture(), Some(&7));
    resource.set_glyph_texture(9);
    assert_eq!(resource.glyph_texture(), Some(&9));
}

#[test]
fn the_glyph_texture_has_one_byte_for_each_texel() {
    assert_eq!(
        create_glyph_texture(512, 256),
        GlyphTexture {
            width: 512,
            height: 256,
            data_len: 131072,
            swizzle: Swizzle {
                r: Component::Zero,
                g: Component::Zero,
                b: Component::Zero,
                a: Component::R
            },
        }
    );
    assert_eq!(create_glyph_texture(u32::MAX, u32::MAX).data_len, 18446744065119617025);
    assert_eq!(create_glyph_texture(0, 9).data_len, 0);
}
