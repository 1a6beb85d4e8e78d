//! One pass over the text elements: the geometry that follows from what the
//! glyph atlas reports.
//!
//! The pass queues the section of every element in the order of the list,
//! has the atlas resolve them, and hands the outcome to
//! [`UiGlyphsSystem::resolve`]. After a draw, every element takes its run
//! of the vertices: the atlas emits them in the order in which the sections
//! were queued, so the vertices of one element stand together, and a cursor
//! that runs over the flat list gives each element the vertices that carry
//! its name.

use crate::atlas::{BrushOutcome, INITIAL_CACHE_HEIGHT, INITIAL_CACHE_WIDTH};
use crate::geometry::{
    glyphs_view, selection_vertices, spec_cursor_position, spec_selection_vertices, text_origin,
    update_cursor_position, FontMetrics, GlyphsView, Point, UiArgs, UiGlyphs,
};
use crate::glyph_cache::{lemma_reconciled_len, spec_cached_glyphs, CharGlyph, SectionGlyph};
use crate::layout::{section, spec_section, Section};
use crate::text::{CachedGlyph, TextEditing, UiText, UiTransform};
use vstd::prelude::*;

verus! {

/// One text element of the pass.
#[derive(Debug)]
pub struct TextElement {
    /// The name of the element.
    pub entity: u64,
    /// Its box.
    pub transform: UiTransform,
    /// Its text.
    pub ui_text: UiText,
    /// Its cursor and selection, where it is being edited.
    pub text_editing: Option<TextEditing>,
    /// The metrics of its font at its scale, where the font is loaded.
    pub metrics: Option<FontMetrics>,
    /// Its geometry, once it has been drawn.
    pub glyphs: Option<UiGlyphs>,
}

/// The length of the run of vertices of `entity` that starts at `from`.
pub open spec fn run_len(vertices: Seq<(u64, UiArgs)>, from: int, entity: u64) -> int
    decreases vertices.len() - from,
{
    if 0 <= from < vertices.len() && vertices[from].0 == entity {
        1 + run_len(vertices, from + 1, entity)
    } else {
        0
    }
}

/// Where the run of element `index` starts: after the runs of the elements
/// before it.
pub open spec fn run_start(vertices: Seq<(u64, UiArgs)>, entities: Seq<u64>, index: int) -> int
    decreases index,
{
    if index <= 0 {
        0
    } else {
        let start = run_start(vertices, entities, index - 1);
        start + run_len(vertices, start, entities[index - 1])
    }
}

/// The quads of the vertices `from .. from + len`.
pub open spec fn run_quads(vertices: Seq<(u64, UiArgs)>, from: int, len: int) -> Seq<UiArgs> {
    Seq::new(len as nat, |k: int| vertices[from + k].1)
}

/// The quads of element `index`.
pub open spec fn element_quads(vertices: Seq<(u64, UiArgs)>, entities: Seq<u64>, index: int) -> Seq<
    UiArgs,
> {
    let start = run_start(vertices, entities, index);
    run_quads(vertices, start, run_len(vertices, start, entities[index]))
}

/// A run ends inside the list.
pub proof fn lemma_run_len_bounds(vertices: Seq<(u64, UiArgs)>, from: int, entity: u64)
    requires
        0 <= from <= vertices.len(),
    ensures
        0 <= run_len(vertices, from, entity) <= vertices.len() - from,
    decreases vertices.len() - from,
{
    if from < vertices.len() && vertices[from].0 == entity {
        lemma_run_len_bounds(vertices, from + 1, entity);
    }
}

/// Every run starts inside the list.
pub proof fn lemma_run_start_bounds(vertices: Seq<(u64, UiArgs)>, entities: Seq<u64>, index: int)
    ensures
        0 <= run_start(vertices, entities, index) <= vertices.len(),
    decreases index,
{
    if index > 0 {
        lemma_run_start_bounds(vertices, entities, index - 1);
        lemma_run_len_bounds(
            vertices,
            run_start(vertices, entities, index - 1),
            entities[index - 1],
        );
    }
}

/// Takes the run of vertices of `entity` that starts at `from`.
pub fn take_run(vertices: &Vec<(u64, UiArgs)>, from: usize, entity: u64) -> (quads: Vec<UiArgs>)
    ensures
        quads@.len() == run_len(vertices@, from as int, entity),
        quads@ == run_quads(vertices@, from as int, run_len(vertices@, from as int, entity)),
        from <= vertices@.len() ==> from + quads@.len() <= vertices@.len(),
{
    let mut quads: Vec<UiArgs> = Vec::new();
    if from >= vertices.len() {
        assert(quads@ =~= run_quads(vertices@, from as int, 0));
        return quads;
    }
    let mut i: usize = from;
    while i < vertices.len() && vertices[i].0 == entity
        invariant
            from <= i <= vertices@.len(),
            quads@.len() == i - from,
            quads@ == run_quads(vertices@, from as int, i - from),
            run_len(vertices@, from as int, entity) == (i - from) + run_len(
                vertices@,
                i as int,
                entity,
            ),
        decreases vertices@.len() - i,
    {
        quads.push(vertices[i].1);
        i += 1;
        assert(quads@ =~= run_quads(vertices@, from as int, i - from));
    }
    quads
}

/// The index of the glyph at the cursor among `count` glyphs; a cursor
/// before the text counts as one behind it.
pub fn cursor_index(cursor_position: isize, count: usize) -> (index: usize)
    ensures
        0 <= cursor_position < count ==> index == cursor_position,
        !(0 <= cursor_position < count) ==> index == count,
{
    if cursor_position < 0 || cursor_position as usize >= count {
        count
    } else {
        cursor_position as usize
    }
}

impl TextElement {
    /// The cursor and selection of an element that is being edited in a
    /// loaded font, with the metrics of the font.
    pub open spec fn editing(self) -> Option<(TextEditing, FontMetrics)> {
        match (self.text_editing, self.metrics) {
            (Some(text_editing), Some(metrics)) => Some((text_editing, metrics)),
            _ => None,
        }
    }

    /// Where the cursor of an edited element is drawn.
    pub open spec fn cursor(self, text_editing: TextEditing, metrics: FontMetrics) -> Point {
        spec_cursor_position(
            self.ui_text.cached_glyphs@,
            text_origin(self.transform, self.ui_text),
            text_editing.cursor_position as int,
            metrics.spec_offset() as i64,
        )
    }

    /// The geometry of the element after a draw that gave it the quads
    /// `run`. New geometry holds the quads and nothing else. Geometry that
    /// was there takes the quads in place of its own; where the element is
    /// being edited in a loaded font, highlight, cursor and metrics are made
    /// anew, else the highlight is empty and the rest stays.
    pub open spec fn drawn_glyphs(self, run: Seq<UiArgs>) -> GlyphsView {
        match glyphs_view(self.glyphs) {
            None => GlyphsView {
                vertices: run,
                selection_vertices: Seq::empty(),
                cursor_position: Point { x: 0, y: 0 },
                height: 0,
                space_width: 0,
            },
            Some(before) => match self.editing() {
                Some((text_editing, metrics)) => GlyphsView {
                    vertices: run,
                    selection_vertices: spec_selection_vertices(
                        text_editing,
                        self.ui_text.cached_glyphs@,
                        metrics.spec_offset() as i64,
                        metrics.spec_height() as i64,
                    ),
                    cursor_position: self.cursor(text_editing, metrics),
                    height: metrics.spec_height() as i64,
                    space_width: metrics.space_width,
                },
                None => GlyphsView { vertices: run, selection_vertices: Seq::empty(), ..before },
            },
        }
    }

    /// The geometry of the element after a redraw: the quads stay as they
    /// are; where the element has geometry and is being edited in a loaded
    /// font, cursor and metrics are made anew.
    pub open spec fn redrawn_glyphs(self) -> Option<GlyphsView> {
        match (glyphs_view(self.glyphs), self.editing()) {
            (Some(before), Some((text_editing, metrics))) => Some(
                GlyphsView {
                    cursor_position: self.cursor(text_editing, metrics),
                    height: metrics.spec_height() as i64,
                    space_width: metrics.space_width,
                    ..before
                },
            ),
            (before, _) => before,
        }
    }

    /// Whether `self` is `before` with nothing changed but the geometry.
    pub open spec fn same_element(self, before: TextElement) -> bool {
        &&& self.entity == before.entity
        &&& self.transform == before.transform
        &&& self.ui_text == before.ui_text
        &&& self.text_editing == before.text_editing
        &&& self.metrics == before.metrics
    }

    /// Whether `self` is `before` after a draw that gave it the quads `run`.
    pub open spec fn is_drawn(self, before: TextElement, run: Seq<UiArgs>) -> bool {
        &&& self.same_element(before)
        &&& glyphs_view(self.glyphs) == Some(before.drawn_glyphs(run))
    }

    /// Whether `self` is `before` after a redraw.
    pub open spec fn is_redrawn(self, before: TextElement) -> bool {
        &&& self.same_element(before)
        &&& glyphs_view(self.glyphs) == before.redrawn_glyphs()
    }

    /// Gives the element the quads of a draw and rebuilds what depends on
    /// them.
    pub fn draw(&mut self, run: Vec<UiArgs>)
        ensures
            final(self).is_drawn(*old(self), run@),
    {
        let ghost quads = run@;
        let mut glyphs = match self.glyphs.take() {
            Some(glyphs) => glyphs,
            None => {
                let mut fresh = UiGlyphs::new();
                fresh.vertices = run;
                self.glyphs = Some(fresh);
                proof {
                    let now = glyphs_view(self.glyphs).unwrap();
                    let want = old(self).drawn_glyphs(quads);
                    assert(now.vertices =~= want.vertices);
                    assert(now.selection_vertices =~= want.selection_vertices);
                    assert(now.cursor_position == want.cursor_position);
                    assert(now.height == want.height);
                    assert(now.space_width == want.space_width);
                }
                return ;
            },
        };
        glyphs.vertices = run;
        match (&self.text_editing, &self.metrics) {
            (Some(text_editing), Some(metrics)) => {
                let height = metrics.height();
                let offset = metrics.offset();
                glyphs.selection_vertices = selection_vertices(
                    text_editing,
                    &self.ui_text,
                    offset,
                    height,
                );
                glyphs.height = height;
                glyphs.space_width = metrics.space_width;
                update_cursor_position(
                    &mut glyphs,
                    &self.ui_text,
                    &self.transform,
                    cursor_index(text_editing.cursor_position, self.ui_text.cached_glyphs.len()),
                    offset,
                );
            },
            _ => {
                glyphs.selection_vertices = Vec::new();
            },
        }
        self.glyphs = Some(glyphs);
        proof {
            let now = glyphs_view(self.glyphs).unwrap();
            let want = old(self).drawn_glyphs(quads);
            assert(now.vertices =~= want.vertices);
            assert(now.selection_vertices =~= want.selection_vertices);
            assert(now.cursor_position == want.cursor_position);
            assert(now.height == want.height);
            assert(now.space_width == want.space_width);
        }
    }

    /// Rebuilds what does not depend on the quads, which stay as they are.
    pub fn redraw(&mut self)
        ensures
            final(self).is_redrawn(*old(self)),
    {
        let mut glyphs = match self.glyphs.take() {
            Some(glyphs) => glyphs,
            None => {
                return ;
            },
        };
        match (&self.text_editing, &self.metrics) {
            (Some(text_editing), Some(metrics)) => {
                let offset = metrics.offset();
                glyphs.height = metrics.height();
                glyphs.space_width = metrics.space_width;
                update_cursor_position(
                    &mut glyphs,
                    &self.ui_text,
                    &self.transform,
                    cursor_index(text_editing.cursor_position, self.ui_text.cached_glyphs.len()),
                    offset,
                );
            },
            _ => {},
        }
        self.glyphs = Some(glyphs);
        assert(old(self).redrawn_glyphs() is Some);
        proof {
            let now = glyphs_view(self.glyphs).unwrap();
            let want = old(self).redrawn_glyphs().unwrap();
            assert(now.vertices =~= want.vertices);
            assert(now.selection_vertices =~= want.selection_vertices);
            assert(now.cursor_position == want.cursor_position);
            assert(now.height == want.height);
            assert(now.space_width == want.space_width);
        }
    }
}

/// The names of the elements, in the order of the list.
pub open spec fn entities_of(elements: Seq<TextElement>) -> Seq<u64> {
    elements.map_values(|element: TextElement| element.entity)
}

/// Gives every element its run of the vertices of a draw, in the order of
/// the list, and rebuilds what depends on them.
pub fn apply_draw(elements: &mut Vec<TextElement>, vertices: &Vec<(u64, UiArgs)>)
    ensures
        final(elements)@.len() == old(elements)@.len(),
        forall|i: int|
            0 <= i < old(elements)@.len() ==> (#[trigger] final(elements)@[i]).is_drawn(
                old(elements)@[i],
                element_quads(vertices@, entities_of(old(elements)@), i),
            ),
{
    let ghost before = elements@;
    let ghost entities = entities_of(before);
    let total: usize = vertices.len();
    let mut current_glyph: usize = 0;
    let mut i: usize = 0;
    while i < elements.len()
        invariant
            i <= elements@.len(),
            elements@.len() == before.len(),
            entities == entities_of(before),
            total == vertices@.len(),
            current_glyph == run_start(vertices@, entities, i as int),
            current_glyph <= vertices@.len(),
            forall|k: int|
                0 <= k < i ==> (#[trigger] elements@[k]).is_drawn(
                    before[k],
                    element_quads(vertices@, entities, k),
                ),
            forall|k: int| i <= k < before.len() ==> elements@[k] == before[k],
        decreases elements@.len() - i,
    {
        let run = take_run(vertices, current_glyph, elements[i].entity);
        current_glyph += run.len();
        elements[i].draw(run);
        i += 1;
    }
}

/// Rebuilds for every element what does not depend on the vertices.
pub fn apply_redraw(elements: &mut Vec<TextElement>)
    ensures
        final(elements)@.len() == old(elements)@.len(),
        forall|i: int|
            0 <= i < old(elements)@.len() ==> (#[trigger] final(elements)@[i]).is_redrawn(
                old(elements)@[i],
            ),
{
    let ghost before = elements@;
    let mut i: usize = 0;
    while i < elements.len()
        invariant
            i <= elements@.len(),
            elements@.len() == before.len(),
            forall|k: int| 0 <= k < i ==> (#[trigger] elements@[k]).is_redrawn(before[k]),
            forall|k: int| i <= k < before.len() ==> elements@[k] == before[k],
        decreases elements@.len() - i,
    {
        elements[i].redraw();
        i += 1;
    }
}

impl TextElement {
    /// Whether `self` is `before` with nothing changed but the retained
    /// glyph positions, which are `cache`.
    pub open spec fn is_cached(self, before: TextElement, cache: Seq<CachedGlyph>) -> bool {
        &&& self.entity == before.entity
        &&& self.transform == before.transform
        &&& self.text_editing == before.text_editing
        &&& self.metrics == before.metrics
        &&& self.glyphs == before.glyphs
        &&& self.ui_text.text == before.ui_text.text
        &&& self.ui_text.color == before.ui_text.color
        &&& self.ui_text.password == before.ui_text.password
        &&& self.ui_text.line_mode == before.ui_text.line_mode
        &&& self.ui_text.align == before.ui_text.align
        &&& self.ui_text.cached_glyphs@ == cache
    }

    /// Starts the cycle of the element: the retained glyph positions of the
    /// cycle before are forgotten, whether or not the element is laid out.
    pub fn begin_cycle(&mut self)
        ensures
            final(self).is_cached(*old(self), Seq::empty()),
    {
        self.ui_text.clear_cached_glyphs();
        assert(self.ui_text.cached_glyphs@ =~= Seq::empty());
    }

    /// The section that the element asks the layout engine for; none where
    /// its font is not loaded, and the element sits the cycle out.
    pub fn section(&self) -> (request: Option<Section<'_>>)
        ensures
            request is Some <==> self.metrics is Some,
            request is Some ==> request.unwrap()@ == spec_section(
                self.transform,
                self.ui_text,
                self.text_editing,
            ),
    {
        if self.metrics.is_none() {
            return None;
        }
        Some(section(&self.transform, &self.ui_text, self.text_editing.as_ref()))
    }

    /// Takes in the layout of the element's section: `chars` describes the
    /// characters of the content, `glyphs` are the glyphs that were placed.
    pub fn store_layout(&mut self, chars: &Vec<CharGlyph>, glyphs: &Vec<SectionGlyph>)
        ensures
            final(self).is_cached(
                *old(self),
                spec_cached_glyphs(old(self).ui_text.password, chars@, glyphs@),
            ),
    {
        self.ui_text.update_cached_glyphs(chars, glyphs);
    }
}

/// What the pass has to do after an outcome has been taken in.
#[derive(Clone, Copy, Debug, PartialEq, Eq, Structural, Hash)]
pub enum Resolution {
    /// The geometry of all elements was rebuilt from new vertices.
    Drawn,
    /// Cursor and metrics were rebuilt; the vertices stand.
    Redrawn,
    /// The atlas needs a texture of this size, and the sections have to be
    /// resolved again.
    Resize { width: u32, height: u32 },
}

/// The state of the pass between cycles: the size of the atlas texture.
#[derive(Debug)]
pub struct UiGlyphsSystem {
    width: u32,
    height: u32,
}

/// A pass whose atlas texture has the initial size.
pub fn build_ui_glyphs_system() -> (system: UiGlyphsSystem)
    ensures
        system.spec_texture_dimensions() == (INITIAL_CACHE_WIDTH, INITIAL_CACHE_HEIGHT),
{
    UiGlyphsSystem { width: INITIAL_CACHE_WIDTH, height: INITIAL_CACHE_HEIGHT }
}

impl UiGlyphsSystem {
    /// The size of the atlas texture.
    pub closed spec fn spec_texture_dimensions(&self) -> (u32, u32) {
        (self.width, self.height)
    }

    /// The size of the atlas texture.
    pub fn texture_dimensions(&self) -> (dimensions: (u32, u32))
        ensures
            dimensions == self.spec_texture_dimensions(),
    {
        (self.width, self.height)
    }

    /// Takes in what the atlas reported. After a draw, every element has
    /// its run of the new vertices and what depends on them; after a
    /// redraw, the vertices stand and cursor and metrics are rebuilt; where
    /// the texture was too small, nothing changes but the size of the
    /// texture, which is the suggested one, and the pass has to resolve
    /// again.
    pub fn resolve(&mut self, elements: &mut Vec<TextElement>, outcome: BrushOutcome) -> (resolution:
        Resolution)
        ensures
            final(elements)@.len() == old(elements)@.len(),
            match outcome {
                BrushOutcome::Draw(vertices) => {
                    &&& resolution == Resolution::Drawn
                    &&& final(self).spec_texture_dimensions() == old(self).spec_texture_dimensions()
                    &&& forall|i: int|
                        0 <= i < old(elements)@.len() ==> (#[trigger] final(elements)@[i]).is_drawn(
                            old(elements)@[i],
                            element_quads(vertices@, entities_of(old(elements)@), i),
                        )
                },
                BrushOutcome::ReDraw => {
                    &&& resolution == Resolution::Redrawn
                    &&& final(self).spec_texture_dimensions() == old(self).spec_texture_dimensions()
                    &&& forall|i: int|
                        0 <= i < old(elements)@.len() ==> (#[trigger] final(elements)@[i]).is_redrawn(
                            old(elements)@[i],
                        )
                },
                BrushOutcome::TextureTooSmall { suggested } => {
                    &&& resolution == (Resolution::Resize { width: suggested.0, height: suggested.1 })
                    &&& final(self).spec_texture_dimensions() == suggested
                    &&& final(elements)@ == old(elements)@
                },
            },
    {
        match outcome {
            BrushOutcome::Draw(vertices) => {
                apply_draw(elements, &vertices);
                Resolution::Drawn
            },
            BrushOutcome::ReDraw => {
                apply_redraw(elements);
                Resolution::Redrawn
            },
            BrushOutcome::TextureTooSmall { suggested } => {
                self.width = suggested.0;
                self.height = suggested.1;
                Resolution::Resize { width: suggested.0, height: suggested.1 }
            },
        }
    }
}

/// Two layouts of one element from the same characters and the same placed
/// glyphs leave the same glyph positions, and the same element.
pub proof fn lemma_store_layout_deterministic(
    before: TextElement,
    first: TextElement,
    second: TextElement,
    chars: Seq<CharGlyph>,
    glyphs: Seq<SectionGlyph>,
)
    requires
        first.is_cached(before, spec_cached_glyphs(before.ui_text.password, chars, glyphs)),
        second.is_cached(before, spec_cached_glyphs(before.ui_text.password, chars, glyphs)),
    ensures
        first.ui_text.cached_glyphs@ == second.ui_text.cached_glyphs@,
        first.ui_text.cached_glyphs@.len() == if before.ui_text.password {
            glyphs.len()
        } else {
            chars.len()
        },
        second.is_cached(first, first.ui_text.cached_glyphs@),
{
    lemma_reconciled_len(chars, glyphs, chars.len() as int);
}

/// A redraw leaves the quads of an element as they are, those of the
/// glyphs and those of the highlight.
pub proof fn lemma_redraw_keeps_vertices(before: TextElement, after: TextElement)
    requires
        after.is_redrawn(before),
    ensures
        after.glyphs is Some <==> before.glyphs is Some,
        after.glyphs is Some ==> {
            &&& after.glyphs.unwrap()@.vertices == before.glyphs.unwrap()@.vertices
            &&& after.glyphs.unwrap()@.selection_vertices
                == before.glyphs.unwrap()@.selection_vertices
        },
{
}

/// A second redraw changes nothing that the first has left.
pub proof fn lemma_redraw_idempotent(before: TextElement, once: TextElement, twice: TextElement)
    requires
        once.is_redrawn(before),
        twice.is_redrawn(once),
    ensures
        glyphs_view(twice.glyphs) == glyphs_view(once.glyphs),
        twice.same_element(before),
{
}

/// After a draw, the quads of the glyphs of an element are its run of the
/// vertices, and they are still that after any redraw.
pub proof fn lemma_redraw_after_draw(
    before: TextElement,
    drawn: TextElement,
    redrawn: TextElement,
    run: Seq<UiArgs>,
)
    requires
        drawn.is_drawn(before, run),
        redrawn.is_redrawn(drawn),
    ensures
        drawn.glyphs is Some && drawn.glyphs.unwrap()@.vertices == run,
        redrawn.glyphs is Some && redrawn.glyphs.unwrap()@.vertices == run,
        redrawn.glyphs.unwrap()@.selection_vertices == drawn.glyphs.unwrap()@.selection_vertices,
{
}

/// The runs of the elements follow one another in the list of vertices:
/// each starts where the one before it ends, and all lie inside the list.
pub proof fn lemma_runs_in_order(vertices: Seq<(u64, UiArgs)>, entities: Seq<u64>, index: int)
    requires
        0 <= index < entities.len(),
    ensures
        0 <= run_start(vertices, entities, index) <= run_start(vertices, entities, index + 1)
            <= vertices.len(),
        run_start(vertices, entities, index + 1) == run_start(vertices, entities, index)
            + element_quads(vertices, entities, index).len(),
        forall|k: int|
            0 <= k < element_quads(vertices, entities, index).len() ==> (#[trigger] element_quads(
                vertices,
                entities,
                index,
            )[k]) == vertices[run_start(vertices, entities, index) + k].1 && vertices[run_start(
                vertices,
                entities,
                index,
            ) + k].0 == entities[index],
{
    let start = run_start(vertices, entities, index);
    lemma_run_start_bounds(vertices, entities, index);
    lemma_run_len_bounds(vertices, start, entities[index]);
    lemma_run_start_bounds(vertices, entities, index + 1);
    assert forall|k: int| 0 <= k < element_quads(vertices, entities, index).len() implies (
    #[trigger] element_quads(vertices, entities, index)[k]) == vertices[start + k].1
        && vertices[start + k].0 == entities[index] by {
        lemma_run_members(vertices, start, entities[index], k);
    }
}

/// Every vertex of a run carries the name of its element.
proof fn lemma_run_members(vertices: Seq<(u64, UiArgs)>, from: int, entity: u64, k: int)
    requires
        0 <= from,
        0 <= k < run_len(vertices, from, entity),
    ensures
        vertices[from + k].0 == entity,
    decreases k,
{
    if k > 0 {
        lemma_run_members(vertices, from + 1, entity, k - 1);
    }
}

} // verus!
