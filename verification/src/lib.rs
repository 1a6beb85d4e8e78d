//! Incremental text layout for the text elements of a user interface.
//!
//! A text element has content, colours, a box, and perhaps a cursor with a
//! selection or a password mask. Once per cycle a pass turns every element
//! into coloured runs for a layout engine, reconciles the glyphs that the
//! engine placed with the glyph positions that the element retains, and
//! derives the quads that draw glyphs, selection highlight and cursor from
//! what the glyph atlas reports.
//!
//! Layout engine, glyph atlas, fonts and textures stay outside: the library
//! takes what they return as plain values and says what follows from them.
//! Coordinates are integers in a unit that the caller chooses, a fraction of
//! a pixel or of the texture side; colours are carried as bit patterns.
//!
//! - [`grapheme`]: where the graphemes of a text start.
//! - [`mask`]: the mask of a password.
//! - [`runs`]: the selection as a range, and the coloured runs of a text.
//! - [`layout`]: the request that an element makes of the layout engine.
//! - [`glyph_cache`]: the retained glyph positions of an element.
//! - [`geometry`]: the quads of glyphs and highlight, and the cursor.
//! - [`atlas`]: the texture of the glyph atlas and what the atlas reports.
//! - [`pass`]: the elements of a cycle and what an outcome of the atlas
//!   means for them.
//! - [`selection`]: which elements are selected.
//! - [`text`] and [`units`]: the data of an element, and arithmetic on
//!   coordinates.

pub mod atlas;
pub mod geometry;
pub mod glyph_cache;
pub mod grapheme;
pub mod layout;
pub mod mask;
pub mod pass;
pub mod runs;
pub mod selection;
pub mod text;
pub mod units;
