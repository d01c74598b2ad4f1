//! Glyph rasterization and glyph-run layout for antialiased text rendering.
//!
//! Glyphs are rasterized with FreeType, packed into 4-byte-aligned coverage
//! rows, and collected into a glyph cache keyed by character code. The cache
//! and the layout of a glyph run are plain values that a rendering backend
//! uploads and composites; the decisions of the drawing loop are made here
//! too.
mod cache;
mod events;
mod font;
mod glyph;
mod layout;
mod packing;

pub use cache::{
    ascii_ids, build_glyph_cache, cache_from_face, char_height_26_6, lemma_ascii_range_complete, rasterize_glyph,
    rasterize_index,
    GlyphCache, GlyphEntry, END_CODE, FIRST_CODE, RESOLUTION_DPI,
};
pub use events::{is_close_request, next_action, LoopAction, WindowEvent};
pub use glyph::{
    empty_info, glyph_from_bitmap, info_of, lemma_glyph_determined, metrics_fit, pixels_from_26_6, pixels_of,
    Glyph, GlyphError, GlyphInfo,
};
pub use layout::{
    advances_x, advances_y, layout_run, lemma_pen_advances, pen_at, run_is_cached, sum_prefix,
    MAX_RUN,
};
pub use packing::{lemma_stride_alignment, pack_rows, packed_byte, packed_seq, stride, stride_of};
