use vstd::prelude::*;

use freetype::face::LoadFlag;
use freetype::{Bitmap, Error, Face, GlyphSlot, Library};

verus! {

#[verifier::external_type_specification]
#[verifier::external_body]
pub struct ExLibrary(Library);

#[verifier::external_type_specification]
#[verifier::external_body]
#[verifier::reject_recursive_types(BYTES)]
pub struct ExFace<BYTES>(Face<BYTES>);

#[verifier::external_type_specification]
#[verifier::external_body]
pub struct ExGlyphSlot(GlyphSlot);

#[verifier::external_type_specification]
#[verifier::external_body]
pub struct ExBitmap(Bitmap);

#[verifier::external_type_specification]
#[verifier::external_body]
pub struct ExError(Error);

/// Relies on `Face::get_char_index`: `None` when the character map has no
/// glyph for the code, otherwise a glyph index other than zero.
pub assume_specification<BYTES>[ Face::<BYTES>::get_char_index ](
    face: &Face<BYTES>,
    charcode: usize,
) -> (r: Option<u32>)
    ensures
        r matches Some(index) ==> index != 0,
;

/// Relies on `Face::set_char_size`, which hands the nominal size in 26.6
/// points and the resolution in dots per inch to the font engine.
pub assume_specification<BYTES>[ Face::<BYTES>::set_char_size ](
    face: &Face<BYTES>,
    char_width: isize,
    char_height: isize,
    horz_resolution: u32,
    vert_resolution: u32,
) -> Result<(), Error>;

/// Relies on `Face::glyph`: the slot that the last loaded glyph was put in.
pub assume_specification<BYTES>[ Face::<BYTES>::glyph ](face: &Face<BYTES>) -> &GlyphSlot;

/// Relies on `GlyphSlot::bitmap`: the slot's rendered bitmap.
pub assume_specification[ GlyphSlot::bitmap ](slot: &GlyphSlot) -> Bitmap;

/// Relies on `GlyphSlot::bitmap_left`: the left bearing in whole pixels.
pub assume_specification[ GlyphSlot::bitmap_left ](slot: &GlyphSlot) -> i32;

/// Relies on `GlyphSlot::bitmap_top`: the top bearing in whole pixels.
pub assume_specification[ GlyphSlot::bitmap_top ](slot: &GlyphSlot) -> i32;

/// Relies on `Bitmap::width`: the number of pixels in a row.
pub assume_specification[ Bitmap::width ](bitmap: &Bitmap) -> i32;

/// Relies on `Bitmap::rows`: the number of rows.
pub assume_specification[ Bitmap::rows ](bitmap: &Bitmap) -> i32;

/// Relies on `Bitmap::pitch`: the number of bytes from one row to the next.
pub assume_specification[ Bitmap::pitch ](bitmap: &Bitmap) -> i32;

/// Relies on `Bitmap::buffer`: the bitmap's bytes, row after row.
pub assume_specification[ Bitmap::buffer ](bitmap: &Bitmap) -> &[u8];

/// Relies on `Library::new_memory_face`: opens the first face held in the
/// font bytes.
#[verifier::external_body]
pub(crate) fn open_memory_face(library: &Library, font: Vec<u8>) -> Result<Face, Error> {
    library.new_memory_face(font, 0)
}

/// Relies on `Face::load_glyph`, asked to render the glyph to an 8-bit
/// coverage bitmap with the automatic hinter.
#[verifier::external_body]
pub(crate) fn load_rendered_glyph(face: &Face, glyph_index: u32) -> Result<(), Error> {
    face.load_glyph(glyph_index, LoadFlag::RENDER.union(LoadFlag::FORCE_AUTOHINT))
}

/// Relies on `GlyphSlot::advance`: the pen movement in 26.6 fixed point, as
/// its horizontal and vertical parts.
#[verifier::external_body]
pub(crate) fn slot_advance(slot: &GlyphSlot) -> (i64, i64) {
    let v = slot.advance();
    (v.x as i64, v.y as i64)
}

} // verus!
