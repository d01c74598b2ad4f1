use vstd::prelude::*;

use crate::packing::{pack_rows, packed_seq, stride_of};

verus! {

/// Placement and advance of one glyph, in the layout a glyph upload takes:
/// `x`/`y` locate the glyph origin inside its bitmap, `x_off`/`y_off` move
/// the pen after the glyph is drawn.
#[derive(Clone, Copy, Debug, PartialEq, Eq, Structural)]
pub struct GlyphInfo {
    pub x: i16,
    pub y: i16,
    pub width: u16,
    pub height: u16,
    pub x_off: i16,
    pub y_off: i16,
}

/// A rasterized glyph: its metrics and its packed 8-bit coverage rows.
#[derive(Debug)]
pub struct Glyph {
    pub info: GlyphInfo,
    pub data: Vec<u8>,
}

/// Why a font or a glyph could not be turned into coverage data.
#[derive(Clone, Copy, Debug, PartialEq, Eq, Structural)]
pub enum GlyphError {
    /// The font bytes could not be opened as a face.
    FontData,
    /// The face rejected the requested character size.
    CharSize,
    /// The font engine could not load or render a glyph.
    GlyphLoad,
    /// The rendered bitmap's dimensions do not describe its buffer, or its
    /// size, origin or advance does not fit a glyph record.
    MalformedBitmap,
}

/// A 26.6 fixed-point distance in whole pixels, the fraction truncated
/// toward zero.
pub open spec fn pixels_of(v: int) -> int {
    if v >= 0 {
        v / 64
    } else {
        -((-v) / 64)
    }
}

/// Metrics of a rendered glyph: the origin is the negated left bearing and
/// the top bearing, the advance is taken to whole pixels. Where
/// `metrics_fit` holds, each value is stored exactly.
pub open spec fn info_of(left: i32, top: i32, width: u16, rows: u16, advance_x: i64, advance_y: i64) -> GlyphInfo {
    GlyphInfo {
        x: (-(left as int)) as i16,
        y: top as i16,
        width: width,
        height: rows,
        x_off: pixels_of(advance_x as int) as i16,
        y_off: pixels_of(advance_y as int) as i16,
    }
}

/// Whether the origin and the whole-pixel advance of a rendered glyph fit the
/// 16-bit fields of a glyph record.
pub open spec fn metrics_fit(left: i32, top: i32, advance_x: i64, advance_y: i64) -> bool {
    &&& i16::MIN <= -(left as int) <= i16::MAX
    &&& i16::MIN <= top <= i16::MAX
    &&& i16::MIN <= pixels_of(advance_x as int) <= i16::MAX
    &&& i16::MIN <= pixels_of(advance_y as int) <= i16::MAX
}

/// The metrics of a glyph with nothing to draw and no advance.
pub open spec fn empty_info() -> GlyphInfo {
    GlyphInfo { x: 0, y: 0, width: 0, height: 0, x_off: 0, y_off: 0 }
}

/// A bitmap whose `rows` rows of `width` bytes, starting every `pitch` bytes,
/// lie inside a buffer of `len` bytes, with dimensions a glyph record holds.
pub open spec fn bitmap_fits(width: int, rows: int, pitch: int, len: nat) -> bool {
    &&& 0 <= width <= 0xffff
    &&& 0 <= rows <= 0xffff
    &&& width <= pitch
    &&& rows * pitch <= len
}

impl Glyph {
    /// The packed buffer holds exactly one padded row per bitmap row.
    pub open spec fn wf(&self) -> bool {
        self.data@.len() == stride_of(self.info.width as nat) * self.info.height as nat
    }

    /// A glyph with no coverage and zero metrics, standing for a character
    /// that the face does not map to any glyph.
    pub fn empty() -> (r: Glyph)
        ensures
            r.info == empty_info(),
            r.data@.len() == 0,
            r.wf(),
    {
        Glyph { info: GlyphInfo { x: 0, y: 0, width: 0, height: 0, x_off: 0, y_off: 0 }, data: Vec::new() }
    }
}

/// Whole pixels in a 26.6 fixed-point distance, truncated toward zero.
pub fn pixels_from_26_6(v: i64) -> (r: i64)
    ensures
        r as int == pixels_of(v as int),
{
    if v >= 0 {
        v / 64
    } else {
        let magnitude: u64 = if v == i64::MIN {
            0x8000_0000_0000_0000u64
        } else {
            (-v) as u64
        };
        let q: u64 = magnitude / 64;
        -(q as i64)
    }
}

/// A glyph is determined by what the font engine reports: two glyphs built
/// from the same report carry the same metrics and the same packed bytes.
pub proof fn lemma_glyph_determined(
    g1: Glyph,
    g2: Glyph,
    left: i32,
    top: i32,
    width: i32,
    rows: i32,
    pitch: i32,
    buffer: Seq<u8>,
    advance_x: i64,
    advance_y: i64,
)
    requires
        g1.info == info_of(left, top, width as u16, rows as u16, advance_x, advance_y),
        g1.data@ == packed_seq(buffer, width as nat, pitch as nat, rows as nat),
        g2.info == info_of(left, top, width as u16, rows as u16, advance_x, advance_y),
        g2.data@ == packed_seq(buffer, width as nat, pitch as nat, rows as nat),
    ensures
        g1.info == g2.info,
        g1.data@ == g2.data@,
{
}

/// Builds a glyph from what the font engine reports for a rendered glyph:
/// its bearings, its bitmap (`rows` rows of `width` coverage bytes, one row
/// every `pitch` bytes of `buffer`) and its advance in 26.6 fixed point.
/// Fails with `MalformedBitmap` exactly when the dimensions do not describe
/// the buffer, or when a dimension, the origin or the advance does not fit a
/// glyph record.
pub fn glyph_from_bitmap(
    left: i32,
    top: i32,
    width: i32,
    rows: i32,
    pitch: i32,
    buffer: &[u8],
    advance_x: i64,
    advance_y: i64,
) -> (r: Result<Glyph, GlyphError>)
    ensures
        r.is_ok() == (bitmap_fits(width as int, rows as int, pitch as int, buffer@.len())
            && metrics_fit(left, top, advance_x, advance_y)),
        r matches Err(e) ==> e == GlyphError::MalformedBitmap,
        r matches Ok(g) ==> {
            &&& g.info == info_of(left, top, width as u16, rows as u16, advance_x, advance_y)
            &&& g.info.x == -(left as int) && g.info.y == top
            &&& g.info.x_off == pixels_of(advance_x as int) && g.info.y_off == pixels_of(advance_y as int)
            &&& g.data@ == packed_seq(buffer@, width as nat, pitch as nat, rows as nat)
            &&& g.wf()
        },
{
    if width < 0 || width > 0xffff || rows < 0 || rows > 0xffff || pitch < width {
        return Err(GlyphError::MalformedBitmap);
    }
    let w: u16 = width as u16;
    let h: u16 = rows as u16;
    let p: usize = pitch as usize;
    assert((h as u64) * (p as u64) <= 0xffff * 0x7fff_ffff) by (nonlinear_arith)
        requires h <= 0xffff, p <= 0x7fff_ffff;
    let needed: u64 = (h as u64) * (p as u64);
    if needed > buffer.len() as u64 {
        return Err(GlyphError::MalformedBitmap);
    }
    let neg_left: i64 = -(left as i64);
    let x_off: i64 = pixels_from_26_6(advance_x);
    let y_off: i64 = pixels_from_26_6(advance_y);
    if neg_left < i16::MIN as i64 || neg_left > i16::MAX as i64 || top < i16::MIN as i32 || top
        > i16::MAX as i32 || x_off < i16::MIN as i64 || x_off > i16::MAX as i64 || y_off
        < i16::MIN as i64 || y_off > i16::MAX as i64 {
        return Err(GlyphError::MalformedBitmap);
    }
    let data = pack_rows(buffer, w, h, p);
    let info = GlyphInfo {
        x: neg_left as i16,
        y: top as i16,
        width: w,
        height: h,
        x_off: x_off as i16,
        y_off: y_off as i16,
    };
    Ok(Glyph { info, data })
}

} // verus!
