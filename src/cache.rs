use vstd::prelude::*;

use freetype::{Face, Library};

use crate::font::{load_rendered_glyph, open_memory_face, slot_advance};
use crate::glyph::{empty_info, glyph_from_bitmap, Glyph, GlyphError, GlyphInfo};

verus! {

/// First character code that the glyph cache holds.
pub const FIRST_CODE: u64 = 32;

/// One past the last character code that the glyph cache holds.
pub const END_CODE: u64 = 128;

/// The resolution, in dots per inch both ways, that glyphs are rendered at.
pub const RESOLUTION_DPI: u32 = 90;

/// A glyph stored under its identifier, the character code it renders.
#[derive(Debug)]
pub struct GlyphEntry {
    pub id: u64,
    pub glyph: Glyph,
}

/// Rasterized glyphs keyed by identifier. Each identifier is present at most
/// once, and an entry never changes once added.
#[derive(Debug)]
pub struct GlyphCache {
    entries: Vec<GlyphEntry>,
}

/// The identifiers of printable ASCII, in ascending order.
pub open spec fn ascii_ids() -> Seq<u64> {
    Seq::new((END_CODE - FIRST_CODE) as nat, |i: int| (FIRST_CODE + i) as u64)
}

impl GlyphCache {
    pub closed spec fn view(&self) -> Seq<GlyphEntry> {
        self.entries@
    }

    /// The identifiers in the order their glyphs were added.
    pub open spec fn ids(&self) -> Seq<u64> {
        self@.map_values(|e: GlyphEntry| e.id)
    }

    /// No identifier is stored twice, and every stored glyph is well formed.
    pub open spec fn wf(&self) -> bool {
        &&& forall|i: int, j: int|
            0 <= i < j < self@.len() ==> (#[trigger] self@[i]).id != (#[trigger] self@[j]).id
        &&& forall|i: int| 0 <= i < self@.len() ==> (#[trigger] self@[i]).glyph.wf()
    }

    /// Whether a glyph is stored under `id`.
    pub open spec fn holds(&self, id: u64) -> bool {
        exists|i: int| 0 <= i < self@.len() && (#[trigger] self@[i]).id == id
    }

    /// The position of the entry stored under `id`.
    pub open spec fn position_of(&self, id: u64) -> int {
        choose|i: int| 0 <= i < self@.len() && (#[trigger] self@[i]).id == id
    }

    /// The metrics stored under `id`.
    pub open spec fn info_for(&self, id: u64) -> GlyphInfo {
        self@[self.position_of(id)].glyph.info
    }

    /// An empty cache.
    pub fn new() -> (r: GlyphCache)
        ensures
            r@.len() == 0,
            r.wf(),
    {
        GlyphCache { entries: Vec::new() }
    }

    /// Number of stored glyphs.
    pub fn len(&self) -> (r: usize)
        ensures
            r == self@.len(),
    {
        self.entries.len()
    }

    /// The stored identifiers, in the order their glyphs were added.
    pub fn id_list(&self) -> (r: Vec<u64>)
        ensures
            r@ == self.ids(),
    {
        let mut r: Vec<u64> = Vec::new();
        let mut i: usize = 0;
        while i < self.entries.len()
            invariant
                i <= self@.len(),
                r@ == self.ids().take(i as int),
            decreases self@.len() - i,
        {
            r.push(self.entries[i].id);
            i = i + 1;
            assert(r@ =~= self.ids().take(i as int));
        }
        assert(r@ =~= self.ids());
        r
    }

    /// The position of the glyph stored under `id`, if any.
    fn find(&self, id: u64) -> (r: Option<usize>)
        requires
            self.wf(),
        ensures
            r is Some <==> self.holds(id),
            r matches Some(i) ==> i < self@.len() && self@[i as int].id == id && i == self.position_of(id),
    {
        let mut i: usize = 0;
        while i < self.entries.len()
            invariant
                self.wf(),
                i <= self@.len(),
                forall|k: int| 0 <= k < i ==> (#[trigger] self@[k]).id != id,
            decreases self@.len() - i,
        {
            if self.entries[i].id == id {
                proof {
                    assert(self@[i as int].id == id);
                    assert(self.holds(id));
                    let p = self.position_of(id);
                    assert(self@[p].id == id);
                    assert(p == i) by {
                        if p < i {
                        } else if p > i {
                            assert(self@[i as int].id != self@[p].id);
                        }
                    };
                }
                return Some(i);
            }
            i = i + 1;
        }
        None
    }

    /// The glyph stored under `id`, if any.
    pub fn get(&self, id: u64) -> (r: Option<&Glyph>)
        requires
            self.wf(),
        ensures
            r is Some <==> self.holds(id),
            r matches Some(g) ==> *g == self@[self.position_of(id)].glyph && g.info == self.info_for(id)
                && g.wf(),
    {
        match self.find(id) {
            Some(i) => Some(&self.entries[i].glyph),
            None => None,
        }
    }

    /// Stores `glyph` under `id`. An identifier already present keeps its
    /// glyph: the cache is left as it was and `false` is returned.
    pub fn add(&mut self, id: u64, glyph: Glyph) -> (r: bool)
        requires
            old(self).wf(),
            glyph.wf(),
        ensures
            r == !old(self).holds(id),
            final(self).wf(),
            r ==> final(self)@ == old(self)@.push(GlyphEntry { id, glyph }),
            !r ==> final(self)@ == old(self)@,
    {
        if self.find(id).is_some() {
            return false;
        }
        let ghost before = self@;
        self.entries.push(GlyphEntry { id, glyph });
        assert forall|i: int, j: int|
            0 <= i < j < self@.len() implies (#[trigger] self@[i]).id != (#[trigger] self@[j]).id by {
            if j == before.len() {
                assert(self@[i] == before[i]);
            } else {
                assert(self@[i] == before[i] && self@[j] == before[j]);
            }
        }
        assert forall|i: int| 0 <= i < self@.len() implies (#[trigger] self@[i]).glyph.wf() by {
            if i < before.len() {
                assert(self@[i] == before[i]);
            }
        }
        true
    }
}

/// A cache whose identifiers are the printable ASCII codes holds a glyph for
/// every code in `[32, 128)` and for no other.
pub proof fn lemma_ascii_range_complete(cache: &GlyphCache, id: u64)
    requires
        cache.ids() == ascii_ids(),
    ensures
        cache.holds(id) <==> FIRST_CODE <= id < END_CODE,
{
    if cache.holds(id) {
        let i = choose|i: int| 0 <= i < cache@.len() && (#[trigger] cache@[i]).id == id;
        assert(cache.ids()[i] == id);
    }
    if FIRST_CODE <= id < END_CODE {
        let i = (id - FIRST_CODE) as int;
        assert(cache.ids().len() == cache@.len());
        assert(0 <= i < cache@.len());
        assert(cache.ids()[i] == id);
        assert(cache@[i].id == id);
    }
}

/// Renders the glyph that the character map gave for a code: `None` when the
/// face has no glyph for it, which gives the empty glyph with zero metrics.
/// Otherwise the glyph is loaded into the face's slot and rendered; what
/// comes back then depends on the face, and a glyph returned holds one padded
/// row per bitmap row.
pub fn rasterize_index(face: &Face, index: Option<u32>) -> (r: Result<Glyph, GlyphError>)
    ensures
        index is None ==> (r matches Ok(g) && g.info == empty_info() && g.data@.len() == 0),
        r matches Ok(g) ==> g.wf(),
        r matches Err(e) ==> e == GlyphError::GlyphLoad || e == GlyphError::MalformedBitmap,
{
    match index {
        None => Ok(Glyph::empty()),
        Some(index) => {
            if load_rendered_glyph(face, index).is_err() {
                return Err(GlyphError::GlyphLoad);
            }
            let slot = face.glyph();
            let bitmap = slot.bitmap();
            let (advance_x, advance_y) = slot_advance(slot);
            glyph_from_bitmap(
                slot.bitmap_left(),
                slot.bitmap_top(),
                bitmap.width(),
                bitmap.rows(),
                bitmap.pitch(),
                bitmap.buffer(),
                advance_x,
                advance_y,
            )
        },
    }
}

/// Renders the glyph that `face` maps `code` to, through `rasterize_index`.
/// A code with no glyph in the face gives the empty glyph.
pub fn rasterize_glyph(face: &Face, code: usize) -> (r: Result<Glyph, GlyphError>)
    ensures
        r matches Ok(g) ==> g.wf(),
        r matches Err(e) ==> e == GlyphError::GlyphLoad || e == GlyphError::MalformedBitmap,
{
    rasterize_index(face, face.get_char_index(code))
}

/// Rasterizes every printable ASCII code with `face`, storing each glyph
/// under its code in ascending order.
pub fn cache_from_face(face: &Face) -> (r: Result<GlyphCache, GlyphError>)
    ensures
        r matches Ok(c) ==> c.wf() && c.ids() == ascii_ids(),
        r matches Err(e) ==> e == GlyphError::GlyphLoad || e == GlyphError::MalformedBitmap,
{
    let mut cache = GlyphCache::new();
    let mut code: u64 = FIRST_CODE;
    while code < END_CODE
        invariant
            FIRST_CODE <= code <= END_CODE,
            cache.wf(),
            cache.ids() == ascii_ids().take(code - FIRST_CODE),
        decreases END_CODE - code,
    {
        let glyph = match rasterize_glyph(face, code as usize) {
            Ok(g) => g,
            Err(e) => return Err(e),
        };
        proof {
            if cache.holds(code) {
                let i = choose|i: int| 0 <= i < cache@.len() && (#[trigger] cache@[i]).id == code;
                assert(cache.ids().len() == cache@.len());
                assert(cache.ids()[i] == code);
                assert(ascii_ids().take(code - FIRST_CODE)[i] == FIRST_CODE + i);
                assert(false);
            }
        }
        let ghost before = cache@;
        let ghost n: int = code - FIRST_CODE;
        assert(before.len() == n) by {
            assert(cache.ids().len() == before.len());
        }
        let added = cache.add(code, glyph);
        assert(added);
        code = code + 1;
        assert forall|i: int| 0 <= i <= n implies #[trigger] cache.ids()[i] == ascii_ids()[i] by {
            assert(cache.ids()[i] == cache@[i].id);
            if i < n {
                assert(cache@[i] == before[i]);
                assert(before.map_values(|e: GlyphEntry| e.id)[i] == before[i].id);
                assert(ascii_ids().take(n)[i] == ascii_ids()[i]);
            }
        }
        assert(cache.ids() =~= ascii_ids().take(n + 1));
    }
    assert(cache.ids() =~= ascii_ids());
    Ok(cache)
}

/// A size in points as a 26.6 fixed-point value, the form the font engine
/// takes a nominal character size in.
pub fn char_height_26_6(points: u32) -> (r: isize)
    requires
        points as int * 64 <= isize::MAX,
    ensures
        r as int == points as int * 64,
{
    (points as isize) * 64
}

/// Opens the font bytes as a face, sizes it to `size` points (width derived
/// from height, `RESOLUTION_DPI` both ways) and rasterizes every printable
/// ASCII code into a new glyph cache.
pub fn build_glyph_cache(library: &Library, font: Vec<u8>, size: u32) -> (r: Result<GlyphCache, GlyphError>)
    requires
        size as int * 64 <= isize::MAX,
    ensures
        r matches Ok(c) ==> c.wf() && c.ids() == ascii_ids(),
{
    let face = match open_memory_face(library, font) {
        Ok(f) => f,
        Err(_) => return Err(GlyphError::FontData),
    };
    let height = char_height_26_6(size);
    if face.set_char_size(0, height, RESOLUTION_DPI, RESOLUTION_DPI).is_err() {
        return Err(GlyphError::CharSize);
    }
    cache_from_face(&face)
}

} // verus!
