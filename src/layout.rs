use vstd::prelude::*;

use crate::cache::GlyphCache;

verus! {

/// The sum of the first `n` values of `a`.
pub open spec fn sum_prefix(a: Seq<int>, n: int) -> int
    decreases n,
{
    if n <= 0 || n > a.len() {
        0
    } else {
        sum_prefix(a, n - 1) + a[n - 1]
    }
}

/// The horizontal advance of each glyph of `text`, as stored in `cache`.
pub open spec fn advances_x(cache: GlyphCache, text: Seq<u8>) -> Seq<int> {
    text.map_values(|c: u8| cache.info_for(c as u64).x_off as int)
}

/// The vertical advance of each glyph of `text`, as stored in `cache`.
pub open spec fn advances_y(cache: GlyphCache, text: Seq<u8>) -> Seq<int> {
    text.map_values(|c: u8| cache.info_for(c as u64).y_off as int)
}

/// Whether every byte of `text` names a glyph in `cache`.
pub open spec fn run_is_cached(cache: GlyphCache, text: Seq<u8>) -> bool {
    forall|i: int| 0 <= i < text.len() ==> cache.holds(#[trigger] text[i] as u64)
}

/// The pen position at which glyph `i` of a run started at `(x, y)` is
/// drawn: the origin moved by the advances of the glyphs before it.
pub open spec fn pen_at(cache: GlyphCache, text: Seq<u8>, x: int, y: int, i: int) -> (int, int) {
    (x + sum_prefix(advances_x(cache, text), i), y + sum_prefix(advances_y(cache, text), i))
}

/// The longest run that one composite request can carry.
pub const MAX_RUN: usize = 0x7fff_ffff;

proof fn lemma_sum_prefix_bound(a: Seq<int>, n: int)
    requires
        0 <= n <= a.len(),
        forall|k: int| 0 <= k < a.len() ==> -0x8000 <= #[trigger] a[k] <= 0x7fff,
    ensures
        -0x8000 * n <= sum_prefix(a, n) <= 0x7fff * n,
    decreases n,
{
    if n > 0 {
        lemma_sum_prefix_bound(a, n - 1);
    }
}

/// Pen positions of the glyphs of `text`, one byte per glyph, composited
/// from `(x, y)`: each glyph is drawn where the previous one's advance left
/// the pen. `None` when some byte names no glyph in the cache.
pub fn layout_run(cache: &GlyphCache, text: &[u8], x: i32, y: i32) -> (r: Option<Vec<(i64, i64)>>)
    requires
        cache.wf(),
        text@.len() <= MAX_RUN,
    ensures
        r is Some <==> run_is_cached(*cache, text@),
        r matches Some(p) ==> p@.len() == text@.len() && forall|i: int|
            0 <= i < text@.len() ==> (#[trigger] p@[i]).0 == pen_at(*cache, text@, x as int, y as int, i).0
                && p@[i].1 == pen_at(*cache, text@, x as int, y as int, i).1,
{
    let ghost ax = advances_x(*cache, text@);
    let ghost ay = advances_y(*cache, text@);
    let mut out: Vec<(i64, i64)> = Vec::new();
    let mut pen_x: i64 = x as i64;
    let mut pen_y: i64 = y as i64;
    let mut i: usize = 0;
    while i < text.len()
        invariant
            cache.wf(),
            text@.len() <= MAX_RUN,
            ax == advances_x(*cache, text@),
            ay == advances_y(*cache, text@),
            i <= text@.len(),
            forall|k: int| 0 <= k < i ==> cache.holds(#[trigger] text@[k] as u64),
            pen_x == x + sum_prefix(ax, i as int),
            pen_y == y + sum_prefix(ay, i as int),
            -0x8000 * i <= sum_prefix(ax, i as int) <= 0x7fff * i,
            -0x8000 * i <= sum_prefix(ay, i as int) <= 0x7fff * i,
            out@.len() == i,
            forall|k: int|
                0 <= k < i ==> (#[trigger] out@[k]).0 == pen_at(*cache, text@, x as int, y as int, k).0
                    && out@[k].1 == pen_at(*cache, text@, x as int, y as int, k).1,
        decreases text@.len() - i,
    {
        let info = match cache.get(text[i] as u64) {
            Some(g) => g.info,
            None => return None,
        };
        out.push((pen_x, pen_y));
        assert(ax[i as int] == info.x_off as int);
        assert(ay[i as int] == info.y_off as int);
        pen_x = pen_x + info.x_off as i64;
        pen_y = pen_y + info.y_off as i64;
        i = i + 1;
        assert(sum_prefix(ax, i as int) == sum_prefix(ax, i - 1) + ax[i - 1]);
        assert(sum_prefix(ay, i as int) == sum_prefix(ay, i - 1) + ay[i - 1]);
    }
    Some(out)
}

/// Along a run, each glyph is drawn exactly one advance after the glyph
/// before it, the first at the run's origin.
pub proof fn lemma_pen_advances(cache: GlyphCache, text: Seq<u8>, x: int, y: int, i: int)
    requires
        0 <= i < text.len(),
    ensures
        pen_at(cache, text, x, y, 0) == (x, y),
        pen_at(cache, text, x, y, i + 1).0 == pen_at(cache, text, x, y, i).0 + cache.info_for(text[i] as u64).x_off,
        pen_at(cache, text, x, y, i + 1).1 == pen_at(cache, text, x, y, i).1 + cache.info_for(text[i] as u64).y_off,
{
}

} // verus!
