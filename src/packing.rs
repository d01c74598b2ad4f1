use vstd::prelude::*;

verus! {

/// Row width in bytes of a packed coverage bitmap: `width` rounded up to a
/// multiple of four.
pub open spec fn stride_of(width: nat) -> nat {
    ((width + 3) / 4 * 4) as nat
}

/// Number of bytes in one packed row of a bitmap `width` pixels wide.
pub fn stride(width: u16) -> (r: u32)
    ensures
        r as nat == stride_of(width as nat),
{
    let w: u32 = width as u32;
    let v: u32 = w + 3;
    let r: u32 = v & !3u32;
    assert(v & !3u32 == v / 4 * 4) by (bit_vector);
    r
}

/// The packed stride is 4-byte aligned, never shorter than the row it holds,
/// and adds at most three bytes of padding.
pub proof fn lemma_stride_alignment(width: nat)
    ensures
        stride_of(width) % 4 == 0,
        stride_of(width) >= width,
        stride_of(width) - width <= 3,
{
}

/// Byte `x` of packed row `y`: a coverage value copied from the source row
/// (whose rows start every `pitch` bytes), or zero padding past `width`.
pub open spec fn packed_byte(src: Seq<u8>, width: nat, pitch: nat, y: nat, x: nat) -> u8 {
    if x < width {
        src[(y * pitch + x) as int]
    } else {
        0
    }
}

/// The packed buffer of a bitmap: `rows` rows of `stride_of(width)` bytes,
/// laid out one after another.
pub open spec fn packed_seq(src: Seq<u8>, width: nat, pitch: nat, rows: nat) -> Seq<u8> {
    Seq::new(
        stride_of(width) * rows,
        |i: int| packed_byte(src, width, pitch, (i / stride_of(width) as int) as nat, (i % stride_of(width) as int) as nat),
    )
}

/// Copies `rows` rows of `width` coverage bytes, read from `src` at a row
/// step of `pitch`, into a zero-padded buffer whose rows are `stride(width)`
/// bytes long.
pub fn pack_rows(src: &[u8], width: u16, rows: u16, pitch: usize) -> (r: Vec<u8>)
    requires
        width as nat <= pitch,
        rows as nat * pitch <= src@.len(),
    ensures
        r@.len() == stride_of(width as nat) * rows as nat,
        r@ == packed_seq(src@, width as nat, pitch as nat, rows as nat),
        forall|y: nat, x: nat|
            y < rows && x < stride_of(width as nat) ==> r@[(y * stride_of(width as nat) + x) as int]
                == #[trigger] packed_byte(src@, width as nat, pitch as nat, y, x),
{
    let s: usize = stride(width) as usize;
    let h: usize = rows as usize;
    let w: usize = width as usize;
    let ghost sn: nat = stride_of(width as nat);
    assert(s * h <= 0xffff_ffff) by (nonlinear_arith)
        requires s <= 0x1_0000, h <= 0xffff;
    let n: usize = src.len();
    let mut out: Vec<u8> = Vec::new();
    let mut y: usize = 0;
    while y < h
        invariant
            s == sn,
            h == rows,
            w == width,
            w <= pitch,
            s * h <= 0xffff_ffff,
            h * pitch <= src@.len(),
            n == src@.len(),
            y <= h,
            out@.len() == y * s,
            forall|yy: nat, xx: nat|
                yy < y && xx < s ==> out@[(yy * sn + xx) as int]
                    == #[trigger] packed_byte(src@, width as nat, pitch as nat, yy, xx),
        decreases h - y,
    {
        assert(y * s + s <= h * s) by (nonlinear_arith)
            requires y < h;
        assert(y * pitch + pitch <= h * pitch) by (nonlinear_arith)
            requires y < h;
        let mut x: usize = 0;
        while x < s
            invariant
                s == sn,
                w == width,
                w <= pitch,
                y < h,
                y * s + s <= h * s,
                s * h <= 0xffff_ffff,
                y * pitch + pitch <= src@.len(),
                n == src@.len(),
                x <= s,
                out@.len() == y * s + x,
                forall|yy: nat, xx: nat|
                    yy < y && xx < s ==> out@[(yy * sn + xx) as int]
                        == #[trigger] packed_byte(src@, width as nat, pitch as nat, yy, xx),
                forall|xx: nat|
                    xx < x ==> out@[(y * sn + xx) as int]
                        == #[trigger] packed_byte(src@, width as nat, pitch as nat, y as nat, xx),
            decreases s - x,
        {
            let b: u8 = if x < w {
                assert(y * pitch + x < src@.len());
                let row_start: usize = y * pitch;
                src[row_start + x]
            } else {
                0
            };
            let ghost before = out@;
            out.push(b);
            assert forall|yy: nat, xx: nat|
                yy < y && xx < s implies out@[(yy * sn + xx) as int]
                    == #[trigger] packed_byte(src@, width as nat, pitch as nat, yy, xx) by {
                assert(yy * sn + xx < y * sn) by (nonlinear_arith)
                    requires yy < y, xx < sn;
                assert(out@[(yy * sn + xx) as int] == before[(yy * sn + xx) as int]);
            }
            x = x + 1;
        }
        y = y + 1;
        assert forall|yy: nat, xx: nat|
            yy < y && xx < s implies out@[(yy * sn + xx) as int]
                == #[trigger] packed_byte(src@, width as nat, pitch as nat, yy, xx) by {
            if yy < y - 1 {
            } else {
                assert(yy == y - 1);
            }
        }
        assert(out@.len() == y * s) by (nonlinear_arith)
            requires out@.len() == (y - 1) * s + s;
    }
    assert(out@.len() == sn * rows as nat) by (nonlinear_arith)
        requires out@.len() == h * s, h == rows, s == sn;
    assert forall|i: int| 0 <= i < out@.len() implies out@[i] == #[trigger] packed_seq(
        src@,
        width as nat,
        pitch as nat,
        rows as nat,
    )[i] by {
        let si = sn as int;
        assert(si > 0) by (nonlinear_arith)
            requires 0 <= i < si * h;
        let yy = i / si;
        let xx = i % si;
        assert(0 <= xx < si && 0 <= yy < h && i == yy * si + xx) by (nonlinear_arith)
            requires si > 0, 0 <= i < si * h, yy == i / si, xx == i % si;
        assert(out@[(yy as nat * sn + xx as nat) as int] == packed_byte(src@, width as nat, pitch as nat, yy as nat, xx as nat));
    }
    assert(out@ =~= packed_seq(src@, width as nat, pitch as nat, rows as nat));
    out
}

} // verus!
