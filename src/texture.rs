use vstd::prelude::*;

verus! {

/// Widths at or above this have no 32-bit stride (cairo's limit for 32 bits per pixel).
pub const STRIDE_WIDTH_LIMIT: u32 = 67_108_863;

/// Bytes per row of a 32-bit ARGB surface of `width` pixels, or `None` where
/// the width is too large.
pub open spec fn stride_spec(width: int) -> Option<int> {
    if width >= STRIDE_WIDTH_LIMIT {
        None
    } else {
        Some(4 * width)
    }
}

/// Row stride of a 32-bit ARGB surface: four bytes a pixel, rows already
/// aligned to four bytes.
pub fn stride_for_width(width: u32) -> (r: Option<u32>)
    ensures
        match stride_spec(width as int) {
            None => r.is_none(),
            Some(s) => r == Some(s as u32),
        },
{
    if width >= STRIDE_WIDTH_LIMIT {
        None
    } else {
        Some(4 * width)
    }
}

/// A color channel scaled by `alpha / 255`, rounded to nearest.
pub open spec fn premultiplied(c: int, alpha: int) -> int {
    (c * alpha + 127) / 255
}

/// The four bytes of pixel `p` in a packed buffer.
pub open spec fn pixel(s: Seq<u8>, p: int) -> (u8, u8, u8, u8) {
    (s[4 * p], s[4 * p + 1], s[4 * p + 2], s[4 * p + 3])
}

/// An RGBA pixel as premultiplied BGRA: blue, green and red scaled by alpha,
/// alpha kept.
pub open spec fn premultiplied_bgra(px: (u8, u8, u8, u8)) -> (u8, u8, u8, u8) {
    (
        premultiplied(px.2 as int, px.3 as int) as u8,
        premultiplied(px.1 as int, px.3 as int) as u8,
        premultiplied(px.0 as int, px.3 as int) as u8,
        px.3,
    )
}

fn premultiply_channel(c: u8, alpha: u8) -> (r: u8)
    ensures
        r == premultiplied(c as int, alpha as int),
{
    assert((c as u32) * (alpha as u32) <= 65025) by (nonlinear_arith)
        requires c <= 255, alpha <= 255;
    let prod = c as u32 * alpha as u32;
    ((prod + 127) / 255) as u8
}

/// Converts packed 8-bit RGBA pixels into premultiplied BGRA, the byte order
/// of a little-endian 32-bit ARGB surface.
pub fn premultiply_rgba(rgba: &Vec<u8>, width: u32, height: u32) -> (out: Vec<u8>)
    requires
        4 * (width as int) * (height as int) <= usize::MAX,
        rgba@.len() >= 4 * (width as int) * (height as int),
    ensures
        out@.len() == 4 * (width as int) * (height as int),
        forall|p: int|
            0 <= p < (width as int) * (height as int) ==> #[trigger] pixel(out@, p)
                == premultiplied_bgra(pixel(rgba@, p)),
{
    proof {
        assert(0 <= (width as int) * (height as int) <= 4 * (width as int) * (height as int))
            by (nonlinear_arith);
        assert(4 * (width as int) * (height as int) == 4 * ((width as int) * (height as int)))
            by (nonlinear_arith);
    }
    let n: usize = width as usize * height as usize;
    let mut out: Vec<u8> = Vec::new();
    let mut p: usize = 0;
    while p < n
        invariant
            n == (width as int) * (height as int),
            4 * n <= usize::MAX,
            rgba@.len() >= 4 * n,
            p <= n,
            out@.len() == 4 * p,
            forall|q: int| 0 <= q < p ==> #[trigger] pixel(out@, q)
                == premultiplied_bgra(pixel(rgba@, q)),
        decreases n - p,
    {
        let i = 4 * p;
        let r = rgba[i];
        let g = rgba[i + 1];
        let b = rgba[i + 2];
        let a = rgba[i + 3];
        let ghost before = out@;
        out.push(premultiply_channel(b, a));
        out.push(premultiply_channel(g, a));
        out.push(premultiply_channel(r, a));
        out.push(a);
        proof {
            assert forall|q: int| 0 <= q < p + 1 implies #[trigger] pixel(out@, q)
                == premultiplied_bgra(pixel(rgba@, q)) by {
                if q < p {
                    assert(pixel(out@, q) == pixel(before, q));
                } else {
                    assert(q == p);
                }
            }
        }
        p = p + 1;
    }
    out
}

} // verus!
