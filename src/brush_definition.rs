use vstd::prelude::*;
use crate::numeric::{covers, least_cover};
use crate::texture::{
    pixel, premultiplied_bgra, premultiply_rgba, stride_for_width, STRIDE_WIDTH_LIMIT,
};

verus! {

#[verifier::external_type_specification]
#[verifier::external_body]
pub struct ExImageError(image::ImageError);

/// Relies on `image::load_from_memory` to decode an encoded image, and on
/// `DynamicImage::to_rgba8` to convert it to packed 8-bit RGBA: an image
/// buffer holds at least four bytes for each of its pixels.
#[verifier::external_body]
fn decode_rgba8(bytes: &[u8]) -> (r: Result<(u32, u32, Vec<u8>), image::ImageError>)
    ensures
        match r {
            Ok(t) => t.2@.len() >= 4 * (t.0 as int) * (t.1 as int),
            Err(_) => true,
        },
{
    let rgba = image::load_from_memory(bytes)?.to_rgba8();
    let (width, height) = rgba.dimensions();
    Ok((width, height, rgba.into_raw()))
}

/// Largest brush thickness, in length units (one million pixels).
pub const MAX_THICKNESS: i64 = 1_000_000_000;

/// Why a brush could not be made.
#[derive(Clone, Copy, Debug, PartialEq, Eq, Structural)]
pub enum BrushError {
    /// The texture bytes are not a readable image.
    Decode,
    /// The texture is too wide for a 32-bit surface.
    TooWide,
    /// The texture's pixel buffer does not fit in the address space.
    TooLarge,
}

/// A brush texture as premultiplied BGRA rows.
pub struct Texture {
    pub width: u32,
    pub height: u32,
    /// Bytes per row.
    pub stride: u32,
    pub data: Vec<u8>,
}

/// A rotated and scaled copy of a brush texture, drawn into a square
/// `size` pixels wide.
#[derive(Clone, Copy, Debug, PartialEq, Eq, Structural)]
pub struct Variant {
    /// The thickness rounded to whole pixels: with `angle_deg`, the cache key.
    pub thickness_px: i32,
    pub angle_deg: i32,
    /// The thickness the variant was scaled to, in length units.
    pub thickness: i64,
    pub size: i32,
}

/// A thickness in length units rounded to the nearest whole pixel.
pub open spec fn rounded_px(thickness: int) -> int {
    (thickness + 500) / 1000
}

/// `a / b` rounded up, for `a >= 0` and `b > 0`.
pub open spec fn ceil_div(a: int, b: int) -> int {
    (a + b - 1) / b
}

/// The larger extent of a texture, at least one pixel.
pub open spec fn longest_side(width: int, height: int) -> int {
    if width >= height && width >= 1 {
        width
    } else if height >= 1 {
        height
    } else {
        1
    }
}

/// `side` scaled so that the longest side becomes `thickness` units, in
/// whole pixels rounded up.
pub open spec fn scaled_side(side: int, longest: int, thickness: int) -> int {
    ceil_div(side * thickness, 1000 * longest)
}

/// `n` is the square root of `d2`, rounded up.
pub open spec fn is_ceil_sqrt(n: int, d2: int) -> bool {
    &&& n >= 0
    &&& covers(n, 1, d2)
    &&& (n == 0 || !covers(n - 1, 1, d2))
}

/// The side of the square that holds a variant of a `width` by `height`
/// texture at `thickness` units in any rotation: the diagonal of the scaled
/// texture rounded up, at least one pixel, plus four pixels of padding.
pub open spec fn variant_side_ok(size: int, width: int, height: int, thickness: int) -> bool {
    let m = longest_side(width, height);
    let sw = scaled_side(width, m, thickness);
    let sh = scaled_side(height, m, thickness);
    exists|root: int|
        #[trigger] is_ceil_sqrt(root, sw * sw + sh * sh) && size == (if root >= 1 { root } else { 1 }) + 4
}

/// The cache holds a variant with this key.
pub open spec fn has_variant(cache: Seq<Variant>, px: int, angle: int) -> bool {
    exists|i: int| 0 <= i < cache.len() && #[trigger] cache[i].thickness_px == px && cache[i].angle_deg == angle
}

/// No two variants in the cache share a key.
pub open spec fn keys_unique(cache: Seq<Variant>) -> bool {
    forall|i: int, j: int|
        0 <= i < j < cache.len() ==> !(#[trigger] cache[i].thickness_px == #[trigger] cache[j].thickness_px
            && cache[i].angle_deg == cache[j].angle_deg)
}

/// A cache lookup of key `(px, angle)` that went from `before` to `after`
/// and answered `slot`: a hit leaves the cache as it was, a miss appends
/// one variant, and the slot holds the key.
pub open spec fn cache_lookup(before: Seq<Variant>, after: Seq<Variant>, slot: int, px: int, angle: int) -> bool {
    &&& 0 <= slot < after.len()
    &&& after[slot].thickness_px == px
    &&& after[slot].angle_deg == angle
    &&& has_variant(before, px, angle) ==> after == before
    &&& !has_variant(before, px, angle) ==> after == before.push(after[slot]) && slot == before.len()
}

/// A named brush: its texture and the variants made from it so far.
pub struct BrushDefinition {
    pub name: String,
    pub texture: Texture,
    /// Variants in the order they were made; keys are unique.
    pub cache: Vec<Variant>,
}

impl BrushDefinition {
    pub open spec fn wf(&self) -> bool {
        keys_unique(self.cache@)
    }

    /// Decodes an encoded image and makes a brush of it.
    pub fn from_bytes(name: &str, bytes: &[u8]) -> (r: Result<BrushDefinition, BrushError>)
        ensures
            match r {
                Ok(d) => d.wf() && d.name@ == name@ && d.cache@.len() == 0,
                Err(e) => e == BrushError::Decode || e == BrushError::TooWide || e == BrushError::TooLarge,
            },
    {
        match decode_rgba8(bytes) {
            Err(_) => Err(BrushError::Decode),
            Ok((width, height, rgba)) => Self::from_image(name, width, height, &rgba),
        }
    }

    /// Makes a brush from packed 8-bit RGBA pixels, premultiplying them into
    /// the surface's BGRA order.
    pub fn from_image(name: &str, width: u32, height: u32, rgba: &Vec<u8>) -> (r: Result<BrushDefinition, BrushError>)
        requires
            rgba@.len() >= 4 * (width as int) * (height as int),
        ensures
            match r {
                Ok(d) => {
                    &&& width < STRIDE_WIDTH_LIMIT
                    &&& d.wf()
                    &&& d.name@ == name@
                    &&& d.texture.width == width
                    &&& d.texture.height == height
                    &&& d.texture.stride == 4 * width
                    &&& d.texture.data@.len() == 4 * (width as int) * (height as int)
                    &&& forall|p: int| 0 <= p < (width as int) * (height as int)
                        ==> #[trigger] pixel(d.texture.data@, p) == premultiplied_bgra(pixel(rgba@, p))
                    &&& d.cache@.len() == 0
                },
                Err(e) => {
                    ||| e == BrushError::TooWide && width >= STRIDE_WIDTH_LIMIT
                    ||| e == BrushError::TooLarge && width < STRIDE_WIDTH_LIMIT
                        && 4 * (width as int) * (height as int) > usize::MAX
                },
            },
    {
        let stride = match stride_for_width(width) {
            None => {
                return Err(BrushError::TooWide);
            },
            Some(s) => s,
        };
        let row = stride as usize;
        match row.checked_mul(height as usize) {
            None => {
                return Err(BrushError::TooLarge);
            },
            Some(_) => {},
        }
        let data = premultiply_rgba(rgba, width, height);
        Ok(BrushDefinition {
            name: name.to_owned(),
            texture: Texture { width, height, stride, data },
            cache: Vec::new(),
        })
    }

    pub fn get_name(&self) -> (r: String)
        ensures
            r@ == self.name@,
    {
        self.name.clone()
    }

    /// Plans the variant of this brush at `thickness` units and `angle_deg`.
    pub fn generate_variant(&self, thickness: i64, angle_deg: i32) -> (v: Variant)
        requires
            0 < thickness <= MAX_THICKNESS,
        ensures
            v.thickness_px == rounded_px(thickness as int),
            v.angle_deg == angle_deg,
            v.thickness == thickness,
            variant_side_ok(v.size as int, self.texture.width as int, self.texture.height as int, thickness as int),
    {
        let w = self.texture.width as i64;
        let h = self.texture.height as i64;
        let m: i64 = if w >= h && w >= 1 {
            w
        } else if h >= 1 {
            h
        } else {
            1
        };
        let den: i64 = 1000 * m;
        proof {
            assert(w * thickness <= m * MAX_THICKNESS) by (nonlinear_arith)
                requires 0 <= w <= m, 0 < thickness <= MAX_THICKNESS;
            assert(h * thickness <= m * MAX_THICKNESS) by (nonlinear_arith)
                requires 0 <= h <= m, 0 < thickness <= MAX_THICKNESS;
        }
        let sw = ((w as i128 * thickness as i128 + den as i128 - 1) / den as i128) as i64;
        let sh = ((h as i128 * thickness as i128 + den as i128 - 1) / den as i128) as i64;
        proof {
            let (wi, hi, ti, di) = (w as int, h as int, thickness as int, den as int);
            assert(sw as int <= 1_000_001) by (nonlinear_arith)
                requires
                    sw as int == (wi * ti + di - 1) / di,
                    di == 1000 * (m as int), m >= 1,
                    0 <= wi * ti <= (m as int) * MAX_THICKNESS;
            assert(sh as int <= 1_000_001) by (nonlinear_arith)
                requires
                    sh as int == (hi * ti + di - 1) / di,
                    di == 1000 * (m as int), m >= 1,
                    0 <= hi * ti <= (m as int) * MAX_THICKNESS;
            assert(sw >= 0 && sh >= 0) by (nonlinear_arith)
                requires
                    sw as int == (wi * ti + di - 1) / di,
                    sh as int == (hi * ti + di - 1) / di,
                    di >= 1000, wi >= 0, hi >= 0, ti > 0;
            assert(sw * sw + sh * sh <= (sw + sh) * (sw + sh)) by (nonlinear_arith)
                requires sw >= 0, sh >= 0;
            assert((sw + sh) * (sw + sh) <= 0x100_0000_0000_0000) by (nonlinear_arith)
                requires 0 <= sw <= 1_000_001, 0 <= sh <= 1_000_001;
        }
        let d2 = (sw * sw + sh * sh) as u128;
        let hi = (sw + sh) as u128;
        let root = least_cover(d2, 1, hi);
        let side: i64 = if root >= 1 { root as i64 } else { 1 };
        proof {
            let mi = longest_side(w as int, h as int);
            assert(mi == m as int);
            assert(scaled_side(w as int, mi, thickness as int) == sw as int);
            assert(scaled_side(h as int, mi, thickness as int) == sh as int);
            assert(is_ceil_sqrt(root as int, d2 as int));
        }
        Variant {
            thickness_px: ((thickness + 500) / 1000) as i32,
            angle_deg,
            thickness,
            size: (side + 4) as i32,
        }
    }

    /// The cache slot of the variant at `thickness` units and `angle_deg`,
    /// made and cached on first use.
    pub fn get_cached(&mut self, thickness: i64, angle_deg: i32) -> (slot: usize)
        requires
            old(self).wf(),
            0 < thickness <= MAX_THICKNESS,
        ensures
            final(self).wf(),
            final(self).name == old(self).name,
            final(self).texture == old(self).texture,
            cache_lookup(old(self).cache@, final(self).cache@, slot as int, rounded_px(thickness as int), angle_deg as int),
            !has_variant(old(self).cache@, rounded_px(thickness as int), angle_deg as int) ==> {
                let v = final(self).cache@[slot as int];
                &&& v.thickness == thickness
                &&& variant_side_ok(v.size as int, old(self).texture.width as int, old(self).texture.height as int, thickness as int)
            },
    {
        let px = ((thickness + 500) / 1000) as i32;
        let mut i: usize = 0;
        while i < self.cache.len()
            invariant
                0 <= i <= self.cache@.len(),
                px == rounded_px(thickness as int),
                self.cache@ == old(self).cache@,
                self.name == old(self).name,
                self.texture == old(self).texture,
                keys_unique(self.cache@),
                forall|j: int| 0 <= j < i ==> !(#[trigger] self.cache@[j].thickness_px == px
                    && self.cache@[j].angle_deg == angle_deg),
            decreases self.cache@.len() - i,
        {
            if self.cache[i].thickness_px == px && self.cache[i].angle_deg == angle_deg {
                return i;
            }
            i = i + 1;
        }
        let v = self.generate_variant(thickness, angle_deg);
        let slot = self.cache.len();
        self.cache.push(v);
        proof {
            assert(final(self).cache@[slot as int] == v);
        }
        slot
    }
}

} // verus!

verus! {

/// Two lookups in a row: one with the same rounded thickness and angle as
/// the first answers the same slot and leaves the cache as the first left
/// it; one with another angle, or a thickness that rounds to another whole
/// pixel, answers another slot.
pub proof fn lemma_cache_reuse(
    c0: Seq<Variant>,
    c1: Seq<Variant>,
    c2: Seq<Variant>,
    s1: int,
    s2: int,
    t1: int,
    a1: int,
    t2: int,
    a2: int,
)
    requires
        keys_unique(c1),
        cache_lookup(c0, c1, s1, rounded_px(t1), a1),
        cache_lookup(c1, c2, s2, rounded_px(t2), a2),
    ensures
        rounded_px(t1) == rounded_px(t2) && a1 == a2 ==> s2 == s1 && c2 == c1,
        rounded_px(t1) != rounded_px(t2) || a1 != a2 ==> s2 != s1,
{
    if rounded_px(t1) == rounded_px(t2) && a1 == a2 {
        assert(has_variant(c1, rounded_px(t2), a2)) by {
            assert(c1[s1].thickness_px == rounded_px(t2));
        }
        if s1 < s2 {
            assert(!(c1[s1].thickness_px == c1[s2].thickness_px && c1[s1].angle_deg == c1[s2].angle_deg));
        } else if s2 < s1 {
            assert(!(c1[s2].thickness_px == c1[s1].thickness_px && c1[s2].angle_deg == c1[s1].angle_deg));
        }
    } else {
        if c2 != c1 {
            assert(c2[s1] == c1[s1]);
        }
    }
}

} // verus!
