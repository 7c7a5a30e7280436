use vstd::prelude::*;

verus! {

/// Pivot offset of a sprite, in pixels to the left and down. The two components are
/// single-precision values held as their raw bit patterns: the library only carries
/// them, and all-zero bits stand for `(0.0, 0.0)`.
#[derive(Clone, Copy, Debug, PartialEq, Eq, Structural)]
pub struct PivotOffset {
    pub x_bits: u32,
    pub y_bits: u32,
}

impl PivotOffset {
    pub open spec fn zero_spec() -> PivotOffset {
        PivotOffset { x_bits: 0, y_bits: 0 }
    }

    /// The offset `(0.0, 0.0)`.
    pub fn zero() -> (r: PivotOffset)
        ensures
            r == PivotOffset::zero_spec(),
    {
        PivotOffset { x_bits: 0, y_bits: 0 }
    }
}

/// The exact fraction `num / den`.
#[derive(Clone, Copy, Debug, PartialEq, Eq, Structural)]
pub struct Ratio {
    pub num: i128,
    pub den: u32,
}

pub open spec fn ratio(num: int, den: int) -> Ratio {
    Ratio { num: num as i128, den: den as u32 }
}

/// Normalized texture coordinates of a sprite. Pixel positions are measured from the
/// top-left corner of the image, while `top` and `bottom` grow towards the top of it.
#[derive(Clone, Copy, Debug, PartialEq, Eq, Structural)]
pub struct TextureCoordinates {
    pub left: Ratio,
    pub right: Ratio,
    pub top: Ratio,
    pub bottom: Ratio,
}

/// One rectangle of a sprite sheet: its size in pixels, its pivot offset and where it
/// lies on the texture.
#[derive(Clone, Copy, Debug, PartialEq, Eq, Structural)]
pub struct Sprite {
    pub width: u32,
    pub height: u32,
    pub offsets: PivotOffset,
    pub tex_coords: TextureCoordinates,
}

/// Texture coordinates of the rectangle of `w` by `h` pixels at `(x, y)` on an image of
/// `image_w` by `image_h` pixels: `left = x / image_w`, `right = (x + w) / image_w`,
/// `top = 1 - y / image_h`, `bottom = 1 - (y + h) / image_h`.
pub open spec fn tex_coords_of(image_w: int, image_h: int, w: int, h: int, x: int, y: int) -> TextureCoordinates {
    TextureCoordinates {
        left: ratio(x, image_w),
        right: ratio(x + w, image_w),
        top: ratio(image_h - y, image_h),
        bottom: ratio(image_h - (y + h), image_h),
    }
}

pub open spec fn sprite_of(
    image_w: int,
    image_h: int,
    w: int,
    h: int,
    x: int,
    y: int,
    offsets: PivotOffset,
) -> Sprite {
    Sprite {
        width: w as u32,
        height: h as u32,
        offsets,
        tex_coords: tex_coords_of(image_w, image_h, w, h, x, y),
    }
}

impl Sprite {
    /// Builds the sprite for the rectangle of `width` by `height` pixels whose top-left
    /// corner is at `(left, top)` on an image of `image_w` by `image_h` pixels. The
    /// rectangle is not checked against the image: one that leaves it gets coordinates
    /// outside `[0, 1]`.
    pub fn from_pixel_values(
        image_w: u32,
        image_h: u32,
        width: u32,
        height: u32,
        left: u64,
        top: u64,
        offsets: PivotOffset,
    ) -> (r: Sprite)
        ensures
            r == sprite_of(image_w as int, image_h as int, width as int, height as int, left as int, top as int, offsets),
            r.tex_coords.left.den == r.tex_coords.right.den,
            r.tex_coords.left.num <= r.tex_coords.right.num,
            r.tex_coords.bottom.den == r.tex_coords.top.den,
            r.tex_coords.bottom.num <= r.tex_coords.top.num,
    {
        let l = left as i128;
        let t = top as i128;
        let tex_coords = TextureCoordinates {
            left: Ratio { num: l, den: image_w },
            right: Ratio { num: l + width as i128, den: image_w },
            top: Ratio { num: image_h as i128 - t, den: image_h },
            bottom: Ratio { num: image_h as i128 - (t + height as i128), den: image_h },
        };
        Sprite { width, height, offsets, tex_coords }
    }
}

} // verus!
