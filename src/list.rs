use vstd::prelude::*;

use crate::region::{sprite_of, PivotOffset, Sprite};

verus! {

/// One sprite of a `SpriteList`. Positions are measured from the top-left corner of
/// the image.
#[derive(Clone, Copy, Debug, PartialEq, Eq, Structural)]
pub struct SpritePosition {
    /// Horizontal position of the sprite on the sheet.
    pub x: u32,
    /// Vertical position of the sprite on the sheet.
    pub y: u32,
    /// Width of the sprite.
    pub width: u32,
    /// Height of the sprite.
    pub height: u32,
    /// Pixels to shift the sprite to the left and down relative to the entity holding it.
    pub offsets: Option<PivotOffset>,
}

/// A sprite sheet described as an explicit list of rectangles.
#[derive(Clone, Debug)]
pub struct SpriteList {
    /// Width of the sprite sheet in pixels.
    pub width: u32,
    /// Height of the sprite sheet in pixels.
    pub height: u32,
    /// The sprites, in order.
    pub sprites: Vec<SpritePosition>,
}

impl SpritePosition {
    /// The offset of the sprite, `(0, 0)` when none is given.
    pub open spec fn offsets_spec(&self) -> PivotOffset {
        match self.offsets {
            Some(o) => o,
            None => PivotOffset::zero_spec(),
        }
    }
}

impl SpriteList {
    /// The sprite that entry `p` of a sheet of `width` by `height` pixels describes.
    pub open spec fn entry_sprite(width: u32, height: u32, p: SpritePosition) -> Sprite {
        sprite_of(
            width as int,
            height as int,
            p.width as int,
            p.height as int,
            p.x as int,
            p.y as int,
            p.offsets_spec(),
        )
    }

    /// One sprite per entry, in the order of the entries.
    pub fn build_sprites(&self) -> (r: Vec<Sprite>)
        ensures
            r@.len() == self.sprites@.len(),
            forall|i: int|
                0 <= i < r@.len() ==> r@[i] == Self::entry_sprite(self.width, self.height, self.sprites@[i]),
    {
        let mut out: Vec<Sprite> = Vec::new();
        let mut i: usize = 0;
        while i < self.sprites.len()
            invariant
                i <= self.sprites@.len(),
                out@.len() == i,
                forall|j: int|
                    0 <= j < i ==> out@[j] == Self::entry_sprite(self.width, self.height, self.sprites@[j]),
            decreases self.sprites@.len() - i,
        {
            let pos = self.sprites[i];
            let offsets = match pos.offsets {
                Some(o) => o,
                None => PivotOffset::zero(),
            };
            out.push(
                Sprite::from_pixel_values(
                    self.width,
                    self.height,
                    pos.width,
                    pos.height,
                    pos.x as u64,
                    pos.y as u64,
                    offsets,
                ),
            );
            i = i + 1;
        }
        out
    }
}

} // verus!
