use vstd::prelude::*;

use crate::grid::SpriteGrid;
use crate::list::SpriteList;
use crate::region::Sprite;

verus! {

/// One part of a sprite sheet's description.
#[derive(Clone, Debug)]
pub enum Sprites {
    /// A list of sprites.
    List(SpriteList),
    /// A grid of sprites, see `SpriteGrid`.
    Grid(SpriteGrid),
}

/// The sprites that `s` describes, as its resolver builds them.
pub open spec fn sprites_of(s: Sprites) -> Seq<Sprite> {
    match s {
        Sprites::List(l) => Seq::new(
            l.sprites@.len(),
            |i: int| SpriteList::entry_sprite(l.width, l.height, l.sprites@[i]),
        ),
        Sprites::Grid(g) => Seq::new(g.count_spec() as nat, |i: int| g.cell_sprite(i)),
    }
}

/// The sprites of all parts, part after part in declaration order.
pub open spec fn sheet_sprites_of(parts: Seq<Sprites>) -> Seq<Sprite>
    decreases parts.len(),
{
    if parts.len() == 0 {
        Seq::empty()
    } else {
        sheet_sprites_of(parts.drop_last()) + sprites_of(parts.last())
    }
}

impl Sprites {
    pub open spec fn defined(&self) -> bool {
        match self {
            Sprites::List(_) => true,
            Sprites::Grid(g) => g.build_defined(),
        }
    }

    /// The sprites of this part.
    pub fn build_sprites(&self) -> (r: Vec<Sprite>)
        requires
            self.defined(),
        ensures
            r@ == sprites_of(*self),
    {
        match self {
            Sprites::List(list) => {
                let r = list.build_sprites();
                assert(r@ =~= sprites_of(*self));
                r
            },
            Sprites::Grid(grid) => {
                let r = grid.build_sprites();
                assert(r@ =~= sprites_of(*self));
                r
            },
        }
    }
}

/// Every part of a sheet's description can be resolved.
pub open spec fn parts_defined(parts: Seq<Sprites>) -> bool {
    forall|i: int| 0 <= i < parts.len() ==> (#[trigger] parts[i]).defined()
}

/// Whether every part can be resolved.
pub fn parts_buildable(parts: &Vec<Sprites>) -> (r: bool)
    ensures
        r == parts_defined(parts@),
{
    let mut i: usize = 0;
    while i < parts.len()
        invariant
            i <= parts@.len(),
            forall|j: int| 0 <= j < i ==> (#[trigger] parts@[j]).defined(),
        decreases parts@.len() - i,
    {
        let ok = match &parts[i] {
            Sprites::List(_) => true,
            Sprites::Grid(g) => g.is_buildable(),
        };
        if !ok {
            return false;
        }
        i = i + 1;
    }
    true
}

/// The sprites of a whole sheet: those of each part, concatenated in the order of the
/// parts. Sprite `i` of the sheet is the one that sprite references number `i`.
pub fn assemble(parts: &Vec<Sprites>) -> (r: Vec<Sprite>)
    requires
        parts_defined(parts@),
    ensures
        r@ == sheet_sprites_of(parts@),
{
    let mut out: Vec<Sprite> = Vec::new();
    let mut i: usize = 0;
    while i < parts.len()
        invariant
            i <= parts@.len(),
            parts_defined(parts@),
            out@ == sheet_sprites_of(parts@.subrange(0, i as int)),
        decreases parts@.len() - i,
    {
        let mut part = parts[i].build_sprites();
        assert(parts@.subrange(0, i + 1).drop_last() =~= parts@.subrange(0, i as int));
        out.append(&mut part);
        i = i + 1;
    }
    assert(parts@.subrange(0, i as int) =~= parts@);
    out
}

} // verus!
