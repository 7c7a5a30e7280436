use vstd::prelude::*;

use crate::region::Sprite;
use crate::sheet::{assemble, parts_defined, sheet_sprites_of, Sprites};

verus! {

/// Errors of resolving prefabs.
#[derive(Clone, Copy, Debug, PartialEq, Eq, Structural)]
pub enum PrefabError {
    /// A sprite reference names a sheet index that the registry does not hold yet.
    RegistryIndexOutOfRange { index: usize, len: usize },
}

/// The sheets loaded so far in one batch, in the order in which they were loaded.
/// Sheets are only ever appended, so the index of a sheet never changes.
#[verifier::reject_recursive_types(H)]
#[derive(Clone, Debug)]
pub struct SpriteSheetLoadedSet<H>(pub Vec<H>);

/// The sheet that index `index` of the registry `sheets` resolves to, if any.
pub open spec fn lookup<H>(sheets: Seq<H>, index: int) -> Option<H> {
    if 0 <= index < sheets.len() {
        Some(sheets[index])
    } else {
        None
    }
}

/// Registry indices are stable: once sheets `sheets` are registered, appending any
/// further sheets `more` leaves every index `k` below `sheets.len()` resolving to the
/// `k`-th sheet registered, and every index past the end of the whole registry
/// resolving to nothing.
pub proof fn lemma_index_stable<H>(sheets: Seq<H>, more: Seq<H>, k: int)
    requires
        0 <= k,
    ensures
        k < sheets.len() ==> lookup(sheets + more, k) == Some(sheets[k]),
        k < sheets.len() ==> lookup(sheets, k) == lookup(sheets + more, k),
        k >= sheets.len() + more.len() ==> lookup(sheets + more, k) is None,
{
}

impl<H> View for SpriteSheetLoadedSet<H> {
    type V = Seq<H>;

    open spec fn view(&self) -> Seq<H> {
        self.0@
    }
}

impl<H> SpriteSheetLoadedSet<H> {
    /// An empty registry, as at the start of a batch.
    pub fn new() -> (r: Self)
        ensures
            r@ == Seq::<H>::empty(),
    {
        SpriteSheetLoadedSet(Vec::new())
    }

    /// Appends a sheet; it gets the next index.
    pub fn push(&mut self, sheet: H)
        ensures
            final(self)@ == old(self)@.push(sheet),
    {
        self.0.push(sheet);
    }

    /// The number of sheets registered.
    pub fn len(&self) -> (r: usize)
        ensures
            r == self@.len(),
    {
        self.0.len()
    }

    /// The sheet at `index`, if there is one.
    pub fn get(&self, index: usize) -> (r: Option<&H>)
        ensures
            r matches Some(h) ==> lookup(self@, index as int) == Some(*h),
            r is None ==> lookup(self@, index as int) is None,
    {
        if index < self.0.len() {
            Some(&self.0[index])
        } else {
            None
        }
    }
}

/// A sprite to draw: a sheet and the number of a sprite on it.
#[derive(Clone, Debug)]
pub struct SpriteRender<H> {
    pub sprite_sheet: H,
    pub sprite_number: usize,
}

/// A reference to a sprite of a sheet that was loaded earlier in the batch, by the
/// sheet's index in the registry. Resolving it looks the sheet up and keeps its handle.
#[derive(Clone, Debug)]
pub struct SpriteRenderPrefab<H> {
    /// Index of the sprite sheet in the registry.
    pub sheet: usize,
    /// Index of the sprite on the sprite sheet.
    pub sprite_number: usize,
    /// The sheet found by resolving; `None` until then.
    pub handle: Option<H>,
}

impl<H: Clone> SpriteRenderPrefab<H> {
    /// An unresolved reference to sprite `sprite_number` of sheet `sheet`.
    pub fn new(sheet: usize, sprite_number: usize) -> (r: Self)
        ensures
            r.sheet == sheet,
            r.sprite_number == sprite_number,
            r.handle is None,
    {
        SpriteRenderPrefab { sheet, sprite_number, handle: None }
    }

    /// Resolves the sheet index against the registry. On success the reference keeps a
    /// clone of the sheet at that index and `Ok(false)` is returned: nothing of its own
    /// was loaded. An index at or past the registry's length is an error, and the
    /// reference is left as it was.
    pub fn load_sub_assets(&mut self, loaded: &SpriteSheetLoadedSet<H>) -> (r: Result<bool, PrefabError>)
        ensures
            final(self).sheet == old(self).sheet,
            final(self).sprite_number == old(self).sprite_number,
            old(self).sheet < loaded@.len() ==> {
                &&& r == Ok::<bool, PrefabError>(false)
                &&& final(self).handle matches Some(h) && cloned(loaded@[old(self).sheet as int], h)
            },
            old(self).sheet >= loaded@.len() ==> {
                &&& r == Err::<bool, PrefabError>(
                    PrefabError::RegistryIndexOutOfRange { index: old(self).sheet, len: loaded@.len() as usize },
                )
                &&& final(self).handle == old(self).handle
            },
    {
        match loaded.get(self.sheet) {
            Some(h) => {
                self.handle = Some(h.clone());
                Ok(false)
            },
            None => Err(PrefabError::RegistryIndexOutOfRange { index: self.sheet, len: loaded.len() }),
        }
    }

    /// The component to attach to an entity: the resolved sheet and the sprite number.
    pub fn add_to_entity(&self) -> (r: SpriteRender<H>)
        requires
            self.handle is Some,
        ensures
            cloned(self.handle->0, r.sprite_sheet),
            r.sprite_number == self.sprite_number,
    {
        let h = self.handle.as_ref().unwrap();
        SpriteRender { sprite_sheet: h.clone(), sprite_number: self.sprite_number }
    }
}

/// A sprite sheet: first declared, by a texture and the parts that describe its
/// sprites, then, once loaded, the handle that the asset store issued for it.
#[derive(Clone, Debug)]
pub enum SpriteSheetPrefab<H, T> {
    /// The loaded sheet.
    Handle(H),
    /// The declaration of a sheet.
    Sheet {
        /// The texture that holds the images of the sheet.
        texture: T,
        /// The parts that describe the sprites of the sheet.
        sprites: Vec<Sprites>,
    },
}

impl<H: Clone, T> SpriteSheetPrefab<H, T> {
    /// The sprites of a declared sheet, assembled from its parts in order; `None` once
    /// the sheet is loaded. These go to the asset store with the loaded texture.
    pub fn build_sprites(&self) -> (r: Option<Vec<Sprite>>)
        requires
            self matches SpriteSheetPrefab::Sheet { sprites, .. } ==> parts_defined(sprites@),
        ensures
            self matches SpriteSheetPrefab::Sheet { sprites, .. } ==> (r matches Some(v) && v@
                == sheet_sprites_of(sprites@)),
            self is Handle ==> r is None,
    {
        match self {
            SpriteSheetPrefab::Sheet { sprites, .. } => Some(assemble(sprites)),
            SpriteSheetPrefab::Handle(_) => None,
        }
    }

    /// Records the handle that the asset store issued for the assembled sheet, if any:
    /// the declaration is then replaced by the handle and `true` is returned. Without
    /// one nothing changes and `false` is returned.
    pub fn load_sub_assets(&mut self, issued: Option<H>) -> (changed: bool)
        ensures
            issued matches Some(h) ==> (changed && *final(self) == SpriteSheetPrefab::<H, T>::Handle(h)),
            issued is None ==> !changed && *final(self) == *old(self),
    {
        match issued {
            Some(h) => {
                *self = SpriteSheetPrefab::Handle(h);
                true
            },
            None => false,
        }
    }

    /// The handle of the loaded sheet.
    pub fn add_to_entity(&self) -> (r: H)
        requires
            self is Handle,
        ensures
            *self matches SpriteSheetPrefab::Handle(h) && cloned(h, r),
    {
        match self {
            SpriteSheetPrefab::Handle(h) => h.clone(),
            SpriteSheetPrefab::Sheet { .. } => unreached(),
        }
    }
}

/// An entity of a sprite scene: optionally a sheet to load and register, a sprite to
/// draw and a transform. A sheet registered here gets the next index of the registry,
/// so sprite references of later entities, and of this one, can name it.
#[derive(Clone, Debug)]
pub struct SpriteScenePrefab<H, T, X> {
    /// Sprite sheet to load and register.
    pub sheet: Option<SpriteSheetPrefab<H, T>>,
    /// Sprite to draw on the entity.
    pub render: Option<SpriteRenderPrefab<H>>,
    /// Transform of the entity.
    pub transform: Option<X>,
}

impl<H: Clone, T, X> SpriteScenePrefab<H, T, X> {
    /// Resolves the entity's parts in order. The sheet, if any, first takes the handle
    /// that the asset store issued for it (see `SpriteSheetPrefab::load_sub_assets`) and
    /// is appended to the registry; then the sprite reference, if any, is resolved
    /// against the registry, which therefore already holds this entity's own sheet.
    /// Returns whether the sheet changed, or the reference's error.
    pub fn load_sub_assets(&mut self, issued: Option<H>, loaded: &mut SpriteSheetLoadedSet<H>) -> (r: Result<bool, PrefabError>)
        requires
            old(self).sheet matches Some(s) ==> (s is Handle || issued is Some),
        ensures
            final(self).transform == old(self).transform,
            old(self).sheet is None ==> final(self).sheet is None && final(loaded)@ == old(loaded)@,
            old(self).sheet is Some ==> {
                &&& final(self).sheet matches Some(SpriteSheetPrefab::Handle(h))
                &&& final(loaded)@.len() == old(loaded)@.len() + 1
                &&& final(loaded)@.subrange(0, old(loaded)@.len() as int) == old(loaded)@
                &&& cloned(h, final(loaded)@.last())
                &&& issued matches Some(i) ==> h == i
                &&& issued is None ==> old(self).sheet == final(self).sheet
            },
            old(self).render is None ==> final(self).render is None,
            old(self).render matches Some(p) ==> {
                &&& final(self).render matches Some(q)
                &&& q.sheet == p.sheet && q.sprite_number == p.sprite_number
                &&& p.sheet < final(loaded)@.len() ==> (q.handle matches Some(h) && cloned(final(loaded)@[p.sheet as int], h))
                &&& p.sheet >= final(loaded)@.len() ==> r == Err::<bool, PrefabError>(
                    PrefabError::RegistryIndexOutOfRange { index: p.sheet, len: final(loaded)@.len() as usize },
                )
            },
            r matches Ok(changed) ==> changed == (old(self).sheet is Some && issued is Some),
            r is Err ==> (old(self).render matches Some(p) && p.sheet >= final(loaded)@.len()),
    {
        let mut changed = false;
        match &mut self.sheet {
            Some(sheet) => {
                if sheet.load_sub_assets(issued) {
                    changed = true;
                }
                let handle = sheet.add_to_entity();
                loaded.push(handle);
            },
            None => {},
        }
        match &mut self.render {
            Some(render) => {
                render.load_sub_assets(loaded)?;
            },
            None => {},
        }
        Ok(changed)
    }

    /// The sprite component to attach to the entity, if it has a sprite reference.
    pub fn add_to_entity(&self) -> (r: Option<SpriteRender<H>>)
        requires
            self.render matches Some(p) ==> p.handle is Some,
        ensures
            self.render is None ==> r is None,
            self.render matches Some(p) ==> (r matches Some(c) && cloned(p.handle->0, c.sprite_sheet)
                && c.sprite_number == p.sprite_number),
    {
        match &self.render {
            Some(render) => Some(render.add_to_entity()),
            None => None,
        }
    }
}

} // verus!
