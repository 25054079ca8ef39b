//! Entities: named logical objects that aggregate components.
//!
//! An entity is owned by its scene and holds non-owning handles to the
//! components that represent its state and behaviour. Construction and
//! ownership registration of components happen in the scene; the entity only
//! indexes them, in insertion order.

pub mod friendly;

use vstd::prelude::*;

use crate::ecs::component::ComponentId;
use crate::ecs::scene::SceneId;

verus! {

/// A named logical object owned by a scene.
pub struct Entity {
    /// Non-owning handle of the owning scene.
    scene: SceneId,
    /// The name of the entity.
    name: String,
    /// The handles of the scene-owned components that "belong" to this
    /// entity, in insertion order.
    components: Vec<ComponentId>,
}

impl Entity {
    /// The handle of the owning scene.
    pub closed spec fn spec_scene(&self) -> SceneId {
        self.scene
    }

    /// The name of the entity.
    pub closed spec fn spec_name(&self) -> Seq<char> {
        self.name@
    }

    /// The attached component handles, in insertion order.
    pub closed spec fn spec_components(&self) -> Seq<ComponentId> {
        self.components@
    }

    /// Create a new entity bound to a scene, with a name and no components.
    pub fn new(scene: SceneId, name: &str) -> (e: Self)
        ensures
            e.spec_scene() == scene,
            e.spec_name() == name@,
            e.spec_components() == Seq::<ComponentId>::empty(),
    {
        let e = Self { scene, name: name.to_owned(), components: Vec::new() };
        proof {
            assert(e.spec_components() =~= Seq::<ComponentId>::empty());
        }
        e
    }

    /// Gets the handle of the scene that the entity belongs to.
    pub fn get_scene(&self) -> (s: SceneId)
        ensures
            s == self.spec_scene(),
    {
        self.scene
    }

    /// Gets the name of the entity.
    pub fn get_name(&self) -> (n: &String)
        ensures
            n@ == self.spec_name(),
    {
        &self.name
    }

    /// Gets the handles of every component that is "attached" to this entity,
    /// in insertion order.
    pub fn get_weak_components(&self) -> (c: &Vec<ComponentId>)
        ensures
            c@ == self.spec_components(),
    {
        &self.components
    }

    /// Pushes a component handle onto the entity. The handle should come from
    /// the scene that owns both this entity and the component.
    pub fn push_component(&mut self, component: ComponentId)
        ensures
            final(self).spec_scene() == old(self).spec_scene(),
            final(self).spec_name() == old(self).spec_name(),
            final(self).spec_components() == old(self).spec_components().push(component),
    {
        self.components.push(component);
    }

    /// Looks up the position of a component handle in the attachment list.
    /// Returns the first position holding the handle, or `None` when the
    /// handle is not attached.
    pub fn find_component(&self, component: ComponentId) -> (r: Option<usize>)
        ensures
            match r {
                Some(k) => {
                    &&& 0 <= k < self.spec_components().len()
                    &&& self.spec_components()[k as int] == component
                    &&& forall|j: int| 0 <= j < k ==> self.spec_components()[j] != component
                },
                None => !self.spec_components().contains(component),
            },
    {
        let n = self.components.len();
        let mut k: usize = 0;
        while k < n
            invariant
                k <= n,
                n == self.spec_components().len(),
                forall|j: int| 0 <= j < k ==> self.spec_components()[j] != component,
            decreases n - k,
        {
            if self.components[k] == component {
                return Some(k);
            }
            k += 1;
        }
        None
    }

    /// Removes the attachment-list entry at a position, shifting the entries
    /// after it to the left.
    pub fn remove_component_at(&mut self, k: usize) -> (removed: ComponentId)
        requires
            k < old(self).spec_components().len(),
        ensures
            final(self).spec_scene() == old(self).spec_scene(),
            final(self).spec_name() == old(self).spec_name(),
            final(self).spec_components() == old(self).spec_components().remove(k as int),
            removed == old(self).spec_components()[k as int],
    {
        self.components.remove(k)
    }
}

} // verus!
