//! Components: typed units of data and behaviour attached to entities.
//!
//! A component is owned exclusively by its scene and holds a non-owning
//! back-reference (an [`EntityId`] handle) to its parent entity. A static
//! type tag discriminates the variant, so a render scan can filter by tag
//! without dynamic type inspection.

use vstd::prelude::*;

verus! {

/// Stable handle of an entity inside its owning scene's entity arena.
pub type EntityId = usize;

/// Stable handle of a component inside its owning scene's component arena.
pub type ComponentId = usize;

/// All the different types of components.
#[derive(Clone, Copy, Debug, PartialEq, Eq, Structural)]
pub enum ComponentType {
    /// A mesh component.
    Mesh,
    /// A transform component.
    Transform,
    /// A script component.
    Script,
}

/// A component that belongs to an entity.
///
/// Every variant binds its parent back-reference at construction time, keeps
/// it stable for its whole lifetime, and exposes a cheap static tag for
/// scan-based dispatch. The lifecycle hooks are invoked by the owning scene:
/// `on_start` once at attach time, `on_update` once per frame, and `on_stop`
/// once at detach time. None of the built-in variants carries per-frame
/// behaviour yet, so the hooks leave the component unchanged.
pub trait Component: Sized {
    /// The component value that `from` builds for a given parent.
    spec fn spec_from(parent: EntityId) -> Self;

    /// The stored back-reference to the parent entity.
    spec fn spec_parent(&self) -> EntityId;

    /// The static tag of this variant.
    spec fn spec_type(&self) -> ComponentType;

    /// Creates a component bound to a parent entity.
    fn from(parent: EntityId) -> (c: Self)
        ensures
            c == Self::spec_from(parent),
            c.spec_parent() == parent;

    /// Returns the static tag used by scan-based filtering.
    fn type_of(&self) -> (t: ComponentType)
        ensures
            t == self.spec_type();

    /// Returns the parent handle. Never fails: the handle is returned as
    /// stored, whether or not it still resolves in the owning scene.
    fn get_weak_parent(&self) -> (p: EntityId)
        ensures
            p == self.spec_parent();

    /// Called once per frame.
    fn on_update(&mut self)
        ensures
            *final(self) == *old(self);

    /// Called on initialisation.
    fn on_start(&mut self)
        ensures
            *final(self) == *old(self);

    /// Called on destruction.
    fn on_stop(&mut self)
        ensures
            *final(self) == *old(self);
}

/// A "friendly" (human readable and writable) component description used by
/// authoring-time scene descriptions. It only needs to say which runtime
/// variant it stands for.
pub trait FriendlyComponent {
    /// The runtime variant this description stands for.
    spec fn spec_component_type(&self) -> ComponentType;

    /// Returns the runtime variant this description stands for.
    fn component_type(&self) -> (t: ComponentType)
        ensures
            t == self.spec_component_type();
}

impl FriendlyComponent for ComponentType {
    open spec fn spec_component_type(&self) -> ComponentType {
        *self
    }

    fn component_type(&self) -> ComponentType {
        *self
    }
}

/// A mesh component: a drawable unit selected by the render pass.
#[derive(Clone, Copy, Debug, PartialEq, Eq, Structural)]
pub struct Mesh {
    /// Back-reference to the parent entity.
    pub parent: EntityId,
}

impl Component for Mesh {
    open spec fn spec_from(parent: EntityId) -> Mesh {
        Mesh { parent }
    }

    open spec fn spec_parent(&self) -> EntityId {
        self.parent
    }

    open spec fn spec_type(&self) -> ComponentType {
        ComponentType::Mesh
    }

    fn from(parent: EntityId) -> Mesh {
        Mesh { parent }
    }

    fn type_of(&self) -> ComponentType {
        ComponentType::Mesh
    }

    fn get_weak_parent(&self) -> EntityId {
        self.parent
    }

    fn on_update(&mut self) {
    }

    fn on_start(&mut self) {
    }

    fn on_stop(&mut self) {
    }
}

/// A transform component: a position in space.
#[derive(Clone, Copy, Debug, PartialEq, Eq, Structural)]
pub struct Transform {
    /// Back-reference to the parent entity.
    pub parent: EntityId,
    /// Position on the x axis.
    pub x: i64,
    /// Position on the y axis.
    pub y: i64,
    /// Position on the z axis.
    pub z: i64,
}

impl Component for Transform {
    open spec fn spec_from(parent: EntityId) -> Transform {
        Transform { parent, x: 420, y: 69, z: 516 }
    }

    open spec fn spec_parent(&self) -> EntityId {
        self.parent
    }

    open spec fn spec_type(&self) -> ComponentType {
        ComponentType::Transform
    }

    fn from(parent: EntityId) -> Transform {
        Transform { parent, x: 420, y: 69, z: 516 }
    }

    fn type_of(&self) -> ComponentType {
        ComponentType::Transform
    }

    fn get_weak_parent(&self) -> EntityId {
        self.parent
    }

    fn on_update(&mut self) {
    }

    fn on_start(&mut self) {
    }

    fn on_stop(&mut self) {
    }
}

/// A script component: a hook-only behaviour unit.
#[derive(Clone, Copy, Debug, PartialEq, Eq, Structural)]
pub struct Script {
    /// Back-reference to the parent entity.
    pub parent: EntityId,
}

impl Component for Script {
    open spec fn spec_from(parent: EntityId) -> Script {
        Script { parent }
    }

    open spec fn spec_parent(&self) -> EntityId {
        self.parent
    }

    open spec fn spec_type(&self) -> ComponentType {
        ComponentType::Script
    }

    fn from(parent: EntityId) -> Script {
        Script { parent }
    }

    fn type_of(&self) -> ComponentType {
        ComponentType::Script
    }

    fn get_weak_parent(&self) -> EntityId {
        self.parent
    }

    fn on_update(&mut self) {
    }

    fn on_start(&mut self) {
    }

    fn on_stop(&mut self) {
    }
}

/// The closed tagged union over all component variants. The scene's component
/// arena stores these, so the render scan can branch on the tag without any
/// dynamic type inspection.
#[derive(Clone, Copy, Debug, PartialEq, Eq, Structural)]
pub enum AnyComponent {
    /// A mesh component.
    Mesh(Mesh),
    /// A transform component.
    Transform(Transform),
    /// A script component.
    Script(Script),
}

impl AnyComponent {
    /// The stored back-reference to the parent entity.
    pub open spec fn spec_parent(&self) -> EntityId {
        match self {
            AnyComponent::Mesh(c) => c.spec_parent(),
            AnyComponent::Transform(c) => c.spec_parent(),
            AnyComponent::Script(c) => c.spec_parent(),
        }
    }

    /// The static tag of the stored variant.
    pub open spec fn spec_type(&self) -> ComponentType {
        match self {
            AnyComponent::Mesh(c) => c.spec_type(),
            AnyComponent::Transform(c) => c.spec_type(),
            AnyComponent::Script(c) => c.spec_type(),
        }
    }

    /// The component value that `create` builds for a given tag and parent.
    pub open spec fn spec_create(tag: ComponentType, parent: EntityId) -> AnyComponent {
        match tag {
            ComponentType::Mesh => AnyComponent::Mesh(Mesh::spec_from(parent)),
            ComponentType::Transform => AnyComponent::Transform(Transform::spec_from(parent)),
            ComponentType::Script => AnyComponent::Script(Script::spec_from(parent)),
        }
    }

    /// Creates a component of the given variant bound to a parent entity.
    pub fn create(tag: ComponentType, parent: EntityId) -> (c: Self)
        ensures
            c == AnyComponent::spec_create(tag, parent),
            c.spec_parent() == parent,
            c.spec_type() == tag,
    {
        match tag {
            ComponentType::Mesh => AnyComponent::Mesh(<Mesh as Component>::from(parent)),
            ComponentType::Transform => AnyComponent::Transform(
                <Transform as Component>::from(parent),
            ),
            ComponentType::Script => AnyComponent::Script(<Script as Component>::from(parent)),
        }
    }

    /// Returns the static tag of the stored variant.
    pub fn type_of(&self) -> (t: ComponentType)
        ensures
            t == self.spec_type(),
    {
        match self {
            AnyComponent::Mesh(c) => c.type_of(),
            AnyComponent::Transform(c) => c.type_of(),
            AnyComponent::Script(c) => c.type_of(),
        }
    }

    /// Returns the parent handle as stored, whether or not it still resolves.
    pub fn get_weak_parent(&self) -> (p: EntityId)
        ensures
            p == self.spec_parent(),
    {
        match self {
            AnyComponent::Mesh(c) => c.get_weak_parent(),
            AnyComponent::Transform(c) => c.get_weak_parent(),
            AnyComponent::Script(c) => c.get_weak_parent(),
        }
    }

    /// Dispatches the per-frame hook to the stored variant.
    pub fn on_update(&mut self)
        ensures
            *final(self) == *old(self),
    {
        match self {
            AnyComponent::Mesh(c) => c.on_update(),
            AnyComponent::Transform(c) => c.on_update(),
            AnyComponent::Script(c) => c.on_update(),
        }
    }

    /// Dispatches the attach hook to the stored variant.
    pub fn on_start(&mut self)
        ensures
            *final(self) == *old(self),
    {
        match self {
            AnyComponent::Mesh(c) => c.on_start(),
            AnyComponent::Transform(c) => c.on_start(),
            AnyComponent::Script(c) => c.on_start(),
        }
    }

    /// Dispatches the detach hook to the stored variant.
    pub fn on_stop(&mut self)
        ensures
            *final(self) == *old(self),
    {
        match self {
            AnyComponent::Mesh(c) => c.on_stop(),
            AnyComponent::Transform(c) => c.on_stop(),
            AnyComponent::Script(c) => c.on_stop(),
        }
    }
}

} // verus!
