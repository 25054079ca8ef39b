//! Authoring-time entity description.

use vstd::prelude::*;

use crate::ecs::component::ComponentType;

verus! {

/// An author-facing entity description: a name together with the ordered
/// list of component variants the runtime entity should carry. Converted
/// once, as part of a friendly scene, into a runtime entity.
pub struct FriendlyEntity {
    name: String,
    components: Vec<ComponentType>,
}

impl FriendlyEntity {
    /// The authored entity name.
    pub closed spec fn spec_name(&self) -> Seq<char> {
        self.name@
    }

    /// The authored component tags, in authored order.
    pub closed spec fn spec_components(&self) -> Seq<ComponentType> {
        self.components@
    }

    /// Creates an entity description with a name and no components.
    pub fn new(name: &str) -> (e: Self)
        ensures
            e.spec_name() == name@,
            e.spec_components() == Seq::<ComponentType>::empty(),
    {
        let e = Self { name: name.to_owned(), components: Vec::new() };
        proof {
            assert(e.spec_components() =~= Seq::<ComponentType>::empty());
        }
        e
    }

    /// Appends a component description.
    pub fn with_component(self, component: ComponentType) -> (e: Self)
        ensures
            e.spec_name() == self.spec_name(),
            e.spec_components() == self.spec_components().push(component),
    {
        let mut e = self;
        e.components.push(component);
        e
    }

    /// Gets the authored entity name.
    pub fn get_name(&self) -> (n: &String)
        ensures
            n@ == self.spec_name(),
    {
        &self.name
    }

    /// Gets the authored component tags, in authored order.
    pub fn get_components(&self) -> (c: &Vec<ComponentType>)
        ensures
            c@ == self.spec_components(),
    {
        &self.components
    }
}

} // verus!
