//! Scenes: the owning aggregate of all entities and components of one level.
//!
//! The scene holds the only owning collections in the object graph: one arena
//! of entities and one arena of components. Every cross-link (entity to
//! component, component to entity) is a non-owning index handle into these
//! arenas. Handles are stable: destruction clears an arena slot and never
//! reuses it, so a stale handle is detectable instead of silently resolving
//! to an unrelated element.

pub mod friendly;

use vstd::prelude::*;

use crate::ecs::component::AnyComponent;
use crate::ecs::component::ComponentId;
use crate::ecs::component::ComponentType;
use crate::ecs::component::EntityId;
use crate::ecs::entity::Entity;

verus! {

/// Stable handle of a scene inside the application's scene set.
pub type SceneId = usize;

/// Whether the component arena holds a live component at slot `c`.
pub open spec fn comps_live(components: Seq<Option<AnyComponent>>, c: int) -> bool {
    0 <= c < components.len() && components[c] is Some
}

/// The parent back-reference stored in the live component at slot `c`.
pub open spec fn comps_parent(components: Seq<Option<AnyComponent>>, c: int) -> EntityId
    recommends
        comps_live(components, c),
{
    components[c]->Some_0.spec_parent()
}

/// The tag of the live component at slot `c`.
pub open spec fn comps_type(components: Seq<Option<AnyComponent>>, c: int) -> ComponentType
    recommends
        comps_live(components, c),
{
    components[c]->Some_0.spec_type()
}

/// Whether the entity arena holds a live entity at slot `e`.
pub open spec fn ents_live(entities: Seq<Option<Entity>>, e: int) -> bool {
    0 <= e < entities.len() && entities[e] is Some
}

/// The live entity at slot `e`.
pub open spec fn ents_at(entities: Seq<Option<Entity>>, e: int) -> Entity
    recommends
        ents_live(entities, e),
{
    entities[e]->Some_0
}

/// Well-formedness of one live entity's attachment list against the arenas:
/// the entity belongs to this scene, every listed handle resolves to a live
/// component that points back at this entity, and the list is strictly
/// increasing (so it holds each component at most once, in spawn order).
pub open spec fn ent_wf_in(
    id: SceneId,
    entities: Seq<Option<Entity>>,
    components: Seq<Option<AnyComponent>>,
    e: int,
) -> bool {
    let list = ents_at(entities, e).spec_components();
    &&& ents_at(entities, e).spec_scene() == id
    &&& forall|k: int|
        #![trigger list[k]]
        0 <= k < list.len() ==> {
            &&& comps_live(components, list[k] as int)
            &&& comps_parent(components, list[k] as int) == e
        }
    &&& forall|k1: int, k2: int|
        #![trigger list[k1], list[k2]]
        0 <= k1 < k2 < list.len() ==> list[k1] < list[k2]
}

/// Well-formedness of the whole ownership graph: every live component's
/// back-reference indexes the entity arena, every live entity's attachment
/// list is consistent, and every live component whose parent is still live is
/// indexed by that parent. A live component whose parent slot has been
/// cleared is a dangling back-reference; the graph tolerates it only so that
/// resolution can detect it.
pub open spec fn graph_wf(
    id: SceneId,
    entities: Seq<Option<Entity>>,
    components: Seq<Option<AnyComponent>>,
) -> bool {
    &&& forall|c: int|
        #[trigger] comps_live(components, c) ==> (comps_parent(components, c) as int)
            < entities.len()
    &&& forall|e: int| #[trigger] ents_live(entities, e) ==> ent_wf_in(id, entities, components, e)
    &&& forall|c: int|
        #[trigger] comps_live(components, c) && ents_live(
            entities,
            comps_parent(components, c) as int,
        ) ==> ents_at(entities, comps_parent(components, c) as int).spec_components().contains(
            c as ComponentId,
        )
}

/// The handles of the live components among the first `n` arena slots whose
/// tag equals `tag`, in slot order (which is insertion order).
pub open spec fn type_members_prefix(
    components: Seq<Option<AnyComponent>>,
    tag: ComponentType,
    n: int,
) -> Seq<ComponentId>
    decreases n,
{
    if n <= 0 {
        Seq::<ComponentId>::empty()
    } else {
        let rest = type_members_prefix(components, tag, n - 1);
        if components[n - 1] matches Some(c) && c.spec_type() == tag {
            rest.push((n - 1) as ComponentId)
        } else {
            rest
        }
    }
}

/// The handles of the live components among the first `n` arena slots, in
/// slot order (which is insertion order).
pub open spec fn live_members_prefix(components: Seq<Option<AnyComponent>>, n: int) -> Seq<
    ComponentId,
>
    decreases n,
{
    if n <= 0 {
        Seq::<ComponentId>::empty()
    } else {
        let rest = live_members_prefix(components, n - 1);
        if components[n - 1] is Some {
            rest.push((n - 1) as ComponentId)
        } else {
            rest
        }
    }
}

/// What a scan over the first `n` slots selects for a tag: exactly the live
/// components carrying that tag, each at most once, in increasing slot order.
pub proof fn lemma_type_members_prefix(
    components: Seq<Option<AnyComponent>>,
    tag: ComponentType,
    n: int,
)
    requires
        0 <= n <= components.len(),
        n <= usize::MAX,
    ensures
        ({
            let members = type_members_prefix(components, tag, n);
            &&& forall|k: int|
                #![trigger members[k]]
                0 <= k < members.len() ==> {
                    &&& members[k] < n
                    &&& comps_live(components, members[k] as int)
                    &&& comps_type(components, members[k] as int) == tag
                }
            &&& forall|c: int|
                #[trigger] comps_live(components, c) && c < n && comps_type(components, c) == tag
                    ==> members.contains(c as ComponentId)
            &&& forall|k1: int, k2: int|
                #![trigger members[k1], members[k2]]
                0 <= k1 < k2 < members.len() ==> members[k1] < members[k2]
        }),
    decreases n,
{
    if n > 0 {
        lemma_type_members_prefix(components, tag, n - 1);
        let prev = type_members_prefix(components, tag, n - 1);
        let members = type_members_prefix(components, tag, n);
        let selected = components[n - 1] matches Some(c) && c.spec_type() == tag;
        if selected {
            assert(members == prev.push((n - 1) as ComponentId));
            assert(comps_live(components, n - 1));
        } else {
            assert(members == prev);
        }
        assert forall|k: int| #![trigger members[k]] 0 <= k < members.len() implies {
            &&& members[k] < n
            &&& comps_live(components, members[k] as int)
            &&& comps_type(components, members[k] as int) == tag
        } by {
            if k < prev.len() {
                assert(members[k] == prev[k]);
            }
        }
        assert forall|c: int|
            #[trigger] comps_live(components, c) && c < n && comps_type(components, c)
                == tag implies members.contains(c as ComponentId) by {
            if c < n - 1 {
                assert(prev.contains(c as ComponentId));
                let j = choose|j: int| 0 <= j < prev.len() && prev[j] == c as ComponentId;
                assert(members[j] == c as ComponentId);
            } else {
                assert(members[members.len() - 1] == c as ComponentId);
            }
        }
        assert forall|k1: int, k2: int|
            #![trigger members[k1], members[k2]]
            0 <= k1 < k2 < members.len() implies members[k1] < members[k2] by {
            if k2 < prev.len() {
                assert(prev[k1] < prev[k2]);
            } else {
                assert(members[k1] == prev[k1]);
            }
        }
    }
}

/// What a full pass over the first `n` slots visits: exactly the live
/// components, each at most once, in increasing slot order.
pub proof fn lemma_live_members_prefix(components: Seq<Option<AnyComponent>>, n: int)
    requires
        0 <= n <= components.len(),
        n <= usize::MAX,
    ensures
        ({
            let members = live_members_prefix(components, n);
            &&& forall|k: int|
                #![trigger members[k]]
                0 <= k < members.len() ==> {
                    &&& members[k] < n
                    &&& comps_live(components, members[k] as int)
                }
            &&& forall|c: int|
                #[trigger] comps_live(components, c) && c < n ==> members.contains(
                    c as ComponentId,
                )
            &&& forall|k1: int, k2: int|
                #![trigger members[k1], members[k2]]
                0 <= k1 < k2 < members.len() ==> members[k1] < members[k2]
        }),
    decreases n,
{
    if n > 0 {
        lemma_live_members_prefix(components, n - 1);
        let prev = live_members_prefix(components, n - 1);
        let members = live_members_prefix(components, n);
        if components[n - 1] is Some {
            assert(members == prev.push((n - 1) as ComponentId));
            assert(comps_live(components, n - 1));
        } else {
            assert(members == prev);
        }
        assert forall|k: int| #![trigger members[k]] 0 <= k < members.len() implies {
            &&& members[k] < n
            &&& comps_live(components, members[k] as int)
        } by {
            if k < prev.len() {
                assert(members[k] == prev[k]);
            }
        }
        assert forall|c: int| #[trigger] comps_live(components, c) && c < n implies members
            .contains(c as ComponentId) by {
            if c < n - 1 {
                assert(prev.contains(c as ComponentId));
                let j = choose|j: int| 0 <= j < prev.len() && prev[j] == c as ComponentId;
                assert(members[j] == c as ComponentId);
            } else {
                assert(members[members.len() - 1] == c as ComponentId);
            }
        }
        assert forall|k1: int, k2: int|
            #![trigger members[k1], members[k2]]
            0 <= k1 < k2 < members.len() implies members[k1] < members[k2] by {
            if k2 < prev.len() {
                assert(prev[k1] < prev[k2]);
            } else {
                assert(members[k1] == prev[k1]);
            }
        }
    }
}

/// A container that all the entities are stored in. May be swapped in and
/// out of the application's scene set.
pub struct Scene {
    /// The handle of this scene inside the application's scene set.
    id: SceneId,
    /// The name of the scene.
    name: String,
    /// The arena owning all the components we have.
    components: Vec<Option<AnyComponent>>,
    /// The arena owning all the entities we have. Should *never* be used to
    /// search; engine-internal scans iterate the components instead.
    entities: Vec<Option<Entity>>,
}

impl Scene {
    /// The handle of this scene inside the application's scene set.
    pub closed spec fn spec_id(&self) -> SceneId {
        self.id
    }

    /// The name of the scene.
    pub closed spec fn spec_name(&self) -> Seq<char> {
        self.name@
    }

    /// The component arena.
    pub closed spec fn spec_components(&self) -> Seq<Option<AnyComponent>> {
        self.components@
    }

    /// The entity arena.
    pub closed spec fn spec_entities(&self) -> Seq<Option<Entity>> {
        self.entities@
    }

    /// Whether slot `e` of the entity arena holds a live entity.
    pub open spec fn spec_entity_live(&self, e: int) -> bool {
        ents_live(self.spec_entities(), e)
    }

    /// The live entity at slot `e`.
    pub open spec fn spec_entity_at(&self, e: int) -> Entity {
        ents_at(self.spec_entities(), e)
    }

    /// Whether slot `c` of the component arena holds a live component.
    pub open spec fn spec_component_live(&self, c: int) -> bool {
        comps_live(self.spec_components(), c)
    }

    /// The live component at slot `c`.
    pub open spec fn spec_component_at(&self, c: int) -> AnyComponent {
        self.spec_components()[c]->Some_0
    }

    /// The parent back-reference of the live component at slot `c`.
    pub open spec fn spec_parent_of(&self, c: int) -> EntityId {
        comps_parent(self.spec_components(), c)
    }

    /// Whether the live component at slot `c` has a back-reference that still
    /// resolves to a live entity.
    pub open spec fn spec_parent_live(&self, c: int) -> bool {
        self.spec_entity_live(self.spec_parent_of(c) as int)
    }

    /// Well-formedness of this scene's ownership graph.
    pub open spec fn wf(&self) -> bool {
        graph_wf(self.spec_id(), self.spec_entities(), self.spec_components())
    }

    /// Creates an empty scene with a name.
    pub fn new(name: &str) -> (s: Self)
        ensures
            s.wf(),
            s.spec_id() == 0,
            s.spec_name() == name@,
            s.spec_components() == Seq::<Option<AnyComponent>>::empty(),
            s.spec_entities() == Seq::<Option<Entity>>::empty(),
    {
        let s = Self {
            id: 0,
            name: name.to_owned(),
            components: Vec::new(),
            entities: Vec::new(),
        };
        proof {
            assert(s.spec_components() =~= Seq::<Option<AnyComponent>>::empty());
            assert(s.spec_entities() =~= Seq::<Option<Entity>>::empty());
        }
        s
    }

    /// Gets the name of the scene.
    pub fn get_name(&self) -> (n: &String)
        ensures
            n@ == self.spec_name(),
    {
        &self.name
    }

    /// Gets the component arena. Engine scans iterate this collection and
    /// pick out the slots they need; all component memory sits in one spot.
    pub fn get_components(&self) -> (c: &Vec<Option<AnyComponent>>)
        ensures
            c@ == self.spec_components(),
    {
        &self.components
    }

    /// Replaces the component arena wholesale. The caller must supply a
    /// collection that is consistent with the current entity arena; handing
    /// the scene components owned elsewhere is a contract violation and is
    /// rejected here, at the boundary.
    pub fn set_components(&mut self, components: Vec<Option<AnyComponent>>)
        requires
            graph_wf(old(self).spec_id(), old(self).spec_entities(), components@),
        ensures
            final(self).wf(),
            final(self).spec_id() == old(self).spec_id(),
            final(self).spec_name() == old(self).spec_name(),
            final(self).spec_entities() == old(self).spec_entities(),
            final(self).spec_components() == components@,
    {
        self.components = components;
    }

    /// Gets the entity arena. Diagnostic only: *never* use it for engine
    /// internal searching or computational work.
    pub fn get_entities(&self) -> (e: &Vec<Option<Entity>>)
        ensures
            e@ == self.spec_entities(),
    {
        &self.entities
    }

    /// Replaces the entity arena wholesale. As with `set_components`, the
    /// caller must supply a collection consistent with the current component
    /// arena.
    pub fn set_entities(&mut self, entities: Vec<Option<Entity>>)
        requires
            graph_wf(old(self).spec_id(), entities@, old(self).spec_components()),
        ensures
            final(self).wf(),
            final(self).spec_id() == old(self).spec_id(),
            final(self).spec_name() == old(self).spec_name(),
            final(self).spec_entities() == entities@,
            final(self).spec_components() == old(self).spec_components(),
    {
        self.entities = entities;
    }

    /// Whether slot `entity` currently holds a live entity.
    pub fn entity_is_live(&self, entity: EntityId) -> (r: bool)
        ensures
            r == self.spec_entity_live(entity as int),
    {
        entity < self.entities.len() && self.entities[entity].is_some()
    }

    /// Whether slot `component` currently holds a live component.
    pub fn component_is_live(&self, component: ComponentId) -> (r: bool)
        ensures
            r == self.spec_component_live(component as int),
    {
        component < self.components.len() && self.components[component].is_some()
    }

    /// Resolves an entity handle. Resolving a cleared handle is an internal
    /// defect, so liveness is demanded up front.
    pub fn get_entity(&self, entity: EntityId) -> (e: &Entity)
        requires
            self.spec_entity_live(entity as int),
        ensures
            *e == self.spec_entity_at(entity as int),
    {
        match &self.entities[entity] {
            Some(e) => e,
            None => vstd::pervasive::unreached(),
        }
    }

    /// Resolves a component handle. Resolving a cleared handle is an internal
    /// defect, so liveness is demanded up front.
    pub fn get_component(&self, component: ComponentId) -> (c: AnyComponent)
        requires
            self.spec_component_live(component as int),
        ensures
            c == self.spec_component_at(component as int),
    {
        match self.components[component] {
            Some(c) => c,
            None => vstd::pervasive::unreached(),
        }
    }

    /// Checks whether a live component's back-reference still resolves. A
    /// `false` here means an entity was destroyed while a component pointing
    /// at it was not: a programming defect that callers must treat as fatal,
    /// never as a recoverable condition.
    pub fn parent_is_live(&self, component: ComponentId) -> (r: bool)
        requires
            self.spec_component_live(component as int),
        ensures
            r == self.spec_parent_live(component as int),
    {
        let c = self.get_component(component);
        let p = c.get_weak_parent();
        p < self.entities.len() && self.entities[p].is_some()
    }

    /// Resolves a live component's back-reference to its parent entity.
    /// Demands that the parent is still live: resolving a dangling
    /// back-reference is an unrecoverable invariant violation, not an error
    /// this library reports.
    pub fn get_parent(&self, component: ComponentId) -> (e: &Entity)
        requires
            self.spec_component_live(component as int),
            self.spec_parent_live(component as int),
        ensures
            *e == self.spec_entity_at(self.spec_parent_of(component as int) as int),
    {
        let c = self.get_component(component);
        let p = c.get_weak_parent();
        self.get_entity(p)
    }

    /// Allocates and owns a new entity, returning its non-owning handle. The
    /// handle equals the entity's slot index and never moves.
    pub fn spawn_entity(&mut self, name: &str) -> (eid: EntityId)
        requires
            old(self).wf(),
        ensures
            final(self).wf(),
            eid == old(self).spec_entities().len(),
            final(self).spec_id() == old(self).spec_id(),
            final(self).spec_name() == old(self).spec_name(),
            final(self).spec_components() == old(self).spec_components(),
            final(self).spec_entities().len() == old(self).spec_entities().len() + 1,
            forall|j: int|
                0 <= j < old(self).spec_entities().len() ==> final(self).spec_entities()[j] == old(
                    self,
                ).spec_entities()[j],
            final(self).spec_entity_live(eid as int),
            final(self).spec_entity_at(eid as int).spec_name() == name@,
            final(self).spec_entity_at(eid as int).spec_scene() == old(self).spec_id(),
            final(self).spec_entity_at(eid as int).spec_components() == Seq::<
                ComponentId,
            >::empty(),
    {
        let eid = self.entities.len();
        let e = Entity::new(self.id, name);
        self.entities.push(Some(e));
        proof {
            let id = self.spec_id();
            let old_e = old(self).spec_entities();
            let new_e = self.spec_entities();
            let comps = self.spec_components();
            assert forall|c: int| #[trigger] comps_live(comps, c) implies (comps_parent(comps, c)
                as int) < new_e.len() by {
                assert(comps_live(old(self).spec_components(), c));
            }
            assert forall|e2: int| #[trigger] ents_live(new_e, e2) implies ent_wf_in(
                id,
                new_e,
                comps,
                e2,
            ) by {
                if e2 < old_e.len() {
                    assert(ents_live(old_e, e2));
                    assert(ents_at(new_e, e2) == ents_at(old_e, e2));
                } else {
                    assert(ents_at(new_e, e2).spec_components().len() == 0);
                }
            }
            assert forall|c: int|
                #[trigger] comps_live(comps, c) && ents_live(
                    new_e,
                    comps_parent(comps, c) as int,
                ) implies ents_at(new_e, comps_parent(comps, c) as int).spec_components().contains(
                c as ComponentId,
            ) by {
                let p = comps_parent(comps, c) as int;
                assert(comps_live(old(self).spec_components(), c));
                assert(p < old_e.len());
                assert(ents_live(old_e, p));
                assert(ents_at(new_e, p) == ents_at(old_e, p));
            }
        }
        eid
    }

    /// Allocates and owns a new component of the given variant, bound to a
    /// live parent entity, and appends its handle onto that entity's
    /// attachment list. This dual registration establishes both the ownership
    /// and the back-reference invariant atomically; it is deliberately one
    /// call, so no caller can interleave the two halves incorrectly. The
    /// attach hook `on_start` runs before the component is registered.
    pub fn spawn_component(&mut self, tag: ComponentType, parent: EntityId) -> (cid: ComponentId)
        requires
            old(self).wf(),
            old(self).spec_entity_live(parent as int),
        ensures
            final(self).wf(),
            cid == old(self).spec_components().len(),
            final(self).spec_id() == old(self).spec_id(),
            final(self).spec_name() == old(self).spec_name(),
            final(self).spec_components() == old(self).spec_components().push(
                Some(AnyComponent::spec_create(tag, parent)),
            ),
            final(self).spec_component_live(cid as int),
            final(self).spec_component_at(cid as int) == AnyComponent::spec_create(tag, parent),
            final(self).spec_parent_of(cid as int) == parent,
            final(self).spec_entities().len() == old(self).spec_entities().len(),
            forall|j: int|
                0 <= j < old(self).spec_entities().len() && j != parent
                    ==> final(self).spec_entities()[j] == old(self).spec_entities()[j],
            final(self).spec_entity_live(parent as int),
            final(self).spec_entity_at(parent as int).spec_name()
                == old(self).spec_entity_at(parent as int).spec_name(),
            final(self).spec_entity_at(parent as int).spec_scene()
                == old(self).spec_entity_at(parent as int).spec_scene(),
            final(self).spec_entity_at(parent as int).spec_components()
                == old(self).spec_entity_at(parent as int).spec_components().push(cid),
    {
        let cid = self.components.len();
        let mut c = AnyComponent::create(tag, parent);
        c.on_start();
        self.components.push(Some(c));
        let slot = &mut self.entities[parent];
        match slot {
            Some(ent) => ent.push_component(cid),
            None => (),
        }
        proof {
            let id = self.spec_id();
            let old_e = old(self).spec_entities();
            let new_e = self.spec_entities();
            let old_c = old(self).spec_components();
            let new_c = self.spec_components();
            let n_c = old_c.len() as int;
            let p = parent as int;
            assert(new_c =~= old_c.push(Some(AnyComponent::spec_create(tag, parent))));
            assert(new_e =~= old_e.update(p, new_e[p]));
            let old_list = ents_at(old_e, p).spec_components();
            let new_list = ents_at(new_e, p).spec_components();
            assert(new_list == old_list.push(cid));
            assert(ent_wf_in(id, old_e, old_c, p));
            // the new component's back-reference indexes the entity arena;
            // the old components are unchanged by the push
            assert forall|c2: int| #[trigger] comps_live(new_c, c2) implies (comps_parent(
                new_c,
                c2,
            ) as int) < new_e.len() by {
                if c2 < n_c {
                    assert(comps_live(old_c, c2));
                }
            }
            // every live entity's attachment list stays consistent: only the
            // parent's list changed, by appending the fresh largest handle
            assert forall|e2: int| #[trigger] ents_live(new_e, e2) implies ent_wf_in(
                id,
                new_e,
                new_c,
                e2,
            ) by {
                assert(ents_live(old_e, e2));
                assert(ent_wf_in(id, old_e, old_c, e2));
                if e2 != p {
                    assert(ents_at(new_e, e2) == ents_at(old_e, e2));
                    let list = ents_at(new_e, e2).spec_components();
                    assert forall|k: int| 0 <= k < list.len() implies {
                        &&& comps_live(new_c, #[trigger] list[k] as int)
                        &&& comps_parent(new_c, list[k] as int) == e2
                    } by {
                        assert(comps_live(old_c, list[k] as int));
                    }
                } else {
                    assert forall|k: int| 0 <= k < new_list.len() implies {
                        &&& comps_live(new_c, #[trigger] new_list[k] as int)
                        &&& comps_parent(new_c, new_list[k] as int) == p
                    } by {
                        if k < old_list.len() {
                            assert(new_list[k] == old_list[k]);
                            assert(comps_live(old_c, old_list[k] as int));
                        } else {
                            assert(new_list[k] == cid);
                        }
                    }
                    assert forall|k1: int, k2: int|
                        #![trigger new_list[k1], new_list[k2]]
                        0 <= k1 < k2 < new_list.len() implies new_list[k1] < new_list[k2] by {
                        if k2 < old_list.len() {
                            assert(old_list[k1] < old_list[k2]);
                        } else {
                            // the appended handle is the arena length, larger
                            // than every handle already listed
                            assert(new_list[k1] == old_list[k1]);
                            assert(comps_live(old_c, old_list[k1] as int));
                            assert(old_list[k1] < n_c);
                        }
                    }
                }
            }
            // every live component with a live parent is indexed by it
            assert forall|c2: int|
                #[trigger] comps_live(new_c, c2) && ents_live(
                    new_e,
                    comps_parent(new_c, c2) as int,
                ) implies ents_at(new_e, comps_parent(new_c, c2) as int).spec_components()
                .contains(c2 as ComponentId) by {
                let q = comps_parent(new_c, c2) as int;
                if c2 < n_c {
                    assert(comps_live(old_c, c2));
                    assert(comps_parent(old_c, c2) == comps_parent(new_c, c2));
                    assert(ents_live(old_e, q));
                    let q_list = ents_at(old_e, q).spec_components();
                    assert(q_list.contains(c2 as ComponentId));
                    let j = choose|j: int| 0 <= j < q_list.len() && q_list[j] == c2 as ComponentId;
                    if q == p {
                        assert(new_list[j] == c2 as ComponentId);
                    } else {
                        assert(ents_at(new_e, q) == ents_at(old_e, q));
                    }
                } else {
                    assert(q == p);
                    assert(new_list[new_list.len() - 1] == cid);
                }
            }
        }
        cid
    }

    /// The handles selected by a type-filtered scan of the component arena.
    pub open spec fn spec_components_of_type(&self, tag: ComponentType) -> Seq<ComponentId> {
        type_members_prefix(self.spec_components(), tag, self.spec_components().len() as int)
    }

    /// The handles visited by a full update pass, in insertion order.
    pub open spec fn spec_update_order(&self) -> Seq<ComponentId> {
        live_members_prefix(self.spec_components(), self.spec_components().len() as int)
    }

    /// Scans the owned component arena once and returns the handles of the
    /// live components whose tag equals `tag`, in insertion order. This is
    /// the operation the render pass uses every frame: it compares tags only
    /// and never resolves a back-reference. Two scans without a mutation in
    /// between return identical sequences.
    pub fn components_of_type(&self, tag: ComponentType) -> (r: Vec<ComponentId>)
        ensures
            r@ == self.spec_components_of_type(tag),
    {
        let mut r: Vec<ComponentId> = Vec::new();
        let n = self.components.len();
        let mut i: usize = 0;
        proof {
            assert(r@ =~= type_members_prefix(self.spec_components(), tag, 0));
        }
        while i < n
            invariant
                i <= n,
                n == self.spec_components().len(),
                r@ == type_members_prefix(self.spec_components(), tag, i as int),
            decreases n - i,
        {
            match self.components[i] {
                Some(c) => {
                    if c.type_of() == tag {
                        r.push(i);
                    }
                },
                None => (),
            }
            i += 1;
        }
        r
    }

    /// Runs the per-frame update pass: invokes `on_update` on every live
    /// component, in insertion order, and returns the handles in the order
    /// they were visited. The scene's object graph is unchanged afterwards,
    /// because no built-in component variant carries per-frame behaviour yet.
    pub fn update(&mut self) -> (order: Vec<ComponentId>)
        ensures
            final(self).spec_id() == old(self).spec_id(),
            final(self).spec_name() == old(self).spec_name(),
            final(self).spec_entities() == old(self).spec_entities(),
            final(self).spec_components() == old(self).spec_components(),
            final(self).wf() == old(self).wf(),
            order@ == old(self).spec_update_order(),
    {
        let mut order: Vec<ComponentId> = Vec::new();
        let n = self.components.len();
        let mut i: usize = 0;
        proof {
            assert(order@ =~= live_members_prefix(self.spec_components(), 0));
        }
        while i < n
            invariant
                i <= n,
                n == old(self).spec_components().len(),
                self.spec_id() == old(self).spec_id(),
                self.spec_name() == old(self).spec_name(),
                self.spec_entities() == old(self).spec_entities(),
                self.spec_components() == old(self).spec_components(),
                order@ == live_members_prefix(old(self).spec_components(), i as int),
            decreases n - i,
        {
            match self.components[i] {
                Some(mut c) => {
                    c.on_update();
                    self.components[i] = Some(c);
                    order.push(i);
                    proof {
                        assert(self.spec_components() =~= old(self).spec_components());
                    }
                },
                None => (),
            }
            i += 1;
        }
        order
    }

    /// Destroys a live component: runs its detach hook, detaches its handle
    /// from the parent entity's attachment list, and clears the arena slot.
    /// Detachment is atomic with destruction, so no attachment list is left
    /// holding a cleared component handle. A parent that was already
    /// destroyed has no list to detach from; the slot is cleared all the
    /// same.
    pub fn destroy_component(&mut self, component: ComponentId)
        requires
            old(self).wf(),
            old(self).spec_component_live(component as int),
        ensures
            final(self).wf(),
            final(self).spec_id() == old(self).spec_id(),
            final(self).spec_name() == old(self).spec_name(),
            final(self).spec_components() == old(self).spec_components().update(
                component as int,
                None,
            ),
            final(self).spec_entities().len() == old(self).spec_entities().len(),
            forall|j: int|
                0 <= j < old(self).spec_entities().len() && j != old(self).spec_parent_of(
                    component as int,
                ) ==> final(self).spec_entities()[j] == old(self).spec_entities()[j],
            old(self).spec_parent_live(component as int) ==> {
                let p = old(self).spec_parent_of(component as int) as int;
                &&& final(self).spec_entity_live(p)
                &&& final(self).spec_entity_at(p).spec_name() == old(self).spec_entity_at(
                    p,
                ).spec_name()
                &&& final(self).spec_entity_at(p).spec_scene() == old(self).spec_entity_at(
                    p,
                ).spec_scene()
                &&& final(self).spec_entity_at(p).spec_components() == old(self).spec_entity_at(
                    p,
                ).spec_components().remove_value(component)
            },
            !old(self).spec_parent_live(component as int) ==> final(self).spec_entities() == old(
                self,
            ).spec_entities(),
    {
        let mut c = self.get_component(component);
        c.on_stop();
        let p = c.get_weak_parent();
        let parent_live = p < self.entities.len() && self.entities[p].is_some();
        let ghost old_e = old(self).spec_entities();
        let ghost old_c = old(self).spec_components();
        let ghost old_list = ents_at(old_e, p as int).spec_components();
        if parent_live {
            let k_opt = match &self.entities[p] {
                Some(ent) => ent.find_component(component),
                None => None,
            };
            proof {
                assert(ents_live(old_e, p as int));
                assert(comps_live(old_c, component as int));
                assert(old_list.contains(component));
                assert(ent_wf_in(old(self).spec_id(), old_e, old_c, p as int));
            }
            match k_opt {
                Some(k) => {
                    proof {
                        old_list.index_of_first_ensures(component);
                        let i = old_list.index_of_first(component)->Some_0;
                        assert(old_list[i] == component);
                        if i < k {
                            assert(old_list[i] != component);
                        } else if k < i {
                            assert(old_list[k as int] != component);
                        }
                        assert(i == k);
                        old_list.remove_ensures(k as int);
                    }
                    let slot = &mut self.entities[p];
                    match slot {
                        Some(ent) => {
                            ent.remove_component_at(k);
                        },
                        None => (),
                    }
                },
                None => vstd::pervasive::unreached(),
            }
        }
        self.components[component] = None;
        proof {
            let id = self.spec_id();
            let new_e = self.spec_entities();
            let new_c = self.spec_components();
            let cid = component as int;
            let pl = ents_live(old_e, p as int);
            let ghost new_list = if pl {
                old_list.remove_value(component)
            } else {
                old_list
            };
            assert(old_c.len() <= usize::MAX) by {
                assert(old(self).components.len() == old(self).components@.len());
            }
            assert(new_c =~= old_c.update(cid, None));
            if pl {
                old_list.index_of_first_ensures(component);
                assert(new_e =~= old_e.update(p as int, new_e[p as int]));
                assert(ents_at(new_e, p as int).spec_components() == new_list);
            } else {
                assert(new_e =~= old_e);
            }
            // entries listed by a live entity name that entity as parent, so
            // none of them is the destroyed handle unless the entity is the
            // parent itself
            assert forall|c2: int| #[trigger] comps_live(new_c, c2) implies {
                &&& comps_live(old_c, c2)
                &&& comps_parent(new_c, c2) == comps_parent(old_c, c2)
                &&& (comps_parent(new_c, c2) as int) < new_e.len()
            } by {
                assert(comps_live(old_c, c2));
            }
            assert forall|e2: int| #[trigger] ents_live(new_e, e2) implies ent_wf_in(
                id,
                new_e,
                new_c,
                e2,
            ) by {
                assert(ents_live(old_e, e2));
                assert(ent_wf_in(id, old_e, old_c, e2));
                let list = ents_at(old_e, e2).spec_components();
                if pl && e2 == p as int {
                    let k = old_list.index_of_first(component)->Some_0;
                    old_list.remove_ensures(k);
                    assert forall|j: int| 0 <= j < new_list.len() implies {
                        &&& comps_live(new_c, #[trigger] new_list[j] as int)
                        &&& comps_parent(new_c, new_list[j] as int) == e2
                    } by {
                        if j < k {
                            assert(new_list[j] == old_list[j]);
                            assert(old_list[j] != old_list[k]);
                        } else {
                            assert(new_list[j] == old_list[j + 1]);
                            assert(old_list[j + 1] != old_list[k]);
                        }
                        assert(new_list[j] != component);
                        assert(comps_live(old_c, new_list[j] as int));
                    }
                    assert forall|j1: int, j2: int|
                        #![trigger new_list[j1], new_list[j2]]
                        0 <= j1 < j2 < new_list.len() implies new_list[j1] < new_list[j2] by {
                        if j2 < k {
                            assert(old_list[j1] < old_list[j2]);
                        } else if j1 < k {
                            assert(new_list[j1] == old_list[j1]);
                            assert(new_list[j2] == old_list[j2 + 1]);
                            assert(old_list[j1] < old_list[j2 + 1]);
                        } else {
                            assert(new_list[j1] == old_list[j1 + 1]);
                            assert(new_list[j2] == old_list[j2 + 1]);
                            assert(old_list[j1 + 1] < old_list[j2 + 1]);
                        }
                    }
                } else {
                    assert(ents_at(new_e, e2) == ents_at(old_e, e2));
                    assert forall|j: int| 0 <= j < list.len() implies {
                        &&& comps_live(new_c, #[trigger] list[j] as int)
                        &&& comps_parent(new_c, list[j] as int) == e2
                    } by {
                        assert(comps_live(old_c, list[j] as int));
                        assert(comps_parent(old_c, list[j] as int) == e2);
                        if list[j] == component {
                            assert(comps_parent(old_c, cid) == p);
                            assert(ents_live(old_e, e2));
                            assert(pl && e2 == p as int);
                        }
                    }
                }
            }
            assert forall|c2: int|
                #[trigger] comps_live(new_c, c2) && ents_live(
                    new_e,
                    comps_parent(new_c, c2) as int,
                ) implies ents_at(new_e, comps_parent(new_c, c2) as int).spec_components()
                .contains(c2 as ComponentId) by {
                let q = comps_parent(new_c, c2) as int;
                assert(comps_live(old_c, c2));
                assert(ents_live(old_e, q));
                let q_list = ents_at(old_e, q).spec_components();
                assert(q_list.contains(c2 as ComponentId));
                let j = choose|j: int| 0 <= j < q_list.len() && q_list[j] == c2 as ComponentId;
                if pl && q == p as int {
                    let k = old_list.index_of_first(component)->Some_0;
                    old_list.remove_ensures(k);
                    assert(c2 != cid);
                    assert(c2 as ComponentId != component);
                    assert(j != k);
                    if j < k {
                        assert(new_list[j] == c2 as ComponentId);
                    } else {
                        assert(new_list[j - 1] == c2 as ComponentId);
                    }
                } else {
                    assert(ents_at(new_e, q) == ents_at(old_e, q));
                }
            }
        }
    }

    /// Destroys a live entity by clearing its arena slot. The slot is never
    /// reused, so handles to the destroyed entity stay stale forever.
    /// Components attached to the entity are *not* destroyed or detached:
    /// destroying an entity without first detaching its components leaves
    /// those components with dangling back-references, which later
    /// resolutions detect fatally.
    pub fn destroy_entity(&mut self, entity: EntityId)
        requires
            old(self).wf(),
            old(self).spec_entity_live(entity as int),
        ensures
            final(self).wf(),
            final(self).spec_id() == old(self).spec_id(),
            final(self).spec_name() == old(self).spec_name(),
            final(self).spec_components() == old(self).spec_components(),
            final(self).spec_entities() == old(self).spec_entities().update(entity as int, None),
    {
        self.entities[entity] = None;
        proof {
            let id = self.spec_id();
            let old_e = old(self).spec_entities();
            let new_e = self.spec_entities();
            let comps = self.spec_components();
            assert forall|e2: int| #[trigger] ents_live(new_e, e2) implies ent_wf_in(
                id,
                new_e,
                comps,
                e2,
            ) by {
                assert(ents_live(old_e, e2));
                assert(ents_at(new_e, e2) == ents_at(old_e, e2));
            }
            assert forall|c: int|
                #[trigger] comps_live(comps, c) && ents_live(
                    new_e,
                    comps_parent(comps, c) as int,
                ) implies ents_at(new_e, comps_parent(comps, c) as int).spec_components().contains(
                c as ComponentId,
            ) by {
                let p = comps_parent(comps, c) as int;
                assert(ents_live(old_e, p));
                assert(ents_at(new_e, p) == ents_at(old_e, p));
            }
        }
    }
}

/// Destroying an entity leaves the back-reference of each of its components
/// dangling, and the resolution check detects exactly that: in the scene
/// after the destruction the component is still live, but its parent no
/// longer resolves.
pub proof fn lemma_destroyed_parent_detected(s1: Scene, s2: Scene, entity: EntityId, c: ComponentId)
    requires
        s1.spec_entity_live(entity as int),
        s1.spec_component_live(c as int),
        s1.spec_parent_of(c as int) == entity,
        s2.spec_components() == s1.spec_components(),
        s2.spec_entities() == s1.spec_entities().update(entity as int, None),
    ensures
        s2.spec_component_live(c as int),
        !s2.spec_parent_live(c as int),
{
}

/// In a well-formed scene, a live component whose parent is still live is
/// held by that parent's attachment list exactly once, and attachment lists
/// run in strictly increasing handle order, which is spawn order.
pub proof fn lemma_parent_links_component(s: Scene, c: ComponentId)
    requires
        s.wf(),
        s.spec_component_live(c as int),
        s.spec_parent_live(c as int),
    ensures
        ({
            let list = s.spec_entity_at(s.spec_parent_of(c as int) as int).spec_components();
            &&& list.contains(c)
            &&& forall|j1: int, j2: int|
                0 <= j1 < list.len() && 0 <= j2 < list.len() && #[trigger] list[j1] == c
                    && #[trigger] list[j2] == c ==> j1 == j2
        }),
{
    let p = s.spec_parent_of(c as int) as int;
    assert(ents_live(s.spec_entities(), p));
    assert(ent_wf_in(s.spec_id(), s.spec_entities(), s.spec_components(), p));
    let list = s.spec_entity_at(p).spec_components();
    assert forall|j1: int, j2: int|
        0 <= j1 < list.len() && 0 <= j2 < list.len() && #[trigger] list[j1] == c
            && #[trigger] list[j2] == c implies j1 == j2 by {
        if j1 < j2 {
            assert(list[j1] < list[j2]);
        } else if j2 < j1 {
            assert(list[j2] < list[j1]);
        }
    }
}

/// In a well-formed scene, an entity's attachment list holds exactly the
/// handles of the live components whose back-reference names that entity.
pub proof fn lemma_attachment_list_exact(s: Scene, e: EntityId, c: ComponentId)
    requires
        s.wf(),
        s.spec_entity_live(e as int),
    ensures
        s.spec_entity_at(e as int).spec_components().contains(c) <==> (s.spec_component_live(
            c as int,
        ) && s.spec_parent_of(c as int) == e),
{
    assert(ent_wf_in(s.spec_id(), s.spec_entities(), s.spec_components(), e as int));
    let list = s.spec_entity_at(e as int).spec_components();
    if list.contains(c) {
        let k = choose|k: int| 0 <= k < list.len() && list[k] == c;
        assert(comps_live(s.spec_components(), list[k] as int));
    }
}

/// A type-filtered scan selects exactly the live components carrying the
/// tag, each exactly once, in insertion order; for a tag with no live
/// members it selects nothing.
pub proof fn lemma_components_of_type_exact(s: Scene, tag: ComponentType)
    ensures
        forall|c: ComponentId|
            #[trigger] s.spec_components_of_type(tag).contains(c) <==> (s.spec_component_live(
                c as int,
            ) && s.spec_component_at(c as int).spec_type() == tag),
        forall|k1: int, k2: int|
            #![trigger s.spec_components_of_type(tag)[k1], s.spec_components_of_type(tag)[k2]]
            0 <= k1 < k2 < s.spec_components_of_type(tag).len() ==> s.spec_components_of_type(
                tag,
            )[k1] < s.spec_components_of_type(tag)[k2],
{
    let comps = s.spec_components();
    let members = s.spec_components_of_type(tag);
    assert(comps.len() <= usize::MAX) by {
        assert(s.components.len() == s.components@.len());
    }
    lemma_type_members_prefix(comps, tag, comps.len() as int);
    assert forall|c: ComponentId| #[trigger] members.contains(c) implies (s.spec_component_live(
        c as int,
    ) && s.spec_component_at(c as int).spec_type() == tag) by {
        let k = choose|k: int| 0 <= k < members.len() && members[k] == c;
        assert(comps_live(comps, members[k] as int));
    }
    assert forall|c: ComponentId|
        s.spec_component_live(c as int) && s.spec_component_at(c as int).spec_type()
            == tag implies #[trigger] members.contains(c) by {
        assert(comps_live(comps, c as int));
    }
}

/// The update pass visits exactly the live components, each exactly once,
/// in insertion order.
pub proof fn lemma_update_order_exact(s: Scene)
    ensures
        forall|c: ComponentId|
            #[trigger] s.spec_update_order().contains(c) <==> s.spec_component_live(c as int),
        forall|k1: int, k2: int|
            #![trigger s.spec_update_order()[k1], s.spec_update_order()[k2]]
            0 <= k1 < k2 < s.spec_update_order().len() ==> s.spec_update_order()[k1]
                < s.spec_update_order()[k2],
{
    let comps = s.spec_components();
    let order = s.spec_update_order();
    assert(comps.len() <= usize::MAX) by {
        assert(s.components.len() == s.components@.len());
    }
    lemma_live_members_prefix(comps, comps.len() as int);
    assert forall|c: ComponentId| #[trigger] order.contains(c) implies s.spec_component_live(
        c as int,
    ) by {
        let k = choose|k: int| 0 <= k < order.len() && order[k] == c;
        assert(comps_live(comps, order[k] as int));
    }
    assert forall|c: ComponentId| s.spec_component_live(c as int) implies #[trigger] order
        .contains(c) by {
        assert(comps_live(comps, c as int));
    }
}

/// A tag with no live members selects the empty sequence.
pub proof fn lemma_components_of_type_empty(s: Scene, tag: ComponentType)
    requires
        forall|c: int|
            #[trigger] s.spec_component_live(c) ==> s.spec_component_at(c).spec_type() != tag,
    ensures
        s.spec_components_of_type(tag) == Seq::<ComponentId>::empty(),
{
    lemma_components_of_type_exact(s, tag);
    let members = s.spec_components_of_type(tag);
    if members.len() > 0 {
        assert(members.contains(members[0]));
    }
    assert(members =~= Seq::<ComponentId>::empty());
}

} // verus!
