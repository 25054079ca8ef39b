//! Authoring-time scene description.

use vstd::prelude::*;

use crate::ecs::entity::friendly::FriendlyEntity;
use crate::ecs::scene::Scene;

verus! {

/// The number of components over all authored entities.
pub open spec fn spec_total_components(entities: Seq<FriendlyEntity>) -> int
    decreases entities.len(),
{
    if entities.len() == 0 {
        0
    } else {
        spec_total_components(entities.drop_last()) + entities.last().spec_components().len()
    }
}

/// What the conversion owes for one authored entity: the runtime entity at
/// the same position is live, carries the authored name, and its attachment
/// list resolves, in order, to live components of the authored tags, each
/// pointing back at this entity.
pub open spec fn spec_converted_entity(s: Scene, w: Seq<FriendlyEntity>, i: int) -> bool {
    &&& s.spec_entity_live(i)
    &&& s.spec_entity_at(i).spec_name() == w[i].spec_name()
    &&& s.spec_entity_at(i).spec_components().len() == w[i].spec_components().len()
    &&& forall|k: int|
        #![trigger s.spec_entity_at(i).spec_components()[k]]
        0 <= k < w[i].spec_components().len() ==> {
            let cid = s.spec_entity_at(i).spec_components()[k] as int;
            &&& s.spec_component_live(cid)
            &&& s.spec_component_at(cid).spec_type() == w[i].spec_components()[k]
            &&& s.spec_parent_of(cid) == i
        }
}

/// Never once is this used for actual rendering or updating inside the inner
/// workings of the engine. The only purpose of this struct is to act as a
/// transport medium between the optimised runtime scene and the human
/// readable description of a scene's layout.
pub struct FriendlyScene {
    name: String,
    entities: Vec<FriendlyEntity>,
}

impl FriendlyScene {
    /// The authored scene name.
    pub closed spec fn spec_name(&self) -> Seq<char> {
        self.name@
    }

    /// The authored entities, in authored order.
    pub closed spec fn spec_entities(&self) -> Seq<FriendlyEntity> {
        self.entities@
    }

    /// Creates a scene description with a name and no entities.
    pub fn new(name: &str) -> (s: Self)
        ensures
            s.spec_name() == name@,
            s.spec_entities() == Seq::<FriendlyEntity>::empty(),
    {
        let s = Self { name: name.to_owned(), entities: Vec::new() };
        proof {
            assert(s.spec_entities() =~= Seq::<FriendlyEntity>::empty());
        }
        s
    }

    /// Appends an entity description.
    pub fn with_entity(self, entity: FriendlyEntity) -> (s: Self)
        ensures
            s.spec_name() == self.spec_name(),
            s.spec_entities() == self.spec_entities().push(entity),
    {
        let mut s = self;
        s.entities.push(entity);
        s
    }

    /// Gets the authored scene name.
    pub fn get_name(&self) -> (n: &String)
        ensures
            n@ == self.spec_name(),
    {
        &self.name
    }

    /// Gets the authored entities, in authored order.
    pub fn get_entities(&self) -> (e: &Vec<FriendlyEntity>)
        ensures
            e@ == self.spec_entities(),
    {
        &self.entities
    }
}

impl Scene {
    /// Morphs a friendly scene into a runtime scene: spawns every authored
    /// entity, then every one of its authored components, preserving
    /// authored order on both levels. The conversion is total: every
    /// authored description yields a fully populated, well-formed scene.
    /// This runs once at load time, never on the per-frame hot path.
    pub fn from(w: FriendlyScene) -> (s: Scene)
        ensures
            s.wf(),
            s.spec_id() == 0,
            s.spec_name() == w.spec_name(),
            s.spec_entities().len() == w.spec_entities().len(),
            forall|i: int|
                0 <= i < w.spec_entities().len() ==> spec_converted_entity(
                    s,
                    w.spec_entities(),
                    i,
                ),
            forall|c: int|
                0 <= c < s.spec_components().len() ==> s.spec_component_live(c),
            s.spec_components().len() == spec_total_components(w.spec_entities()),
    {
        let ghost wents = w.spec_entities();
        let mut scene = Scene::new(w.get_name().as_str());
        let entities = w.get_entities();
        let n = entities.len();
        let mut i: usize = 0;
        proof {
            assert(wents.take(0) =~= Seq::<FriendlyEntity>::empty());
        }
        while i < n
            invariant
                scene.wf(),
                scene.spec_id() == 0,
                scene.spec_name() == w.spec_name(),
                n == wents.len(),
                entities@ == wents,
                i <= n,
                scene.spec_entities().len() == i,
                forall|i2: int| 0 <= i2 < i ==> spec_converted_entity(scene, wents, i2),
                forall|c: int|
                    0 <= c < scene.spec_components().len() ==> scene.spec_component_live(c),
                scene.spec_components().len() == spec_total_components(wents.take(i as int)),
            decreases n - i,
        {
            let fe = &entities[i];
            let ghost pre = scene;
            let eid = scene.spawn_entity(fe.get_name().as_str());
            proof {
                assert forall|i2: int| 0 <= i2 < i implies spec_converted_entity(
                    scene,
                    wents,
                    i2,
                ) by {
                    assert(spec_converted_entity(pre, wents, i2));
                    assert(scene.spec_entities()[i2] == pre.spec_entities()[i2]);
                    let list = scene.spec_entity_at(i2).spec_components();
                    assert forall|k2: int|
                        #![trigger list[k2]]
                        0 <= k2 < wents[i2].spec_components().len() implies {
                        let c2 = list[k2] as int;
                        &&& scene.spec_component_live(c2)
                        &&& scene.spec_component_at(c2).spec_type()
                            == wents[i2].spec_components()[k2]
                        &&& scene.spec_parent_of(c2) == i2
                    } by {
                        assert(pre.spec_component_live(list[k2] as int));
                    }
                }
                assert forall|c: int| 0 <= c < scene.spec_components().len() implies scene
                    .spec_component_live(c) by {
                    assert(pre.spec_component_live(c));
                }
            }
            let tags = fe.get_components();
            let m = tags.len();
            let mut k: usize = 0;
            while k < m
                invariant
                    scene.wf(),
                    scene.spec_id() == 0,
                    scene.spec_name() == w.spec_name(),
                    n == wents.len(),
                    entities@ == wents,
                    i < n,
                    eid == i,
                    m == wents[i as int].spec_components().len(),
                    tags@ == wents[i as int].spec_components(),
                    k <= m,
                    scene.spec_entities().len() == i + 1,
                    forall|i2: int| 0 <= i2 < i ==> spec_converted_entity(scene, wents, i2),
                    scene.spec_entity_live(i as int),
                    scene.spec_entity_at(i as int).spec_name() == wents[i as int].spec_name(),
                    scene.spec_entity_at(i as int).spec_components().len() == k,
                    forall|k2: int|
                        #![trigger scene.spec_entity_at(i as int).spec_components()[k2]]
                        0 <= k2 < k ==> {
                            let cid = scene.spec_entity_at(i as int).spec_components()[k2] as int;
                            &&& scene.spec_component_live(cid)
                            &&& scene.spec_component_at(cid).spec_type() == wents[i as int].spec_components()[k2]
                            &&& scene.spec_parent_of(cid) == i
                        },
                    forall|c: int|
                        0 <= c < scene.spec_components().len() ==> scene.spec_component_live(c),
                    scene.spec_components().len() == spec_total_components(wents.take(i as int))
                        + k,
                decreases m - k,
            {
                let ghost before = scene;
                let cid = scene.spawn_component(tags[k], eid);
                proof {
                    assert forall|i2: int| 0 <= i2 < i implies spec_converted_entity(
                        scene,
                        wents,
                        i2,
                    ) by {
                        assert(spec_converted_entity(before, wents, i2));
                        assert(scene.spec_entities()[i2] == before.spec_entities()[i2]);
                        let list = scene.spec_entity_at(i2).spec_components();
                        assert forall|k2: int|
                            #![trigger list[k2]]
                            0 <= k2 < wents[i2].spec_components().len() implies {
                            let c2 = list[k2] as int;
                            &&& scene.spec_component_live(c2)
                            &&& scene.spec_component_at(c2).spec_type()
                                == wents[i2].spec_components()[k2]
                            &&& scene.spec_parent_of(c2) == i2
                        } by {
                            assert(before.spec_component_live(list[k2] as int));
                        }
                    }
                    let list = scene.spec_entity_at(i as int).spec_components();
                    assert(list == before.spec_entity_at(i as int).spec_components().push(cid));
                    assert forall|k2: int|
                        #![trigger list[k2]]
                        0 <= k2 < k + 1 implies {
                        let c2 = list[k2] as int;
                        &&& scene.spec_component_live(c2)
                        &&& scene.spec_component_at(c2).spec_type()
                            == wents[i as int].spec_components()[k2]
                        &&& scene.spec_parent_of(c2) == i
                    } by {
                        if k2 < k {
                            assert(list[k2] == before.spec_entity_at(i as int).spec_components()[k2]);
                            assert(before.spec_component_live(list[k2] as int));
                        } else {
                            assert(list[k2] == cid);
                        }
                    }
                    assert forall|c: int| 0 <= c < scene.spec_components().len() implies scene
                        .spec_component_live(c) by {
                        if c < before.spec_components().len() {
                            assert(before.spec_component_live(c));
                        }
                    }
                }
                k += 1;
            }
            proof {
                assert(wents.take(i + 1).drop_last() =~= wents.take(i as int));
                assert(wents.take(i + 1).last() == wents[i as int]);
                assert(spec_total_components(wents.take(i + 1)) == spec_total_components(
                    wents.take(i as int),
                ) + wents[i as int].spec_components().len());
                assert(spec_converted_entity(scene, wents, i as int));
            }
            i += 1;
        }
        proof {
            assert(wents.take(n as int) =~= wents);
        }
        scene
    }
}

} // verus!
