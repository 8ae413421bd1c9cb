//! The scene graph: tracked objects under the ids they were registered with.
//! The graph is generic in what it tracks (the bounding boxes of the sensor
//! pipeline carry floating-point geometry, which stays with the caller).
use vstd::prelude::*;
use std::collections::BTreeMap;
use vstd::std_specs::iter::IteratorSpec;

verus! {

/// Objects by id, and the id the next registration gets.
pub struct SceneGraph<B> {
    objects: BTreeMap<usize, B>,
    update_counter: usize,
}

/// The id after `c` (wrapping, as an atomic counter does).
pub open spec fn next_id(c: usize) -> usize {
    if c == usize::MAX { 0 } else { (c + 1) as usize }
}

/// `b` is a clone of an object stored in `m`.
pub open spec fn clone_of_stored<B: Clone>(m: Map<usize, B>, b: B) -> bool {
    exists|k: usize| m.contains_key(k) && vstd::pervasive::cloned(m[k], b)
}

impl<B> SceneGraph<B> {
    pub closed spec fn spec_objects(&self) -> Map<usize, B> {
        self.objects@
    }

    pub closed spec fn spec_next_id(&self) -> usize {
        self.update_counter
    }

    /// An empty graph whose first id is 0.
    pub fn new() -> (g: Self)
        ensures
            g.spec_objects() == Map::<usize, B>::empty(),
            g.spec_next_id() == 0,
    {
        SceneGraph { objects: BTreeMap::new(), update_counter: 0 }
    }

    /// Stores an object under the next id and returns that id.
    pub fn register_object(&mut self, bbox: B) -> (id: usize)
        ensures
            id == old(self).spec_next_id(),
            final(self).spec_next_id() == next_id(old(self).spec_next_id()),
            final(self).spec_objects() == old(self).spec_objects().insert(id, bbox),
    {
        broadcast use vstd::laws_cmp::group_laws_cmp;
        let id = self.update_counter;
        self.update_counter = id.wrapping_add(1);
        self.objects.insert(id, bbox);
        id
    }

    /// Replaces the object under `id`; an unknown id changes nothing.
    pub fn update_object(&mut self, id: usize, new_bbox: B)
        ensures
            final(self).spec_next_id() == old(self).spec_next_id(),
            old(self).spec_objects().contains_key(id) ==> final(self).spec_objects() == old(
                self,
            ).spec_objects().insert(id, new_bbox),
            !old(self).spec_objects().contains_key(id) ==> final(self).spec_objects() == old(self).spec_objects(),
    {
        broadcast use vstd::laws_cmp::group_laws_cmp;
        broadcast use vstd::std_specs::btree::group_btree_axioms;
        if self.objects.contains_key(&id) {
            self.objects.insert(id, new_bbox);
        }
    }

    /// Drops the object under `id`; true when there was one.
    pub fn remove_object(&mut self, id: usize) -> (removed: bool)
        ensures
            removed == old(self).spec_objects().contains_key(id),
            final(self).spec_objects() == old(self).spec_objects().remove(id),
            final(self).spec_next_id() == old(self).spec_next_id(),
    {
        broadcast use vstd::laws_cmp::group_laws_cmp;
        broadcast use vstd::std_specs::btree::group_btree_axioms;
        self.objects.remove(&id).is_some()
    }

    /// Copies of the objects, one per id.
    pub fn get_objects(&self) -> (objs: Vec<B>)
        where
            B: Clone,
        ensures
            objs@.len() == self.spec_objects().dom().len(),
            forall|i: int| 0 <= i < objs@.len() ==> clone_of_stored(self.spec_objects(), #[trigger] objs@[i]),
    {
        broadcast use vstd::laws_cmp::group_laws_cmp;
        broadcast use vstd::std_specs::btree::group_btree_axioms;
        let ghost vals = vstd::std_specs::btree::spec_values_iter(&self.objects).remaining();
        let mut objs: Vec<B> = Vec::new();
        for v in it: self.objects.values()
            invariant
                it.seq() == vals,
                objs@.len() == it.index(),
                forall|j: int| 0 <= j < it.index() ==> vstd::pervasive::cloned(*vals[j], #[trigger] objs@[j]),
        {
            objs.push(v.clone());
        }
        proof {
            assert forall|i: int| 0 <= i < objs@.len() implies clone_of_stored(self.spec_objects(), #[trigger] objs@[i]) by {
                assert(vals.unref().to_set().contains(vals.unref()[i]));
                assert(self.objects@.values().contains(*vals[i]));
                let k = choose|k: usize| self.objects@.contains_key(k) && self.objects@[k] == *vals[i];
                assert(self.spec_objects()[k] == *vals[i]);
            }
        }
        objs
    }
}

/// Registering an object gives a graph of one object; removing it empties
/// the graph.
pub fn test_scene_logic() -> (passed: bool)
    ensures
        passed,
{
    broadcast use vstd::map::group_map_axioms;
    let mut graph: SceneGraph<String> = SceneGraph::new();
    let id = graph.register_object("Coffee Mug".to_owned());
    assert(graph.spec_objects().dom() =~= set![id]);
    if graph.get_objects().len() != 1 {
        return false;
    }
    let _ = graph.remove_object(id);
    assert(graph.spec_objects().dom() =~= Set::<usize>::empty());
    graph.get_objects().len() == 0
}

} // verus!
