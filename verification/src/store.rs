//! The store of Hue API resources, with the extra addressing data kept beside them.

use vstd::prelude::*;

use crate::assoc::AssocMap;
use crate::ids::{RType, ResourceLink};
use crate::resources::{
    extend_links, insert_link, AuxData, AuxDataView, Resource, ResourceError, ResourceView, Room,
    RoomView,
};

verus! {

/// `m` with `r` added under `link`, unless something is stored there already.
pub open spec fn spec_add(m: Map<ResourceLink, ResourceView>, link: ResourceLink, r: ResourceView) -> Map<
    ResourceLink,
    ResourceView,
> {
    if m.contains_key(link) {
        m
    } else {
        m.insert(link, r)
    }
}

/// The link of the scene with identifier `rid`.
pub open spec fn scene_link(rid: u128) -> ResourceLink {
    ResourceLink { rid, rtype: RType::Scene }
}

/// Whether `m` holds, under the scene link with identifier `rid`, a scene of the room with identifier `room_rid`.
pub open spec fn is_scene_of_room(m: Map<ResourceLink, ResourceView>, rid: u128, room_rid: u128) -> bool {
    m.contains_key(scene_link(rid)) && (m[scene_link(rid)] matches ResourceView::Scene(s) && s.group.rid
        == room_rid)
}

/// The identifiers of the scenes of the room with identifier `room_rid`.
pub open spec fn scene_rids(m: Map<ResourceLink, ResourceView>, room_rid: u128) -> Set<u128> {
    Set::new(|rid: u128| is_scene_of_room(m, rid, room_rid))
}

/// The links in `m` of type `t`.
pub open spec fn links_of_type(m: Map<ResourceLink, ResourceView>, t: RType) -> Set<ResourceLink> {
    m.dom().filter(|l: ResourceLink| l.rtype == t)
}

/// Every resource in `m` is stored under a link of its own type.
pub open spec fn typed_map(m: Map<ResourceLink, Resource>) -> bool {
    forall|l: ResourceLink| #[trigger] m.contains_key(l) ==> m[l].spec_rtype() == l.rtype
}

/// The resources of the bridge, keyed by link, with their extra data.
pub struct Resources {
    res: AssocMap<ResourceLink, Resource>,
    aux: AssocMap<ResourceLink, AuxData>,
}

impl Resources {
    /// Every resource is stored under a link of its own type.
    #[verifier::type_invariant]
    closed spec fn typed(self) -> bool {
        typed_map(self.res.view())
    }

    /// The stored resources.
    pub closed spec fn resources(&self) -> Map<ResourceLink, ResourceView> {
        self.res.view().map_values(|r: Resource| r@)
    }

    /// The extra data stored beside resources.
    pub closed spec fn aux_data(&self) -> Map<ResourceLink, AuxDataView> {
        self.aux.view().map_values(|a: AuxData| a@)
    }

    /// An empty store.
    pub fn new() -> (r: Resources)
        ensures
            r.resources() == Map::<ResourceLink, ResourceView>::empty(),
            r.aux_data() == Map::<ResourceLink, AuxDataView>::empty(),
    {
        let r = Resources { res: AssocMap::new(), aux: AssocMap::new() };
        assert(r.resources() =~= Map::<ResourceLink, ResourceView>::empty());
        assert(r.aux_data() =~= Map::<ResourceLink, AuxDataView>::empty());
        r
    }

    /// Adds `obj` under `link`, unless something is stored there already.
    /// Refused when the resource's type is not the link's type.
    pub fn add(&mut self, link: &ResourceLink, obj: Resource) -> (r: Result<(), ResourceError>)
        ensures
            obj@.rtype() == link.rtype ==> r is Ok && final(self).resources() == spec_add(
                old(self).resources(),
                *link,
                obj@,
            ),
            obj@.rtype() != link.rtype ==> r == Err::<(), ResourceError>(ResourceError::WrongType)
                && final(self).resources() == old(self).resources(),
            final(self).aux_data() == old(self).aux_data(),
    {
        proof {
            use_type_invariant(&*self);
        }
        if obj.rtype() != link.rtype {
            return Err(ResourceError::WrongType);
        }
        if self.res.contains_key(link) {
            return Ok(());
        }
        let ghost v = obj@;
        let ghost before = self.res.view();
        let mut res = AssocMap::new();
        std::mem::swap(&mut res, &mut self.res);
        res.insert(*link, obj);
        assert(typed_map(res.view()));
        self.res = res;
        assert(self.resources() =~= before.map_values(|r: Resource| r@).insert(*link, v));
        Ok(())
    }

    /// Sets the extra data of `link`.
    pub fn aux_set(&mut self, link: &ResourceLink, aux: AuxData)
        ensures
            final(self).aux_data() == old(self).aux_data().insert(*link, aux@),
            final(self).resources() == old(self).resources(),
    {
        proof {
            use_type_invariant(&*self);
        }
        let ghost v = aux@;
        let ghost before = self.aux.view();
        let mut aux_map = AssocMap::new();
        std::mem::swap(&mut aux_map, &mut self.aux);
        aux_map.insert(*link, aux);
        self.aux = aux_map;
        assert(self.aux_data() =~= before.map_values(|a: AuxData| a@).insert(*link, v));
    }

    /// Removes the resource under `link`; refused when there is none.
    pub fn delete(&mut self, link: &ResourceLink) -> (r: Result<(), ResourceError>)
        ensures
            r is Ok <==> old(self).resources().contains_key(*link),
            r is Err ==> r == Err::<(), ResourceError>(ResourceError::NotFound),
            final(self).resources() == old(self).resources().remove(*link),
            final(self).aux_data() == old(self).aux_data(),
    {
        proof {
            use_type_invariant(&*self);
        }
        let ghost before = self.res.view();
        let mut res = AssocMap::new();
        std::mem::swap(&mut res, &mut self.res);
        let removed = res.remove(link);
        assert(typed_map(res.view()));
        self.res = res;
        assert(self.resources() =~= before.map_values(|r: Resource| r@).remove(*link));
        match removed {
            Some(_) => Ok(()),
            None => Err(ResourceError::NotFound),
        }
    }

    /// The resource stored under `link`.
    pub fn get(&self, link: &ResourceLink) -> (r: Option<&Resource>)
        ensures
            match r {
                Some(x) => self.resources().contains_key(*link) && self.resources()[*link] == x@,
                None => !self.resources().contains_key(*link),
            },
    {
        self.res.get(link)
    }

    /// The extra data stored for `link`.
    pub fn aux_get(&self, link: &ResourceLink) -> (r: Option<&AuxData>)
        ensures
            match r {
                Some(x) => self.aux_data().contains_key(*link) && self.aux_data()[*link] == x@,
                None => !self.aux_data().contains_key(*link),
            },
    {
        self.aux.get(link)
    }

    /// The room stored under `link`.
    pub fn get_room(&self, link: &ResourceLink) -> (r: Option<&Room>)
        ensures
            match r {
                Some(room) => self.resources().contains_key(*link) && self.resources()[*link]
                    == ResourceView::Room(room@),
                None => !(self.resources().contains_key(*link) && self.resources()[*link] is Room),
            },
    {
        match self.res.get(link) {
            Some(Resource::Room(room)) => Some(room),
            _ => None,
        }
    }

    /// The identifiers of the scenes of the room with identifier `room_rid`.
    pub fn get_scenes_for_room(&self, room_rid: u128) -> (r: Vec<u128>)
        ensures
            r@.to_set() == scene_rids(self.resources(), room_rid),
    {
        let n = self.res.len();
        let ghost entries = self.res.entry_seq();
        let ghost m = self.resources();
        assert forall|j: int| 0 <= j < n implies self.res.view()[#[trigger] entries[j].0] == entries[j].1 by {
            assert(self.res.view().contains_key(entries[j].0));
        }
        let mut out: Vec<u128> = Vec::new();
        let mut i: usize = 0;
        while i < n
            invariant
                n == entries.len(),
                entries == self.res.entry_seq(),
                m == self.resources(),
                i <= n,
                forall|j: int| 0 <= j < n ==> #[trigger] self.res.view().contains_key(entries[j].0),
                forall|j: int| 0 <= j < n ==> self.res.view()[#[trigger] entries[j].0] == entries[j].1,
                forall|rid: u128|
                    out@.contains(rid) <==> exists|j: int|
                        0 <= j < i && #[trigger] entries[j].0 == scene_link(rid)
                            && is_scene_of_room(m, rid, room_rid),
            decreases n - i,
        {
            let (link, res) = self.res.entry(i);
            if link.rtype == RType::Scene {
                if let Resource::Scene(scene) = res {
                    if scene.group.rid == room_rid {
                        let ghost before = out@;
                        proof {
                            assert(entries[i as int].0 == *link);
                            assert(m.contains_key(*link));
                            assert(m[*link] == res@);
                            assert(*link == scene_link(link.rid));
                            assert(is_scene_of_room(m, link.rid, room_rid));
                        }
                        out.push(link.rid);
                        proof {
                            assert forall|rid: u128|
                                out@.contains(rid) <==> exists|j: int|
                                    0 <= j < i + 1 && #[trigger] entries[j].0 == scene_link(rid)
                                        && is_scene_of_room(m, rid, room_rid) by {
                                if out@.contains(rid) && !before.contains(rid) {
                                    assert(out@[before.len() as int] == link.rid);
                                    let k = choose|k: int| 0 <= k < out@.len() && out@[k] == rid;
                                    if k < before.len() {
                                        assert(before[k] == rid);
                                    }
                                    assert(entries[i as int].0 == scene_link(rid));
                                }
                                if before.contains(rid) {
                                    let k = choose|k: int| 0 <= k < before.len() && before[k] == rid;
                                    assert(out@[k] == rid);
                                }
                                if rid == link.rid {
                                    assert(out@[before.len() as int] == rid);
                                }
                            }
                        }
                    }
                }
            }
            i = i + 1;
        }
        proof {
            assert(out@.to_set() =~= scene_rids(m, room_rid)) by {
                assert forall|rid: u128| out@.to_set().contains(rid) == scene_rids(m, room_rid).contains(rid) by {
                    if is_scene_of_room(m, rid, room_rid) {
                        assert(self.res.view().contains_key(scene_link(rid)));
                        let j = choose|j: int| 0 <= j < entries.len() && #[trigger] entries[j].0 == scene_link(rid);
                        assert(out@.contains(rid));
                    }
                }
            }
        }
        out
    }

    /// Adds `more` to the children of the room under `link`; refused when there is no room there.
    pub fn update_room_children(&mut self, link: &ResourceLink, more: &Vec<ResourceLink>) -> (r: Result<
        (),
        ResourceError,
    >)
        ensures
            match old(self).resources().get(*link) {
                Some(ResourceView::Room(room)) => r is Ok && final(self).resources() == old(
                    self,
                ).resources().insert(
                    *link,
                    ResourceView::Room(
                        RoomView { children: room.children.union(more@.to_set()), ..room },
                    ),
                ),
                _ => r == Err::<(), ResourceError>(ResourceError::NotFound) && final(self).resources()
                    == old(self).resources(),
            },
            final(self).aux_data() == old(self).aux_data(),
    {
        proof {
            use_type_invariant(&*self);
        }
        let ghost before = self.res.view();
        let mut res = AssocMap::new();
        std::mem::swap(&mut res, &mut self.res);
        match res.remove(link) {
            Some(Resource::Room(mut room)) => {
                extend_links(&mut room.children, more);
                let ghost v = room@;
                res.insert(*link, Resource::Room(room));
                assert(typed_map(res.view()));
                self.res = res;
                assert(self.resources() =~= before.map_values(|r: Resource| r@).insert(
                    *link,
                    ResourceView::Room(v),
                ));
                Ok(())
            },
            Some(other) => {
                res.insert(*link, other);
                assert(res.view() =~= before);
                self.res = res;
                Err(ResourceError::NotFound)
            },
            None => {
                assert(res.view() =~= before);
                self.res = res;
                Err(ResourceError::NotFound)
            },
        }
    }

    /// Adds `child` to the rooms of the bridge home under `link`; refused when there is no bridge home there.
    pub fn add_home_child(&mut self, link: &ResourceLink, child: ResourceLink) -> (r: Result<
        (),
        ResourceError,
    >)
        ensures
            match old(self).resources().get(*link) {
                Some(ResourceView::BridgeHome(children)) => r is Ok && final(self).resources() == old(
                    self,
                ).resources().insert(*link, ResourceView::BridgeHome(children.insert(child))),
                _ => r == Err::<(), ResourceError>(ResourceError::NotFound) && final(self).resources()
                    == old(self).resources(),
            },
            final(self).aux_data() == old(self).aux_data(),
    {
        proof {
            use_type_invariant(&*self);
        }
        let ghost before = self.res.view();
        let mut res = AssocMap::new();
        std::mem::swap(&mut res, &mut self.res);
        match res.remove(link) {
            Some(Resource::BridgeHome(mut home)) => {
                insert_link(&mut home.children, child);
                let ghost v = home.children@.to_set();
                res.insert(*link, Resource::BridgeHome(home));
                assert(typed_map(res.view()));
                self.res = res;
                assert(self.resources() =~= before.map_values(|r: Resource| r@).insert(
                    *link,
                    ResourceView::BridgeHome(v),
                ));
                Ok(())
            },
            Some(other) => {
                res.insert(*link, other);
                assert(res.view() =~= before);
                self.res = res;
                Err(ResourceError::NotFound)
            },
            None => {
                assert(res.view() =~= before);
                self.res = res;
                Err(ResourceError::NotFound)
            },
        }
    }

    /// The links of all stored resources of type `t`, each once.
    pub fn get_resource_ids_by_type(&self, t: RType) -> (r: Vec<ResourceLink>)
        ensures
            r@.no_duplicates(),
            r@.to_set() == links_of_type(self.resources(), t),
            forall|l: ResourceLink| #[trigger]
                self.resources().contains_key(l) ==> self.resources()[l].rtype() == l.rtype,
    {
        proof {
            use_type_invariant(self);
            assert forall|l: ResourceLink| #[trigger]
                self.resources().contains_key(l) implies self.resources()[l].rtype() == l.rtype by {
                assert(self.res.view().contains_key(l));
            }
        }
        let n = self.res.len();
        let ghost entries = self.res.entry_seq();
        let mut out: Vec<ResourceLink> = Vec::new();
        let mut i: usize = 0;
        while i < n
            invariant
                n == entries.len(),
                entries == self.res.entry_seq(),
                i <= n,
                forall|j: int| 0 <= j < n ==> #[trigger] self.res.view().contains_key(entries[j].0),
                forall|a: int, b: int|
                    0 <= a < n && 0 <= b < n && a != b ==> #[trigger] entries[a].0 != #[trigger] entries[b].0,
                out@.no_duplicates(),
                forall|l: ResourceLink|
                    out@.contains(l) <==> exists|j: int|
                        0 <= j < i && #[trigger] entries[j].0 == l && l.rtype == t,
            decreases n - i,
        {
            let (link, _) = self.res.entry(i);
            if link.rtype == t {
                let ghost before = out@;
                let l = *link;
                proof {
                    if before.contains(l) {
                        let j = choose|j: int| 0 <= j < i && #[trigger] entries[j].0 == l && l.rtype == t;
                        assert(entries[j].0 == entries[i as int].0);
                    }
                }
                out.push(l);
                proof {
                    assert forall|x: ResourceLink|
                        out@.contains(x) <==> exists|j: int|
                            0 <= j < i + 1 && #[trigger] entries[j].0 == x && x.rtype == t by {
                        if out@.contains(x) && !before.contains(x) {
                            let k = choose|k: int| 0 <= k < out@.len() && out@[k] == x;
                            if k < before.len() {
                                assert(before[k] == x);
                            }
                            assert(entries[i as int].0 == x);
                        }
                        if before.contains(x) {
                            let k = choose|k: int| 0 <= k < before.len() && before[k] == x;
                            assert(out@[k] == x);
                        }
                        if x == l {
                            assert(out@[before.len() as int] == x);
                        }
                    }
                }
            }
            i = i + 1;
        }
        proof {
            assert(out@.to_set() =~= links_of_type(self.resources(), t)) by {
                assert forall|l: ResourceLink| out@.to_set().contains(l) == links_of_type(self.resources(), t).contains(l) by {
                    if links_of_type(self.resources(), t).contains(l) {
                        assert(self.res.view().contains_key(l));
                        let j = choose|j: int| 0 <= j < entries.len() && #[trigger] entries[j].0 == l;
                        assert(out@.contains(l));
                    }
                    if out@.contains(l) {
                        let j = choose|j: int| 0 <= j < i && #[trigger] entries[j].0 == l && l.rtype == t;
                        assert(self.res.view().contains_key(l));
                    }
                }
            }
        }
        out
    }
}

} // verus!
