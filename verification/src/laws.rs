//! Properties of the library that span its functions.

use vstd::prelude::*;

use crate::bridge_import::{
    aux_with_group, glight_link, group_room_known, prev_glight_link, prev_room_link, scenes_aux,
    topic_aux,
    children_links, group_ignored, group_stage_cleaned, group_stage_scenes, group_topic, has_room,
    homes_with, new_scene_rids, orphan_links, room_link, scene_link_for, scenes_added, store_with_button,
    store_with_group, store_with_light, store_with_plug, BridgeConfig, Z2mServer,
};
use crate::convert::{min_u32, spec_light_gradient};
use crate::ha_api::ServerMessage;
use crate::ha_websocket::{spec_auth_outcome, AuthError, AuthReply};
use crate::hue_api::LightGradientMode;
use crate::hue_api::{spec_signify_manufacturer_name, DeviceArchetype};
use crate::devicedb::{
    lemma_product_table_increasing, product_table, spec_product_data, table_lookup, SpecProductData,
};
use crate::text::{decimal, digit_char, lemma_text_lt_irreflexive, text_lt};
use crate::ids::{be_bytes_u128, be_bytes_u32, rtype_tag, source_name, IdKey, RType, ResourceLink};
use crate::text::lemma_encode_injective;
use vstd::utf8::encode_utf8;
use crate::resources::{ResourceView, RoomView, Timestamp};
use crate::store::{is_scene_of_room, links_of_type, scene_link, scene_rids, spec_add};
use crate::resources::AuxDataView;
use crate::z2m_api::{Device, ExposeList, ExposeLight, Group, GroupScene};

verus! {

/// Importing the same light twice leaves the store as importing it once.
pub proof fn lemma_light_import_idempotent(m: Map<ResourceLink, ResourceView>, dev: &Device, expose: ExposeLight)
    ensures
        store_with_light(store_with_light(m, dev, expose), dev, expose) == store_with_light(m, dev, expose),
{
    let once = store_with_light(m, dev, expose);
    assert(store_with_light(once, dev, expose) =~= once);
}

/// Importing the same plug twice leaves the store as importing it once.
pub proof fn lemma_plug_import_idempotent(m: Map<ResourceLink, ResourceView>, dev: &Device)
    ensures
        store_with_plug(store_with_plug(m, dev), dev) == store_with_plug(m, dev),
{
    let once = store_with_plug(m, dev);
    assert(store_with_plug(once, dev) =~= once);
}

/// Importing the same button again keeps the button as first imported (and
/// its first report time).
pub proof fn lemma_button_import_idempotent(
    m: Map<ResourceLink, ResourceView>,
    dev: &Device,
    first: Timestamp,
    second: Timestamp,
)
    ensures
        store_with_button(store_with_button(m, dev, first), dev, second) == store_with_button(
            m,
            dev,
            first,
        ),
{
    let once = store_with_button(m, dev, first);
    assert(store_with_button(once, dev, second) =~= once);
}

/// A gradient light never reports more points than pixels, at most 5 points and at most 7 pixels.
pub proof fn lemma_gradient_bounds(expose: ExposeList)
    ensures
        spec_light_gradient(expose) matches Some(g) ==> {
            &&& g.points_capable <= 5
            &&& g.pixel_count <= 7
            &&& g.points_capable <= g.pixel_count
            &&& g.points_capable == min_u32(expose.length_max.unwrap(), 5)
        },
{
}

/// No model id occurs twice in the product database, so a lookup finds the
/// one entry of its model id whatever the order of the entries.
pub proof fn lemma_product_ids_distinct()
    ensures
        forall|i: int, j: int|
            0 <= i < product_table().len() && 0 <= j < product_table().len() && i != j
                ==> #[trigger] product_table()[i].0 != #[trigger] product_table()[j].0,
{
    lemma_product_table_increasing();
    let t = product_table();
    assert forall|i: int, j: int|
        0 <= i < t.len() && 0 <= j < t.len() && i != j implies #[trigger] t[i].0 != #[trigger] t[j].0 by {
        lemma_text_lt_irreflexive(t[i].0);
        if i < j {
            assert(text_lt(t[i].0, t[j].0));
        } else {
            assert(text_lt(t[j].0, t[i].0));
        }
    }
}

proof fn lemma_table_lookup(t: Seq<(Seq<char>, SpecProductData)>, key: Seq<char>)
    requires
        forall|i: int, j: int|
            0 <= i < t.len() && 0 <= j < t.len() && i != j ==> #[trigger] t[i].0 != #[trigger] t[j].0,
    ensures
        table_lookup(t, key) is Some <==> exists|i: int| 0 <= i < t.len() && t[i].0 == key,
        forall|i: int| 0 <= i < t.len() && t[i].0 == key ==> table_lookup(t, key) == Some(#[trigger] t[i].1),
    decreases t.len(),
{
    if t.len() > 0 {
        let rest = t.drop_first();
        assert forall|i: int, j: int|
            0 <= i < rest.len() && 0 <= j < rest.len() && i != j implies #[trigger] rest[i].0 != #[trigger] rest[j].0 by {
            assert(rest[i] == t[i + 1]);
            assert(rest[j] == t[j + 1]);
        }
        lemma_table_lookup(rest, key);
        assert forall|i: int| 0 <= i < t.len() && t[i].0 == key implies table_lookup(t, key) == Some(#[trigger] t[i].1) by {
            if i > 0 {
                assert(rest[i - 1] == t[i]);
                assert(t[0].0 != t[i].0);
            }
        }
        if exists|i: int| 0 <= i < rest.len() && rest[i].0 == key {
            let i = choose|i: int| 0 <= i < rest.len() && rest[i].0 == key;
            assert(t[i + 1].0 == key);
        }
        if exists|i: int| 0 <= i < t.len() && t[i].0 == key {
            let i = choose|i: int| 0 <= i < t.len() && t[i].0 == key;
            if i > 0 {
                assert(rest[i - 1].0 == key);
            }
        }
    }
}

/// The product data known for a model id is the data of the database entry
/// with that model id, and there is some exactly when such an entry exists.
pub proof fn lemma_product_lookup(model_id: Seq<char>)
    ensures
        spec_product_data(model_id) is Some <==> exists|i: int|
            0 <= i < product_table().len() && product_table()[i].0 == model_id,
        forall|i: int|
            0 <= i < product_table().len() && product_table()[i].0 == model_id
                ==> spec_product_data(model_id) == Some(#[trigger] product_table()[i].1),
{
    lemma_product_ids_distinct();
    lemma_table_lookup(product_table(), model_id);
}

/// Every resource in `m` is stored under a link of its own type.
pub open spec fn typed_view(m: Map<ResourceLink, ResourceView>) -> bool {
    forall|l: ResourceLink| #[trigger] m.contains_key(l) ==> m[l].rtype() == l.rtype
}

proof fn lemma_scenes_added_typed(m: Map<ResourceLink, ResourceView>, scenes: Seq<GroupScene>, room: ResourceLink)
    requires
        typed_view(m),
    ensures
        typed_view(scenes_added(m, scenes, room)),
        m.dom().subset_of(scenes_added(m, scenes, room).dom()),
        forall|l: ResourceLink| #[trigger] m.contains_key(l) && l.rtype != RType::Scene
            ==> scenes_added(m, scenes, room)[l] == m[l],
    decreases scenes.len(),
{
    if scenes.len() > 0 {
        lemma_scenes_added_typed(m, scenes.drop_last(), room);
        let scn = scenes.last();
        assert(scene_link_for(room, scn.id).rtype == RType::Scene);
    }
}

/// After a group that is not ignored is imported into a store whose resources
/// sit under links of their own types, its room exists and holds every member
/// of the group.
pub proof fn lemma_group_room_holds_members(
    m: Map<ResourceLink, ResourceView>,
    config: &BridgeConfig,
    server: &Z2mServer,
    grp: &Group,
)
    requires
        typed_view(m),
        !group_ignored(server, grp),
    ensures
        has_room(store_with_group(m, config, server, grp), room_link(group_topic(server, grp).1)),
        children_links(grp).subset_of(
            store_with_group(m, config, server, grp)[room_link(group_topic(server, grp).1)]->Room_0.children,
        ),
{
    let (plug, topic) = group_topic(server, grp);
    let room = room_link(topic);
    let m1 = group_stage_cleaned(m, server, grp);
    assert(typed_view(m1));
    let m2 = group_stage_scenes(m, server, grp);
    if !plug {
        let ma = scenes_added(m1, grp.scenes@, room);
        lemma_scenes_added_typed(m1, grp.scenes@, room);
        if has_room(ma, room) {
            let gone = orphan_links(scene_rids(ma, room.rid), new_scene_rids(grp.scenes@, room));
            assert(m2 == ma.remove_keys(gone));
            assert(!gone.contains(room));
        }
    }
    assert(typed_view(m2));
    if !has_room(m2, room) {
        let m3 = homes_with(m2, links_of_type(m2, RType::BridgeHome), room);
        assert(!m3.contains_key(room)) by {
            if m2.contains_key(room) {
                assert(m2[room].rtype() == RType::Room);
            }
        }
    }
}

/// Adding the scenes of `scenes` to `room` adds a scene link for each, keeps
/// every other link, and makes no scene of `room` besides those.
proof fn lemma_scenes_added_links(m: Map<ResourceLink, ResourceView>, scenes: Seq<GroupScene>, room: ResourceLink)
    ensures
        forall|k: int| 0 <= k < scenes.len() ==> #[trigger] scenes_added(m, scenes, room).contains_key(
            scene_link_for(room, scenes[k].id),
        ),
        forall|l: ResourceLink| #[trigger] m.contains_key(l) ==> scenes_added(m, scenes, room).contains_key(l)
            && scenes_added(m, scenes, room)[l] == m[l],
        forall|l: ResourceLink| #[trigger] scenes_added(m, scenes, room).contains_key(l) ==> m.contains_key(l)
            || l.rtype == RType::Scene,
        forall|rid: u128| #[trigger] is_scene_of_room(scenes_added(m, scenes, room), rid, room.rid)
            ==> is_scene_of_room(m, rid, room.rid) || new_scene_rids(scenes, room).contains(rid),
    decreases scenes.len(),
{
    if scenes.len() > 0 {
        let prev = scenes.drop_last();
        lemma_scenes_added_links(m, prev, room);
        let scn = scenes.last();
        let link = scene_link_for(room, scn.id);
        let f = |s: GroupScene| scene_link_for(room, s.id).rid;
        assert(scenes.map_values(f)[scenes.len() - 1] == link.rid);
        assert(new_scene_rids(scenes, room).contains(link.rid));
        assert forall|k: int| 0 <= k < prev.len() implies new_scene_rids(scenes, room).contains(
            #[trigger] f(prev[k]),
        ) by {
            assert(scenes.map_values(f)[k] == f(prev[k]));
        }
        assert forall|rid: u128| #[trigger] new_scene_rids(prev, room).contains(rid) implies new_scene_rids(
            scenes,
            room,
        ).contains(rid) by {
            let k = choose|k: int| 0 <= k < prev.map_values(f).len() && prev.map_values(f)[k] == rid;
            assert(f(prev[k]) == rid);
        }
        assert forall|k: int| 0 <= k < scenes.len() implies #[trigger] scenes_added(m, scenes, room).contains_key(
            scene_link_for(room, scenes[k].id),
        ) by {
            let r0 = scenes_added(m, prev, room);
            if k < scenes.len() - 1 {
                assert(prev[k] == scenes[k]);
                assert(r0.contains_key(scene_link_for(room, prev[k].id)));
            } else {
                assert(scenes[k] == scn);
            }
        }
        assert forall|rid: u128| #[trigger] is_scene_of_room(scenes_added(m, scenes, room), rid, room.rid)
            implies is_scene_of_room(m, rid, room.rid) || new_scene_rids(scenes, room).contains(rid) by {
            if scene_link(rid) == link {
                assert(rid == link.rid);
            } else {
                assert(is_scene_of_room(scenes_added(m, prev, room), rid, room.rid));
            }
        }
    }
}

/// Adding scenes whose links are all taken already changes nothing.
proof fn lemma_scenes_added_present(m: Map<ResourceLink, ResourceView>, scenes: Seq<GroupScene>, room: ResourceLink)
    requires
        forall|k: int| 0 <= k < scenes.len() ==> #[trigger] m.contains_key(scene_link_for(room, scenes[k].id)),
    ensures
        scenes_added(m, scenes, room) == m,
    decreases scenes.len(),
{
    if scenes.len() > 0 {
        let prev = scenes.drop_last();
        assert forall|k: int| 0 <= k < prev.len() implies #[trigger] m.contains_key(scene_link_for(room, prev[k].id)) by {
            assert(prev[k] == scenes[k]);
        }
        lemma_scenes_added_present(m, prev, room);
        assert(m.contains_key(scene_link_for(room, scenes[scenes.len() - 1].id)));
    }
}

/// Addressing the scenes twice leaves the aux data as addressing them once.
proof fn lemma_scenes_aux_twice(
    a: Map<ResourceLink, AuxDataView>,
    scenes: Seq<GroupScene>,
    room: ResourceLink,
    topic: Seq<char>,
)
    ensures
        scenes_aux(scenes_aux(a, scenes, room, topic), scenes, room, topic) == scenes_aux(a, scenes, room, topic),
    decreases scenes.len(),
{
    if scenes.len() > 0 {
        let once = scenes_aux(a, scenes, room, topic);
        lemma_scenes_aux_over(a, once, scenes, room, topic);
    }
}

/// Addressing the scenes over any aux data gives the same value at every
/// scene link, and leaves other links as they were in that data.
proof fn lemma_scenes_aux_over(
    a: Map<ResourceLink, AuxDataView>,
    b: Map<ResourceLink, AuxDataView>,
    scenes: Seq<GroupScene>,
    room: ResourceLink,
    topic: Seq<char>,
)
    requires
        b == scenes_aux(a, scenes, room, topic),
    ensures
        scenes_aux(b, scenes, room, topic) == b,
{
    lemma_scenes_aux_shape(a, scenes, room, topic);
    lemma_scenes_aux_shape(b, scenes, room, topic);
    let c = scenes_aux(b, scenes, room, topic);
    assert forall|l: ResourceLink| #[trigger] c.contains_key(l) == b.contains_key(l) by {}
    assert forall|l: ResourceLink| #[trigger] c.contains_key(l) implies c[l] == b[l] by {
        if exists|k: int| 0 <= k < scenes.len() && scene_link_for(room, scenes[k].id) == l {
        } else {
            assert(b.contains_key(l));
        }
    }
    assert(c =~= b);
}

/// The aux data after addressing the scenes: the scene links take the value
/// of their last scene, and other links keep theirs.
proof fn lemma_scenes_aux_shape(
    a: Map<ResourceLink, AuxDataView>,
    scenes: Seq<GroupScene>,
    room: ResourceLink,
    topic: Seq<char>,
)
    ensures
        forall|l: ResourceLink| #[trigger] scenes_aux(a, scenes, room, topic).contains_key(l) <==> a.contains_key(l)
            || exists|k: int| 0 <= k < scenes.len() && scene_link_for(room, scenes[k].id) == l,
        forall|l: ResourceLink|
            !(exists|k: int| 0 <= k < scenes.len() && scene_link_for(room, scenes[k].id) == l)
                && a.contains_key(l) ==> #[trigger] scenes_aux(a, scenes, room, topic)[l] == a[l],
        forall|l: ResourceLink|
            (exists|k: int| 0 <= k < scenes.len() && scene_link_for(room, scenes[k].id) == l)
                ==> #[trigger] scenes_aux(a, scenes, room, topic)[l] == scene_aux_value(scenes, room, topic, l),
    decreases scenes.len(),
{
    if scenes.len() > 0 {
        let prev = scenes.drop_last();
        lemma_scenes_aux_shape(a, prev, room, topic);
        let scn = scenes.last();
        let link = scene_link_for(room, scn.id);
        assert forall|l: ResourceLink| #[trigger] scenes_aux(a, scenes, room, topic).contains_key(l) <==> a.contains_key(l)
            || exists|k: int| 0 <= k < scenes.len() && scene_link_for(room, scenes[k].id) == l by {
            if exists|k: int| 0 <= k < scenes.len() && scene_link_for(room, scenes[k].id) == l {
                let k = choose|k: int| 0 <= k < scenes.len() && scene_link_for(room, scenes[k].id) == l;
                if k < scenes.len() - 1 {
                    assert(prev[k] == scenes[k]);
                }
            }
            if exists|k: int| 0 <= k < prev.len() && scene_link_for(room, prev[k].id) == l {
                let k = choose|k: int| 0 <= k < prev.len() && scene_link_for(room, prev[k].id) == l;
                assert(scenes[k] == prev[k]);
            }
        }
        assert forall|l: ResourceLink|
            !(exists|k: int| 0 <= k < scenes.len() && scene_link_for(room, scenes[k].id) == l)
                && a.contains_key(l) implies #[trigger] scenes_aux(a, scenes, room, topic)[l] == a[l] by {
            assert(scene_link_for(room, scenes[scenes.len() - 1].id) != l);
            if exists|k: int| 0 <= k < prev.len() && scene_link_for(room, prev[k].id) == l {
                let k = choose|k: int| 0 <= k < prev.len() && scene_link_for(room, prev[k].id) == l;
                assert(scenes[k] == prev[k]);
            }
        }
        assert forall|l: ResourceLink|
            (exists|k: int| 0 <= k < scenes.len() && scene_link_for(room, scenes[k].id) == l)
                implies #[trigger] scenes_aux(a, scenes, room, topic)[l] == scene_aux_value(scenes, room, topic, l) by {
            if l != link {
                let k = choose|k: int| 0 <= k < scenes.len() && scene_link_for(room, scenes[k].id) == l;
                assert(k < scenes.len() - 1);
                assert(prev[k] == scenes[k]);
                assert(scene_aux_value(scenes, room, topic, l) == scene_aux_value(prev, room, topic, l));
            }
        }
    }
}

/// The aux value the last scene of `scenes` with link `l` gives.
spec fn scene_aux_value(scenes: Seq<GroupScene>, room: ResourceLink, topic: Seq<char>, l: ResourceLink) -> AuxDataView
    decreases scenes.len(),
{
    if scenes.len() == 0 {
        AuxDataView { topic: None, index: None }
    } else if scene_link_for(room, scenes.last().id) == l {
        AuxDataView { topic: Some(topic), index: Some(scenes.last().id) }
    } else {
        scene_aux_value(scenes.drop_last(), room, topic, l)
    }
}

/// Whether importing `grp` into `m` leaves no scene of its room that the group
/// does not have: it is a plug group, or its room is known once stale links are
/// removed (then such scenes are deleted), or there are no such scenes.
pub open spec fn no_foreign_scenes(m: Map<ResourceLink, ResourceView>, server: &Z2mServer, grp: &Group) -> bool {
    let (plug, topic) = group_topic(server, grp);
    let room = room_link(topic);
    let m1 = group_stage_cleaned(m, server, grp);
    ||| plug
    ||| has_room(m1, room)
    ||| scene_rids(m1, room.rid).subset_of(new_scene_rids(grp.scenes@, room))
}

/// Importing the same group a second time changes nothing more, on a store whose
/// resources sit under links of their own types, unless the first import left
/// scenes of the room that the group does not have (which the second deletes).
pub proof fn lemma_group_import_idempotent(
    m: Map<ResourceLink, ResourceView>,
    a: Map<ResourceLink, AuxDataView>,
    config: &BridgeConfig,
    server: &Z2mServer,
    grp: &Group,
)
    requires
        typed_view(m),
        !group_ignored(server, grp),
        no_foreign_scenes(m, server, grp),
    ensures
        group_room_known(store_with_group(m, config, server, grp), server, grp),
        store_with_group(store_with_group(m, config, server, grp), config, server, grp) == store_with_group(
            m,
            config,
            server,
            grp,
        ),
        aux_with_group(aux_with_group(a, server, grp), server, grp) == aux_with_group(a, server, grp),
{
    let (plug, topic) = group_topic(server, grp);
    let room = room_link(topic);
    let glight = glight_link(topic);
    let scenes = grp.scenes@;
    let new = new_scene_rids(scenes, room);
    let m1 = group_stage_cleaned(m, server, grp);
    let m2 = group_stage_scenes(m, server, grp);
    let big = store_with_group(m, config, server, grp);
    lemma_group_room_holds_members(m, config, server, grp);
    assert(has_room(big, room));

    // the stale links are gone after the first import
    assert(prev_room_link(grp).rtype == RType::Room);
    assert(prev_glight_link(grp).rtype == RType::GroupedLight);
    assert(glight.rtype == RType::GroupedLight);
    assert(room.rtype == RType::Room);

    // what the first import leaves of the group's scenes
    if !plug {
        let ma = scenes_added(m1, scenes, room);
        lemma_scenes_added_links(m1, scenes, room);
        if has_room(ma, room) {
            let gone = orphan_links(scene_rids(ma, room.rid), new);
            assert(m2 == ma.remove_keys(gone));
            assert forall|rid: u128| #[trigger] is_scene_of_room(m2, rid, room.rid) implies new.contains(rid) by {
                assert(ma.contains_key(scene_link(rid)));
                assert(!gone.contains(scene_link(rid)));
            }
            assert forall|k: int| 0 <= k < scenes.len() implies #[trigger] m2.contains_key(
                scene_link_for(room, scenes[k].id),
            ) by {
                let l = scene_link_for(room, scenes[k].id);
                let f = |s: GroupScene| scene_link_for(room, s.id).rid;
                assert(scenes.map_values(f)[k] == l.rid);
                assert(new.contains(l.rid));
                assert(!gone.contains(l));
            }
        } else {
            assert(m2 == ma);
            assert(!has_room(m1, room)) by {
                if has_room(m1, room) {
                    assert(ma.contains_key(room));
                }
            }
            assert forall|rid: u128| #[trigger] is_scene_of_room(m2, rid, room.rid) implies new.contains(rid) by {
                if is_scene_of_room(m1, rid, room.rid) {
                    assert(scene_rids(m1, room.rid).contains(rid));
                }
            }
        }
    }

    // the second import
    let c1 = group_stage_cleaned(big, server, grp);
    assert(c1 == big) by {
        if room != prev_room_link(grp) {
            assert(!big.contains_key(prev_room_link(grp))) by {
                assert(!m1.contains_key(prev_room_link(grp)));
                if !plug {
                    lemma_scenes_added_links(m1, scenes, room);
                }
                assert(!m2.contains_key(prev_room_link(grp)));
            }
            assert(big.remove(prev_room_link(grp)) =~= big);
        }
        if glight != prev_glight_link(grp) {
            assert(!big.contains_key(prev_glight_link(grp))) by {
                if room == prev_room_link(grp) {
                    assert(!m1.contains_key(prev_glight_link(grp)));
                } else {
                    assert(!m.remove(prev_room_link(grp)).remove(prev_glight_link(grp)).contains_key(
                        prev_glight_link(grp),
                    ));
                }
                if !plug {
                    lemma_scenes_added_links(m1, scenes, room);
                }
                assert(!m2.contains_key(prev_glight_link(grp)));
            }
            assert(big.remove(prev_glight_link(grp)) =~= big);
        }
    }
    let c2 = group_stage_scenes(big, server, grp);
    assert(c2 == big) by {
        if !plug {
            assert forall|k: int| 0 <= k < scenes.len() implies #[trigger] big.contains_key(
                scene_link_for(room, scenes[k].id),
            ) by {
                assert(m2.contains_key(scene_link_for(room, scenes[k].id)));
            }
            lemma_scenes_added_present(big, scenes, room);
            assert forall|rid: u128| #[trigger] is_scene_of_room(big, rid, room.rid) implies new.contains(rid) by {
                assert(big.contains_key(scene_link(rid)));
                assert(scene_link(rid) != room);
                assert(scene_link(rid) != glight);
                assert(m2.contains_key(scene_link(rid)));
                assert(big[scene_link(rid)] == m2[scene_link(rid)]);
                assert(is_scene_of_room(m2, rid, room.rid));
            }
            let gone = orphan_links(scene_rids(big, room.rid), new);
            assert(big.remove_keys(gone) =~= big) by {
                assert forall|l: ResourceLink| gone.contains(l) implies !big.contains_key(l) by {
                    assert(scene_rids(big, room.rid).contains(l.rid));
                }
            }
        }
    }
    assert(group_room_known(big, server, grp));
    let known = big[room]->Room_0;
    assert(known.children.union(children_links(grp)) =~= known.children);
    assert(big.insert(room, ResourceView::Room(RoomView { children: known.children.union(children_links(grp)), ..known })) =~= big);

    // the aux data
    if plug {
        assert(aux_with_group(aux_with_group(a, server, grp), server, grp) =~= aux_with_group(a, server, grp));
    } else {
        lemma_scenes_aux_twice(a, scenes, room, topic);
    }
}


/// A product of Signify, as the database lists it.
pub open spec fn hue_product(product_name: Seq<char>, product_archetype: DeviceArchetype, platform: Seq<char>) -> SpecProductData {
    SpecProductData {
        manufacturer_name: "Signify Netherlands B.V."@,
        product_name,
        product_archetype,
        hardware_platform_type: Some(platform),
    }
}

/// The model ids the product database knows.
pub open spec fn known_model_ids() -> Set<Seq<char>> {
    set!["3RSP02028BZ"@, "915005987201"@, "929003053301_01"@, "929003053301_02"@, "LCA001"@, "LCD007"@, "LCE002"@, "LCG002"@, "LCT014"@, "LCT015"@, "LCT016"@, "LCX001"@, "LCX005"@, "LLC020"@, "LOM001"@, "LST002"@, "LTO001"@, "LTW015"@, "LWA003"@, "LWA029"@, "LWB014"@, "RDM002"@, "RWL021"@, "RWL022"@, "SML001"@, "SML002"@, "SML003"@, "Z3-1BRL"@]
}

/// What the product database knows: for each known model id its
/// manufacturer, product name, archetype and hardware platform type, and no
/// product for any other model id.
pub proof fn lemma_product_data_values()
    ensures
        spec_product_data("3RSP02028BZ"@) == Some(SpecProductData { manufacturer_name: "Third Reality, Inc"@, product_name: "Zigbee / BLE smart plug with power"@, product_archetype: DeviceArchetype::Plug, hardware_platform_type: None }),
        spec_product_data("915005987201"@) == Some(hue_product("Signe gradient floor"@, DeviceArchetype::HueSigne, "100b-118"@)),
        spec_product_data("929003053301_01"@) == Some(hue_product("Hue Ensis up"@, DeviceArchetype::PendantLong, "100b-11f"@)),
        spec_product_data("929003053301_02"@) == Some(hue_product("Hue Ensis down"@, DeviceArchetype::PendantLong, "100b-11f"@)),
        spec_product_data("LCA001"@) == Some(hue_product("Hue color lamp"@, DeviceArchetype::SultanBulb, "100b-112"@)),
        spec_product_data("LCD007"@) == Some(hue_product("Hue color downlight"@, DeviceArchetype::RecessedCeiling, "100b-114"@)),
        spec_product_data("LCE002"@) == Some(hue_product("Hue color candle"@, DeviceArchetype::CandleBulb, "100b-114"@)),
        spec_product_data("LCG002"@) == Some(hue_product("Hue color spot"@, DeviceArchetype::SpotBulb, "100b-114"@)),
        spec_product_data("LCT014"@) == Some(hue_product("Hue color lamp"@, DeviceArchetype::SultanBulb, "100b-10c"@)),
        spec_product_data("LCT015"@) == Some(hue_product("Hue color lamp"@, DeviceArchetype::SultanBulb, "100b-10c"@)),
        spec_product_data("LCT016"@) == Some(hue_product("Hue color lamp"@, DeviceArchetype::SultanBulb, "100b-10c"@)),
        spec_product_data("LCX001"@) == Some(hue_product("Hue play gradient lightstrip"@, DeviceArchetype::HueLightstripTv, "100b-118"@)),
        spec_product_data("LCX005"@) == Some(hue_product("Hue play gradient lightstrip"@, DeviceArchetype::HueLightstripPc, "100b-118"@)),
        spec_product_data("LLC020"@) == Some(hue_product("Hue go"@, DeviceArchetype::HueGo, "100b-108"@)),
        spec_product_data("LOM001"@) == Some(hue_product("Hue Smart plug"@, DeviceArchetype::Plug, "100b-115"@)),
        spec_product_data("LST002"@) == Some(hue_product("Hue lightstrip plus"@, DeviceArchetype::HueLightstrip, "100b-10f"@)),
        spec_product_data("LTO001"@) == Some(hue_product("Hue filament bulb"@, DeviceArchetype::VintageBulb, "100b-114"@)),
        spec_product_data("LTW015"@) == Some(hue_product("Hue ambiance lamp"@, DeviceArchetype::SultanBulb, "100b-10c"@)),
        spec_product_data("LWA003"@) == Some(hue_product("Hue white lamp"@, DeviceArchetype::SultanBulb, "100b-114"@)),
        spec_product_data("LWA029"@) == Some(hue_product("Hue white lamp"@, DeviceArchetype::SultanBulb, "100b-114"@)),
        spec_product_data("LWB014"@) == Some(hue_product("Hue white lamp"@, DeviceArchetype::ClassicBulb, "100b-10c"@)),
        spec_product_data("RDM002"@) == Some(hue_product("Hue tap dial switch"@, DeviceArchetype::UnknownArchetype, "100b-121"@)),
        spec_product_data("RWL021"@) == Some(hue_product("Hue dimmer switch"@, DeviceArchetype::UnknownArchetype, "100b-109"@)),
        spec_product_data("RWL022"@) == Some(hue_product("Hue dimmer switch"@, DeviceArchetype::UnknownArchetype, "100b-119"@)),
        spec_product_data("SML001"@) == Some(hue_product("Hue motion sensor"@, DeviceArchetype::UnknownArchetype, "100b-10d"@)),
        spec_product_data("SML002"@) == Some(hue_product("Hue outdoor motion sensor"@, DeviceArchetype::UnknownArchetype, "100b-10d"@)),
        spec_product_data("SML003"@) == Some(hue_product("Hue motion sensor"@, DeviceArchetype::UnknownArchetype, "100b-11b"@)),
        spec_product_data("Z3-1BRL"@) == Some(SpecProductData { manufacturer_name: "Lutron"@, product_name: "Lutron Aurora"@, product_archetype: DeviceArchetype::UnknownArchetype, hardware_platform_type: Some("1144-0"@) }),
        forall|model_id: Seq<char>| #[trigger] spec_product_data(model_id) is Some <==> known_model_ids().contains(model_id),
{
    let t = product_table();
    assert(t.len() == 28);
    assert(spec_signify_manufacturer_name() == "Signify Netherlands B.V."@);
    assert(t[0].1 == SpecProductData { manufacturer_name: "Third Reality, Inc"@, product_name: "Zigbee / BLE smart plug with power"@, product_archetype: DeviceArchetype::Plug, hardware_platform_type: None });
    assert(t[1].1 == hue_product("Signe gradient floor"@, DeviceArchetype::HueSigne, "100b-118"@));
    assert(t[2].1 == hue_product("Hue Ensis up"@, DeviceArchetype::PendantLong, "100b-11f"@));
    assert(t[3].1 == hue_product("Hue Ensis down"@, DeviceArchetype::PendantLong, "100b-11f"@));
    assert(t[4].1 == hue_product("Hue color lamp"@, DeviceArchetype::SultanBulb, "100b-112"@));
    assert(t[5].1 == hue_product("Hue color downlight"@, DeviceArchetype::RecessedCeiling, "100b-114"@));
    assert(t[6].1 == hue_product("Hue color candle"@, DeviceArchetype::CandleBulb, "100b-114"@));
    assert(t[7].1 == hue_product("Hue color spot"@, DeviceArchetype::SpotBulb, "100b-114"@));
    assert(t[8].1 == hue_product("Hue color lamp"@, DeviceArchetype::SultanBulb, "100b-10c"@));
    assert(t[9].1 == hue_product("Hue color lamp"@, DeviceArchetype::SultanBulb, "100b-10c"@));
    assert(t[10].1 == hue_product("Hue color lamp"@, DeviceArchetype::SultanBulb, "100b-10c"@));
    assert(t[11].1 == hue_product("Hue play gradient lightstrip"@, DeviceArchetype::HueLightstripTv, "100b-118"@));
    assert(t[12].1 == hue_product("Hue play gradient lightstrip"@, DeviceArchetype::HueLightstripPc, "100b-118"@));
    assert(t[13].1 == hue_product("Hue go"@, DeviceArchetype::HueGo, "100b-108"@));
    assert(t[14].1 == hue_product("Hue Smart plug"@, DeviceArchetype::Plug, "100b-115"@));
    assert(t[15].1 == hue_product("Hue lightstrip plus"@, DeviceArchetype::HueLightstrip, "100b-10f"@));
    assert(t[16].1 == hue_product("Hue filament bulb"@, DeviceArchetype::VintageBulb, "100b-114"@));
    assert(t[17].1 == hue_product("Hue ambiance lamp"@, DeviceArchetype::SultanBulb, "100b-10c"@));
    assert(t[18].1 == hue_product("Hue white lamp"@, DeviceArchetype::SultanBulb, "100b-114"@));
    assert(t[19].1 == hue_product("Hue white lamp"@, DeviceArchetype::SultanBulb, "100b-114"@));
    assert(t[20].1 == hue_product("Hue white lamp"@, DeviceArchetype::ClassicBulb, "100b-10c"@));
    assert(t[21].1 == hue_product("Hue tap dial switch"@, DeviceArchetype::UnknownArchetype, "100b-121"@));
    assert(t[22].1 == hue_product("Hue dimmer switch"@, DeviceArchetype::UnknownArchetype, "100b-109"@));
    assert(t[23].1 == hue_product("Hue dimmer switch"@, DeviceArchetype::UnknownArchetype, "100b-119"@));
    assert(t[24].1 == hue_product("Hue motion sensor"@, DeviceArchetype::UnknownArchetype, "100b-10d"@));
    assert(t[25].1 == hue_product("Hue outdoor motion sensor"@, DeviceArchetype::UnknownArchetype, "100b-10d"@));
    assert(t[26].1 == hue_product("Hue motion sensor"@, DeviceArchetype::UnknownArchetype, "100b-11b"@));
    assert(t[27].1 == SpecProductData { manufacturer_name: "Lutron"@, product_name: "Lutron Aurora"@, product_archetype: DeviceArchetype::UnknownArchetype, hardware_platform_type: Some("1144-0"@) });
    assert(t[0].0 == "3RSP02028BZ"@);
    assert(t[1].0 == "915005987201"@);
    assert(t[2].0 == "929003053301_01"@);
    assert(t[3].0 == "929003053301_02"@);
    assert(t[4].0 == "LCA001"@);
    assert(t[5].0 == "LCD007"@);
    assert(t[6].0 == "LCE002"@);
    assert(t[7].0 == "LCG002"@);
    assert(t[8].0 == "LCT014"@);
    assert(t[9].0 == "LCT015"@);
    assert(t[10].0 == "LCT016"@);
    assert(t[11].0 == "LCX001"@);
    assert(t[12].0 == "LCX005"@);
    assert(t[13].0 == "LLC020"@);
    assert(t[14].0 == "LOM001"@);
    assert(t[15].0 == "LST002"@);
    assert(t[16].0 == "LTO001"@);
    assert(t[17].0 == "LTW015"@);
    assert(t[18].0 == "LWA003"@);
    assert(t[19].0 == "LWA029"@);
    assert(t[20].0 == "LWB014"@);
    assert(t[21].0 == "RDM002"@);
    assert(t[22].0 == "RWL021"@);
    assert(t[23].0 == "RWL022"@);
    assert(t[24].0 == "SML001"@);
    assert(t[25].0 == "SML002"@);
    assert(t[26].0 == "SML003"@);
    assert(t[27].0 == "Z3-1BRL"@);
    lemma_product_lookup("3RSP02028BZ"@);
    lemma_product_lookup("915005987201"@);
    lemma_product_lookup("929003053301_01"@);
    lemma_product_lookup("929003053301_02"@);
    lemma_product_lookup("LCA001"@);
    lemma_product_lookup("LCD007"@);
    lemma_product_lookup("LCE002"@);
    lemma_product_lookup("LCG002"@);
    lemma_product_lookup("LCT014"@);
    lemma_product_lookup("LCT015"@);
    lemma_product_lookup("LCT016"@);
    lemma_product_lookup("LCX001"@);
    lemma_product_lookup("LCX005"@);
    lemma_product_lookup("LLC020"@);
    lemma_product_lookup("LOM001"@);
    lemma_product_lookup("LST002"@);
    lemma_product_lookup("LTO001"@);
    lemma_product_lookup("LTW015"@);
    lemma_product_lookup("LWA003"@);
    lemma_product_lookup("LWA029"@);
    lemma_product_lookup("LWB014"@);
    lemma_product_lookup("RDM002"@);
    lemma_product_lookup("RWL021"@);
    lemma_product_lookup("RWL022"@);
    lemma_product_lookup("SML001"@);
    lemma_product_lookup("SML002"@);
    lemma_product_lookup("SML003"@);
    lemma_product_lookup("Z3-1BRL"@);
    assert forall|model_id: Seq<char>| #[trigger] spec_product_data(model_id) is Some <==> known_model_ids().contains(model_id) by {
        lemma_product_lookup(model_id);
        if spec_product_data(model_id) is Some {
            let i = choose|i: int| 0 <= i < t.len() && t[i].0 == model_id;
            assert(i == 0 || i == 1 || i == 2 || i == 3 || i == 4 || i == 5 || i == 6 || i == 7 || i == 8 || i == 9 || i == 10 || i == 11 || i == 12 || i == 13 || i == 14 || i == 15 || i == 16 || i == 17 || i == 18 || i == 19 || i == 20 || i == 21 || i == 22 || i == 23 || i == 24 || i == 25 || i == 26 || i == 27);
        }
        if known_model_ids().contains(model_id) {
            assert(model_id == t[0].0 || model_id == t[1].0 || model_id == t[2].0 || model_id == t[3].0 || model_id == t[4].0 || model_id == t[5].0 || model_id == t[6].0 || model_id == t[7].0 || model_id == t[8].0 || model_id == t[9].0 || model_id == t[10].0 || model_id == t[11].0 || model_id == t[12].0 || model_id == t[13].0 || model_id == t[14].0 || model_id == t[15].0 || model_id == t[16].0 || model_id == t[17].0 || model_id == t[18].0 || model_id == t[19].0 || model_id == t[20].0 || model_id == t[21].0 || model_id == t[22].0 || model_id == t[23].0 || model_id == t[24].0 || model_id == t[25].0 || model_id == t[26].0 || model_id == t[27].0);
        }
    }
}

/// Only the two smart plugs of the database are taken for plugs: a known
/// model has the plug archetype exactly when it is the Third Reality plug or
/// the Hue Smart plug.
pub proof fn lemma_plug_models(model_id: Seq<char>)
    ensures
        spec_product_data(model_id) matches Some(d) ==> (d.product_archetype == DeviceArchetype::Plug <==> (
            model_id == "3RSP02028BZ"@ || model_id == "LOM001"@)),
{
    lemma_product_data_values();
    reveal_strlit("3RSP02028BZ");
    reveal_strlit("915005987201");
    reveal_strlit("929003053301_01");
    reveal_strlit("929003053301_02");
    reveal_strlit("LCA001");
    reveal_strlit("LCD007");
    reveal_strlit("LCE002");
    reveal_strlit("LCG002");
    reveal_strlit("LCT014");
    reveal_strlit("LCT015");
    reveal_strlit("LCT016");
    reveal_strlit("LCX001");
    reveal_strlit("LCX005");
    reveal_strlit("LLC020");
    reveal_strlit("LOM001");
    reveal_strlit("LST002");
    reveal_strlit("LTO001");
    reveal_strlit("LTW015");
    reveal_strlit("LWA003");
    reveal_strlit("LWA029");
    reveal_strlit("LWB014");
    reveal_strlit("RDM002");
    reveal_strlit("RWL021");
    reveal_strlit("RWL022");
    reveal_strlit("SML001");
    reveal_strlit("SML002");
    reveal_strlit("SML003");
    reveal_strlit("Z3-1BRL");
    if spec_product_data(model_id) is Some {
        assert(known_model_ids().contains(model_id));
    }
}


/// The number that the decimal digits `s` spell.
pub open spec fn digits_value(s: Seq<char>) -> int
    decreases s.len(),
{
    if s.len() == 0 {
        0
    } else {
        digits_value(s.drop_last()) * 10 + (s.last() as int - '0' as int)
    }
}

/// The decimal text of a number is made of decimal digits, starts with a
/// zero only for zero itself, and spells that number back.
pub proof fn lemma_decimal_spells(n: nat)
    ensures
        decimal(n).len() >= 1,
        forall|i: int| 0 <= i < decimal(n).len() ==> '0' <= #[trigger] decimal(n)[i] <= '9',
        decimal(n)[0] == '0' ==> n == 0,
        digits_value(decimal(n)) == n,
    decreases n,
{
    if n >= 10 {
        lemma_decimal_spells(n / 10);
        let d = decimal(n);
        let p = decimal(n / 10);
        assert(d.drop_last() =~= p);
        assert(d[0] == p[0]);
        assert forall|i: int| 0 <= i < d.len() implies '0' <= #[trigger] d[i] <= '9' by {
            if i < p.len() {
                assert(d[i] == p[i]);
            }
        }
        let r = n % 10;
        assert(d.last() == digit_char(r));
        assert(d.last() as int - '0' as int == r);
        assert(digits_value(d) == digits_value(p) * 10 + r);
        assert(n == (n / 10) * 10 + r);
    } else {
        let d = decimal(n);
        assert(d.drop_last() =~= Seq::<char>::empty());
        assert(d.last() as int - '0' as int == n);
        assert(digits_value(d) == digits_value(d.drop_last()) * 10 + (d.last() as int - '0' as int));
    }
}


/// The gradient capability of a list feature: present exactly when the
/// feature gives a maximum length, then in interpolated palette mode (of
/// the three gradient modes), with no points set, as many points as the
/// length allows up to 5, and as many pixels as it allows up to 7.
pub proof fn lemma_gradient_capability(expose: ExposeList)
    ensures
        spec_light_gradient(expose) is Some <==> expose.length_max is Some,
        spec_light_gradient(expose) matches Some(g) ==> {
            let max = expose.length_max->0;
            &&& g.mode == LightGradientMode::InterpolatedPalette
            &&& g.mode_values == seq![
                LightGradientMode::InterpolatedPalette,
                LightGradientMode::InterpolatedPaletteMirrored,
                LightGradientMode::RandomPixelated,
            ]
            &&& g.points.len() == 0
            &&& g.points_capable == (if max <= 5 { max } else { 5 })
            &&& g.pixel_count == (if max <= 7 { max } else { 7 })
        },
{
}

/// Authentication succeeds exactly when the server answers `auth_ok`; the
/// stream ending, a transport error, a frame that is not text, a text that is
/// no server message and any other server message each fail with their own error.
pub proof fn lemma_auth_outcome(reply: AuthReply)
    ensures
        spec_auth_outcome(reply) is Ok <==> reply matches AuthReply::Message(ServerMessage::AuthOk { .. }),
        reply is Closed ==> spec_auth_outcome(reply) == Err::<(), AuthError>(AuthError::UnexpectedEof),
        reply is TransportError ==> spec_auth_outcome(reply) == Err::<(), AuthError>(AuthError::Transport),
        reply is NotText ==> spec_auth_outcome(reply) == Err::<(), AuthError>(AuthError::UnexpectedReply),
        reply is Malformed ==> spec_auth_outcome(reply) == Err::<(), AuthError>(AuthError::InvalidMessage),
        (reply is Message && !(reply matches AuthReply::Message(ServerMessage::AuthOk { .. }))) ==> spec_auth_outcome(reply)
            == Err::<(), AuthError>(AuthError::AuthenticateFailed),
{
}


/// The big-endian bytes of a 128-bit number determine it.
proof fn lemma_be_bytes_u128_injective(a: u128, b: u128)
    requires
        be_bytes_u128(a) == be_bytes_u128(b),
    ensures
        a == b,
{
    let x = be_bytes_u128(a);
    let y = be_bytes_u128(b);
    assert(x[0] == y[0]);
    assert(((a >> 120u128) & 0xff) as u8 == ((b >> 120u128) & 0xff) as u8);
    assert(x[1] == y[1]);
    assert(((a >> 112u128) & 0xff) as u8 == ((b >> 112u128) & 0xff) as u8);
    assert(x[2] == y[2]);
    assert(((a >> 104u128) & 0xff) as u8 == ((b >> 104u128) & 0xff) as u8);
    assert(x[3] == y[3]);
    assert(((a >> 96u128) & 0xff) as u8 == ((b >> 96u128) & 0xff) as u8);
    assert(x[4] == y[4]);
    assert(((a >> 88u128) & 0xff) as u8 == ((b >> 88u128) & 0xff) as u8);
    assert(x[5] == y[5]);
    assert(((a >> 80u128) & 0xff) as u8 == ((b >> 80u128) & 0xff) as u8);
    assert(x[6] == y[6]);
    assert(((a >> 72u128) & 0xff) as u8 == ((b >> 72u128) & 0xff) as u8);
    assert(x[7] == y[7]);
    assert(((a >> 64u128) & 0xff) as u8 == ((b >> 64u128) & 0xff) as u8);
    assert(x[8] == y[8]);
    assert(((a >> 56u128) & 0xff) as u8 == ((b >> 56u128) & 0xff) as u8);
    assert(x[9] == y[9]);
    assert(((a >> 48u128) & 0xff) as u8 == ((b >> 48u128) & 0xff) as u8);
    assert(x[10] == y[10]);
    assert(((a >> 40u128) & 0xff) as u8 == ((b >> 40u128) & 0xff) as u8);
    assert(x[11] == y[11]);
    assert(((a >> 32u128) & 0xff) as u8 == ((b >> 32u128) & 0xff) as u8);
    assert(x[12] == y[12]);
    assert(((a >> 24u128) & 0xff) as u8 == ((b >> 24u128) & 0xff) as u8);
    assert(x[13] == y[13]);
    assert(((a >> 16u128) & 0xff) as u8 == ((b >> 16u128) & 0xff) as u8);
    assert(x[14] == y[14]);
    assert(((a >> 8u128) & 0xff) as u8 == ((b >> 8u128) & 0xff) as u8);
    assert(x[15] == y[15]);
    assert(((a >> 0u128) & 0xff) as u8 == ((b >> 0u128) & 0xff) as u8);
    assert(a == b) by (bit_vector)
        requires
            ((a >> 120u128) & 0xff) as u8 == ((b >> 120u128) & 0xff) as u8,
            ((a >> 112u128) & 0xff) as u8 == ((b >> 112u128) & 0xff) as u8,
            ((a >> 104u128) & 0xff) as u8 == ((b >> 104u128) & 0xff) as u8,
            ((a >> 96u128) & 0xff) as u8 == ((b >> 96u128) & 0xff) as u8,
            ((a >> 88u128) & 0xff) as u8 == ((b >> 88u128) & 0xff) as u8,
            ((a >> 80u128) & 0xff) as u8 == ((b >> 80u128) & 0xff) as u8,
            ((a >> 72u128) & 0xff) as u8 == ((b >> 72u128) & 0xff) as u8,
            ((a >> 64u128) & 0xff) as u8 == ((b >> 64u128) & 0xff) as u8,
            ((a >> 56u128) & 0xff) as u8 == ((b >> 56u128) & 0xff) as u8,
            ((a >> 48u128) & 0xff) as u8 == ((b >> 48u128) & 0xff) as u8,
            ((a >> 40u128) & 0xff) as u8 == ((b >> 40u128) & 0xff) as u8,
            ((a >> 32u128) & 0xff) as u8 == ((b >> 32u128) & 0xff) as u8,
            ((a >> 24u128) & 0xff) as u8 == ((b >> 24u128) & 0xff) as u8,
            ((a >> 16u128) & 0xff) as u8 == ((b >> 16u128) & 0xff) as u8,
            ((a >> 8u128) & 0xff) as u8 == ((b >> 8u128) & 0xff) as u8,
            ((a >> 0u128) & 0xff) as u8 == ((b >> 0u128) & 0xff) as u8,
    ;
}


/// The big-endian bytes of a 32-bit number determine it.
proof fn lemma_be_bytes_u32_injective(a: u32, b: u32)
    requires
        be_bytes_u32(a) == be_bytes_u32(b),
    ensures
        a == b,
{
    let x = be_bytes_u32(a);
    let y = be_bytes_u32(b);
    assert(x[0] == y[0]);
    assert(((a >> 24u32) & 0xff) as u8 == ((b >> 24u32) & 0xff) as u8);
    assert(x[1] == y[1]);
    assert(((a >> 16u32) & 0xff) as u8 == ((b >> 16u32) & 0xff) as u8);
    assert(x[2] == y[2]);
    assert(((a >> 8u32) & 0xff) as u8 == ((b >> 8u32) & 0xff) as u8);
    assert(x[3] == y[3]);
    assert(((a >> 0u32) & 0xff) as u8 == ((b >> 0u32) & 0xff) as u8);
    assert(a == b) by (bit_vector)
        requires
            ((a >> 24u32) & 0xff) as u8 == ((b >> 24u32) & 0xff) as u8,
            ((a >> 16u32) & 0xff) as u8 == ((b >> 16u32) & 0xff) as u8,
            ((a >> 8u32) & 0xff) as u8 == ((b >> 8u32) & 0xff) as u8,
            ((a >> 0u32) & 0xff) as u8 == ((b >> 0u32) & 0xff) as u8,
    ;
}

/// The names that identifiers are derived from are unambiguous: two resource
/// types with their data name the same bytes only when both the types and the
/// data are the same, so two identifiers can only coincide where the UUID
/// derivation maps two different names to one.
pub proof fn lemma_id_names_unambiguous(t1: RType, src1: IdKey, t2: RType, src2: IdKey)
    ensures
        seq![rtype_tag(t1)] + source_name(src1) == seq![rtype_tag(t2)] + source_name(src2) ==> t1 == t2
            && src1 == src2,
{
    let n1 = seq![rtype_tag(t1)] + source_name(src1);
    let n2 = seq![rtype_tag(t2)] + source_name(src2);
    if n1 == n2 {
        assert(n1[0] == rtype_tag(t1));
        assert(n2[0] == rtype_tag(t2));
        let s1 = source_name(src1);
        let s2 = source_name(src2);
        assert(n1.skip(1) =~= s1);
        assert(n2.skip(1) =~= s2);
        assert(s1 == s2);
        assert(s1[0] == s2[0]);
        match (src1, src2) {
            (IdKey::Text(a), IdKey::Text(b)) => {
                assert(s1.skip(1) =~= encode_utf8(a));
                assert(s2.skip(1) =~= encode_utf8(b));
                lemma_encode_injective(a, b);
            },
            (IdKey::Id(a), IdKey::Id(b)) => {
                assert(s1.skip(1) =~= be_bytes_u128(a));
                assert(s2.skip(1) =~= be_bytes_u128(b));
                lemma_be_bytes_u128_injective(a, b);
            },
            (IdKey::IdIndex(a, i), IdKey::IdIndex(b, j)) => {
                assert(s1.subrange(1, 17) =~= be_bytes_u128(a));
                assert(s2.subrange(1, 17) =~= be_bytes_u128(b));
                assert(s1.skip(17) =~= be_bytes_u32(i));
                assert(s2.skip(17) =~= be_bytes_u32(j));
                lemma_be_bytes_u128_injective(a, b);
                lemma_be_bytes_u32_injective(i, j);
            },
            _ => {},
        }
    }
}


/// Adding a resource never replaces one: under a link already in use the
/// store stays as it was, under a free link the resource is stored there and
/// every other link keeps its resource.
pub proof fn lemma_add_never_replaces(m: Map<ResourceLink, ResourceView>, link: ResourceLink, r: ResourceView)
    ensures
        m.contains_key(link) ==> spec_add(m, link, r) == m,
        !m.contains_key(link) ==> {
            &&& spec_add(m, link, r).contains_key(link)
            &&& spec_add(m, link, r)[link] == r
            &&& spec_add(m, link, r).dom() == m.dom().insert(link)
            &&& forall|l: ResourceLink| #[trigger] m.contains_key(l) ==> spec_add(m, link, r)[l] == m[l]
        },
{
    if !m.contains_key(link) {
        assert(spec_add(m, link, r).dom() =~= m.dom().insert(link));
    }
}

} // verus!
