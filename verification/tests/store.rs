use bifrost::ids::{RType, ResourceLink};
use bifrost::resources::{AuxData, GroupedLight, Resource, ResourceError};
use bifrost::store::Resources;

#[test]
fn add_refuses_wrong_type_and_keeps_first() {
    let mut res = Resources::new();
    let room = ResourceLink { rid: 1, rtype: RType::Room };
    let gl = ResourceLink { rid: 2, rtype: RType::GroupedLight };
    assert_eq!(res.add(&room, Resource::GroupedLight(GroupedLight::new(room))), Err(ResourceError::WrongType));
    assert!(res.get(&room).is_none());
    assert_eq!(res.add(&gl, Resource::GroupedLight(GroupedLight::new(room))), Ok(()));
    assert_eq!(res.add(&gl, Resource::GroupedLight(GroupedLight::new(gl))), Ok(()));
    match res.get(&gl) {
        Some(Resource::GroupedLight(g)) => assert_eq!(g.owner, room),
        _ => panic!("missing"),
    }
}

#[test]
fn delete_reports_missing() {
    let mut res = Resources::new();
    let gl = ResourceLink { rid: 2, rtype: RType::GroupedLight };
    assert_eq!(res.delete(&gl), Err(ResourceError::NotFound));
    res.add(&gl, Resource::GroupedLight(GroupedLight::new(gl))).unwrap();
    assert_eq!(res.delete(&gl), Ok(()));
    assert!(res.get(&gl).is_none());
}

#[test]
fn updates_need_the_right_resource() {
    let mut res = Resources::new();
    let room = ResourceLink { rid: 1, rtype: RType::Room };
    assert_eq!(res.update_room_children(&room, &vec![]), Err(ResourceError::NotFound));
    let home = ResourceLink { rid: 3, rtype: RType::BridgeHome };
    assert_eq!(res.add_home_child(&home, room), Err(ResourceError::NotFound));
}

#[test]
fn aux_set_replaces() {
    let mut res = Resources::new();
    let l = ResourceLink { rid: 5, rtype: RType::Light };
    res.aux_set(&l, AuxData::new().with_topic("a"));
    res.aux_set(&l, AuxData::new().with_topic("b").with_index(4));
    let aux = res.aux_get(&l).unwrap();
    assert_eq!(aux.topic.as_deref(), Some("b"));
    assert_eq!(aux.index, Some(4));
}
