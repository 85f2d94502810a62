use bifrost::ids::{IdSource, RType, ResourceLink};

#[test]
fn deterministic_text_link_is_uuid_v5_of_tagged_name() {
    let link = RType::Device.deterministic(IdSource::Text("0x01"));
    let expected = uuid::Uuid::new_v5(&uuid::Uuid::NAMESPACE_OID, &[2, 0, b'0', b'x', b'0', b'1']);
    assert_eq!(link.rid, expected.as_u128());
    assert_eq!(link.rtype, RType::Device);
}

#[test]
fn deterministic_id_links() {
    let id: u128 = 0x0102_0304_0506_0708_090a_0b0c_0d0e_0f10;
    let link = RType::GroupedLight.deterministic(IdSource::Id(id));
    let mut name = vec![4u8, 1u8];
    name.extend_from_slice(&id.to_be_bytes());
    assert_eq!(link.rid, uuid::Uuid::new_v5(&uuid::Uuid::NAMESPACE_OID, &name).as_u128());

    let scene = RType::Scene.deterministic(IdSource::IdIndex(id, 7));
    let mut name = vec![8u8, 2u8];
    name.extend_from_slice(&id.to_be_bytes());
    name.extend_from_slice(&7u32.to_be_bytes());
    assert_eq!(scene.rid, uuid::Uuid::new_v5(&uuid::Uuid::NAMESPACE_OID, &name).as_u128());
    assert_eq!(scene.rtype, RType::Scene);
}

#[test]
fn deterministic_links_are_stable_and_typed() {
    let a = RType::Light.deterministic(IdSource::Text("0xabc"));
    let b = RType::Light.deterministic(IdSource::Text("0xabc"));
    let c = RType::Device.deterministic(IdSource::Text("0xabc"));
    let d = RType::Light.deterministic(IdSource::Text("0xabd"));
    assert_eq!(a, b);
    assert_ne!(a.rid, c.rid);
    assert_ne!(a.rid, d.rid);
}

#[test]
fn link_to_keeps_identifier() {
    let l = RType::Scene.link_to(42);
    assert_eq!(l, ResourceLink { rid: 42, rtype: RType::Scene });
}
