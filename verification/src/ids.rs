//! Resource types and links, and the deterministic identifiers derived for them.
//!
//! A resource's identifier is the version 5 (name-based) UUID, in the OID
//! namespace, of a byte string naming the resource type and the data it is
//! derived from. The same type and data always give the same identifier.

use vstd::prelude::*;

use vstd::utf8::encode_utf8;

use crate::assoc::MapKey;

verus! {

/// The kinds of Hue API resources.
#[derive(Clone, Copy, Debug, PartialEq, Eq, Structural, Hash)]
pub enum RType {
    BridgeHome,
    Button,
    Device,
    Entertainment,
    GroupedLight,
    Light,
    PublicImage,
    Room,
    Scene,
    Taurus,
    ZigbeeConnectivity,
}

/// A reference to a resource: its identifier and its type.
#[derive(Clone, Copy, Debug, PartialEq, Eq, Structural, Hash)]
pub struct ResourceLink {
    pub rid: u128,
    pub rtype: RType,
}

impl MapKey for ResourceLink {
    type KeyView = ResourceLink;

    open spec fn key_view(&self) -> ResourceLink {
        *self
    }

    fn key_eq(&self, other: &Self) -> (r: bool) {
        *self == *other
    }
}

/// The data a deterministic identifier is derived from.
#[derive(Clone, Copy, Debug)]
pub enum IdSource<'a> {
    /// A text, such as a device address or a group name.
    Text(&'a str),
    /// Another resource's identifier.
    Id(u128),
    /// Another resource's identifier together with an index.
    IdIndex(u128, u32),
}

/// The value of an [`IdSource`], with its text as characters.
pub ghost enum IdKey {
    Text(Seq<char>),
    Id(u128),
    IdIndex(u128, u32),
}

impl<'a> View for IdSource<'a> {
    type V = IdKey;

    open spec fn view(&self) -> IdKey {
        match self {
            IdSource::Text(s) => IdKey::Text(s@),
            IdSource::Id(id) => IdKey::Id(*id),
            IdSource::IdIndex(id, index) => IdKey::IdIndex(*id, *index),
        }
    }
}

/// The version 5 UUID (OID namespace) of `name`, as a 128-bit number.
pub uninterp spec fn uuid_v5_oid(name: Seq<u8>) -> u128;

/// Calls `uuid::Uuid::new_v5` with the OID namespace; the result is a function
/// of `name` alone (the SHA-1 based derivation is not restated here).
#[verifier::external_body]
fn new_v5_oid(name: &[u8]) -> (r: u128)
    ensures
        r == uuid_v5_oid(name@),
{
    uuid::Uuid::new_v5(&uuid::Uuid::NAMESPACE_OID, name).as_u128()
}

/// The tag byte that names a resource type.
pub open spec fn rtype_tag(t: RType) -> u8 {
    match t {
        RType::BridgeHome => 0,
        RType::Button => 1,
        RType::Device => 2,
        RType::Entertainment => 3,
        RType::GroupedLight => 4,
        RType::Light => 5,
        RType::PublicImage => 6,
        RType::Room => 7,
        RType::Scene => 8,
        RType::Taurus => 9,
        RType::ZigbeeConnectivity => 10,
    }
}

fn rtype_tag_exec(t: RType) -> (r: u8)
    ensures
        r == rtype_tag(t),
{
    match t {
        RType::BridgeHome => 0,
        RType::Button => 1,
        RType::Device => 2,
        RType::Entertainment => 3,
        RType::GroupedLight => 4,
        RType::Light => 5,
        RType::PublicImage => 6,
        RType::Room => 7,
        RType::Scene => 8,
        RType::Taurus => 9,
        RType::ZigbeeConnectivity => 10,
    }
}

/// The big-endian bytes of a 128-bit number.
pub open spec fn be_bytes_u128(v: u128) -> Seq<u8> {
    Seq::new(16, |i: int| ((v >> ((15 - i) * 8) as u128) & 0xff) as u8)
}

/// The big-endian bytes of a 32-bit number.
pub open spec fn be_bytes_u32(v: u32) -> Seq<u8> {
    Seq::new(4, |i: int| ((v >> ((3 - i) * 8) as u32) & 0xff) as u8)
}

/// The bytes naming data of the given shape.
pub open spec fn source_name(src: IdKey) -> Seq<u8> {
    match src {
        IdKey::Text(s) => seq![0u8] + encode_utf8(s),
        IdKey::Id(id) => seq![1u8] + be_bytes_u128(id),
        IdKey::IdIndex(id, index) => seq![2u8] + be_bytes_u128(id) + be_bytes_u32(index),
    }
}

/// The link of the resource of type `t` derived from the text `text`.
pub open spec fn text_link(t: RType, text: Seq<char>) -> ResourceLink {
    spec_deterministic(t, IdKey::Text(text))
}

/// The identifier of the resource of type `t` derived from `src`.
pub open spec fn spec_deterministic(t: RType, src: IdKey) -> ResourceLink {
    ResourceLink { rid: uuid_v5_oid(seq![rtype_tag(t)] + source_name(src)), rtype: t }
}

fn push_be_u128(out: &mut Vec<u8>, v: u128)
    ensures
        final(out)@ == old(out)@ + be_bytes_u128(v),
{
    let ghost start = out@;
    let mut i: u32 = 0;
    while i < 16
        invariant
            i <= 16,
            out@ == start + be_bytes_u128(v).take(i as int),
        decreases 16 - i,
    {
        let shift: u32 = (15 - i) * 8;
        let b: u8 = ((v >> shift) & 0xff) as u8;
        out.push(b);
        proof {
            assert(be_bytes_u128(v).take(i + 1) =~= be_bytes_u128(v).take(i as int).push(b));
        }
        i = i + 1;
    }
    assert(be_bytes_u128(v).take(16) =~= be_bytes_u128(v));
}

fn push_be_u32(out: &mut Vec<u8>, v: u32)
    ensures
        final(out)@ == old(out)@ + be_bytes_u32(v),
{
    let ghost start = out@;
    let mut i: u32 = 0;
    while i < 4
        invariant
            i <= 4,
            out@ == start + be_bytes_u32(v).take(i as int),
        decreases 4 - i,
    {
        let shift: u32 = (3 - i) * 8;
        let b: u8 = ((v >> shift) & 0xff) as u8;
        out.push(b);
        proof {
            assert(be_bytes_u32(v).take(i + 1) =~= be_bytes_u32(v).take(i as int).push(b));
        }
        i = i + 1;
    }
    assert(be_bytes_u32(v).take(4) =~= be_bytes_u32(v));
}

fn push_bytes(out: &mut Vec<u8>, bytes: &[u8])
    ensures
        final(out)@ == old(out)@ + bytes@,
{
    let ghost start = out@;
    let mut i: usize = 0;
    while i < bytes.len()
        invariant
            i <= bytes@.len(),
            out@ == start + bytes@.take(i as int),
        decreases bytes@.len() - i,
    {
        out.push(bytes[i]);
        proof {
            assert(bytes@.take(i + 1) =~= bytes@.take(i as int).push(bytes@[i as int]));
        }
        i = i + 1;
    }
    assert(bytes@.take(bytes@.len() as int) =~= bytes@);
}

impl RType {
    /// The link to the resource of this type with identifier `rid`.
    pub fn link_to(&self, rid: u128) -> (r: ResourceLink)
        ensures
            r == (ResourceLink { rid, rtype: *self }),
    {
        ResourceLink { rid, rtype: *self }
    }

    /// The link to the resource of this type derived from `src`.
    pub fn deterministic(&self, src: IdSource) -> (r: ResourceLink)
        ensures
            r == spec_deterministic(*self, src@),
    {
        let mut name: Vec<u8> = Vec::new();
        name.push(rtype_tag_exec(*self));
        let ghost tagged = name@;
        match src {
            IdSource::Text(s) => {
                name.push(0);
                push_bytes(&mut name, s.as_bytes());
            },
            IdSource::Id(id) => {
                name.push(1);
                push_be_u128(&mut name, id);
            },
            IdSource::IdIndex(id, index) => {
                name.push(2);
                push_be_u128(&mut name, id);
                push_be_u32(&mut name, index);
            },
        }
        assert(name@ =~= seq![rtype_tag(*self)] + source_name(src@));
        let rid = new_v5_oid(name.as_slice());
        ResourceLink { rid, rtype: *self }
    }
}

} // verus!
