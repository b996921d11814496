//! Data model for decoded telemetry values.
//!
//! Floating-point wire values are held as their big-endian bit patterns
//! (`u64` for 64-bit floats, `u32` for 32-bit floats), so that every field
//! is a plain integer and the decoder can be reasoned about exactly.

use vstd::prelude::*;

verus! {

/// Type tag of a self-describing variant value on the wire.
#[derive(Debug, PartialEq, Eq, Structural, Clone, Copy)]
pub enum SETypeId {
    U8,
    U16,
    U32,
    S32,
    U64,
    F64,
    Point2D,
    Vect2D,
    Point3D,
    Vect3D,
    String,
    Vector,
    Struct,
    WorldIntersection,
    WorldIntersections,
    PacketHeader,
    SubPacketHeader,
    F32,
    Matrix3X3,
    Matrix2x2,
    Quaternion,
    UserMarker,
}

/// The numeric tag that each type id stands for on the wire.
pub open spec fn type_id_of(value: u16) -> Option<SETypeId> {
    if value == 0x00 {
        Some(SETypeId::U8)
    } else if value == 0x01 {
        Some(SETypeId::U16)
    } else if value == 0x02 {
        Some(SETypeId::U32)
    } else if value == 0x03 {
        Some(SETypeId::S32)
    } else if value == 0x04 {
        Some(SETypeId::U64)
    } else if value == 0x05 {
        Some(SETypeId::F64)
    } else if value == 0x06 {
        Some(SETypeId::Point2D)
    } else if value == 0x07 {
        Some(SETypeId::Vect2D)
    } else if value == 0x08 {
        Some(SETypeId::Point3D)
    } else if value == 0x09 {
        Some(SETypeId::Vect3D)
    } else if value == 0x0A {
        Some(SETypeId::String)
    } else if value == 0x0B {
        Some(SETypeId::Vector)
    } else if value == 0x0C {
        Some(SETypeId::Struct)
    } else if value == 0x0D {
        Some(SETypeId::WorldIntersection)
    } else if value == 0x0E {
        Some(SETypeId::WorldIntersections)
    } else if value == 0x0F {
        Some(SETypeId::PacketHeader)
    } else if value == 0x10 {
        Some(SETypeId::SubPacketHeader)
    } else if value == 0x11 {
        Some(SETypeId::F32)
    } else if value == 0x12 {
        Some(SETypeId::Matrix3X3)
    } else if value == 0x13 {
        Some(SETypeId::Matrix2x2)
    } else if value == 0x14 {
        Some(SETypeId::Quaternion)
    } else if value == 0x15 {
        Some(SETypeId::UserMarker)
    } else {
        None
    }
}

impl SETypeId {
    /// Maps a numeric wire tag to its type id; fails on tags outside the closed set.
    pub fn try_from(value: u16) -> (r: Result<SETypeId, ()>)
        ensures
            r is Ok <==> type_id_of(value) is Some,
            r is Ok ==> type_id_of(value) == Some(r->Ok_0),
    {
        match value {
            0x00u16 => Ok(SETypeId::U8),
            0x01u16 => Ok(SETypeId::U16),
            0x02u16 => Ok(SETypeId::U32),
            0x03u16 => Ok(SETypeId::S32),
            0x04u16 => Ok(SETypeId::U64),
            0x05u16 => Ok(SETypeId::F64),
            0x06u16 => Ok(SETypeId::Point2D),
            0x07u16 => Ok(SETypeId::Vect2D),
            0x08u16 => Ok(SETypeId::Point3D),
            0x09u16 => Ok(SETypeId::Vect3D),
            0x0Au16 => Ok(SETypeId::String),
            0x0Bu16 => Ok(SETypeId::Vector),
            0x0Cu16 => Ok(SETypeId::Struct),
            0x0Du16 => Ok(SETypeId::WorldIntersection),
            0x0Eu16 => Ok(SETypeId::WorldIntersections),
            0x0Fu16 => Ok(SETypeId::PacketHeader),
            0x10u16 => Ok(SETypeId::SubPacketHeader),
            0x11u16 => Ok(SETypeId::F32),
            0x12u16 => Ok(SETypeId::Matrix3X3),
            0x13u16 => Ok(SETypeId::Matrix2x2),
            0x14u16 => Ok(SETypeId::Quaternion),
            0x15u16 => Ok(SETypeId::UserMarker),
            _ => Err(()),
        }
    }
}

/// x and y, as 64-bit float bit patterns.
#[derive(Debug, PartialEq, Eq, Structural, Clone, Copy)]
pub struct Point2D(pub u64, pub u64);

/// x and y, as 64-bit float bit patterns.
#[derive(Debug, PartialEq, Eq, Structural, Clone, Copy)]
pub struct Vect2D(pub u64, pub u64);

/// x, y and z, as 64-bit float bit patterns.
#[derive(Debug, PartialEq, Eq, Structural, Clone, Copy)]
pub struct Point3D(pub u64, pub u64, pub u64);

/// x, y and z, as 64-bit float bit patterns.
#[derive(Debug, PartialEq, Eq, Structural, Clone, Copy)]
pub struct Vect3D(pub u64, pub u64, pub u64);

/// w, x, y and z, as 64-bit float bit patterns.
#[derive(Debug, PartialEq, Eq, Structural, Clone, Copy)]
pub struct Quaternion(pub u64, pub u64, pub u64, pub u64);

/// A gaze ray's intersection with an object of the world model.
#[derive(Debug, PartialEq, Clone)]
pub struct WorldIntersection {
    pub world_point: Point3D,
    pub object_point: Point3D,
    pub object_name: String,
}

/// A marker injected into the stream by the user.
#[derive(Debug, PartialEq, Eq, Structural, Clone, Copy)]
pub struct UserMarker {
    pub error: i32,
    pub time_stamp: u64,
    pub camera_clock: u64,
    pub camera_idx: u8,
    pub data: u64,
}

/// A decoded self-describing value.
#[derive(Debug, PartialEq)]
pub enum SEVariant {
    U8(u8),
    U16(u16),
    U32(u32),
    S32(i32),
    U64(u64),
    F64(u64),
    Point2D(Point2D),
    Vect2D(Vect2D),
    Point3D(Point3D),
    Vect3D(Vect3D),
    String(String),
    Vector(Vec<SEVariant>),
    Struct(Vec<SEStructItem>),
    WorldIntersection(Option<WorldIntersection>),
    WorldIntersections(Vec<WorldIntersection>),
    F32(u32),
    Quaternion(Quaternion),
    UserMarker(Option<UserMarker>),
}

/// One key and value of a decoded wire struct.
#[derive(Debug, PartialEq)]
pub struct SEStructItem(pub String, pub SEVariant);

/// Mathematical model of a [`WorldIntersection`].
pub struct WorldIntersectionV {
    pub world_point: Point3D,
    pub object_point: Point3D,
    pub object_name: Seq<char>,
}

/// Mathematical model of an [`SEVariant`].
pub enum VariantV {
    U8(u8),
    U16(u16),
    U32(u32),
    S32(i32),
    U64(u64),
    F64(u64),
    Point2D(Point2D),
    Vect2D(Vect2D),
    Point3D(Point3D),
    Vect3D(Vect3D),
    String(Seq<char>),
    Vector(Seq<VariantV>),
    Struct(Seq<StructItemV>),
    WorldIntersection(Option<WorldIntersectionV>),
    WorldIntersections(Seq<WorldIntersectionV>),
    F32(u32),
    Quaternion(Quaternion),
    UserMarker(Option<UserMarker>),
}

/// Mathematical model of an [`SEStructItem`].
pub struct StructItemV(pub Seq<char>, pub VariantV);

pub open spec fn wi_view(w: WorldIntersection) -> WorldIntersectionV {
    WorldIntersectionV {
        world_point: w.world_point,
        object_point: w.object_point,
        object_name: w.object_name@,
    }
}

pub open spec fn opt_wi_view(o: Option<WorldIntersection>) -> Option<WorldIntersectionV> {
    match o {
        None => None,
        Some(w) => Some(wi_view(w)),
    }
}

pub open spec fn wis_view(s: Seq<WorldIntersection>) -> Seq<WorldIntersectionV>
    decreases s.len(),
{
    if s.len() == 0 {
        Seq::empty()
    } else {
        seq![wi_view(s[0])] + wis_view(s.subrange(1, s.len() as int))
    }
}

pub open spec fn variant_view(v: SEVariant) -> VariantV
    decreases v,
{
    match v {
        SEVariant::U8(x) => VariantV::U8(x),
        SEVariant::U16(x) => VariantV::U16(x),
        SEVariant::U32(x) => VariantV::U32(x),
        SEVariant::S32(x) => VariantV::S32(x),
        SEVariant::U64(x) => VariantV::U64(x),
        SEVariant::F64(x) => VariantV::F64(x),
        SEVariant::Point2D(x) => VariantV::Point2D(x),
        SEVariant::Vect2D(x) => VariantV::Vect2D(x),
        SEVariant::Point3D(x) => VariantV::Point3D(x),
        SEVariant::Vect3D(x) => VariantV::Vect3D(x),
        SEVariant::String(s) => VariantV::String(s@),
        SEVariant::Vector(items) => VariantV::Vector(variants_view(items@)),
        SEVariant::Struct(items) => VariantV::Struct(struct_items_view(items@)),
        SEVariant::WorldIntersection(o) => VariantV::WorldIntersection(opt_wi_view(o)),
        SEVariant::WorldIntersections(ws) => VariantV::WorldIntersections(wis_view(ws@)),
        SEVariant::F32(x) => VariantV::F32(x),
        SEVariant::Quaternion(x) => VariantV::Quaternion(x),
        SEVariant::UserMarker(m) => VariantV::UserMarker(m),
    }
}

pub open spec fn variants_view(s: Seq<SEVariant>) -> Seq<VariantV>
    decreases s,
{
    if s.len() == 0 {
        Seq::empty()
    } else {
        seq![variant_view(s[0])] + variants_view(s.subrange(1, s.len() as int))
    }
}

pub open spec fn struct_item_view(item: SEStructItem) -> StructItemV
    decreases item,
{
    StructItemV(item.0@, variant_view(item.1))
}

pub open spec fn struct_items_view(s: Seq<SEStructItem>) -> Seq<StructItemV>
    decreases s,
{
    if s.len() == 0 {
        Seq::empty()
    } else {
        seq![struct_item_view(s[0])] + struct_items_view(s.subrange(1, s.len() as int))
    }
}

pub proof fn lemma_variants_view_index(s: Seq<SEVariant>)
    ensures
        variants_view(s).len() == s.len(),
        forall|i: int| 0 <= i < s.len() ==> variants_view(s)[i] == variant_view(s[i]),
    decreases s.len(),
{
    if s.len() > 0 {
        let tail = s.subrange(1, s.len() as int);
        lemma_variants_view_index(tail);
        assert forall|i: int| 0 <= i < s.len() implies variants_view(s)[i] == variant_view(s[i]) by {
            if i >= 1 {
                assert(tail[i - 1] == s[i]);
            }
        }
    }
}

pub proof fn lemma_variants_view_push(s: Seq<SEVariant>, v: SEVariant)
    ensures
        variants_view(s.push(v)) == variants_view(s).push(variant_view(v)),
{
    lemma_variants_view_index(s.push(v));
    lemma_variants_view_index(s);
    assert forall|i: int| 0 <= i < s.len() + 1 implies variants_view(s.push(v))[i]
        == variants_view(s).push(variant_view(v))[i] by {
        assert(s.push(v)[i] == if i < s.len() { s[i] } else { v });
    }
    assert(variants_view(s.push(v)) =~= variants_view(s).push(variant_view(v)));
}

pub proof fn lemma_struct_items_view_index(s: Seq<SEStructItem>)
    ensures
        struct_items_view(s).len() == s.len(),
        forall|i: int| 0 <= i < s.len() ==> struct_items_view(s)[i] == struct_item_view(s[i]),
    decreases s.len(),
{
    if s.len() > 0 {
        let tail = s.subrange(1, s.len() as int);
        lemma_struct_items_view_index(tail);
        assert forall|i: int| 0 <= i < s.len() implies struct_items_view(s)[i]
            == struct_item_view(s[i]) by {
            if i >= 1 {
                assert(tail[i - 1] == s[i]);
            }
        }
    }
}

pub proof fn lemma_struct_items_view_push(s: Seq<SEStructItem>, v: SEStructItem)
    ensures
        struct_items_view(s.push(v)) == struct_items_view(s).push(struct_item_view(v)),
{
    lemma_struct_items_view_index(s.push(v));
    lemma_struct_items_view_index(s);
    assert forall|i: int| 0 <= i < s.len() + 1 implies struct_items_view(s.push(v))[i]
        == struct_items_view(s).push(struct_item_view(v))[i] by {
        assert(s.push(v)[i] == if i < s.len() { s[i] } else { v });
    }
    assert(struct_items_view(s.push(v)) =~= struct_items_view(s).push(struct_item_view(v)));
}

pub proof fn lemma_wis_view_index(s: Seq<WorldIntersection>)
    ensures
        wis_view(s).len() == s.len(),
        forall|i: int| 0 <= i < s.len() ==> wis_view(s)[i] == wi_view(s[i]),
    decreases s.len(),
{
    if s.len() > 0 {
        let tail = s.subrange(1, s.len() as int);
        lemma_wis_view_index(tail);
        assert forall|i: int| 0 <= i < s.len() implies wis_view(s)[i] == wi_view(s[i]) by {
            if i >= 1 {
                assert(tail[i - 1] == s[i]);
            }
        }
    }
}

pub proof fn lemma_wis_view_push(s: Seq<WorldIntersection>, v: WorldIntersection)
    ensures
        wis_view(s.push(v)) == wis_view(s).push(wi_view(v)),
{
    lemma_wis_view_index(s.push(v));
    lemma_wis_view_index(s);
    assert forall|i: int| 0 <= i < s.len() + 1 implies wis_view(s.push(v))[i]
        == wis_view(s).push(wi_view(v))[i] by {
        assert(s.push(v)[i] == if i < s.len() { s[i] } else { v });
    }
    assert(wis_view(s.push(v)) =~= wis_view(s).push(wi_view(v)));
}

} // verus!
