//! Verified decoders for the wire format.
//!
//! Each function takes a byte slice and a cursor position and returns the
//! decoded value with the position just past the consumed bytes, or a
//! [`DecodeError`]. Every contract states the exact result in terms of the
//! wire model in [`crate::wire`], for every input: no input panics.

use vstd::prelude::*;
use vstd::slice::slice_subrange;
use vstd::slice::slice_to_vec;
use vstd::utf8::decode_utf8;
use vstd::utf8::valid_utf8;

use crate::se_types::Point2D;
use crate::se_types::Point3D;
use crate::se_types::Quaternion;
use crate::se_types::UserMarker;
use crate::se_types::Vect2D;
use crate::se_types::Vect3D;
use crate::se_types::WorldIntersection;
use crate::se_types::SETypeId;
use crate::se_types::SEVariant;
use crate::se_types::SEStructItem;
use crate::se_types::VariantV;
use crate::se_types::StructItemV;
use crate::se_types::variant_view;
use crate::se_types::variants_view;
use crate::se_types::struct_item_view;
use crate::se_types::struct_items_view;
use crate::se_types::lemma_variants_view_push;
use crate::se_types::lemma_struct_items_view_push;
use crate::se_types::wi_view;
use crate::se_types::wis_view;
use crate::se_types::opt_wi_view;
use crate::se_types::lemma_wis_view_push;
use crate::wire::DecodeError;
use crate::wire::spec_parse_u8;
use crate::wire::spec_parse_u16;
use crate::wire::spec_parse_u32;
use crate::wire::spec_parse_s32;
use crate::wire::spec_parse_u64;
use crate::wire::spec_parse_f32;
use crate::wire::spec_parse_f64;
use crate::wire::spec_parse_point_2d;
use crate::wire::spec_parse_vect_2d;
use crate::wire::spec_parse_point_3d;
use crate::wire::spec_parse_vect_3d;
use crate::wire::spec_parse_quaternion;
use crate::wire::spec_parse_string;
use crate::wire::spec_parse_wi_item;
use crate::wire::spec_parse_wi_items;
use crate::wire::spec_parse_world_intersection;
use crate::wire::spec_parse_world_intersections;
use crate::wire::spec_parse_user_marker_item;
use crate::wire::spec_parse_user_marker;
use crate::wire::spec_parse_variant;
use crate::wire::spec_parse_variant_items;
use crate::wire::spec_parse_vector;
use crate::wire::spec_parse_struct_items;
use crate::wire::spec_parse_struct_item;
use crate::wire::spec_parse_struct;
use crate::wire::DEPTH_LIMIT;

verus! {

/// An executable parse result, as the wire model sees it. The value is
/// kept as it is; only the cursor widens to `int`.
pub open spec fn res_prim<T>(r: Result<(T, usize), DecodeError>) -> Result<(T, int), DecodeError> {
    match r {
        Ok((v, p)) => Ok((v, p as int)),
        Err(e) => Err(e),
    }
}

/// An executable string parse result, as the wire model sees it.
pub open spec fn res_string(r: Result<(String, usize), DecodeError>) -> Result<
    (Seq<char>, int),
    DecodeError,
> {
    match r {
        Ok((s, p)) => Ok((s@, p as int)),
        Err(e) => Err(e),
    }
}

/// An executable world-intersection parse result, as the wire model sees it.
pub open spec fn res_wi(r: Result<(WorldIntersection, usize), DecodeError>) -> Result<
    (crate::se_types::WorldIntersectionV, int),
    DecodeError,
> {
    match r {
        Ok((w, p)) => Ok((wi_view(w), p as int)),
        Err(e) => Err(e),
    }
}

/// An executable optional world-intersection parse result, as the wire
/// model sees it.
pub open spec fn res_opt_wi(r: Result<(Option<WorldIntersection>, usize), DecodeError>) -> Result<
    (Option<crate::se_types::WorldIntersectionV>, int),
    DecodeError,
> {
    match r {
        Ok((o, p)) => Ok((opt_wi_view(o), p as int)),
        Err(e) => Err(e),
    }
}

/// An executable world-intersection list parse result, as the wire model
/// sees it.
pub open spec fn res_wis(r: Result<(Vec<WorldIntersection>, usize), DecodeError>) -> Result<
    (Seq<crate::se_types::WorldIntersectionV>, int),
    DecodeError,
> {
    match r {
        Ok((ws, p)) => Ok((wis_view(ws@), p as int)),
        Err(e) => Err(e),
    }
}

/// Prefixes the sequence of a successful list parse.
pub open spec fn seq_prepend<T>(
    prefix: Seq<T>,
    r: Result<(Seq<T>, int), DecodeError>,
) -> Result<(Seq<T>, int), DecodeError> {
    match r {
        Ok((s, end)) => Ok((prefix + s, end)),
        Err(e) => Err(e),
    }
}

/// Relies on `String::from_utf8`: it succeeds exactly on valid UTF-8 and
/// returns the string that those bytes encode, as vstd's UTF-8 model
/// states it.
#[verifier::external_body]
fn string_from_utf8(bytes: Vec<u8>) -> (r: Option<String>)
    ensures
        r is Some <==> valid_utf8(bytes@),
        r is Some ==> r->0@ == decode_utf8(bytes@),
{
    String::from_utf8(bytes).ok()
}

/// The next unsigned byte.
pub fn parse_u8(i: &[u8], pos: usize) -> (r: Result<(u8, usize), DecodeError>)
    ensures
        res_prim(r) == spec_parse_u8(i@, pos as int),
{
    if pos >= i.len() {
        Err(DecodeError::Truncated)
    } else {
        Ok((i[pos], pos + 1))
    }
}

/// The next big-endian unsigned 16-bit integer.
pub fn parse_u16(i: &[u8], pos: usize) -> (r: Result<(u16, usize), DecodeError>)
    ensures
        res_prim(r) == spec_parse_u16(i@, pos as int),
{
    if pos > i.len() || i.len() - pos < 2 {
        Err(DecodeError::Truncated)
    } else {
        let v: u16 = (i[pos] as u16) * 0x100 + (i[pos + 1] as u16);
        Ok((v, pos + 2))
    }
}

/// The next big-endian unsigned 32-bit integer.
pub fn parse_u32(i: &[u8], pos: usize) -> (r: Result<(u32, usize), DecodeError>)
    ensures
        res_prim(r) == spec_parse_u32(i@, pos as int),
{
    if pos > i.len() || i.len() - pos < 4 {
        Err(DecodeError::Truncated)
    } else {
        let v: u32 = (i[pos] as u32) * 0x100_0000 + (i[pos + 1] as u32) * 0x1_0000 + (i[pos
            + 2] as u32) * 0x100 + (i[pos + 3] as u32);
        Ok((v, pos + 4))
    }
}

/// The next big-endian signed 32-bit integer, two's complement.
pub fn parse_s32(i: &[u8], pos: usize) -> (r: Result<(i32, usize), DecodeError>)
    ensures
        res_prim(r) == spec_parse_s32(i@, pos as int),
{
    match parse_u32(i, pos) {
        Err(e) => Err(e),
        Ok((v, p)) => {
            let s: i32 = if v < 0x8000_0000 {
                v as i32
            } else {
                ((v as i64) - 0x1_0000_0000i64) as i32
            };
            Ok((s, p))
        },
    }
}

/// The next big-endian unsigned 64-bit integer.
pub fn parse_u64(i: &[u8], pos: usize) -> (r: Result<(u64, usize), DecodeError>)
    ensures
        res_prim(r) == spec_parse_u64(i@, pos as int),
{
    if pos > i.len() || i.len() - pos < 8 {
        Err(DecodeError::Truncated)
    } else {
        let hi: u32 = (i[pos] as u32) * 0x100_0000 + (i[pos + 1] as u32) * 0x1_0000 + (i[pos
            + 2] as u32) * 0x100 + (i[pos + 3] as u32);
        let lo: u32 = (i[pos + 4] as u32) * 0x100_0000 + (i[pos + 5] as u32) * 0x1_0000 + (i[pos
            + 6] as u32) * 0x100 + (i[pos + 7] as u32);
        let v: u64 = (hi as u64) * 0x1_0000_0000 + (lo as u64);
        Ok((v, pos + 8))
    }
}

/// The next 32-bit float, returned as its bit pattern.
pub fn parse_f32(i: &[u8], pos: usize) -> (r: Result<(u32, usize), DecodeError>)
    ensures
        res_prim(r) == spec_parse_f32(i@, pos as int),
{
    parse_u32(i, pos)
}

/// The next 64-bit float, returned as its bit pattern.
pub fn parse_f64(i: &[u8], pos: usize) -> (r: Result<(u64, usize), DecodeError>)
    ensures
        res_prim(r) == spec_parse_f64(i@, pos as int),
{
    parse_u64(i, pos)
}

/// Two 64-bit floats: x, then y.
pub fn parse_point_2d(i: &[u8], pos: usize) -> (r: Result<(Point2D, usize), DecodeError>)
    ensures
        res_prim(r) == spec_parse_point_2d(i@, pos as int),
{
    let (x, p) = match parse_f64(i, pos) {
        Ok(v) => v,
        Err(e) => {
            return Err(e);
        },
    };
    let (y, p) = match parse_f64(i, p) {
        Ok(v) => v,
        Err(e) => {
            return Err(e);
        },
    };
    Ok((Point2D(x, y), p))
}

/// Two 64-bit floats: x, then y.
pub fn parse_vect_2d(i: &[u8], pos: usize) -> (r: Result<(Vect2D, usize), DecodeError>)
    ensures
        res_prim(r) == spec_parse_vect_2d(i@, pos as int),
{
    let (x, p) = match parse_f64(i, pos) {
        Ok(v) => v,
        Err(e) => {
            return Err(e);
        },
    };
    let (y, p) = match parse_f64(i, p) {
        Ok(v) => v,
        Err(e) => {
            return Err(e);
        },
    };
    Ok((Vect2D(x, y), p))
}

/// Three 64-bit floats: x, y, then z.
pub fn parse_point_3d(i: &[u8], pos: usize) -> (r: Result<(Point3D, usize), DecodeError>)
    ensures
        res_prim(r) == spec_parse_point_3d(i@, pos as int),
{
    let (x, p) = match parse_f64(i, pos) {
        Ok(v) => v,
        Err(e) => {
            return Err(e);
        },
    };
    let (y, p) = match parse_f64(i, p) {
        Ok(v) => v,
        Err(e) => {
            return Err(e);
        },
    };
    let (z, p) = match parse_f64(i, p) {
        Ok(v) => v,
        Err(e) => {
            return Err(e);
        },
    };
    Ok((Point3D(x, y, z), p))
}

/// Three 64-bit floats: x, y, then z.
pub fn parse_vect_3d(i: &[u8], pos: usize) -> (r: Result<(Vect3D, usize), DecodeError>)
    ensures
        res_prim(r) == spec_parse_vect_3d(i@, pos as int),
{
    let (x, p) = match parse_f64(i, pos) {
        Ok(v) => v,
        Err(e) => {
            return Err(e);
        },
    };
    let (y, p) = match parse_f64(i, p) {
        Ok(v) => v,
        Err(e) => {
            return Err(e);
        },
    };
    let (z, p) = match parse_f64(i, p) {
        Ok(v) => v,
        Err(e) => {
            return Err(e);
        },
    };
    Ok((Vect3D(x, y, z), p))
}

/// Four 64-bit floats: w, x, y, then z.
pub fn parse_quaternion(i: &[u8], pos: usize) -> (r: Result<(Quaternion, usize), DecodeError>)
    ensures
        res_prim(r) == spec_parse_quaternion(i@, pos as int),
{
    let (w, p) = match parse_f64(i, pos) {
        Ok(v) => v,
        Err(e) => {
            return Err(e);
        },
    };
    let (x, p) = match parse_f64(i, p) {
        Ok(v) => v,
        Err(e) => {
            return Err(e);
        },
    };
    let (y, p) = match parse_f64(i, p) {
        Ok(v) => v,
        Err(e) => {
            return Err(e);
        },
    };
    let (z, p) = match parse_f64(i, p) {
        Ok(v) => v,
        Err(e) => {
            return Err(e);
        },
    };
    Ok((Quaternion(w, x, y, z), p))
}

/// A length-prefixed UTF-8 string; bytes that are not valid UTF-8 fail
/// with [`DecodeError::InvalidEncoding`].
pub fn parse_string(i: &[u8], pos: usize) -> (r: Result<(String, usize), DecodeError>)
    ensures
        res_string(r) == spec_parse_string(i@, pos as int),
{
    let (n, p) = match parse_u16(i, pos) {
        Ok(v) => v,
        Err(e) => {
            return Err(e);
        },
    };
    let n = n as usize;
    if i.len() - p < n {
        return Err(DecodeError::Truncated);
    }
    let w = slice_subrange(i, p, p + n);
    let bytes = slice_to_vec(w);
    match string_from_utf8(bytes) {
        Some(s) => Ok((s, p + n)),
        None => Err(DecodeError::InvalidEncoding),
    }
}

/// One world-intersection body: two points, then the object name.
pub fn parse_world_intersection_item(i: &[u8], pos: usize) -> (r: Result<
    (WorldIntersection, usize),
    DecodeError,
>)
    ensures
        res_wi(r) == spec_parse_wi_item(i@, pos as int),
{
    let (world_point, p) = match parse_point_3d(i, pos) {
        Ok(v) => v,
        Err(e) => {
            return Err(e);
        },
    };
    let (object_point, p) = match parse_point_3d(i, p) {
        Ok(v) => v,
        Err(e) => {
            return Err(e);
        },
    };
    let (object_name, p) = match parse_string(i, p) {
        Ok(v) => v,
        Err(e) => {
            return Err(e);
        },
    };
    Ok((WorldIntersection { world_point, object_point, object_name }, p))
}

/// An optional world intersection, by presence flag.
pub fn parse_world_intersection(i: &[u8], pos: usize) -> (r: Result<
    (Option<WorldIntersection>, usize),
    DecodeError,
>)
    ensures
        res_opt_wi(r) == spec_parse_world_intersection(i@, pos as int),
{
    let (flag, p) = match parse_u16(i, pos) {
        Ok(v) => v,
        Err(e) => {
            return Err(e);
        },
    };
    if flag == 0 {
        Ok((None, p))
    } else if flag == 1 {
        match parse_world_intersection_item(i, p) {
            Ok((w, end)) => Ok((Some(w), end)),
            Err(e) => Err(e),
        }
    } else {
        Err(DecodeError::InvalidPacket)
    }
}

/// A counted list of world-intersection bodies, without per-item flags.
pub fn parse_world_intersections(i: &[u8], pos: usize) -> (r: Result<
    (Vec<WorldIntersection>, usize),
    DecodeError,
>)
    ensures
        res_wis(r) == spec_parse_world_intersections(i@, pos as int),
{
    let (n, p) = match parse_u16(i, pos) {
        Ok(v) => v,
        Err(e) => {
            return Err(e);
        },
    };
    let mut items: Vec<WorldIntersection> = Vec::new();
    let mut k: u16 = 0;
    let mut cur: usize = p;
    while k < n
        invariant
            k <= n,
            spec_parse_world_intersections(i@, pos as int) == spec_parse_wi_items(
                i@,
                p as int,
                n as nat,
            ),
            seq_prepend(
                wis_view(items@),
                spec_parse_wi_items(i@, cur as int, (n - k) as nat),
            ) == spec_parse_wi_items(i@, p as int, n as nat),
        decreases n - k,
    {
        match parse_world_intersection_item(i, cur) {
            Err(e) => {
                proof {
                    assert(spec_parse_wi_items(i@, cur as int, (n - k) as nat) == Err::<
                        (Seq<crate::se_types::WorldIntersectionV>, int),
                        DecodeError,
                    >(e));
                }
                return Err(e);
            },
            Ok((w, p2)) => {
                proof {
                    lemma_wis_view_push(items@, w);
                    let prefix = wis_view(items@);
                    let wv = wi_view(w);
                    let cur_r = spec_parse_wi_items(i@, cur as int, (n - k) as nat);
                    let tail = spec_parse_wi_items(i@, p2 as int, (n - k - 1) as nat);
                    assert(cur_r == seq_prepend(seq![wv], tail));
                    if tail is Ok {
                        let ws = tail->Ok_0.0;
                        assert(prefix + (seq![wv] + ws) =~= prefix.push(wv) + ws);
                        assert(seq_prepend(prefix, cur_r) == seq_prepend(prefix.push(wv), tail));
                    } else {
                        assert(seq_prepend(prefix, cur_r) == seq_prepend(prefix.push(wv), tail));
                    }
                }
                items.push(w);
                k = k + 1;
                cur = p2;
            },
        }
    }
    proof {
        assert(wis_view(items@) + Seq::<crate::se_types::WorldIntersectionV>::empty() =~= wis_view(
            items@,
        ));
    }
    Ok((items, cur))
}

/// One user-marker body.
pub fn parse_user_marker_item(i: &[u8], pos: usize) -> (r: Result<(UserMarker, usize), DecodeError>)
    ensures
        res_prim(r) == spec_parse_user_marker_item(i@, pos as int),
{
    let (error, p) = match parse_s32(i, pos) {
        Ok(v) => v,
        Err(e) => {
            return Err(e);
        },
    };
    let (time_stamp, p) = match parse_u64(i, p) {
        Ok(v) => v,
        Err(e) => {
            return Err(e);
        },
    };
    let (camera_clock, p) = match parse_u64(i, p) {
        Ok(v) => v,
        Err(e) => {
            return Err(e);
        },
    };
    let (camera_idx, p) = match parse_u8(i, p) {
        Ok(v) => v,
        Err(e) => {
            return Err(e);
        },
    };
    let (data, p) = match parse_u64(i, p) {
        Ok(v) => v,
        Err(e) => {
            return Err(e);
        },
    };
    Ok((UserMarker { error, time_stamp, camera_clock, camera_idx, data }, p))
}

/// An optional user marker, by presence flag.
pub fn parse_user_marker(i: &[u8], pos: usize) -> (r: Result<
    (Option<UserMarker>, usize),
    DecodeError,
>)
    ensures
        res_prim(r) == spec_parse_user_marker(i@, pos as int),
{
    let (flag, p) = match parse_u16(i, pos) {
        Ok(v) => v,
        Err(e) => {
            return Err(e);
        },
    };
    if flag == 0 {
        Ok((None, p))
    } else if flag == 1 {
        match parse_user_marker_item(i, p) {
            Ok((m, end)) => Ok((Some(m), end)),
            Err(e) => Err(e),
        }
    } else {
        Err(DecodeError::InvalidPacket)
    }
}


/// An executable variant parse result, as the wire model sees it.
pub open spec fn res_variant(r: Result<(SEVariant, usize), DecodeError>) -> Result<
    (VariantV, int),
    DecodeError,
> {
    match r {
        Ok((v, p)) => Ok((variant_view(v), p as int)),
        Err(e) => Err(e),
    }
}

/// An executable variant-list parse result, as the wire model sees it.
pub open spec fn res_variants(r: Result<(Vec<SEVariant>, usize), DecodeError>) -> Result<
    (Seq<VariantV>, int),
    DecodeError,
> {
    match r {
        Ok((items, p)) => Ok((variants_view(items@), p as int)),
        Err(e) => Err(e),
    }
}

/// An executable struct-entry parse result, as the wire model sees it.
pub open spec fn res_struct_item(r: Result<(SEStructItem, usize), DecodeError>) -> Result<
    (StructItemV, int),
    DecodeError,
> {
    match r {
        Ok((item, p)) => Ok((struct_item_view(item), p as int)),
        Err(e) => Err(e),
    }
}

/// An executable struct-entry-list parse result, as the wire model sees it.
pub open spec fn res_struct_items(r: Result<(Vec<SEStructItem>, usize), DecodeError>) -> Result<
    (Seq<StructItemV>, int),
    DecodeError,
> {
    match r {
        Ok((items, p)) => Ok((struct_items_view(items@), p as int)),
        Err(e) => Err(e),
    }
}

/// One self-describing value at a given remaining nesting budget.
#[verifier::rlimit(60)]
fn parse_variant_depth(i: &[u8], pos: usize, depth: usize) -> (r: Result<
    (SEVariant, usize),
    DecodeError,
>)
    ensures
        res_variant(r) == spec_parse_variant(i@, pos as int, depth as nat),
    decreases depth, 0nat,
{
    let (tag, p) = match parse_u16(i, pos) {
        Ok(v) => v,
        Err(e) => {
            return Err(e);
        },
    };
    let t = match SETypeId::try_from(tag) {
        Ok(t) => t,
        Err(_) => {
            return Err(DecodeError::TypeTagUnknown);
        },
    };
    match t {
        SETypeId::U8 => match parse_u8(i, p) {
            Ok((v, end)) => Ok((SEVariant::U8(v), end)),
            Err(e) => Err(e),
        },
        SETypeId::U16 => match parse_u16(i, p) {
            Ok((v, end)) => Ok((SEVariant::U16(v), end)),
            Err(e) => Err(e),
        },
        SETypeId::U32 => match parse_u32(i, p) {
            Ok((v, end)) => Ok((SEVariant::U32(v), end)),
            Err(e) => Err(e),
        },
        SETypeId::S32 => match parse_s32(i, p) {
            Ok((v, end)) => Ok((SEVariant::S32(v), end)),
            Err(e) => Err(e),
        },
        SETypeId::U64 => match parse_u64(i, p) {
            Ok((v, end)) => Ok((SEVariant::U64(v), end)),
            Err(e) => Err(e),
        },
        SETypeId::F64 => match parse_f64(i, p) {
            Ok((v, end)) => Ok((SEVariant::F64(v), end)),
            Err(e) => Err(e),
        },
        SETypeId::Point2D => match parse_point_2d(i, p) {
            Ok((v, end)) => Ok((SEVariant::Point2D(v), end)),
            Err(e) => Err(e),
        },
        SETypeId::Vect2D => match parse_vect_2d(i, p) {
            Ok((v, end)) => Ok((SEVariant::Vect2D(v), end)),
            Err(e) => Err(e),
        },
        SETypeId::Point3D => match parse_point_3d(i, p) {
            Ok((v, end)) => Ok((SEVariant::Point3D(v), end)),
            Err(e) => Err(e),
        },
        SETypeId::Vect3D => match parse_vect_3d(i, p) {
            Ok((v, end)) => Ok((SEVariant::Vect3D(v), end)),
            Err(e) => Err(e),
        },
        SETypeId::String => match parse_string(i, p) {
            Ok((v, end)) => Ok((SEVariant::String(v), end)),
            Err(e) => Err(e),
        },
        SETypeId::Vector => {
            if depth == 0 {
                Err(DecodeError::InvalidPacket)
            } else {
                match parse_vector_depth(i, p, depth - 1) {
                    Ok((items, end)) => Ok((SEVariant::Vector(items), end)),
                    Err(e) => Err(e),
                }
            }
        },
        SETypeId::Struct => {
            if depth == 0 {
                Err(DecodeError::InvalidPacket)
            } else {
                match parse_struct_depth(i, p, depth - 1) {
                    Ok((items, end)) => Ok((SEVariant::Struct(items), end)),
                    Err(e) => Err(e),
                }
            }
        },
        SETypeId::WorldIntersection => match parse_world_intersection(i, p) {
            Ok((v, end)) => Ok((SEVariant::WorldIntersection(v), end)),
            Err(e) => Err(e),
        },
        SETypeId::WorldIntersections => match parse_world_intersections(i, p) {
            Ok((v, end)) => Ok((SEVariant::WorldIntersections(v), end)),
            Err(e) => Err(e),
        },
        SETypeId::PacketHeader => Err(DecodeError::NotImplemented),
        SETypeId::SubPacketHeader => Err(DecodeError::NotImplemented),
        SETypeId::F32 => match parse_f32(i, p) {
            Ok((v, end)) => Ok((SEVariant::F32(v), end)),
            Err(e) => Err(e),
        },
        SETypeId::Matrix3X3 => Err(DecodeError::NotImplemented),
        SETypeId::Matrix2x2 => Err(DecodeError::NotImplemented),
        SETypeId::Quaternion => match parse_quaternion(i, p) {
            Ok((v, end)) => Ok((SEVariant::Quaternion(v), end)),
            Err(e) => Err(e),
        },
        SETypeId::UserMarker => match parse_user_marker(i, p) {
            Ok((v, end)) => Ok((SEVariant::UserMarker(v), end)),
            Err(e) => Err(e),
        },
    }
}

/// `n` variant items in sequence, each at nesting budget `depth`.
fn parse_variant_items(i: &[u8], pos: usize, n: u16, depth: usize) -> (r: Result<
    (Vec<SEVariant>, usize),
    DecodeError,
>)
    ensures
        res_variants(r) == spec_parse_variant_items(i@, pos as int, n as nat, depth as nat),
    decreases depth, 1nat,
{
    let mut items: Vec<SEVariant> = Vec::new();
    let mut k: u16 = 0;
    let mut cur: usize = pos;
    while k < n
        invariant
            k <= n,
            seq_prepend(
                variants_view(items@),
                spec_parse_variant_items(i@, cur as int, (n - k) as nat, depth as nat),
            ) == spec_parse_variant_items(i@, pos as int, n as nat, depth as nat),
        decreases n - k,
    {
        match parse_variant_depth(i, cur, depth) {
            Err(e) => {
                proof {
                    assert(spec_parse_variant_items(i@, cur as int, (n - k) as nat, depth as nat)
                        == Err::<(Seq<VariantV>, int), DecodeError>(e));
                }
                return Err(e);
            },
            Ok((v, p2)) => {
                proof {
                    lemma_variants_view_push(items@, v);
                    let prefix = variants_view(items@);
                    let vv = variant_view(v);
                    let cur_r = spec_parse_variant_items(
                        i@,
                        cur as int,
                        (n - k) as nat,
                        depth as nat,
                    );
                    let tail = spec_parse_variant_items(
                        i@,
                        p2 as int,
                        (n - k - 1) as nat,
                        depth as nat,
                    );
                    assert(cur_r == seq_prepend(seq![vv], tail));
                    if tail is Ok {
                        let ws = tail->Ok_0.0;
                        assert(prefix + (seq![vv] + ws) =~= prefix.push(vv) + ws);
                        assert(seq_prepend(prefix, cur_r) == seq_prepend(prefix.push(vv), tail));
                    } else {
                        assert(seq_prepend(prefix, cur_r) == seq_prepend(prefix.push(vv), tail));
                    }
                }
                items.push(v);
                k = k + 1;
                cur = p2;
            },
        }
    }
    proof {
        assert(variants_view(items@) + Seq::<VariantV>::empty() =~= variants_view(items@));
    }
    Ok((items, cur))
}

/// A vector at a given nesting budget: a 16-bit count, then its items.
fn parse_vector_depth(i: &[u8], pos: usize, depth: usize) -> (r: Result<
    (Vec<SEVariant>, usize),
    DecodeError,
>)
    ensures
        res_variants(r) == spec_parse_vector(i@, pos as int, depth as nat),
    decreases depth, 2nat,
{
    let (n, p) = match parse_u16(i, pos) {
        Ok(v) => v,
        Err(e) => {
            return Err(e);
        },
    };
    parse_variant_items(i, p, n, depth)
}

/// `n` struct entries in sequence, each value at nesting budget `depth`.
fn parse_struct_entries(i: &[u8], pos: usize, n: u16, depth: usize) -> (r: Result<
    (Vec<SEStructItem>, usize),
    DecodeError,
>)
    ensures
        res_struct_items(r) == spec_parse_struct_items(i@, pos as int, n as nat, depth as nat),
    decreases depth, 1nat,
{
    let mut items: Vec<SEStructItem> = Vec::new();
    let mut k: u16 = 0;
    let mut cur: usize = pos;
    while k < n
        invariant
            k <= n,
            seq_prepend(
                struct_items_view(items@),
                spec_parse_struct_items(i@, cur as int, (n - k) as nat, depth as nat),
            ) == spec_parse_struct_items(i@, pos as int, n as nat, depth as nat),
        decreases n - k,
    {
        let (key, p) = match parse_string(i, cur) {
            Ok(v) => v,
            Err(e) => {
                proof {
                    assert(spec_parse_struct_items(i@, cur as int, (n - k) as nat, depth as nat)
                        == Err::<(Seq<StructItemV>, int), DecodeError>(e));
                }
                return Err(e);
            },
        };
        match parse_variant_depth(i, p, depth) {
            Err(e) => {
                proof {
                    assert(spec_parse_struct_items(i@, cur as int, (n - k) as nat, depth as nat)
                        == Err::<(Seq<StructItemV>, int), DecodeError>(e));
                }
                return Err(e);
            },
            Ok((v, p2)) => {
                let item = SEStructItem(key, v);
                proof {
                    lemma_struct_items_view_push(items@, item);
                    let prefix = struct_items_view(items@);
                    let iv = struct_item_view(item);
                    let cur_r = spec_parse_struct_items(
                        i@,
                        cur as int,
                        (n - k) as nat,
                        depth as nat,
                    );
                    let tail = spec_parse_struct_items(
                        i@,
                        p2 as int,
                        (n - k - 1) as nat,
                        depth as nat,
                    );
                    assert(cur_r == seq_prepend(seq![iv], tail));
                    if tail is Ok {
                        let ws = tail->Ok_0.0;
                        assert(prefix + (seq![iv] + ws) =~= prefix.push(iv) + ws);
                        assert(seq_prepend(prefix, cur_r) == seq_prepend(prefix.push(iv), tail));
                    } else {
                        assert(seq_prepend(prefix, cur_r) == seq_prepend(prefix.push(iv), tail));
                    }
                }
                items.push(item);
                k = k + 1;
                cur = p2;
            },
        }
    }
    proof {
        assert(struct_items_view(items@) + Seq::<StructItemV>::empty() =~= struct_items_view(
            items@,
        ));
    }
    Ok((items, cur))
}

/// A struct at a given nesting budget: a 16-bit count, then its entries.
fn parse_struct_depth(i: &[u8], pos: usize, depth: usize) -> (r: Result<
    (Vec<SEStructItem>, usize),
    DecodeError,
>)
    ensures
        res_struct_items(r) == spec_parse_struct(i@, pos as int, depth as nat),
    decreases depth, 2nat,
{
    let (n, p) = match parse_u16(i, pos) {
        Ok(v) => v,
        Err(e) => {
            return Err(e);
        },
    };
    parse_struct_entries(i, p, n, depth)
}

/// One self-describing value: a 16-bit type tag, then its payload.
pub fn parse_variant(i: &[u8], pos: usize) -> (r: Result<(SEVariant, usize), DecodeError>)
    ensures
        res_variant(r) == spec_parse_variant(i@, pos as int, DEPTH_LIMIT as nat),
{
    parse_variant_depth(i, pos, DEPTH_LIMIT)
}

/// One vector item, which is a variant value.
pub fn parse_vector_item(i: &[u8], pos: usize) -> (r: Result<(SEVariant, usize), DecodeError>)
    ensures
        res_variant(r) == spec_parse_variant(i@, pos as int, DEPTH_LIMIT as nat),
{
    parse_variant_depth(i, pos, DEPTH_LIMIT)
}

/// A vector: a 16-bit count, then that many tagged items.
pub fn parse_vector(i: &[u8], pos: usize) -> (r: Result<(Vec<SEVariant>, usize), DecodeError>)
    ensures
        res_variants(r) == spec_parse_vector(i@, pos as int, DEPTH_LIMIT as nat),
{
    parse_vector_depth(i, pos, DEPTH_LIMIT)
}

/// One struct entry: a string key, then a tagged value.
pub fn parse_struct_item(i: &[u8], pos: usize) -> (r: Result<(SEStructItem, usize), DecodeError>)
    ensures
        res_struct_item(r) == spec_parse_struct_item(i@, pos as int, DEPTH_LIMIT as nat),
{
    let (key, p) = match parse_string(i, pos) {
        Ok(v) => v,
        Err(e) => {
            return Err(e);
        },
    };
    match parse_variant_depth(i, p, DEPTH_LIMIT) {
        Ok((v, end)) => Ok((SEStructItem(key, v), end)),
        Err(e) => Err(e),
    }
}

/// A struct: a 16-bit count, then that many key/value entries, order kept.
pub fn parse_struct(i: &[u8], pos: usize) -> (r: Result<(Vec<SEStructItem>, usize), DecodeError>)
    ensures
        res_struct_items(r) == spec_parse_struct(i@, pos as int, DEPTH_LIMIT as nat),
{
    parse_struct_depth(i, pos, DEPTH_LIMIT)
}

} // verus!
