//! Mathematical model of the wire format.
//!
//! Every decoder in this crate is specified against the functions here:
//! big-endian integer readings of a byte sequence, and a recursive grammar
//! for the self-describing variant encoding. A parse result is modelled as
//! `Result<(value, end), DecodeError>`, where `end` is the position just
//! past the consumed bytes.

use vstd::prelude::*;
use vstd::utf8::decode_utf8;
use vstd::utf8::valid_utf8;

use crate::se_types::Point2D;
use crate::se_types::Point3D;
use crate::se_types::Quaternion;
use crate::se_types::SETypeId;
use crate::se_types::StructItemV;
use crate::se_types::UserMarker;
use crate::se_types::VariantV;
use crate::se_types::Vect2D;
use crate::se_types::Vect3D;
use crate::se_types::WorldIntersectionV;
use crate::se_types::type_id_of;

verus! {

/// Why a decode failed. Every failure is reported; no input panics.
#[derive(Debug, PartialEq, Eq, Structural, Clone, Copy)]
pub enum DecodeError {
    /// Fewer bytes remain than the value needs.
    Truncated,
    /// A variant type tag outside the closed set.
    TypeTagUnknown,
    /// A string payload is not valid UTF-8.
    InvalidEncoding,
    /// A structurally invalid body: a bad optional-presence flag, a
    /// sub-packet whose decoder did not consume its declared length, or a
    /// nesting deeper than the defensive recursion bound.
    InvalidPacket,
    /// A sub-packet field id outside the closed set.
    UnknownField,
    /// A field id or type tag that is reserved and never decoded.
    NotImplemented,
}

/// Nesting bound for recursive variant values: hardening against
/// attacker-controlled unbounded recursion on the wire.
pub const DEPTH_LIMIT: usize = 64;

pub open spec fn has_bytes(b: Seq<u8>, pos: int, n: int) -> bool {
    0 <= pos && pos + n <= b.len()
}

pub open spec fn be_u16(b: Seq<u8>, pos: int) -> u16 {
    (b[pos] * 0x100 + b[pos + 1]) as u16
}

pub open spec fn be_u32(b: Seq<u8>, pos: int) -> u32 {
    (be_u16(b, pos) * 0x10000 + be_u16(b, pos + 2)) as u32
}

pub open spec fn be_u64(b: Seq<u8>, pos: int) -> u64 {
    (be_u32(b, pos) * 0x1_0000_0000 + be_u32(b, pos + 4)) as u64
}

/// The big-endian 32-bit word at `pos`, read as a two's-complement integer.
pub open spec fn be_i32(b: Seq<u8>, pos: int) -> i32 {
    if be_u32(b, pos) < 0x8000_0000 {
        be_u32(b, pos) as i32
    } else {
        (be_u32(b, pos) - 0x1_0000_0000) as i32
    }
}

pub open spec fn spec_parse_u8(b: Seq<u8>, pos: int) -> Result<(u8, int), DecodeError> {
    if has_bytes(b, pos, 1) {
        Ok((b[pos], pos + 1))
    } else {
        Err(DecodeError::Truncated)
    }
}

pub open spec fn spec_parse_u16(b: Seq<u8>, pos: int) -> Result<(u16, int), DecodeError> {
    if has_bytes(b, pos, 2) {
        Ok((be_u16(b, pos), pos + 2))
    } else {
        Err(DecodeError::Truncated)
    }
}

pub open spec fn spec_parse_u32(b: Seq<u8>, pos: int) -> Result<(u32, int), DecodeError> {
    if has_bytes(b, pos, 4) {
        Ok((be_u32(b, pos), pos + 4))
    } else {
        Err(DecodeError::Truncated)
    }
}

pub open spec fn spec_parse_s32(b: Seq<u8>, pos: int) -> Result<(i32, int), DecodeError> {
    if has_bytes(b, pos, 4) {
        Ok((be_i32(b, pos), pos + 4))
    } else {
        Err(DecodeError::Truncated)
    }
}

pub open spec fn spec_parse_u64(b: Seq<u8>, pos: int) -> Result<(u64, int), DecodeError> {
    if has_bytes(b, pos, 8) {
        Ok((be_u64(b, pos), pos + 8))
    } else {
        Err(DecodeError::Truncated)
    }
}

/// A 32-bit float, decoded to its bit pattern.
pub open spec fn spec_parse_f32(b: Seq<u8>, pos: int) -> Result<(u32, int), DecodeError> {
    spec_parse_u32(b, pos)
}

/// A 64-bit float, decoded to its bit pattern.
pub open spec fn spec_parse_f64(b: Seq<u8>, pos: int) -> Result<(u64, int), DecodeError> {
    spec_parse_u64(b, pos)
}

pub open spec fn point_3d_at(b: Seq<u8>, pos: int) -> Point3D {
    Point3D(be_u64(b, pos), be_u64(b, pos + 8), be_u64(b, pos + 16))
}

pub open spec fn spec_parse_point_2d(b: Seq<u8>, pos: int) -> Result<(Point2D, int), DecodeError> {
    if has_bytes(b, pos, 16) {
        Ok((Point2D(be_u64(b, pos), be_u64(b, pos + 8)), pos + 16))
    } else {
        Err(DecodeError::Truncated)
    }
}

pub open spec fn spec_parse_vect_2d(b: Seq<u8>, pos: int) -> Result<(Vect2D, int), DecodeError> {
    if has_bytes(b, pos, 16) {
        Ok((Vect2D(be_u64(b, pos), be_u64(b, pos + 8)), pos + 16))
    } else {
        Err(DecodeError::Truncated)
    }
}

pub open spec fn spec_parse_point_3d(b: Seq<u8>, pos: int) -> Result<(Point3D, int), DecodeError> {
    if has_bytes(b, pos, 24) {
        Ok((point_3d_at(b, pos), pos + 24))
    } else {
        Err(DecodeError::Truncated)
    }
}

pub open spec fn spec_parse_vect_3d(b: Seq<u8>, pos: int) -> Result<(Vect3D, int), DecodeError> {
    if has_bytes(b, pos, 24) {
        Ok((Vect3D(be_u64(b, pos), be_u64(b, pos + 8), be_u64(b, pos + 16)), pos + 24))
    } else {
        Err(DecodeError::Truncated)
    }
}

pub open spec fn spec_parse_quaternion(b: Seq<u8>, pos: int) -> Result<
    (Quaternion, int),
    DecodeError,
> {
    if has_bytes(b, pos, 32) {
        Ok(
            (
                Quaternion(
                    be_u64(b, pos),
                    be_u64(b, pos + 8),
                    be_u64(b, pos + 16),
                    be_u64(b, pos + 24),
                ),
                pos + 32,
            ),
        )
    } else {
        Err(DecodeError::Truncated)
    }
}

/// A string: a 16-bit length prefix, then that many bytes of UTF-8.
pub open spec fn spec_parse_string(b: Seq<u8>, pos: int) -> Result<(Seq<char>, int), DecodeError> {
    match spec_parse_u16(b, pos) {
        Err(e) => Err(e),
        Ok((n, p)) => if p + n > b.len() {
            Err(DecodeError::Truncated)
        } else {
            let w = b.subrange(p, p + n);
            if valid_utf8(w) {
                Ok((decode_utf8(w), p + n))
            } else {
                Err(DecodeError::InvalidEncoding)
            }
        },
    }
}

pub open spec fn spec_parse_wi_item(b: Seq<u8>, pos: int) -> Result<
    (WorldIntersectionV, int),
    DecodeError,
> {
    if !has_bytes(b, pos, 48) {
        Err(DecodeError::Truncated)
    } else {
        match spec_parse_string(b, pos + 48) {
            Err(e) => Err(e),
            Ok((name, end)) => Ok(
                (
                    WorldIntersectionV {
                        world_point: point_3d_at(b, pos),
                        object_point: point_3d_at(b, pos + 24),
                        object_name: name,
                    },
                    end,
                ),
            ),
        }
    }
}

/// An optional world intersection: presence flag 0 is absent, 1 is one
/// body; any other flag is invalid, never a crash.
pub open spec fn spec_parse_world_intersection(b: Seq<u8>, pos: int) -> Result<
    (Option<WorldIntersectionV>, int),
    DecodeError,
> {
    match spec_parse_u16(b, pos) {
        Err(e) => Err(e),
        Ok((flag, p)) => if flag == 0 {
            Ok((None, p))
        } else if flag == 1 {
            match spec_parse_wi_item(b, p) {
                Err(e) => Err(e),
                Ok((w, end)) => Ok((Some(w), end)),
            }
        } else {
            Err(DecodeError::InvalidPacket)
        },
    }
}

pub open spec fn spec_parse_wi_items(b: Seq<u8>, pos: int, n: nat) -> Result<
    (Seq<WorldIntersectionV>, int),
    DecodeError,
>
    decreases n,
{
    if n == 0 {
        Ok((Seq::empty(), pos))
    } else {
        match spec_parse_wi_item(b, pos) {
            Err(e) => Err(e),
            Ok((w, p)) => match spec_parse_wi_items(b, p, (n - 1) as nat) {
                Err(e) => Err(e),
                Ok((ws, end)) => Ok((seq![w] + ws, end)),
            },
        }
    }
}

/// A list of world intersections: a 16-bit count, then that many bodies.
pub open spec fn spec_parse_world_intersections(b: Seq<u8>, pos: int) -> Result<
    (Seq<WorldIntersectionV>, int),
    DecodeError,
> {
    match spec_parse_u16(b, pos) {
        Err(e) => Err(e),
        Ok((n, p)) => spec_parse_wi_items(b, p, n as nat),
    }
}

pub open spec fn spec_parse_user_marker_item(b: Seq<u8>, pos: int) -> Result<
    (UserMarker, int),
    DecodeError,
> {
    if has_bytes(b, pos, 29) {
        Ok(
            (
                UserMarker {
                    error: be_i32(b, pos),
                    time_stamp: be_u64(b, pos + 4),
                    camera_clock: be_u64(b, pos + 12),
                    camera_idx: b[pos + 20],
                    data: be_u64(b, pos + 21),
                },
                pos + 29,
            ),
        )
    } else {
        Err(DecodeError::Truncated)
    }
}

/// An optional user marker, with the same presence-flag rule as
/// [`spec_parse_world_intersection`].
pub open spec fn spec_parse_user_marker(b: Seq<u8>, pos: int) -> Result<
    (Option<UserMarker>, int),
    DecodeError,
> {
    match spec_parse_u16(b, pos) {
        Err(e) => Err(e),
        Ok((flag, p)) => if flag == 0 {
            Ok((None, p))
        } else if flag == 1 {
            match spec_parse_user_marker_item(b, p) {
                Err(e) => Err(e),
                Ok((m, end)) => Ok((Some(m), end)),
            }
        } else {
            Err(DecodeError::InvalidPacket)
        },
    }
}

/// One self-describing value: a 16-bit type tag, then its payload.
/// `depth` bounds the nesting of vectors and structs that may still be
/// entered; a deeper input is invalid.
pub open spec fn spec_parse_variant(b: Seq<u8>, pos: int, depth: nat) -> Result<
    (VariantV, int),
    DecodeError,
>
    decreases depth, 0nat, 0nat,
{
    match spec_parse_u16(b, pos) {
        Err(e) => Err(e),
        Ok((tag, p)) => match type_id_of(tag) {
            None => Err(DecodeError::TypeTagUnknown),
            Some(t) => match t {
                SETypeId::U8 => match spec_parse_u8(b, p) {
                    Err(e) => Err(e),
                    Ok((v, end)) => Ok((VariantV::U8(v), end)),
                },
                SETypeId::U16 => match spec_parse_u16(b, p) {
                    Err(e) => Err(e),
                    Ok((v, end)) => Ok((VariantV::U16(v), end)),
                },
                SETypeId::U32 => match spec_parse_u32(b, p) {
                    Err(e) => Err(e),
                    Ok((v, end)) => Ok((VariantV::U32(v), end)),
                },
                SETypeId::S32 => match spec_parse_s32(b, p) {
                    Err(e) => Err(e),
                    Ok((v, end)) => Ok((VariantV::S32(v), end)),
                },
                SETypeId::U64 => match spec_parse_u64(b, p) {
                    Err(e) => Err(e),
                    Ok((v, end)) => Ok((VariantV::U64(v), end)),
                },
                SETypeId::F64 => match spec_parse_f64(b, p) {
                    Err(e) => Err(e),
                    Ok((v, end)) => Ok((VariantV::F64(v), end)),
                },
                SETypeId::Point2D => match spec_parse_point_2d(b, p) {
                    Err(e) => Err(e),
                    Ok((v, end)) => Ok((VariantV::Point2D(v), end)),
                },
                SETypeId::Vect2D => match spec_parse_vect_2d(b, p) {
                    Err(e) => Err(e),
                    Ok((v, end)) => Ok((VariantV::Vect2D(v), end)),
                },
                SETypeId::Point3D => match spec_parse_point_3d(b, p) {
                    Err(e) => Err(e),
                    Ok((v, end)) => Ok((VariantV::Point3D(v), end)),
                },
                SETypeId::Vect3D => match spec_parse_vect_3d(b, p) {
                    Err(e) => Err(e),
                    Ok((v, end)) => Ok((VariantV::Vect3D(v), end)),
                },
                SETypeId::String => match spec_parse_string(b, p) {
                    Err(e) => Err(e),
                    Ok((v, end)) => Ok((VariantV::String(v), end)),
                },
                SETypeId::Vector => if depth == 0 {
                    Err(DecodeError::InvalidPacket)
                } else {
                    match spec_parse_vector(b, p, (depth - 1) as nat) {
                        Err(e) => Err(e),
                        Ok((items, end)) => Ok((VariantV::Vector(items), end)),
                    }
                },
                SETypeId::Struct => if depth == 0 {
                    Err(DecodeError::InvalidPacket)
                } else {
                    match spec_parse_struct(b, p, (depth - 1) as nat) {
                        Err(e) => Err(e),
                        Ok((items, end)) => Ok((VariantV::Struct(items), end)),
                    }
                },
                SETypeId::WorldIntersection => match spec_parse_world_intersection(b, p) {
                    Err(e) => Err(e),
                    Ok((v, end)) => Ok((VariantV::WorldIntersection(v), end)),
                },
                SETypeId::WorldIntersections => match spec_parse_world_intersections(b, p) {
                    Err(e) => Err(e),
                    Ok((v, end)) => Ok((VariantV::WorldIntersections(v), end)),
                },
                SETypeId::PacketHeader => Err(DecodeError::NotImplemented),
                SETypeId::SubPacketHeader => Err(DecodeError::NotImplemented),
                SETypeId::F32 => match spec_parse_f32(b, p) {
                    Err(e) => Err(e),
                    Ok((v, end)) => Ok((VariantV::F32(v), end)),
                },
                SETypeId::Matrix3X3 => Err(DecodeError::NotImplemented),
                SETypeId::Matrix2x2 => Err(DecodeError::NotImplemented),
                SETypeId::Quaternion => match spec_parse_quaternion(b, p) {
                    Err(e) => Err(e),
                    Ok((v, end)) => Ok((VariantV::Quaternion(v), end)),
                },
                SETypeId::UserMarker => match spec_parse_user_marker(b, p) {
                    Err(e) => Err(e),
                    Ok((v, end)) => Ok((VariantV::UserMarker(v), end)),
                },
            },
        },
    }
}

/// `n` variant items in sequence, each at nesting budget `depth`.
pub open spec fn spec_parse_variant_items(b: Seq<u8>, pos: int, n: nat, depth: nat) -> Result<
    (Seq<VariantV>, int),
    DecodeError,
>
    decreases depth, 0nat, n,
{
    if n == 0 {
        Ok((Seq::empty(), pos))
    } else {
        match spec_parse_variant(b, pos, depth) {
            Err(e) => Err(e),
            Ok((v, p)) => match spec_parse_variant_items(b, p, (n - 1) as nat, depth) {
                Err(e) => Err(e),
                Ok((items, end)) => Ok((seq![v] + items, end)),
            },
        }
    }
}

/// A vector: a 16-bit count, then that many tagged items.
pub open spec fn spec_parse_vector(b: Seq<u8>, pos: int, depth: nat) -> Result<
    (Seq<VariantV>, int),
    DecodeError,
>
    decreases depth, 1nat, 0nat,
{
    match spec_parse_u16(b, pos) {
        Err(e) => Err(e),
        Ok((n, p)) => spec_parse_variant_items(b, p, n as nat, depth),
    }
}

/// `n` struct entries in sequence: a string key, then a tagged value.
pub open spec fn spec_parse_struct_items(b: Seq<u8>, pos: int, n: nat, depth: nat) -> Result<
    (Seq<StructItemV>, int),
    DecodeError,
>
    decreases depth, 0nat, n,
{
    if n == 0 {
        Ok((Seq::empty(), pos))
    } else {
        match spec_parse_string(b, pos) {
            Err(e) => Err(e),
            Ok((key, p)) => match spec_parse_variant(b, p, depth) {
                Err(e) => Err(e),
                Ok((v, p2)) => match spec_parse_struct_items(b, p2, (n - 1) as nat, depth) {
                    Err(e) => Err(e),
                    Ok((items, end)) => Ok((seq![StructItemV(key, v)] + items, end)),
                },
            },
        }
    }
}

/// One struct entry: a string key, then a tagged value.
pub open spec fn spec_parse_struct_item(b: Seq<u8>, pos: int, depth: nat) -> Result<
    (StructItemV, int),
    DecodeError,
> {
    match spec_parse_string(b, pos) {
        Err(e) => Err(e),
        Ok((key, p)) => match spec_parse_variant(b, p, depth) {
            Err(e) => Err(e),
            Ok((v, end)) => Ok((StructItemV(key, v), end)),
        },
    }
}

/// A struct: a 16-bit count, then that many key/value entries, order kept.
pub open spec fn spec_parse_struct(b: Seq<u8>, pos: int, depth: nat) -> Result<
    (Seq<StructItemV>, int),
    DecodeError,
>
    decreases depth, 1nat, 0nat,
{
    match spec_parse_u16(b, pos) {
        Err(e) => Err(e),
        Ok((n, p)) => spec_parse_struct_items(b, p, n as nat, depth),
    }
}

/// The presence-flag rule of the two optional bodies: flag 0 is absent
/// and consumes exactly the 2 flag bytes, flag 1 decodes the full body,
/// and every other flag value is invalid — for every input, never a
/// crash.
pub proof fn lemma_presence_flag(b: Seq<u8>, pos: int)
    requires
        has_bytes(b, pos, 2),
    ensures
        be_u16(b, pos) == 0 ==> spec_parse_world_intersection(b, pos) == Ok::<
            (Option<WorldIntersectionV>, int),
            DecodeError,
        >((None, pos + 2)),
        be_u16(b, pos) == 0 ==> spec_parse_user_marker(b, pos) == Ok::<
            (Option<UserMarker>, int),
            DecodeError,
        >((None, pos + 2)),
        be_u16(b, pos) == 1 ==> spec_parse_world_intersection(b, pos) == (match spec_parse_wi_item(
            b,
            pos + 2,
        ) {
            Err(e) => Err(e),
            Ok((w, end)) => Ok((Some(w), end)),
        }),
        be_u16(b, pos) == 1 ==> spec_parse_user_marker(b, pos) == (
        match spec_parse_user_marker_item(b, pos + 2) {
            Err(e) => Err(e),
            Ok((m, end)) => Ok((Some(m), end)),
        }),
        be_u16(b, pos) != 0 && be_u16(b, pos) != 1 ==> spec_parse_world_intersection(b, pos)
            == Err::<(Option<WorldIntersectionV>, int), DecodeError>(DecodeError::InvalidPacket),
        be_u16(b, pos) != 0 && be_u16(b, pos) != 1 ==> spec_parse_user_marker(b, pos) == Err::<
            (Option<UserMarker>, int),
            DecodeError,
        >(DecodeError::InvalidPacket),
{
}

} // verus!
