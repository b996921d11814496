//! Packet framing: header validation, sub-packet framing, and the
//! all-or-nothing decode of a packet body.
//!
//! A packet is an 8-byte header — the magic `SEPD`, the protocol-type
//! constant 0x0004, and a 16-bit body length — followed by exactly that
//! many body bytes. The body is a run of sub-packets, each a 4-byte
//! header (field id, payload length) and exactly that many payload bytes,
//! which the field's decoder must consume in full. Any leftover, short
//! read or decode failure invalidates the whole body: a partial packet is
//! never returned.

use vstd::prelude::*;
use vstd::slice::slice_subrange;

use crate::output_data::FieldV;
use crate::output_data::SEOutputData;
use crate::output_data::SEOutputDataId;
use crate::output_data::data_id_of;
use crate::output_data::field_view;
use crate::output_data::fields_view;
use crate::output_data::lemma_fields_view_push;
use crate::output_data::spec_parse_field;
use crate::parser::parse_point_2d;
use crate::parser::parse_point_3d;
use crate::parser::parse_quaternion;
use crate::parser::parse_string;
use crate::parser::parse_u16;
use crate::parser::parse_u32;
use crate::parser::parse_u64;
use crate::parser::parse_u8;
use crate::parser::parse_f64;
use crate::parser::parse_user_marker;
use crate::parser::parse_vect_3d;
use crate::parser::parse_vector;
use crate::parser::parse_world_intersection;
use crate::parser::parse_world_intersections;
use crate::wire::DecodeError;
use crate::wire::be_u16;
use crate::wire::has_bytes;
use crate::wire::spec_parse_u16;

verus! {

/// The error that the packet-level interface reports for any structurally
/// invalid input.
#[derive(Debug, PartialEq, Eq, Structural, Clone, Copy)]
pub struct ParseFailedError {}

/// Bytes of a packet header: the magic, the protocol type and the length.
pub const PACKET_HEADER_SIZE: usize = 8;

/// A validated packet header; the magic and protocol-type constants are
/// checked and not retained.
#[derive(Debug, PartialEq, Eq, Structural, Clone, Copy)]
pub struct PacketHeader {
    pub length: u16,
}

/// One sub-packet's header: the field id and its payload length.
#[derive(Debug, PartialEq, Eq, Structural, Clone, Copy)]
pub struct SubPacketHeader {
    pub id: SEOutputDataId,
    pub length: u16,
}

/// Whether the 8 bytes at `pos` form a valid packet header: the magic
/// `SEPD`, then the protocol-type constant 0x0004, big-endian.
pub open spec fn header_ok(b: Seq<u8>, pos: int) -> bool {
    &&& has_bytes(b, pos, 8)
    &&& b[pos] == 0x53
    &&& b[pos + 1] == 0x45
    &&& b[pos + 2] == 0x50
    &&& b[pos + 3] == 0x44
    &&& b[pos + 4] == 0x00
    &&& b[pos + 5] == 0x04
}

/// The body length that the header at `pos` declares.
pub open spec fn header_len(b: Seq<u8>, pos: int) -> u16 {
    be_u16(b, pos + 6)
}

/// An executable sub-packet-header parse result, as the wire model sees it.
pub open spec fn res_sub_header(r: Result<(SubPacketHeader, usize), DecodeError>) -> Result<
    (SubPacketHeader, int),
    DecodeError,
> {
    match r {
        Ok((h, p)) => Ok((h, p as int)),
        Err(e) => Err(e),
    }
}

/// An executable field parse result, as the wire model sees it.
pub open spec fn res_field(r: Result<(SEOutputData, usize), DecodeError>) -> Result<
    (FieldV, int),
    DecodeError,
> {
    match r {
        Ok((f, p)) => Ok((field_view(f), p as int)),
        Err(e) => Err(e),
    }
}

/// Prefixes the fields of a successful body parse.
pub open spec fn fields_prepend(
    prefix: Seq<FieldV>,
    r: Result<Seq<FieldV>, DecodeError>,
) -> Result<Seq<FieldV>, DecodeError> {
    match r {
        Ok(fs) => Ok(prefix + fs),
        Err(e) => Err(e),
    }
}

/// A sub-packet header: a 16-bit field id, then a 16-bit payload length;
/// ids outside the closed set fail with `UnknownField`.
pub open spec fn spec_parse_sub_packet_header(b: Seq<u8>, pos: int) -> Result<
    (SubPacketHeader, int),
    DecodeError,
> {
    match spec_parse_u16(b, pos) {
        Err(e) => Err(e),
        Ok((idnum, p)) => match spec_parse_u16(b, p) {
            Err(e) => Err(e),
            Ok((length, p2)) => match data_id_of(idnum) {
                None => Err(DecodeError::UnknownField),
                Some(id) => Ok((SubPacketHeader { id, length }, p2)),
            },
        },
    }
}

/// One sub-packet: its header, then exactly `length` payload bytes, which
/// the field's decoder must consume in full.
pub open spec fn spec_parse_sub_packet(b: Seq<u8>, pos: int) -> Result<(FieldV, int), DecodeError> {
    match spec_parse_sub_packet_header(b, pos) {
        Err(e) => Err(e),
        Ok((h, p)) => {
            let end = p + h.length;
            if end > b.len() {
                Err(DecodeError::Truncated)
            } else {
                match spec_parse_field(h.id, b.subrange(p, end), 0) {
                    Err(e) => Err(e),
                    Ok((f, fe)) => if fe == h.length {
                        Ok((f, end))
                    } else {
                        Err(DecodeError::InvalidPacket)
                    },
                }
            }
        },
    }
}

/// The run of sub-packets from `pos` to the end of `b`: the body is valid
/// exactly when the runs of header-plus-payload tile the remaining bytes
/// and every payload decodes in full.
pub open spec fn spec_parse_sub_packets(b: Seq<u8>, pos: int) -> Result<Seq<FieldV>, DecodeError>
    decreases b.len() - pos,
{
    if pos == b.len() {
        Ok(Seq::empty())
    } else {
        match spec_parse_sub_packet_header(b, pos) {
            Err(e) => Err(e),
            Ok((h, p)) => {
                let end = pos + 4 + h.length;
                if end > b.len() {
                    Err(DecodeError::Truncated)
                } else {
                    match spec_parse_field(h.id, b.subrange(p, end), 0) {
                        Err(e) => Err(e),
                        Ok((f, fe)) => if fe == h.length {
                            match spec_parse_sub_packets(b, end) {
                                Err(e) => Err(e),
                                Ok(fs) => Ok(seq![f] + fs),
                            }
                        } else {
                            Err(DecodeError::InvalidPacket)
                        },
                    }
                }
            },
        }
    }
}

/// A packet body against its declared length: the first `len` bytes of
/// `b` must be exactly tiled by sub-packets; bytes past `len` are not
/// part of the body.
pub open spec fn spec_parse_packet_data(len: u16, b: Seq<u8>) -> Result<Seq<FieldV>, DecodeError> {
    if b.len() < len {
        Err(DecodeError::Truncated)
    } else {
        spec_parse_sub_packets(b.subrange(0, len as int), 0)
    }
}

/// A whole packet: a valid header, then its body.
pub open spec fn spec_parse_packet(b: Seq<u8>) -> Result<Seq<FieldV>, DecodeError> {
    if !header_ok(b, 0) {
        Err(DecodeError::InvalidPacket)
    } else {
        spec_parse_packet_data(header_len(b, 0), b.skip(8))
    }
}

/// Unfolds one sub-packet off the front of a body run.
pub proof fn lemma_sub_packets_step(b: Seq<u8>, pos: int)
    requires
        0 <= pos < b.len(),
    ensures
        spec_parse_sub_packets(b, pos) == (match spec_parse_sub_packet(b, pos) {
            Err(e) => Err(e),
            Ok((f, end)) => match spec_parse_sub_packets(b, end) {
                Err(e) => Err(e),
                Ok(fs) => Ok(seq![f] + fs),
            },
        }),
        spec_parse_sub_packet(b, pos) matches Ok((f, end)) ==> pos + 4 <= end <= b.len(),
{
}

/// Checks for a packet header at `pos` and reads its body length.
pub(crate) fn header_at(i: &[u8], pos: usize) -> (r: Option<u16>)
    ensures
        r is Some <==> header_ok(i@, pos as int),
        r is Some ==> r->0 == header_len(i@, pos as int),
{
    if pos > i.len() || i.len() - pos < 8 {
        return None;
    }
    if i[pos] == 0x53 && i[pos + 1] == 0x45 && i[pos + 2] == 0x50 && i[pos + 3] == 0x44 && i[pos
        + 4] == 0x00 && i[pos + 5] == 0x04 {
        let length: u16 = (i[pos + 6] as u16) * 0x100 + (i[pos + 7] as u16);
        Some(length)
    } else {
        None
    }
}

/// Validates an 8-byte packet header: any mismatch in the first 6 bytes
/// fails, to be consumed by resynchronization.
pub fn parse_packet_header(i: &[u8]) -> (r: Result<PacketHeader, ParseFailedError>)
    ensures
        header_ok(i@, 0) ==> r == Ok::<PacketHeader, ParseFailedError>(
            PacketHeader { length: header_len(i@, 0) },
        ),
        !header_ok(i@, 0) ==> r == Err::<PacketHeader, ParseFailedError>(ParseFailedError {}),
{
    match header_at(i, 0) {
        Some(length) => Ok(PacketHeader { length }),
        None => Err(ParseFailedError {}),
    }
}

/// One sub-packet's header: a 16-bit field id, then a payload length.
pub fn parse_sub_packet_header(i: &[u8], pos: usize) -> (r: Result<
    (SubPacketHeader, usize),
    DecodeError,
>)
    ensures
        res_sub_header(r) == spec_parse_sub_packet_header(i@, pos as int),
{
    let (idnum, p) = match parse_u16(i, pos) {
        Ok(v) => v,
        Err(e) => {
            return Err(e);
        },
    };
    let (length, p2) = match parse_u16(i, p) {
        Ok(v) => v,
        Err(e) => {
            return Err(e);
        },
    };
    match SEOutputDataId::try_from(idnum) {
        Ok(id) => Ok((SubPacketHeader { id, length }, p2)),
        Err(_) => Err(DecodeError::UnknownField),
    }
}

/// Decodes the payloads of one span of the field-id table.
#[verifier::rlimit(100)]
fn parse_field_group_a(id: SEOutputDataId, i: &[u8], pos: usize) -> (r: Result<
    (SEOutputData, usize),
    DecodeError,
>)
    requires
        matches!(id, SEOutputDataId::SEFrameNumber | SEOutputDataId::SEEstimatedDelay | SEOutputDataId::SETimeStamp | SEOutputDataId::SEUserTimeStamp | SEOutputDataId::SEFrameRate | SEOutputDataId::SECameraPositions | SEOutputDataId::SECameraRotations | SEOutputDataId::SEUserDefinedData | SEOutputDataId::SERealTimeClock | SEOutputDataId::SEKeyboardState | SEOutputDataId::SEASCIIKeyboardState | SEOutputDataId::SEUserMarker | SEOutputDataId::SECameraClocks | SEOutputDataId::SEHeadPosition | SEOutputDataId::SEHeadPositionQ | SEOutputDataId::SEHeadRotationRodrigues | SEOutputDataId::SEHeadRotationQuaternion | SEOutputDataId::SEHeadLeftEarDirection | SEOutputDataId::SEHeadUpDirection | SEOutputDataId::SEHeadNoseDirection),
    ensures
        res_field(r) == spec_parse_field(id, i@, pos as int),
{
    proof {
        reveal(spec_parse_field);
    }
    match id {
        SEOutputDataId::SEFrameNumber => match parse_u32(i, pos) {
            Err(e) => Err(e),
            Ok((v, end)) => Ok((SEOutputData::SEFrameNumber(v), end)),
        },
        SEOutputDataId::SEEstimatedDelay => match parse_u32(i, pos) {
            Err(e) => Err(e),
            Ok((v, end)) => Ok((SEOutputData::SEEstimatedDelay(v), end)),
        },
        SEOutputDataId::SETimeStamp => match parse_u64(i, pos) {
            Err(e) => Err(e),
            Ok((v, end)) => Ok((SEOutputData::SETimeStamp(v), end)),
        },
        SEOutputDataId::SEUserTimeStamp => match parse_u64(i, pos) {
            Err(e) => Err(e),
            Ok((v, end)) => Ok((SEOutputData::SEUserTimeStamp(v), end)),
        },
        SEOutputDataId::SEFrameRate => match parse_f64(i, pos) {
            Err(e) => Err(e),
            Ok((v, end)) => Ok((SEOutputData::SEFrameRate(v), end)),
        },
        SEOutputDataId::SECameraPositions => match parse_vector(i, pos) {
            Err(e) => Err(e),
            Ok((v, end)) => Ok((SEOutputData::SECameraPositions(v), end)),
        },
        SEOutputDataId::SECameraRotations => match parse_vector(i, pos) {
            Err(e) => Err(e),
            Ok((v, end)) => Ok((SEOutputData::SECameraRotations(v), end)),
        },
        SEOutputDataId::SEUserDefinedData => match parse_u64(i, pos) {
            Err(e) => Err(e),
            Ok((v, end)) => Ok((SEOutputData::SEUserDefinedData(v), end)),
        },
        SEOutputDataId::SERealTimeClock => match parse_u64(i, pos) {
            Err(e) => Err(e),
            Ok((v, end)) => Ok((SEOutputData::SERealTimeClock(v), end)),
        },
        SEOutputDataId::SEKeyboardState => match parse_string(i, pos) {
            Err(e) => Err(e),
            Ok((v, end)) => Ok((SEOutputData::SEKeyboardState(v), end)),
        },
        SEOutputDataId::SEASCIIKeyboardState => match parse_u16(i, pos) {
            Err(e) => Err(e),
            Ok((v, end)) => Ok((SEOutputData::SEASCIIKeyboardState(v), end)),
        },
        SEOutputDataId::SEUserMarker => match parse_user_marker(i, pos) {
            Err(e) => Err(e),
            Ok((v, end)) => Ok((SEOutputData::SEUserMarker(v), end)),
        },
        SEOutputDataId::SECameraClocks => match parse_vector(i, pos) {
            Err(e) => Err(e),
            Ok((v, end)) => Ok((SEOutputData::SECameraClocks(v), end)),
        },
        SEOutputDataId::SEHeadPosition => match parse_point_3d(i, pos) {
            Err(e) => Err(e),
            Ok((v, end)) => Ok((SEOutputData::SEHeadPosition(v), end)),
        },
        SEOutputDataId::SEHeadPositionQ => match parse_f64(i, pos) {
            Err(e) => Err(e),
            Ok((v, end)) => Ok((SEOutputData::SEHeadPositionQ(v), end)),
        },
        SEOutputDataId::SEHeadRotationRodrigues => match parse_vect_3d(i, pos) {
            Err(e) => Err(e),
            Ok((v, end)) => Ok((SEOutputData::SEHeadRotationRodrigues(v), end)),
        },
        SEOutputDataId::SEHeadRotationQuaternion => match parse_quaternion(i, pos) {
            Err(e) => Err(e),
            Ok((v, end)) => Ok((SEOutputData::SEHeadRotationQuaternion(v), end)),
        },
        SEOutputDataId::SEHeadLeftEarDirection => match parse_vect_3d(i, pos) {
            Err(e) => Err(e),
            Ok((v, end)) => Ok((SEOutputData::SEHeadLeftEarDirection(v), end)),
        },
        SEOutputDataId::SEHeadUpDirection => match parse_vect_3d(i, pos) {
            Err(e) => Err(e),
            Ok((v, end)) => Ok((SEOutputData::SEHeadUpDirection(v), end)),
        },
        SEOutputDataId::SEHeadNoseDirection => match parse_vect_3d(i, pos) {
            Err(e) => Err(e),
            Ok((v, end)) => Ok((SEOutputData::SEHeadNoseDirection(v), end)),
        },
        _ => Err(DecodeError::UnknownField),
    }
}

/// Decodes the payloads of one span of the field-id table.
#[verifier::rlimit(100)]
fn parse_field_group_b(id: SEOutputDataId, i: &[u8], pos: usize) -> (r: Result<
    (SEOutputData, usize),
    DecodeError,
>)
    requires
        matches!(id, SEOutputDataId::SEHeadHeading | SEOutputDataId::SEHeadPitch | SEOutputDataId::SEHeadRoll | SEOutputDataId::SEHeadRotationQ | SEOutputDataId::SEGazeOrigin | SEOutputDataId::SELeftGazeOrigin | SEOutputDataId::SERightGazeOrigin | SEOutputDataId::SEEyePosition | SEOutputDataId::SEGazeDirection | SEOutputDataId::SEGazeDirectionQ | SEOutputDataId::SELeftEyePosition | SEOutputDataId::SELeftGazeDirection | SEOutputDataId::SELeftGazeDirectionQ | SEOutputDataId::SERightEyePosition | SEOutputDataId::SERightGazeDirection | SEOutputDataId::SERightGazeDirectionQ | SEOutputDataId::SEGazeHeading | SEOutputDataId::SEGazePitch | SEOutputDataId::SELeftGazeHeading | SEOutputDataId::SELeftGazePitch),
    ensures
        res_field(r) == spec_parse_field(id, i@, pos as int),
{
    proof {
        reveal(spec_parse_field);
    }
    match id {
        SEOutputDataId::SEHeadHeading => match parse_f64(i, pos) {
            Err(e) => Err(e),
            Ok((v, end)) => Ok((SEOutputData::SEHeadHeading(v), end)),
        },
        SEOutputDataId::SEHeadPitch => match parse_f64(i, pos) {
            Err(e) => Err(e),
            Ok((v, end)) => Ok((SEOutputData::SEHeadPitch(v), end)),
        },
        SEOutputDataId::SEHeadRoll => match parse_f64(i, pos) {
            Err(e) => Err(e),
            Ok((v, end)) => Ok((SEOutputData::SEHeadRoll(v), end)),
        },
        SEOutputDataId::SEHeadRotationQ => match parse_f64(i, pos) {
            Err(e) => Err(e),
            Ok((v, end)) => Ok((SEOutputData::SEHeadRotationQ(v), end)),
        },
        SEOutputDataId::SEGazeOrigin => match parse_point_3d(i, pos) {
            Err(e) => Err(e),
            Ok((v, end)) => Ok((SEOutputData::SEGazeOrigin(v), end)),
        },
        SEOutputDataId::SELeftGazeOrigin => match parse_point_3d(i, pos) {
            Err(e) => Err(e),
            Ok((v, end)) => Ok((SEOutputData::SELeftGazeOrigin(v), end)),
        },
        SEOutputDataId::SERightGazeOrigin => match parse_point_3d(i, pos) {
            Err(e) => Err(e),
            Ok((v, end)) => Ok((SEOutputData::SERightGazeOrigin(v), end)),
        },
        SEOutputDataId::SEEyePosition => match parse_point_3d(i, pos) {
            Err(e) => Err(e),
            Ok((v, end)) => Ok((SEOutputData::SEEyePosition(v), end)),
        },
        SEOutputDataId::SEGazeDirection => match parse_vect_3d(i, pos) {
            Err(e) => Err(e),
            Ok((v, end)) => Ok((SEOutputData::SEGazeDirection(v), end)),
        },
        SEOutputDataId::SEGazeDirectionQ => match parse_f64(i, pos) {
            Err(e) => Err(e),
            Ok((v, end)) => Ok((SEOutputData::SEGazeDirectionQ(v), end)),
        },
        SEOutputDataId::SELeftEyePosition => match parse_point_3d(i, pos) {
            Err(e) => Err(e),
            Ok((v, end)) => Ok((SEOutputData::SELeftEyePosition(v), end)),
        },
        SEOutputDataId::SELeftGazeDirection => match parse_vect_3d(i, pos) {
            Err(e) => Err(e),
            Ok((v, end)) => Ok((SEOutputData::SELeftGazeDirection(v), end)),
        },
        SEOutputDataId::SELeftGazeDirectionQ => match parse_f64(i, pos) {
            Err(e) => Err(e),
            Ok((v, end)) => Ok((SEOutputData::SELeftGazeDirectionQ(v), end)),
        },
        SEOutputDataId::SERightEyePosition => match parse_point_3d(i, pos) {
            Err(e) => Err(e),
            Ok((v, end)) => Ok((SEOutputData::SERightEyePosition(v), end)),
        },
        SEOutputDataId::SERightGazeDirection => match parse_vect_3d(i, pos) {
            Err(e) => Err(e),
            Ok((v, end)) => Ok((SEOutputData::SERightGazeDirection(v), end)),
        },
        SEOutputDataId::SERightGazeDirectionQ => match parse_f64(i, pos) {
            Err(e) => Err(e),
            Ok((v, end)) => Ok((SEOutputData::SERightGazeDirectionQ(v), end)),
        },
        SEOutputDataId::SEGazeHeading => match parse_f64(i, pos) {
            Err(e) => Err(e),
            Ok((v, end)) => Ok((SEOutputData::SEGazeHeading(v), end)),
        },
        SEOutputDataId::SEGazePitch => match parse_f64(i, pos) {
            Err(e) => Err(e),
            Ok((v, end)) => Ok((SEOutputData::SEGazePitch(v), end)),
        },
        SEOutputDataId::SELeftGazeHeading => match parse_f64(i, pos) {
            Err(e) => Err(e),
            Ok((v, end)) => Ok((SEOutputData::SELeftGazeHeading(v), end)),
        },
        SEOutputDataId::SELeftGazePitch => match parse_f64(i, pos) {
            Err(e) => Err(e),
            Ok((v, end)) => Ok((SEOutputData::SELeftGazePitch(v), end)),
        },
        _ => Err(DecodeError::UnknownField),
    }
}

/// Decodes the payloads of one span of the field-id table.
#[verifier::rlimit(100)]
fn parse_field_group_c(id: SEOutputDataId, i: &[u8], pos: usize) -> (r: Result<
    (SEOutputData, usize),
    DecodeError,
>)
    requires
        matches!(id, SEOutputDataId::SERightGazeHeading | SEOutputDataId::SERightGazePitch | SEOutputDataId::SEFilteredGazeDirection | SEOutputDataId::SEFilteredGazeDirectionQ | SEOutputDataId::SEFilteredLeftGazeDirection | SEOutputDataId::SEFilteredLeftGazeDirectionQ | SEOutputDataId::SEFilteredRightGazeDirection | SEOutputDataId::SEFilteredRightGazeDirectionQ | SEOutputDataId::SEFilteredGazeHeading | SEOutputDataId::SEFilteredGazePitch | SEOutputDataId::SEFilteredLeftGazeHeading | SEOutputDataId::SEFilteredLeftGazePitch | SEOutputDataId::SEFilteredRightGazeHeading | SEOutputDataId::SEFilteredRightGazePitch | SEOutputDataId::SESaccade | SEOutputDataId::SEFixation | SEOutputDataId::SEBlink | SEOutputDataId::SETrackingState | SEOutputDataId::SEEyeglassesStatus | SEOutputDataId::SEReflexReductionStateDEPRECATED),
    ensures
        res_field(r) == spec_parse_field(id, i@, pos as int),
{
    proof {
        reveal(spec_parse_field);
    }
    match id {
        SEOutputDataId::SERightGazeHeading => match parse_f64(i, pos) {
            Err(e) => Err(e),
            Ok((v, end)) => Ok((SEOutputData::SERightGazeHeading(v), end)),
        },
        SEOutputDataId::SERightGazePitch => match parse_f64(i, pos) {
            Err(e) => Err(e),
            Ok((v, end)) => Ok((SEOutputData::SERightGazePitch(v), end)),
        },
        SEOutputDataId::SEFilteredGazeDirection => match parse_vect_3d(i, pos) {
            Err(e) => Err(e),
            Ok((v, end)) => Ok((SEOutputData::SEFilteredGazeDirection(v), end)),
        },
        SEOutputDataId::SEFilteredGazeDirectionQ => match parse_f64(i, pos) {
            Err(e) => Err(e),
            Ok((v, end)) => Ok((SEOutputData::SEFilteredGazeDirectionQ(v), end)),
        },
        SEOutputDataId::SEFilteredLeftGazeDirection => match parse_vect_3d(i, pos) {
            Err(e) => Err(e),
            Ok((v, end)) => Ok((SEOutputData::SEFilteredLeftGazeDirection(v), end)),
        },
        SEOutputDataId::SEFilteredLeftGazeDirectionQ => match parse_f64(i, pos) {
            Err(e) => Err(e),
            Ok((v, end)) => Ok((SEOutputData::SEFilteredLeftGazeDirectionQ(v), end)),
        },
        SEOutputDataId::SEFilteredRightGazeDirection => match parse_vect_3d(i, pos) {
            Err(e) => Err(e),
            Ok((v, end)) => Ok((SEOutputData::SEFilteredRightGazeDirection(v), end)),
        },
        SEOutputDataId::SEFilteredRightGazeDirectionQ => match parse_f64(i, pos) {
            Err(e) => Err(e),
            Ok((v, end)) => Ok((SEOutputData::SEFilteredRightGazeDirectionQ(v), end)),
        },
        SEOutputDataId::SEFilteredGazeHeading => match parse_f64(i, pos) {
            Err(e) => Err(e),
            Ok((v, end)) => Ok((SEOutputData::SEFilteredGazeHeading(v), end)),
        },
        SEOutputDataId::SEFilteredGazePitch => match parse_f64(i, pos) {
            Err(e) => Err(e),
            Ok((v, end)) => Ok((SEOutputData::SEFilteredGazePitch(v), end)),
        },
        SEOutputDataId::SEFilteredLeftGazeHeading => match parse_f64(i, pos) {
            Err(e) => Err(e),
            Ok((v, end)) => Ok((SEOutputData::SEFilteredLeftGazeHeading(v), end)),
        },
        SEOutputDataId::SEFilteredLeftGazePitch => match parse_f64(i, pos) {
            Err(e) => Err(e),
            Ok((v, end)) => Ok((SEOutputData::SEFilteredLeftGazePitch(v), end)),
        },
        SEOutputDataId::SEFilteredRightGazeHeading => match parse_f64(i, pos) {
            Err(e) => Err(e),
            Ok((v, end)) => Ok((SEOutputData::SEFilteredRightGazeHeading(v), end)),
        },
        SEOutputDataId::SEFilteredRightGazePitch => match parse_f64(i, pos) {
            Err(e) => Err(e),
            Ok((v, end)) => Ok((SEOutputData::SEFilteredRightGazePitch(v), end)),
        },
        SEOutputDataId::SESaccade => match parse_u32(i, pos) {
            Err(e) => Err(e),
            Ok((v, end)) => Ok((SEOutputData::SESaccade(v), end)),
        },
        SEOutputDataId::SEFixation => match parse_u32(i, pos) {
            Err(e) => Err(e),
            Ok((v, end)) => Ok((SEOutputData::SEFixation(v), end)),
        },
        SEOutputDataId::SEBlink => match parse_u32(i, pos) {
            Err(e) => Err(e),
            Ok((v, end)) => Ok((SEOutputData::SEBlink(v), end)),
        },
        SEOutputDataId::SETrackingState => Err(DecodeError::NotImplemented),
        SEOutputDataId::SEEyeglassesStatus => Err(DecodeError::NotImplemented),
        SEOutputDataId::SEReflexReductionStateDEPRECATED => Err(DecodeError::NotImplemented),
        _ => Err(DecodeError::UnknownField),
    }
}

/// Decodes the payloads of one span of the field-id table.
#[verifier::rlimit(100)]
fn parse_field_group_d(id: SEOutputDataId, i: &[u8], pos: usize) -> (r: Result<
    (SEOutputData, usize),
    DecodeError,
>)
    requires
        matches!(id, SEOutputDataId::SELeftBlinkClosingMidTime | SEOutputDataId::SELeftBlinkOpeningMidTime | SEOutputDataId::SELeftBlinkClosingAmplitude | SEOutputDataId::SELeftBlinkOpeningAmplitude | SEOutputDataId::SELeftBlinkClosingSpeed | SEOutputDataId::SELeftBlinkOpeningSpeed | SEOutputDataId::SERightBlinkClosingMidTime | SEOutputDataId::SERightBlinkOpeningMidTime | SEOutputDataId::SERightBlinkClosingAmplitude | SEOutputDataId::SERightBlinkOpeningAmplitude | SEOutputDataId::SERightBlinkClosingSpeed | SEOutputDataId::SERightBlinkOpeningSpeed | SEOutputDataId::SEClosestWorldIntersection | SEOutputDataId::SEFilteredClosestWorldIntersection | SEOutputDataId::SEAllWorldIntersections | SEOutputDataId::SEFilteredAllWorldIntersections | SEOutputDataId::SEZoneId | SEOutputDataId::SEEstimatedClosestWorldIntersection | SEOutputDataId::SEEstimatedAllWorldIntersections | SEOutputDataId::SEHeadClosestWorldIntersection),
    ensures
        res_field(r) == spec_parse_field(id, i@, pos as int),
{
    proof {
        reveal(spec_parse_field);
    }
    match id {
        SEOutputDataId::SELeftBlinkClosingMidTime => match parse_u64(i, pos) {
            Err(e) => Err(e),
            Ok((v, end)) => Ok((SEOutputData::SELeftBlinkClosingMidTime(v), end)),
        },
        SEOutputDataId::SELeftBlinkOpeningMidTime => match parse_u64(i, pos) {
            Err(e) => Err(e),
            Ok((v, end)) => Ok((SEOutputData::SELeftBlinkOpeningMidTime(v), end)),
        },
        SEOutputDataId::SELeftBlinkClosingAmplitude => match parse_f64(i, pos) {
            Err(e) => Err(e),
            Ok((v, end)) => Ok((SEOutputData::SELeftBlinkClosingAmplitude(v), end)),
        },
        SEOutputDataId::SELeftBlinkOpeningAmplitude => match parse_f64(i, pos) {
            Err(e) => Err(e),
            Ok((v, end)) => Ok((SEOutputData::SELeftBlinkOpeningAmplitude(v), end)),
        },
        SEOutputDataId::SELeftBlinkClosingSpeed => match parse_f64(i, pos) {
            Err(e) => Err(e),
            Ok((v, end)) => Ok((SEOutputData::SELeftBlinkClosingSpeed(v), end)),
        },
        SEOutputDataId::SELeftBlinkOpeningSpeed => match parse_f64(i, pos) {
            Err(e) => Err(e),
            Ok((v, end)) => Ok((SEOutputData::SELeftBlinkOpeningSpeed(v), end)),
        },
        SEOutputDataId::SERightBlinkClosingMidTime => match parse_u64(i, pos) {
            Err(e) => Err(e),
            Ok((v, end)) => Ok((SEOutputData::SERightBlinkClosingMidTime(v), end)),
        },
        SEOutputDataId::SERightBlinkOpeningMidTime => match parse_u64(i, pos) {
            Err(e) => Err(e),
            Ok((v, end)) => Ok((SEOutputData::SERightBlinkOpeningMidTime(v), end)),
        },
        SEOutputDataId::SERightBlinkClosingAmplitude => match parse_f64(i, pos) {
            Err(e) => Err(e),
            Ok((v, end)) => Ok((SEOutputData::SERightBlinkClosingAmplitude(v), end)),
        },
        SEOutputDataId::SERightBlinkOpeningAmplitude => match parse_f64(i, pos) {
            Err(e) => Err(e),
            Ok((v, end)) => Ok((SEOutputData::SERightBlinkOpeningAmplitude(v), end)),
        },
        SEOutputDataId::SERightBlinkClosingSpeed => match parse_f64(i, pos) {
            Err(e) => Err(e),
            Ok((v, end)) => Ok((SEOutputData::SERightBlinkClosingSpeed(v), end)),
        },
        SEOutputDataId::SERightBlinkOpeningSpeed => match parse_f64(i, pos) {
            Err(e) => Err(e),
            Ok((v, end)) => Ok((SEOutputData::SERightBlinkOpeningSpeed(v), end)),
        },
        SEOutputDataId::SEClosestWorldIntersection => match parse_world_intersection(i, pos) {
            Err(e) => Err(e),
            Ok((v, end)) => Ok((SEOutputData::SEClosestWorldIntersection(v), end)),
        },
        SEOutputDataId::SEFilteredClosestWorldIntersection => match parse_world_intersection(i, pos) {
            Err(e) => Err(e),
            Ok((v, end)) => Ok((SEOutputData::SEFilteredClosestWorldIntersection(v), end)),
        },
        SEOutputDataId::SEAllWorldIntersections => match parse_world_intersections(i, pos) {
            Err(e) => Err(e),
            Ok((v, end)) => Ok((SEOutputData::SEAllWorldIntersections(v), end)),
        },
        SEOutputDataId::SEFilteredAllWorldIntersections => match parse_world_intersections(i, pos) {
            Err(e) => Err(e),
            Ok((v, end)) => Ok((SEOutputData::SEFilteredAllWorldIntersections(v), end)),
        },
        SEOutputDataId::SEZoneId => match parse_u16(i, pos) {
            Err(e) => Err(e),
            Ok((v, end)) => Ok((SEOutputData::SEZoneId(v), end)),
        },
        SEOutputDataId::SEEstimatedClosestWorldIntersection => match parse_world_intersection(i, pos) {
            Err(e) => Err(e),
            Ok((v, end)) => Ok((SEOutputData::SEEstimatedClosestWorldIntersection(v), end)),
        },
        SEOutputDataId::SEEstimatedAllWorldIntersections => match parse_world_intersections(i, pos) {
            Err(e) => Err(e),
            Ok((v, end)) => Ok((SEOutputData::SEEstimatedAllWorldIntersections(v), end)),
        },
        SEOutputDataId::SEHeadClosestWorldIntersection => match parse_world_intersection(i, pos) {
            Err(e) => Err(e),
            Ok((v, end)) => Ok((SEOutputData::SEHeadClosestWorldIntersection(v), end)),
        },
        _ => Err(DecodeError::UnknownField),
    }
}

/// Decodes the payloads of one span of the field-id table.
#[verifier::rlimit(100)]
fn parse_field_group_e(id: SEOutputDataId, i: &[u8], pos: usize) -> (r: Result<
    (SEOutputData, usize),
    DecodeError,
>)
    requires
        matches!(id, SEOutputDataId::SEHeadAllWorldIntersections | SEOutputDataId::SECalibrationGazeIntersection | SEOutputDataId::SETaggedGazeIntersection | SEOutputDataId::SELeftClosestWorldIntersection | SEOutputDataId::SELeftAllWorldIntersections | SEOutputDataId::SERightClosestWorldIntersection | SEOutputDataId::SERightAllWorldIntersections | SEOutputDataId::SEFilteredLeftClosestWorldIntersection | SEOutputDataId::SEFilteredLeftAllWorldIntersections | SEOutputDataId::SEFilteredRightClosestWorldIntersection | SEOutputDataId::SEFilteredRightAllWorldIntersections | SEOutputDataId::SEEstimatedLeftClosestWorldIntersection | SEOutputDataId::SEEstimatedLeftAllWorldIntersections | SEOutputDataId::SEEstimatedRightClosestWorldIntersection | SEOutputDataId::SEEstimatedRightAllWorldIntersections | SEOutputDataId::SEFilteredEstimatedClosestWorldIntersection | SEOutputDataId::SEFilteredEstimatedAllWorldIntersections | SEOutputDataId::SEFilteredEstimatedLeftClosestWorldIntersection | SEOutputDataId::SEFilteredEstimatedLeftAllWorldIntersections | SEOutputDataId::SEFilteredEstimatedRightClosestWorldIntersection),
    ensures
        res_field(r) == spec_parse_field(id, i@, pos as int),
{
    proof {
        reveal(spec_parse_field);
    }
    match id {
        SEOutputDataId::SEHeadAllWorldIntersections => match parse_world_intersections(i, pos) {
            Err(e) => Err(e),
            Ok((v, end)) => Ok((SEOutputData::SEHeadAllWorldIntersections(v), end)),
        },
        SEOutputDataId::SECalibrationGazeIntersection => match parse_world_intersection(i, pos) {
            Err(e) => Err(e),
            Ok((v, end)) => Ok((SEOutputData::SECalibrationGazeIntersection(v), end)),
        },
        SEOutputDataId::SETaggedGazeIntersection => match parse_world_intersection(i, pos) {
            Err(e) => Err(e),
            Ok((v, end)) => Ok((SEOutputData::SETaggedGazeIntersection(v), end)),
        },
        SEOutputDataId::SELeftClosestWorldIntersection => match parse_world_intersection(i, pos) {
            Err(e) => Err(e),
            Ok((v, end)) => Ok((SEOutputData::SELeftClosestWorldIntersection(v), end)),
        },
        SEOutputDataId::SELeftAllWorldIntersections => match parse_world_intersections(i, pos) {
            Err(e) => Err(e),
            Ok((v, end)) => Ok((SEOutputData::SELeftAllWorldIntersections(v), end)),
        },
        SEOutputDataId::SERightClosestWorldIntersection => match parse_world_intersection(i, pos) {
            Err(e) => Err(e),
            Ok((v, end)) => Ok((SEOutputData::SERightClosestWorldIntersection(v), end)),
        },
        SEOutputDataId::SERightAllWorldIntersections => match parse_world_intersections(i, pos) {
            Err(e) => Err(e),
            Ok((v, end)) => Ok((SEOutputData::SERightAllWorldIntersections(v), end)),
        },
        SEOutputDataId::SEFilteredLeftClosestWorldIntersection => match parse_world_intersection(i, pos) {
            Err(e) => Err(e),
            Ok((v, end)) => Ok((SEOutputData::SEFilteredLeftClosestWorldIntersection(v), end)),
        },
        SEOutputDataId::SEFilteredLeftAllWorldIntersections => match parse_world_intersections(i, pos) {
            Err(e) => Err(e),
            Ok((v, end)) => Ok((SEOutputData::SEFilteredLeftAllWorldIntersections(v), end)),
        },
        SEOutputDataId::SEFilteredRightClosestWorldIntersection => match parse_world_intersection(i, pos) {
            Err(e) => Err(e),
            Ok((v, end)) => Ok((SEOutputData::SEFilteredRightClosestWorldIntersection(v), end)),
        },
        SEOutputDataId::SEFilteredRightAllWorldIntersections => match parse_world_intersections(i, pos) {
            Err(e) => Err(e),
            Ok((v, end)) => Ok((SEOutputData::SEFilteredRightAllWorldIntersections(v), end)),
        },
        SEOutputDataId::SEEstimatedLeftClosestWorldIntersection => match parse_world_intersection(i, pos) {
            Err(e) => Err(e),
            Ok((v, end)) => Ok((SEOutputData::SEEstimatedLeftClosestWorldIntersection(v), end)),
        },
        SEOutputDataId::SEEstimatedLeftAllWorldIntersections => match parse_world_intersections(i, pos) {
            Err(e) => Err(e),
            Ok((v, end)) => Ok((SEOutputData::SEEstimatedLeftAllWorldIntersections(v), end)),
        },
        SEOutputDataId::SEEstimatedRightClosestWorldIntersection => match parse_world_intersection(i, pos) {
            Err(e) => Err(e),
            Ok((v, end)) => Ok((SEOutputData::SEEstimatedRightClosestWorldIntersection(v), end)),
        },
        SEOutputDataId::SEEstimatedRightAllWorldIntersections => match parse_world_intersections(i, pos) {
            Err(e) => Err(e),
            Ok((v, end)) => Ok((SEOutputData::SEEstimatedRightAllWorldIntersections(v), end)),
        },
        SEOutputDataId::SEFilteredEstimatedClosestWorldIntersection => match parse_world_intersection(i, pos) {
            Err(e) => Err(e),
            Ok((v, end)) => Ok((SEOutputData::SEFilteredEstimatedClosestWorldIntersection(v), end)),
        },
        SEOutputDataId::SEFilteredEstimatedAllWorldIntersections => match parse_world_intersections(i, pos) {
            Err(e) => Err(e),
            Ok((v, end)) => Ok((SEOutputData::SEFilteredEstimatedAllWorldIntersections(v), end)),
        },
        SEOutputDataId::SEFilteredEstimatedLeftClosestWorldIntersection => match parse_world_intersection(i, pos) {
            Err(e) => Err(e),
            Ok((v, end)) => Ok((SEOutputData::SEFilteredEstimatedLeftClosestWorldIntersection(v), end)),
        },
        SEOutputDataId::SEFilteredEstimatedLeftAllWorldIntersections => match parse_world_intersections(i, pos) {
            Err(e) => Err(e),
            Ok((v, end)) => Ok((SEOutputData::SEFilteredEstimatedLeftAllWorldIntersections(v), end)),
        },
        SEOutputDataId::SEFilteredEstimatedRightClosestWorldIntersection => match parse_world_intersection(i, pos) {
            Err(e) => Err(e),
            Ok((v, end)) => Ok((SEOutputData::SEFilteredEstimatedRightClosestWorldIntersection(v), end)),
        },
        _ => Err(DecodeError::UnknownField),
    }
}

/// Decodes the payloads of one span of the field-id table.
#[verifier::rlimit(100)]
fn parse_field_group_f(id: SEOutputDataId, i: &[u8], pos: usize) -> (r: Result<
    (SEOutputData, usize),
    DecodeError,
>)
    requires
        matches!(id, SEOutputDataId::SEFilteredEstimatedRightAllWorldIntersections | SEOutputDataId::SEEyelidOpening | SEOutputDataId::SEEyelidOpeningQ | SEOutputDataId::SELeftEyelidOpening | SEOutputDataId::SELeftEyelidOpeningQ | SEOutputDataId::SERightEyelidOpening | SEOutputDataId::SERightEyelidOpeningQ | SEOutputDataId::SELeftLowerEyelidExtremePoint | SEOutputDataId::SELeftUpperEyelidExtremePoint | SEOutputDataId::SERightLowerEyelidExtremePoint | SEOutputDataId::SERightUpperEyelidExtremePoint | SEOutputDataId::SELeftEyelidState | SEOutputDataId::SERightEyelidState | SEOutputDataId::SEPupilDiameter | SEOutputDataId::SEPupilDiameterQ | SEOutputDataId::SELeftPupilDiameter | SEOutputDataId::SELeftPupilDiameterQ | SEOutputDataId::SERightPupilDiameter | SEOutputDataId::SERightPupilDiameterQ | SEOutputDataId::SEFilteredPupilDiameter),
    ensures
        res_field(r) == spec_parse_field(id, i@, pos as int),
{
    proof {
        reveal(spec_parse_field);
    }
    match id {
        SEOutputDataId::SEFilteredEstimatedRightAllWorldIntersections => match parse_world_intersections(i, pos) {
            Err(e) => Err(e),
            Ok((v, end)) => Ok((SEOutputData::SEFilteredEstimatedRightAllWorldIntersections(v), end)),
        },
        SEOutputDataId::SEEyelidOpening => match parse_f64(i, pos) {
            Err(e) => Err(e),
            Ok((v, end)) => Ok((SEOutputData::SEEyelidOpening(v), end)),
        },
        SEOutputDataId::SEEyelidOpeningQ => match parse_f64(i, pos) {
            Err(e) => Err(e),
            Ok((v, end)) => Ok((SEOutputData::SEEyelidOpeningQ(v), end)),
        },
        SEOutputDataId::SELeftEyelidOpening => match parse_f64(i, pos) {
            Err(e) => Err(e),
            Ok((v, end)) => Ok((SEOutputData::SELeftEyelidOpening(v), end)),
        },
        SEOutputDataId::SELeftEyelidOpeningQ => match parse_f64(i, pos) {
            Err(e) => Err(e),
            Ok((v, end)) => Ok((SEOutputData::SELeftEyelidOpeningQ(v), end)),
        },
        SEOutputDataId::SERightEyelidOpening => match parse_f64(i, pos) {
            Err(e) => Err(e),
            Ok((v, end)) => Ok((SEOutputData::SERightEyelidOpening(v), end)),
        },
        SEOutputDataId::SERightEyelidOpeningQ => match parse_f64(i, pos) {
            Err(e) => Err(e),
            Ok((v, end)) => Ok((SEOutputData::SERightEyelidOpeningQ(v), end)),
        },
        SEOutputDataId::SELeftLowerEyelidExtremePoint => match parse_point_3d(i, pos) {
            Err(e) => Err(e),
            Ok((v, end)) => Ok((SEOutputData::SELeftLowerEyelidExtremePoint(v), end)),
        },
        SEOutputDataId::SELeftUpperEyelidExtremePoint => match parse_point_3d(i, pos) {
            Err(e) => Err(e),
            Ok((v, end)) => Ok((SEOutputData::SELeftUpperEyelidExtremePoint(v), end)),
        },
        SEOutputDataId::SERightLowerEyelidExtremePoint => match parse_point_3d(i, pos) {
            Err(e) => Err(e),
            Ok((v, end)) => Ok((SEOutputData::SERightLowerEyelidExtremePoint(v), end)),
        },
        SEOutputDataId::SERightUpperEyelidExtremePoint => match parse_point_3d(i, pos) {
            Err(e) => Err(e),
            Ok((v, end)) => Ok((SEOutputData::SERightUpperEyelidExtremePoint(v), end)),
        },
        SEOutputDataId::SELeftEyelidState => match parse_u8(i, pos) {
            Err(e) => Err(e),
            Ok((v, end)) => Ok((SEOutputData::SELeftEyelidState(v), end)),
        },
        SEOutputDataId::SERightEyelidState => match parse_u8(i, pos) {
            Err(e) => Err(e),
            Ok((v, end)) => Ok((SEOutputData::SERightEyelidState(v), end)),
        },
        SEOutputDataId::SEPupilDiameter => match parse_f64(i, pos) {
            Err(e) => Err(e),
            Ok((v, end)) => Ok((SEOutputData::SEPupilDiameter(v), end)),
        },
        SEOutputDataId::SEPupilDiameterQ => match parse_f64(i, pos) {
            Err(e) => Err(e),
            Ok((v, end)) => Ok((SEOutputData::SEPupilDiameterQ(v), end)),
        },
        SEOutputDataId::SELeftPupilDiameter => match parse_f64(i, pos) {
            Err(e) => Err(e),
            Ok((v, end)) => Ok((SEOutputData::SELeftPupilDiameter(v), end)),
        },
        SEOutputDataId::SELeftPupilDiameterQ => match parse_f64(i, pos) {
            Err(e) => Err(e),
            Ok((v, end)) => Ok((SEOutputData::SELeftPupilDiameterQ(v), end)),
        },
        SEOutputDataId::SERightPupilDiameter => match parse_f64(i, pos) {
            Err(e) => Err(e),
            Ok((v, end)) => Ok((SEOutputData::SERightPupilDiameter(v), end)),
        },
        SEOutputDataId::SERightPupilDiameterQ => match parse_f64(i, pos) {
            Err(e) => Err(e),
            Ok((v, end)) => Ok((SEOutputData::SERightPupilDiameterQ(v), end)),
        },
        SEOutputDataId::SEFilteredPupilDiameter => match parse_f64(i, pos) {
            Err(e) => Err(e),
            Ok((v, end)) => Ok((SEOutputData::SEFilteredPupilDiameter(v), end)),
        },
        _ => Err(DecodeError::UnknownField),
    }
}

/// Decodes the payloads of one span of the field-id table.
#[verifier::rlimit(100)]
fn parse_field_group_g(id: SEOutputDataId, i: &[u8], pos: usize) -> (r: Result<
    (SEOutputData, usize),
    DecodeError,
>)
    requires
        matches!(id, SEOutputDataId::SEFilteredPupilDiameterQ | SEOutputDataId::SEFilteredLeftPupilDiameter | SEOutputDataId::SEFilteredLeftPupilDiameterQ | SEOutputDataId::SEFilteredRightPupilDiameter | SEOutputDataId::SEFilteredRightPupilDiameterQ | SEOutputDataId::SEGPSPosition | SEOutputDataId::SEGPSGroundSpeed | SEOutputDataId::SEGPSCourse | SEOutputDataId::SEGPSTime | SEOutputDataId::SEEstimatedGazeOrigin | SEOutputDataId::SEEstimatedLeftGazeOrigin | SEOutputDataId::SEEstimatedRightGazeOrigin | SEOutputDataId::SEEstimatedEyePosition | SEOutputDataId::SEEstimatedGazeDirection | SEOutputDataId::SEEstimatedGazeDirectionQ | SEOutputDataId::SEEstimatedGazeHeading | SEOutputDataId::SEEstimatedGazePitch | SEOutputDataId::SEEstimatedLeftEyePosition | SEOutputDataId::SEEstimatedLeftGazeDirection | SEOutputDataId::SEEstimatedLeftGazeDirectionQ),
    ensures
        res_field(r) == spec_parse_field(id, i@, pos as int),
{
    proof {
        reveal(spec_parse_field);
    }
    match id {
        SEOutputDataId::SEFilteredPupilDiameterQ => match parse_f64(i, pos) {
            Err(e) => Err(e),
            Ok((v, end)) => Ok((SEOutputData::SEFilteredPupilDiameterQ(v), end)),
        },
        SEOutputDataId::SEFilteredLeftPupilDiameter => match parse_f64(i, pos) {
            Err(e) => Err(e),
            Ok((v, end)) => Ok((SEOutputData::SEFilteredLeftPupilDiameter(v), end)),
        },
        SEOutputDataId::SEFilteredLeftPupilDiameterQ => match parse_f64(i, pos) {
            Err(e) => Err(e),
            Ok((v, end)) => Ok((SEOutputData::SEFilteredLeftPupilDiameterQ(v), end)),
        },
        SEOutputDataId::SEFilteredRightPupilDiameter => match parse_f64(i, pos) {
            Err(e) => Err(e),
            Ok((v, end)) => Ok((SEOutputData::SEFilteredRightPupilDiameter(v), end)),
        },
        SEOutputDataId::SEFilteredRightPupilDiameterQ => match parse_f64(i, pos) {
            Err(e) => Err(e),
            Ok((v, end)) => Ok((SEOutputData::SEFilteredRightPupilDiameterQ(v), end)),
        },
        SEOutputDataId::SEGPSPosition => match parse_point_2d(i, pos) {
            Err(e) => Err(e),
            Ok((v, end)) => Ok((SEOutputData::SEGPSPosition(v), end)),
        },
        SEOutputDataId::SEGPSGroundSpeed => match parse_f64(i, pos) {
            Err(e) => Err(e),
            Ok((v, end)) => Ok((SEOutputData::SEGPSGroundSpeed(v), end)),
        },
        SEOutputDataId::SEGPSCourse => match parse_f64(i, pos) {
            Err(e) => Err(e),
            Ok((v, end)) => Ok((SEOutputData::SEGPSCourse(v), end)),
        },
        SEOutputDataId::SEGPSTime => match parse_u64(i, pos) {
            Err(e) => Err(e),
            Ok((v, end)) => Ok((SEOutputData::SEGPSTime(v), end)),
        },
        SEOutputDataId::SEEstimatedGazeOrigin => match parse_point_3d(i, pos) {
            Err(e) => Err(e),
            Ok((v, end)) => Ok((SEOutputData::SEEstimatedGazeOrigin(v), end)),
        },
        SEOutputDataId::SEEstimatedLeftGazeOrigin => match parse_point_3d(i, pos) {
            Err(e) => Err(e),
            Ok((v, end)) => Ok((SEOutputData::SEEstimatedLeftGazeOrigin(v), end)),
        },
        SEOutputDataId::SEEstimatedRightGazeOrigin => match parse_point_3d(i, pos) {
            Err(e) => Err(e),
            Ok((v, end)) => Ok((SEOutputData::SEEstimatedRightGazeOrigin(v), end)),
        },
        SEOutputDataId::SEEstimatedEyePosition => match parse_point_3d(i, pos) {
            Err(e) => Err(e),
            Ok((v, end)) => Ok((SEOutputData::SEEstimatedEyePosition(v), end)),
        },
        SEOutputDataId::SEEstimatedGazeDirection => match parse_vect_3d(i, pos) {
            Err(e) => Err(e),
            Ok((v, end)) => Ok((SEOutputData::SEEstimatedGazeDirection(v), end)),
        },
        SEOutputDataId::SEEstimatedGazeDirectionQ => match parse_f64(i, pos) {
            Err(e) => Err(e),
            Ok((v, end)) => Ok((SEOutputData::SEEstimatedGazeDirectionQ(v), end)),
        },
        SEOutputDataId::SEEstimatedGazeHeading => match parse_f64(i, pos) {
            Err(e) => Err(e),
            Ok((v, end)) => Ok((SEOutputData::SEEstimatedGazeHeading(v), end)),
        },
        SEOutputDataId::SEEstimatedGazePitch => match parse_f64(i, pos) {
            Err(e) => Err(e),
            Ok((v, end)) => Ok((SEOutputData::SEEstimatedGazePitch(v), end)),
        },
        SEOutputDataId::SEEstimatedLeftEyePosition => match parse_point_3d(i, pos) {
            Err(e) => Err(e),
            Ok((v, end)) => Ok((SEOutputData::SEEstimatedLeftEyePosition(v), end)),
        },
        SEOutputDataId::SEEstimatedLeftGazeDirection => match parse_vect_3d(i, pos) {
            Err(e) => Err(e),
            Ok((v, end)) => Ok((SEOutputData::SEEstimatedLeftGazeDirection(v), end)),
        },
        SEOutputDataId::SEEstimatedLeftGazeDirectionQ => match parse_f64(i, pos) {
            Err(e) => Err(e),
            Ok((v, end)) => Ok((SEOutputData::SEEstimatedLeftGazeDirectionQ(v), end)),
        },
        _ => Err(DecodeError::UnknownField),
    }
}

/// Decodes the payloads of one span of the field-id table.
#[verifier::rlimit(100)]
fn parse_field_group_h(id: SEOutputDataId, i: &[u8], pos: usize) -> (r: Result<
    (SEOutputData, usize),
    DecodeError,
>)
    requires
        matches!(id, SEOutputDataId::SEEstimatedLeftGazeHeading | SEOutputDataId::SEEstimatedLeftGazePitch | SEOutputDataId::SEEstimatedRightEyePosition | SEOutputDataId::SEEstimatedRightGazeDirection | SEOutputDataId::SEEstimatedRightGazeDirectionQ | SEOutputDataId::SEEstimatedRightGazeHeading | SEOutputDataId::SEEstimatedRightGazePitch | SEOutputDataId::SEFilteredEstimatedGazeDirection | SEOutputDataId::SEFilteredEstimatedGazeDirectionQ | SEOutputDataId::SEFilteredEstimatedGazeHeading | SEOutputDataId::SEFilteredEstimatedGazePitch | SEOutputDataId::SEFilteredEstimatedLeftGazeDirection | SEOutputDataId::SEFilteredEstimatedLeftGazeDirectionQ | SEOutputDataId::SEFilteredEstimatedLeftGazeHeading | SEOutputDataId::SEFilteredEstimatedLeftGazePitch | SEOutputDataId::SEFilteredEstimatedRightGazeDirection | SEOutputDataId::SEFilteredEstimatedRightGazeDirectionQ | SEOutputDataId::SEFilteredEstimatedRightGazeHeading | SEOutputDataId::SEFilteredEstimatedRightGazePitch),
    ensures
        res_field(r) == spec_parse_field(id, i@, pos as int),
{
    proof {
        reveal(spec_parse_field);
    }
    match id {
        SEOutputDataId::SEEstimatedLeftGazeHeading => match parse_f64(i, pos) {
            Err(e) => Err(e),
            Ok((v, end)) => Ok((SEOutputData::SEEstimatedLeftGazeHeading(v), end)),
        },
        SEOutputDataId::SEEstimatedLeftGazePitch => match parse_f64(i, pos) {
            Err(e) => Err(e),
            Ok((v, end)) => Ok((SEOutputData::SEEstimatedLeftGazePitch(v), end)),
        },
        SEOutputDataId::SEEstimatedRightEyePosition => match parse_point_3d(i, pos) {
            Err(e) => Err(e),
            Ok((v, end)) => Ok((SEOutputData::SEEstimatedRightEyePosition(v), end)),
        },
        SEOutputDataId::SEEstimatedRightGazeDirection => match parse_vect_3d(i, pos) {
            Err(e) => Err(e),
            Ok((v, end)) => Ok((SEOutputData::SEEstimatedRightGazeDirection(v), end)),
        },
        SEOutputDataId::SEEstimatedRightGazeDirectionQ => match parse_f64(i, pos) {
            Err(e) => Err(e),
            Ok((v, end)) => Ok((SEOutputData::SEEstimatedRightGazeDirectionQ(v), end)),
        },
        SEOutputDataId::SEEstimatedRightGazeHeading => match parse_f64(i, pos) {
            Err(e) => Err(e),
            Ok((v, end)) => Ok((SEOutputData::SEEstimatedRightGazeHeading(v), end)),
        },
        SEOutputDataId::SEEstimatedRightGazePitch => match parse_f64(i, pos) {
            Err(e) => Err(e),
            Ok((v, end)) => Ok((SEOutputData::SEEstimatedRightGazePitch(v), end)),
        },
        SEOutputDataId::SEFilteredEstimatedGazeDirection => match parse_vect_3d(i, pos) {
            Err(e) => Err(e),
            Ok((v, end)) => Ok((SEOutputData::SEFilteredEstimatedGazeDirection(v), end)),
        },
        SEOutputDataId::SEFilteredEstimatedGazeDirectionQ => match parse_f64(i, pos) {
            Err(e) => Err(e),
            Ok((v, end)) => Ok((SEOutputData::SEFilteredEstimatedGazeDirectionQ(v), end)),
        },
        SEOutputDataId::SEFilteredEstimatedGazeHeading => match parse_f64(i, pos) {
            Err(e) => Err(e),
            Ok((v, end)) => Ok((SEOutputData::SEFilteredEstimatedGazeHeading(v), end)),
        },
        SEOutputDataId::SEFilteredEstimatedGazePitch => match parse_f64(i, pos) {
            Err(e) => Err(e),
            Ok((v, end)) => Ok((SEOutputData::SEFilteredEstimatedGazePitch(v), end)),
        },
        SEOutputDataId::SEFilteredEstimatedLeftGazeDirection => match parse_vect_3d(i, pos) {
            Err(e) => Err(e),
            Ok((v, end)) => Ok((SEOutputData::SEFilteredEstimatedLeftGazeDirection(v), end)),
        },
        SEOutputDataId::SEFilteredEstimatedLeftGazeDirectionQ => match parse_f64(i, pos) {
            Err(e) => Err(e),
            Ok((v, end)) => Ok((SEOutputData::SEFilteredEstimatedLeftGazeDirectionQ(v), end)),
        },
        SEOutputDataId::SEFilteredEstimatedLeftGazeHeading => match parse_f64(i, pos) {
            Err(e) => Err(e),
            Ok((v, end)) => Ok((SEOutputData::SEFilteredEstimatedLeftGazeHeading(v), end)),
        },
        SEOutputDataId::SEFilteredEstimatedLeftGazePitch => match parse_f64(i, pos) {
            Err(e) => Err(e),
            Ok((v, end)) => Ok((SEOutputData::SEFilteredEstimatedLeftGazePitch(v), end)),
        },
        SEOutputDataId::SEFilteredEstimatedRightGazeDirection => match parse_vect_3d(i, pos) {
            Err(e) => Err(e),
            Ok((v, end)) => Ok((SEOutputData::SEFilteredEstimatedRightGazeDirection(v), end)),
        },
        SEOutputDataId::SEFilteredEstimatedRightGazeDirectionQ => match parse_f64(i, pos) {
            Err(e) => Err(e),
            Ok((v, end)) => Ok((SEOutputData::SEFilteredEstimatedRightGazeDirectionQ(v), end)),
        },
        SEOutputDataId::SEFilteredEstimatedRightGazeHeading => match parse_f64(i, pos) {
            Err(e) => Err(e),
            Ok((v, end)) => Ok((SEOutputData::SEFilteredEstimatedRightGazeHeading(v), end)),
        },
        SEOutputDataId::SEFilteredEstimatedRightGazePitch => match parse_f64(i, pos) {
            Err(e) => Err(e),
            Ok((v, end)) => Ok((SEOutputData::SEFilteredEstimatedRightGazePitch(v), end)),
        },
        _ => Err(DecodeError::UnknownField),
    }
}

/// Decodes one field's payload by the rule its id fixes in the dispatch
/// table; reserved ids fail with `NotImplemented`.
pub fn parse_sub_packet_data(id: SEOutputDataId, i: &[u8], pos: usize) -> (r: Result<
    (SEOutputData, usize),
    DecodeError,
>)
    ensures
        res_field(r) == spec_parse_field(id, i@, pos as int),
{
    match id {
        SEOutputDataId::SEFrameNumber | SEOutputDataId::SEEstimatedDelay | SEOutputDataId::SETimeStamp | SEOutputDataId::SEUserTimeStamp | SEOutputDataId::SEFrameRate | SEOutputDataId::SECameraPositions | SEOutputDataId::SECameraRotations | SEOutputDataId::SEUserDefinedData | SEOutputDataId::SERealTimeClock | SEOutputDataId::SEKeyboardState | SEOutputDataId::SEASCIIKeyboardState | SEOutputDataId::SEUserMarker | SEOutputDataId::SECameraClocks | SEOutputDataId::SEHeadPosition | SEOutputDataId::SEHeadPositionQ | SEOutputDataId::SEHeadRotationRodrigues | SEOutputDataId::SEHeadRotationQuaternion | SEOutputDataId::SEHeadLeftEarDirection | SEOutputDataId::SEHeadUpDirection | SEOutputDataId::SEHeadNoseDirection => parse_field_group_a(id, i, pos),
        SEOutputDataId::SEHeadHeading | SEOutputDataId::SEHeadPitch | SEOutputDataId::SEHeadRoll | SEOutputDataId::SEHeadRotationQ | SEOutputDataId::SEGazeOrigin | SEOutputDataId::SELeftGazeOrigin | SEOutputDataId::SERightGazeOrigin | SEOutputDataId::SEEyePosition | SEOutputDataId::SEGazeDirection | SEOutputDataId::SEGazeDirectionQ | SEOutputDataId::SELeftEyePosition | SEOutputDataId::SELeftGazeDirection | SEOutputDataId::SELeftGazeDirectionQ | SEOutputDataId::SERightEyePosition | SEOutputDataId::SERightGazeDirection | SEOutputDataId::SERightGazeDirectionQ | SEOutputDataId::SEGazeHeading | SEOutputDataId::SEGazePitch | SEOutputDataId::SELeftGazeHeading | SEOutputDataId::SELeftGazePitch => parse_field_group_b(id, i, pos),
        SEOutputDataId::SERightGazeHeading | SEOutputDataId::SERightGazePitch | SEOutputDataId::SEFilteredGazeDirection | SEOutputDataId::SEFilteredGazeDirectionQ | SEOutputDataId::SEFilteredLeftGazeDirection | SEOutputDataId::SEFilteredLeftGazeDirectionQ | SEOutputDataId::SEFilteredRightGazeDirection | SEOutputDataId::SEFilteredRightGazeDirectionQ | SEOutputDataId::SEFilteredGazeHeading | SEOutputDataId::SEFilteredGazePitch | SEOutputDataId::SEFilteredLeftGazeHeading | SEOutputDataId::SEFilteredLeftGazePitch | SEOutputDataId::SEFilteredRightGazeHeading | SEOutputDataId::SEFilteredRightGazePitch | SEOutputDataId::SESaccade | SEOutputDataId::SEFixation | SEOutputDataId::SEBlink | SEOutputDataId::SETrackingState | SEOutputDataId::SEEyeglassesStatus | SEOutputDataId::SEReflexReductionStateDEPRECATED => parse_field_group_c(id, i, pos),
        SEOutputDataId::SELeftBlinkClosingMidTime | SEOutputDataId::SELeftBlinkOpeningMidTime | SEOutputDataId::SELeftBlinkClosingAmplitude | SEOutputDataId::SELeftBlinkOpeningAmplitude | SEOutputDataId::SELeftBlinkClosingSpeed | SEOutputDataId::SELeftBlinkOpeningSpeed | SEOutputDataId::SERightBlinkClosingMidTime | SEOutputDataId::SERightBlinkOpeningMidTime | SEOutputDataId::SERightBlinkClosingAmplitude | SEOutputDataId::SERightBlinkOpeningAmplitude | SEOutputDataId::SERightBlinkClosingSpeed | SEOutputDataId::SERightBlinkOpeningSpeed | SEOutputDataId::SEClosestWorldIntersection | SEOutputDataId::SEFilteredClosestWorldIntersection | SEOutputDataId::SEAllWorldIntersections | SEOutputDataId::SEFilteredAllWorldIntersections | SEOutputDataId::SEZoneId | SEOutputDataId::SEEstimatedClosestWorldIntersection | SEOutputDataId::SEEstimatedAllWorldIntersections | SEOutputDataId::SEHeadClosestWorldIntersection => parse_field_group_d(id, i, pos),
        SEOutputDataId::SEHeadAllWorldIntersections | SEOutputDataId::SECalibrationGazeIntersection | SEOutputDataId::SETaggedGazeIntersection | SEOutputDataId::SELeftClosestWorldIntersection | SEOutputDataId::SELeftAllWorldIntersections | SEOutputDataId::SERightClosestWorldIntersection | SEOutputDataId::SERightAllWorldIntersections | SEOutputDataId::SEFilteredLeftClosestWorldIntersection | SEOutputDataId::SEFilteredLeftAllWorldIntersections | SEOutputDataId::SEFilteredRightClosestWorldIntersection | SEOutputDataId::SEFilteredRightAllWorldIntersections | SEOutputDataId::SEEstimatedLeftClosestWorldIntersection | SEOutputDataId::SEEstimatedLeftAllWorldIntersections | SEOutputDataId::SEEstimatedRightClosestWorldIntersection | SEOutputDataId::SEEstimatedRightAllWorldIntersections | SEOutputDataId::SEFilteredEstimatedClosestWorldIntersection | SEOutputDataId::SEFilteredEstimatedAllWorldIntersections | SEOutputDataId::SEFilteredEstimatedLeftClosestWorldIntersection | SEOutputDataId::SEFilteredEstimatedLeftAllWorldIntersections | SEOutputDataId::SEFilteredEstimatedRightClosestWorldIntersection => parse_field_group_e(id, i, pos),
        SEOutputDataId::SEFilteredEstimatedRightAllWorldIntersections | SEOutputDataId::SEEyelidOpening | SEOutputDataId::SEEyelidOpeningQ | SEOutputDataId::SELeftEyelidOpening | SEOutputDataId::SELeftEyelidOpeningQ | SEOutputDataId::SERightEyelidOpening | SEOutputDataId::SERightEyelidOpeningQ | SEOutputDataId::SELeftLowerEyelidExtremePoint | SEOutputDataId::SELeftUpperEyelidExtremePoint | SEOutputDataId::SERightLowerEyelidExtremePoint | SEOutputDataId::SERightUpperEyelidExtremePoint | SEOutputDataId::SELeftEyelidState | SEOutputDataId::SERightEyelidState | SEOutputDataId::SEPupilDiameter | SEOutputDataId::SEPupilDiameterQ | SEOutputDataId::SELeftPupilDiameter | SEOutputDataId::SELeftPupilDiameterQ | SEOutputDataId::SERightPupilDiameter | SEOutputDataId::SERightPupilDiameterQ | SEOutputDataId::SEFilteredPupilDiameter => parse_field_group_f(id, i, pos),
        SEOutputDataId::SEFilteredPupilDiameterQ | SEOutputDataId::SEFilteredLeftPupilDiameter | SEOutputDataId::SEFilteredLeftPupilDiameterQ | SEOutputDataId::SEFilteredRightPupilDiameter | SEOutputDataId::SEFilteredRightPupilDiameterQ | SEOutputDataId::SEGPSPosition | SEOutputDataId::SEGPSGroundSpeed | SEOutputDataId::SEGPSCourse | SEOutputDataId::SEGPSTime | SEOutputDataId::SEEstimatedGazeOrigin | SEOutputDataId::SEEstimatedLeftGazeOrigin | SEOutputDataId::SEEstimatedRightGazeOrigin | SEOutputDataId::SEEstimatedEyePosition | SEOutputDataId::SEEstimatedGazeDirection | SEOutputDataId::SEEstimatedGazeDirectionQ | SEOutputDataId::SEEstimatedGazeHeading | SEOutputDataId::SEEstimatedGazePitch | SEOutputDataId::SEEstimatedLeftEyePosition | SEOutputDataId::SEEstimatedLeftGazeDirection | SEOutputDataId::SEEstimatedLeftGazeDirectionQ => parse_field_group_g(id, i, pos),
        SEOutputDataId::SEEstimatedLeftGazeHeading | SEOutputDataId::SEEstimatedLeftGazePitch | SEOutputDataId::SEEstimatedRightEyePosition | SEOutputDataId::SEEstimatedRightGazeDirection | SEOutputDataId::SEEstimatedRightGazeDirectionQ | SEOutputDataId::SEEstimatedRightGazeHeading | SEOutputDataId::SEEstimatedRightGazePitch | SEOutputDataId::SEFilteredEstimatedGazeDirection | SEOutputDataId::SEFilteredEstimatedGazeDirectionQ | SEOutputDataId::SEFilteredEstimatedGazeHeading | SEOutputDataId::SEFilteredEstimatedGazePitch | SEOutputDataId::SEFilteredEstimatedLeftGazeDirection | SEOutputDataId::SEFilteredEstimatedLeftGazeDirectionQ | SEOutputDataId::SEFilteredEstimatedLeftGazeHeading | SEOutputDataId::SEFilteredEstimatedLeftGazePitch | SEOutputDataId::SEFilteredEstimatedRightGazeDirection | SEOutputDataId::SEFilteredEstimatedRightGazeDirectionQ | SEOutputDataId::SEFilteredEstimatedRightGazeHeading | SEOutputDataId::SEFilteredEstimatedRightGazePitch => parse_field_group_h(id, i, pos),
    }
}

/// One sub-packet: header, then exactly its declared payload, decoded in
/// full — under- or over-consumption is an error, never a partial value.
pub fn parse_sub_packet(i: &[u8], pos: usize) -> (r: Result<(SEOutputData, usize), DecodeError>)
    ensures
        res_field(r) == spec_parse_sub_packet(i@, pos as int),
{
    let (h, p) = match parse_sub_packet_header(i, pos) {
        Ok(v) => v,
        Err(e) => {
            return Err(e);
        },
    };
    let length = h.length as usize;
    if i.len() - p < length {
        return Err(DecodeError::Truncated);
    }
    let w = slice_subrange(i, p, p + length);
    match parse_sub_packet_data(h.id, w, 0) {
        Err(e) => Err(e),
        Ok((f, fe)) => {
            if fe == length {
                Ok((f, p + length))
            } else {
                Err(DecodeError::InvalidPacket)
            }
        },
    }
}

/// Decodes a packet body against its header: the declared number of body
/// bytes must be present and exactly tiled by sub-packets, else the whole
/// body is invalid.
#[verifier::rlimit(50)]
pub fn parse_packet_data(header: PacketHeader, i: &[u8]) -> (r: Result<
    Vec<SEOutputData>,
    ParseFailedError,
>)
    ensures
        match spec_parse_packet_data(header.length, i@) {
            Ok(fs) => r is Ok && fields_view(r->Ok_0@) == fs,
            Err(_) => r == Err::<Vec<SEOutputData>, ParseFailedError>(ParseFailedError {}),
        },
{
    let len = header.length as usize;
    if i.len() < len {
        return Err(ParseFailedError {});
    }
    let w = slice_subrange(i, 0, len);
    let mut fields: Vec<SEOutputData> = Vec::new();
    let mut cur: usize = 0;
    while cur != len
        invariant
            len == header.length,
            cur <= len,
            w@.len() == len,
            spec_parse_packet_data(header.length, i@) == spec_parse_sub_packets(w@, 0),
            fields_prepend(fields_view(fields@), spec_parse_sub_packets(w@, cur as int))
                == spec_parse_sub_packets(w@, 0),
        decreases len - cur,
    {
        proof {
            lemma_sub_packets_step(w@, cur as int);
        }
        match parse_sub_packet(w, cur) {
            Err(_) => {
                return Err(ParseFailedError {});
            },
            Ok((f, end)) => {
                proof {
                    lemma_fields_view_push(fields@, f);
                    let prefix = fields_view(fields@);
                    let fv = field_view(f);
                    let cur_r = spec_parse_sub_packets(w@, cur as int);
                    let tail = spec_parse_sub_packets(w@, end as int);
                    assert(cur_r == fields_prepend(seq![fv], tail));
                    if tail is Ok {
                        let fs = tail->Ok_0;
                        assert(prefix + (seq![fv] + fs) =~= prefix.push(fv) + fs);
                        assert(fields_prepend(prefix, cur_r) == fields_prepend(
                            prefix.push(fv),
                            tail,
                        ));
                    } else {
                        assert(fields_prepend(prefix, cur_r) == fields_prepend(
                            prefix.push(fv),
                            tail,
                        ));
                    }
                }
                fields.push(f);
                cur = end;
            },
        }
    }
    proof {
        assert(fields_view(fields@) + Seq::<FieldV>::empty() =~= fields_view(fields@));
    }
    Ok(fields)
}

/// Decodes one whole packet from the front of `i`: header, then body.
/// Bytes past the declared body are ignored.
pub fn parse_packet(i: &[u8]) -> (r: Result<Vec<SEOutputData>, ParseFailedError>)
    ensures
        match spec_parse_packet(i@) {
            Ok(fs) => r is Ok && fields_view(r->Ok_0@) == fs,
            Err(_) => r == Err::<Vec<SEOutputData>, ParseFailedError>(ParseFailedError {}),
        },
{
    let header = match parse_packet_header(i) {
        Ok(h) => h,
        Err(e) => {
            return Err(e);
        },
    };
    let rest = slice_subrange(i, PACKET_HEADER_SIZE, i.len());
    proof {
        assert(rest@ =~= i@.skip(8));
    }
    parse_packet_data(header, rest)
}

/// A sub-packet that declares more payload than remains, or whose
/// decoder consumes a different count than declared, invalidates the
/// whole body run: no partial packet comes out of it.
pub proof fn lemma_sub_packet_all_or_nothing(b: Seq<u8>, pos: int, h: SubPacketHeader, p: int)
    requires
        0 <= pos < b.len(),
        spec_parse_sub_packet_header(b, pos) == Ok::<(SubPacketHeader, int), DecodeError>((h, p)),
    ensures
        p + h.length > b.len() ==> spec_parse_sub_packets(b, pos) == Err::<
            Seq<FieldV>,
            DecodeError,
        >(DecodeError::Truncated),
        (p + h.length <= b.len() && (spec_parse_field(h.id, b.subrange(p, p + h.length), 0)
            matches Ok((f, fe)) && fe != h.length)) ==> spec_parse_sub_packets(b, pos) == Err::<
            Seq<FieldV>,
            DecodeError,
        >(DecodeError::InvalidPacket),
{
}

/// A sub-packet run reads the same at any offset past a fixed prefix.
proof fn lemma_sub_packets_shift(prefix: Seq<u8>, rest: Seq<u8>, pos: int)
    requires
        0 <= pos <= rest.len(),
    ensures
        spec_parse_sub_packets(prefix + rest, prefix.len() + pos) == spec_parse_sub_packets(
            rest,
            pos,
        ),
    decreases rest.len() - pos,
{
    let s = prefix + rest;
    let q = prefix.len() + pos;
    if pos == rest.len() {
    } else {
        if pos + 2 <= rest.len() {
            assert(s[q] == rest[pos]);
            assert(s[q + 1] == rest[pos + 1]);
        }
        if pos + 4 <= rest.len() {
            assert(s[q + 2] == rest[pos + 2]);
            assert(s[q + 3] == rest[pos + 3]);
        }
        match spec_parse_sub_packet_header(rest, pos) {
            Err(e) => {
                assert(spec_parse_sub_packet_header(s, q) == Err::<
                    (SubPacketHeader, int),
                    DecodeError,
                >(e));
            },
            Ok((h, hp)) => {
                assert(hp == pos + 4);
                assert(spec_parse_sub_packet_header(s, q) == Ok::<
                    (SubPacketHeader, int),
                    DecodeError,
                >((h, q + 4)));
                let end = pos + 4 + h.length;
                if end <= rest.len() {
                    assert(s.subrange(q + 4, q + 4 + h.length) =~= rest.subrange(pos + 4, end));
                    lemma_sub_packets_shift(prefix, rest, end);
                }
            },
        }
    }
}

/// Whether `c` holds exactly one whole sub-packet: its header, then a
/// payload of the declared length that its field's decoder consumes in
/// full.
pub open spec fn subpacket_chunk_ok(c: Seq<u8>) -> bool {
    spec_parse_sub_packet(c, 0) matches Ok((f, end)) && end == c.len()
}

/// The field that one whole sub-packet chunk decodes to.
pub open spec fn chunk_field(c: Seq<u8>) -> FieldV {
    spec_parse_sub_packet(c, 0)->Ok_0.0
}

/// A body made of whole sub-packet chunks — their encoded lengths sum to
/// the body's — parses to exactly those fields, in chunk order.
pub proof fn lemma_body_tiling(chunks: Seq<Seq<u8>>)
    requires
        forall|i: int| 0 <= i < chunks.len() ==> subpacket_chunk_ok(#[trigger] chunks[i]),
    ensures
        spec_parse_sub_packets(chunks.flatten(), 0) == Ok::<Seq<FieldV>, DecodeError>(
            Seq::new(chunks.len(), |i: int| chunk_field(chunks[i])),
        ),
    decreases chunks.len(),
{
    let s = chunks.flatten();
    if chunks.len() == 0 {
        assert(Seq::new(0, |i: int| chunk_field(chunks[i])) =~= Seq::<FieldV>::empty());
    } else {
        let c = chunks[0];
        let restc = chunks.drop_first();
        let rest = restc.flatten();
        assert(subpacket_chunk_ok(c));
        assert(s == c + rest);
        let cr = spec_parse_sub_packet(c, 0);
        let f0 = cr->Ok_0.0;
        let end0 = cr->Ok_0.1;
        assert(end0 == c.len());
        assert(c.len() >= 4);
        assert(s.len() >= c.len());
        assert(s[0] == c[0]);
        assert(s[1] == c[1]);
        assert(s[2] == c[2]);
        assert(s[3] == c[3]);
        assert(spec_parse_sub_packet_header(s, 0) == spec_parse_sub_packet_header(c, 0));
        let h = spec_parse_sub_packet_header(c, 0)->Ok_0.0;
        assert(4 + h.length == c.len());
        assert(s.subrange(4, 4 + h.length as int) =~= c.subrange(4, 4 + h.length as int));
        assert(spec_parse_sub_packet(s, 0) == Ok::<(FieldV, int), DecodeError>((f0, c.len() as int)));
        lemma_sub_packets_step(s, 0);
        lemma_sub_packets_shift(c, rest, 0);
        assert(c + rest =~= s);
        assert(spec_parse_sub_packets(s, c.len() as int) == spec_parse_sub_packets(rest, 0));
        lemma_body_tiling(restc);
        let fs_rest = Seq::new(restc.len(), |i: int| chunk_field(restc[i]));
        assert(spec_parse_sub_packets(s, 0) == Ok::<Seq<FieldV>, DecodeError>(seq![f0] + fs_rest));
        assert(seq![f0] + fs_rest =~= Seq::new(chunks.len(), |i: int| chunk_field(chunks[i])));
    }
}

/// The 8 header bytes that declare a body of length `l`.
pub open spec fn packet_header_bytes(l: u16) -> Seq<u8> {
    seq![0x53u8, 0x45u8, 0x50u8, 0x44u8, 0x00u8, 0x04u8, (l / 0x100) as u8, (l % 0x100) as u8]
}

/// Framing round trip: a header declaring body length L, followed by
/// sub-packet chunks whose encoded lengths sum to L, parses to exactly
/// that ordered field sequence — and consumes precisely the 8 + L packet
/// bytes, whatever bytes follow them.
pub proof fn lemma_packet_frames(chunks: Seq<Seq<u8>>, trailing: Seq<u8>)
    requires
        forall|i: int| 0 <= i < chunks.len() ==> subpacket_chunk_ok(#[trigger] chunks[i]),
        chunks.flatten().len() <= 0xFFFF,
    ensures
        ({
            let body = chunks.flatten();
            let b = packet_header_bytes(body.len() as u16) + body + trailing;
            spec_parse_packet(b) == Ok::<Seq<FieldV>, DecodeError>(
                Seq::new(chunks.len(), |i: int| chunk_field(chunks[i])),
            )
        }),
{
    let body = chunks.flatten();
    let l = body.len() as u16;
    let hdr = packet_header_bytes(l);
    let b = hdr + body + trailing;
    assert(b[0] == 0x53 && b[1] == 0x45 && b[2] == 0x50 && b[3] == 0x44 && b[4] == 0x00 && b[5]
        == 0x04);
    assert(header_ok(b, 0));
    assert(b[6] == (l / 0x100) as u8 && b[7] == (l % 0x100) as u8);
    assert(header_len(b, 0) == l);
    assert(b.skip(8) =~= body + trailing);
    assert((body + trailing).subrange(0, l as int) =~= body);
    lemma_body_tiling(chunks);
}

} // verus!
