use sep_data::parser::parse_point_2d;
use sep_data::parser::parse_point_3d;
use sep_data::parser::parse_quaternion;
use sep_data::parser::parse_string;
use sep_data::parser::parse_struct;
use sep_data::parser::parse_struct_item;
use sep_data::parser::parse_user_marker;
use sep_data::parser::parse_user_marker_item;
use sep_data::parser::parse_variant;
use sep_data::parser::parse_vect_2d;
use sep_data::parser::parse_vect_3d;
use sep_data::parser::parse_vector;
use sep_data::parser::parse_vector_item;
use sep_data::parser::parse_world_intersection;
use sep_data::parser::parse_world_intersection_item;
use sep_data::parser::parse_world_intersections;
use sep_data::se_types::Point2D;
use sep_data::se_types::Point3D;
use sep_data::se_types::Quaternion;
use sep_data::se_types::SEStructItem;
use sep_data::se_types::SETypeId;
use sep_data::se_types::SEVariant;
use sep_data::se_types::UserMarker;
use sep_data::se_types::Vect2D;
use sep_data::se_types::Vect3D;
use sep_data::se_types::WorldIntersection;
use sep_data::wire::DecodeError;

#[test]
fn test_parse_point_2d() {
    let point_2d: &[u8] = &[
        0x40, 0x5E, 0xDD, 0x2F, 0x1A, 0x9F, 0xBE, 0x77, // x (123.456)
        0x3F, 0xF0, 0x00, 0x00, 0x00, 0x00, 0x00, 0x00, // y (1.0)
    ];
    assert_eq!(
        parse_point_2d(point_2d, 0),
        Ok((Point2D(123.456f64.to_bits(), 1.0f64.to_bits()), 16))
    );
}

#[test]
fn test_parse_vect_2d() {
    let vect_2d: &[u8] = &[
        0x40, 0x5E, 0xDD, 0x2F, 0x1A, 0x9F, 0xBE, 0x77, // x (123.456)
        0x3F, 0xF0, 0x00, 0x00, 0x00, 0x00, 0x00, 0x00, // y (1.0)
    ];
    assert_eq!(
        parse_vect_2d(vect_2d, 0),
        Ok((Vect2D(123.456f64.to_bits(), 1.0f64.to_bits()), 16))
    );
}

#[test]
fn test_parse_point_3d() {
    let point_3d: &[u8] = &[
        0x40, 0x5E, 0xDD, 0x2F, 0x1A, 0x9F, 0xBE, 0x77, // x (123.456)
        0x3F, 0xF0, 0x00, 0x00, 0x00, 0x00, 0x00, 0x00, // y (1.0)
        0xBF, 0xB9, 0x99, 0x99, 0x99, 0x99, 0x99, 0x9A, // z (-0.1)
    ];
    assert_eq!(
        parse_point_3d(point_3d, 0),
        Ok((
            Point3D(
                123.456f64.to_bits(),
                1.0f64.to_bits(),
                (-0.1f64).to_bits()
            ),
            24
        ))
    );
}

#[test]
fn test_parse_vect_3d() {
    let vect_3d: &[u8] = &[
        0x40, 0x5E, 0xDD, 0x2F, 0x1A, 0x9F, 0xBE, 0x77, // x (123.456)
        0x3F, 0xF0, 0x00, 0x00, 0x00, 0x00, 0x00, 0x00, // y (1.0)
        0xBF, 0xB9, 0x99, 0x99, 0x99, 0x99, 0x99, 0x9A, // z (-0.1)
    ];
    assert_eq!(
        parse_vect_3d(vect_3d, 0),
        Ok((
            Vect3D(
                123.456f64.to_bits(),
                1.0f64.to_bits(),
                (-0.1f64).to_bits()
            ),
            24
        ))
    );
}

#[test]
fn test_parse_string() {
    let string: &[u8] = &[
        0x00, 0x06, // Length
        // "AbC!?~"
        0x41, 0x62, 0x43, 0x21, 0x3F, 0x7E,
    ];
    assert_eq!(parse_string(string, 0), Ok((String::from("AbC!?~"), 8)));
}

#[test]
fn test_parse_quaternion() {
    let quaternion: &[u8] = &[
        0x40, 0xC3, 0x88, 0x00, 0x00, 0x00, 0x00, 0x00, // w (10000.0)
        0x40, 0x5E, 0xDD, 0x2F, 0x1A, 0x9F, 0xBE, 0x77, // x (123.456)
        0x3F, 0xF0, 0x00, 0x00, 0x00, 0x00, 0x00, 0x00, // y (1.0)
        0xBF, 0xB9, 0x99, 0x99, 0x99, 0x99, 0x99, 0x9A, // z (-0.1)
    ];
    assert_eq!(
        parse_quaternion(quaternion, 0),
        Ok((
            Quaternion(
                10000.0f64.to_bits(),
                123.456f64.to_bits(),
                1.0f64.to_bits(),
                (-0.1f64).to_bits()
            ),
            32
        ))
    );
}

fn world_intersection_value() -> WorldIntersection {
    WorldIntersection {
        world_point: Point3D(
            123.456f64.to_bits(),
            1.0f64.to_bits(),
            (-0.1f64).to_bits(),
        ),
        object_point: Point3D(
            5656.0f64.to_bits(),
            10.3f64.to_bits(),
            (-2.0f64).to_bits(),
        ),
        object_name: String::from("AbC!?~"),
    }
}

const WORLD_INTERSECTION_ITEM: &[u8] = &[
    0x40, 0x5E, 0xDD, 0x2F, 0x1A, 0x9F, 0xBE, 0x77, // worldPoint.x (123.456)
    0x3F, 0xF0, 0x00, 0x00, 0x00, 0x00, 0x00, 0x00, // worldPoint.y (1.0)
    0xBF, 0xB9, 0x99, 0x99, 0x99, 0x99, 0x99, 0x9A, // worldPoint.z (-0.1)
    0x40, 0xB6, 0x18, 0x00, 0x00, 0x00, 0x00, 0x00, // objectPoint.x (5656.0)
    0x40, 0x24, 0x99, 0x99, 0x99, 0x99, 0x99, 0x9A, // objectPoint.y (10.3)
    0xC0, 0x00, 0x00, 0x00, 0x00, 0x00, 0x00, 0x00, // objectPoint.z (-2.0)
    0x00, 0x06, // objectName.Length
    0x41, 0x62, 0x43, 0x21, 0x3F, 0x7E, // objectName "AbC!?~"
];

#[test]
fn test_parse_world_intersection_item() {
    assert_eq!(
        parse_world_intersection_item(WORLD_INTERSECTION_ITEM, 0),
        Ok((world_intersection_value(), 56))
    );
}

#[test]
fn test_parse_world_intersection() {
    let mut with_flag: Vec<u8> = vec![0x00, 0x01];
    with_flag.extend_from_slice(WORLD_INTERSECTION_ITEM);
    assert_eq!(
        parse_world_intersection(&with_flag, 0),
        Ok((Some(world_intersection_value()), 58))
    );

    let absent: &[u8] = &[0x00, 0x00];
    assert_eq!(parse_world_intersection(absent, 0), Ok((None, 2)));
}

#[test]
fn test_parse_world_intersections() {
    let mut with_count: Vec<u8> = vec![0x00, 0x01];
    with_count.extend_from_slice(WORLD_INTERSECTION_ITEM);
    assert_eq!(
        parse_world_intersections(&with_count, 0),
        Ok((vec![world_intersection_value()], 58))
    );

    let empty: &[u8] = &[0x00, 0x00];
    assert_eq!(parse_world_intersections(empty, 0), Ok((vec![], 2)));
}

const USER_MARKER_ITEM: &[u8] = &[
    0x00, 0x00, 0x00, 0x00, // userMarker.error (0)
    0x00, 0x00, 0x00, 0x00, 0x00, 0x00, 0x03, 0xF2, // userMarker.time_stamp (1010)
    0x00, 0x00, 0x00, 0x14, 0xF4, 0x6B, 0x04, 0x00, // userMarker.camera_clock (90000000000)
    0x02, // userMarker.camera_idx (2)
    0x00, 0x00, 0x00, 0x00, 0x00, 0x00, 0x05, 0x39, // userMarker.data (1337)
];

fn user_marker_value() -> UserMarker {
    UserMarker {
        error: 0,
        time_stamp: 1010,
        camera_clock: 90000000000,
        camera_idx: 2,
        data: 1337,
    }
}

#[test]
fn test_parse_user_marker_item() {
    assert_eq!(
        parse_user_marker_item(USER_MARKER_ITEM, 0),
        Ok((user_marker_value(), 29))
    );
}

#[test]
fn test_parse_user_marker() {
    let mut with_flag: Vec<u8> = vec![0x00, 0x01];
    with_flag.extend_from_slice(USER_MARKER_ITEM);
    assert_eq!(
        parse_user_marker(&with_flag, 0),
        Ok((Some(user_marker_value()), 31))
    );

    let absent: &[u8] = &[0x00, 0x00];
    assert_eq!(parse_user_marker(absent, 0), Ok((None, 2)));
}

#[test]
fn test_parse_variant() {
    let variant: &[u8] = &[
        0x00, 0x00, // typeId (=SEType_u8)
        0x01, // Element (=1)
    ];
    assert_eq!(parse_variant(variant, 0), Ok((SEVariant::U8(1), 3)));
}

#[test]
fn test_parse_vector_item() {
    let vector_item: &[u8] = &[
        0x00, 0x00, // typeId (=SEType_u8)
        0x01, // Element (=1)
    ];
    assert_eq!(parse_vector_item(vector_item, 0), Ok((SEVariant::U8(1), 3)));
}

#[test]
fn test_parse_vector() {
    let vector: &[u8] = &[
        0x00, 0x04, // numElements
        0x00, 0x00, // elem[0].typeId (=SEType_u8)
        0x01, // elem[0] (=1)
        0x00, 0x01, // elem[1].typeId (=SEType_u16)
        0x10, 0x01, // elem[1] (=4097)
        0x00, 0x0B, // elem[2].typeId (=SEType_Vector)
        0x00, 0x01, // elem[2].numElements
        0x00, 0x00, // elem[2].elem[0].typeId (=SEType_u8)
        0x04, // elem[2].elem[0] (=4)
        0x00, 0x0C, // elem[3].typeId (SEType_Struct)
        0x00, 0x01, // elem[3].numElements
        0x00, 0x03, // elem[3].elem[0].id.length
        0x41, 0x62, 0x43, // elem[3].elem[0].id.chars ("AbC")
        0x00, 0x01, // elem[3].elem[0].typeId (=SEType_u16)
        0x05, 0x39, // elem[3].elem[0] (=1337)
    ];
    assert_eq!(
        parse_vector(vector, 0),
        Ok((
            vec![
                SEVariant::U8(1),
                SEVariant::U16(4097),
                SEVariant::Vector(vec![SEVariant::U8(4)]),
                SEVariant::Struct(vec![SEStructItem(
                    String::from("AbC"),
                    SEVariant::U16(1337)
                )])
            ],
            vector.len()
        ))
    );
}

#[test]
fn test_parse_struct_item() {
    let struct_item: &[u8] = &[
        0x00, 0x03, // elem[0].id.length
        0x41, 0x62, 0x43, // elem[0].id.chars ("AbC")
        0x00, 0x01, // elem[0].typeId (=SEType_u16)
        0x05, 0x39, // elem[0] (=1337)
    ];
    assert_eq!(
        parse_struct_item(struct_item, 0),
        Ok((
            SEStructItem(String::from("AbC"), SEVariant::U16(1337)),
            9
        ))
    );
}

#[test]
fn test_parse_struct() {
    let s: &[u8] = &[
        0x00, 0x01, // numElements
        0x00, 0x03, // elem[0].id.length
        0x41, 0x62, 0x43, // elem[0].id.chars ("AbC")
        0x00, 0x01, // elem[0].typeId (=SEType_u16)
        0x05, 0x39, // elem[0] (=1337)
    ];
    assert_eq!(
        parse_struct(s, 0),
        Ok((
            vec![SEStructItem(String::from("AbC"), SEVariant::U16(1337))],
            11
        ))
    );
}

#[test]
fn test_type_id_closed_set() {
    assert_eq!(SETypeId::try_from(0x00), Ok(SETypeId::U8));
    assert_eq!(SETypeId::try_from(0x15), Ok(SETypeId::UserMarker));
    assert_eq!(SETypeId::try_from(0x16), Err(()));
}

#[test]
fn test_parse_variant_unknown_tag() {
    let variant: &[u8] = &[0x00, 0xFF, 0x01];
    assert_eq!(parse_variant(variant, 0), Err(DecodeError::TypeTagUnknown));
}

#[test]
fn test_parse_variant_reserved_tag() {
    // The 3x3 matrix tag is reserved and never decoded.
    let variant: &[u8] = &[0x00, 0x12, 0x01];
    assert_eq!(parse_variant(variant, 0), Err(DecodeError::NotImplemented));
}

#[test]
fn test_parse_variant_truncated() {
    let variant: &[u8] = &[0x00, 0x02, 0x01];
    assert_eq!(parse_variant(variant, 0), Err(DecodeError::Truncated));
}

#[test]
fn test_parse_string_invalid_utf8() {
    let string: &[u8] = &[0x00, 0x02, 0xC3, 0x28];
    assert_eq!(parse_string(string, 0), Err(DecodeError::InvalidEncoding));
}

#[test]
fn test_parse_string_multibyte() {
    // One two-byte UTF-8 scalar decodes to a single character.
    let string: &[u8] = &[0x00, 0x02, 0xC3, 0xA9];
    let (s, end) = parse_string(string, 0).unwrap();
    assert_eq!(s, String::from("\u{e9}"));
    assert_eq!(s.chars().count(), 1);
    assert_eq!(end, 4);
}

#[test]
fn test_presence_flag_invalid() {
    // Any presence flag other than 0 or 1 is invalid, never a crash.
    let flagged: &[u8] = &[0x00, 0x02];
    assert_eq!(
        parse_world_intersection(flagged, 0),
        Err(DecodeError::InvalidPacket)
    );
    assert_eq!(parse_user_marker(flagged, 0), Err(DecodeError::InvalidPacket));
}

#[test]
fn test_parse_variant_depth_bound() {
    // 64 nested vectors around a byte decode; 65 are rejected.
    let mut accepted: Vec<u8> = Vec::new();
    for _ in 0..64 {
        accepted.extend_from_slice(&[0x00, 0x0B, 0x00, 0x01]);
    }
    accepted.extend_from_slice(&[0x00, 0x00, 0x07]);
    assert!(parse_variant(&accepted, 0).is_ok());

    let mut rejected: Vec<u8> = Vec::new();
    for _ in 0..65 {
        rejected.extend_from_slice(&[0x00, 0x0B, 0x00, 0x01]);
    }
    rejected.extend_from_slice(&[0x00, 0x00, 0x07]);
    assert_eq!(parse_variant(&rejected, 0), Err(DecodeError::InvalidPacket));
}
