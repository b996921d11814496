//! The fixed telemetry field table: every field id, its payload type,
//! and the rule that decodes it.
//!
//! The mapping from id to payload rule is total and fixed. Ids outside the
//! closed set fail with [`DecodeError::UnknownField`] at the sub-packet
//! framer; a few ids are reserved by design and fail with
//! [`DecodeError::NotImplemented`], never silently skipped.

use vstd::prelude::*;

use crate::se_types::Point2D;
use crate::se_types::Point3D;
use crate::se_types::Quaternion;
use crate::se_types::SEVariant;
use crate::se_types::UserMarker;
use crate::se_types::VariantV;
use crate::se_types::Vect3D;
use crate::se_types::WorldIntersection;
use crate::se_types::WorldIntersectionV;
use crate::se_types::opt_wi_view;
use crate::se_types::variants_view;
use crate::se_types::wis_view;
use crate::wire::DEPTH_LIMIT;
use crate::wire::DecodeError;
use crate::wire::spec_parse_point_2d;
use crate::wire::spec_parse_vect_3d;
use crate::wire::spec_parse_point_3d;
use crate::wire::spec_parse_quaternion;
use crate::wire::spec_parse_string;
use crate::wire::spec_parse_u16;
use crate::wire::spec_parse_u32;
use crate::wire::spec_parse_u64;
use crate::wire::spec_parse_u8;
use crate::wire::spec_parse_f64;
use crate::wire::spec_parse_user_marker;
use crate::wire::spec_parse_vector;
use crate::wire::spec_parse_world_intersection;
use crate::wire::spec_parse_world_intersections;

verus! {

/// Identifier of one telemetry output field, as numbered on the wire.
#[derive(Debug, PartialEq, Eq, Structural, Clone, Copy)]
pub enum SEOutputDataId {
    SEFrameNumber,
    SEEstimatedDelay,
    SETimeStamp,
    SEUserTimeStamp,
    SEFrameRate,
    SECameraPositions,
    SECameraRotations,
    SEUserDefinedData,
    SERealTimeClock,
    SEKeyboardState,
    SEASCIIKeyboardState,
    SEUserMarker,
    SECameraClocks,
    SEHeadPosition,
    SEHeadPositionQ,
    SEHeadRotationRodrigues,
    SEHeadRotationQuaternion,
    SEHeadLeftEarDirection,
    SEHeadUpDirection,
    SEHeadNoseDirection,
    SEHeadHeading,
    SEHeadPitch,
    SEHeadRoll,
    SEHeadRotationQ,
    SEGazeOrigin,
    SELeftGazeOrigin,
    SERightGazeOrigin,
    SEEyePosition,
    SEGazeDirection,
    SEGazeDirectionQ,
    SELeftEyePosition,
    SELeftGazeDirection,
    SELeftGazeDirectionQ,
    SERightEyePosition,
    SERightGazeDirection,
    SERightGazeDirectionQ,
    SEGazeHeading,
    SEGazePitch,
    SELeftGazeHeading,
    SELeftGazePitch,
    SERightGazeHeading,
    SERightGazePitch,
    SEFilteredGazeDirection,
    SEFilteredGazeDirectionQ,
    SEFilteredLeftGazeDirection,
    SEFilteredLeftGazeDirectionQ,
    SEFilteredRightGazeDirection,
    SEFilteredRightGazeDirectionQ,
    SEFilteredGazeHeading,
    SEFilteredGazePitch,
    SEFilteredLeftGazeHeading,
    SEFilteredLeftGazePitch,
    SEFilteredRightGazeHeading,
    SEFilteredRightGazePitch,
    SESaccade,
    SEFixation,
    SEBlink,
    SETrackingState,
    SEEyeglassesStatus,
    SEReflexReductionStateDEPRECATED,
    SELeftBlinkClosingMidTime,
    SELeftBlinkOpeningMidTime,
    SELeftBlinkClosingAmplitude,
    SELeftBlinkOpeningAmplitude,
    SELeftBlinkClosingSpeed,
    SELeftBlinkOpeningSpeed,
    SERightBlinkClosingMidTime,
    SERightBlinkOpeningMidTime,
    SERightBlinkClosingAmplitude,
    SERightBlinkOpeningAmplitude,
    SERightBlinkClosingSpeed,
    SERightBlinkOpeningSpeed,
    SEClosestWorldIntersection,
    SEFilteredClosestWorldIntersection,
    SEAllWorldIntersections,
    SEFilteredAllWorldIntersections,
    SEZoneId,
    SEEstimatedClosestWorldIntersection,
    SEEstimatedAllWorldIntersections,
    SEHeadClosestWorldIntersection,
    SEHeadAllWorldIntersections,
    SECalibrationGazeIntersection,
    SETaggedGazeIntersection,
    SELeftClosestWorldIntersection,
    SELeftAllWorldIntersections,
    SERightClosestWorldIntersection,
    SERightAllWorldIntersections,
    SEFilteredLeftClosestWorldIntersection,
    SEFilteredLeftAllWorldIntersections,
    SEFilteredRightClosestWorldIntersection,
    SEFilteredRightAllWorldIntersections,
    SEEstimatedLeftClosestWorldIntersection,
    SEEstimatedLeftAllWorldIntersections,
    SEEstimatedRightClosestWorldIntersection,
    SEEstimatedRightAllWorldIntersections,
    SEFilteredEstimatedClosestWorldIntersection,
    SEFilteredEstimatedAllWorldIntersections,
    SEFilteredEstimatedLeftClosestWorldIntersection,
    SEFilteredEstimatedLeftAllWorldIntersections,
    SEFilteredEstimatedRightClosestWorldIntersection,
    SEFilteredEstimatedRightAllWorldIntersections,
    SEEyelidOpening,
    SEEyelidOpeningQ,
    SELeftEyelidOpening,
    SELeftEyelidOpeningQ,
    SERightEyelidOpening,
    SERightEyelidOpeningQ,
    SELeftLowerEyelidExtremePoint,
    SELeftUpperEyelidExtremePoint,
    SERightLowerEyelidExtremePoint,
    SERightUpperEyelidExtremePoint,
    SELeftEyelidState,
    SERightEyelidState,
    SEPupilDiameter,
    SEPupilDiameterQ,
    SELeftPupilDiameter,
    SELeftPupilDiameterQ,
    SERightPupilDiameter,
    SERightPupilDiameterQ,
    SEFilteredPupilDiameter,
    SEFilteredPupilDiameterQ,
    SEFilteredLeftPupilDiameter,
    SEFilteredLeftPupilDiameterQ,
    SEFilteredRightPupilDiameter,
    SEFilteredRightPupilDiameterQ,
    SEGPSPosition,
    SEGPSGroundSpeed,
    SEGPSCourse,
    SEGPSTime,
    SEEstimatedGazeOrigin,
    SEEstimatedLeftGazeOrigin,
    SEEstimatedRightGazeOrigin,
    SEEstimatedEyePosition,
    SEEstimatedGazeDirection,
    SEEstimatedGazeDirectionQ,
    SEEstimatedGazeHeading,
    SEEstimatedGazePitch,
    SEEstimatedLeftEyePosition,
    SEEstimatedLeftGazeDirection,
    SEEstimatedLeftGazeDirectionQ,
    SEEstimatedLeftGazeHeading,
    SEEstimatedLeftGazePitch,
    SEEstimatedRightEyePosition,
    SEEstimatedRightGazeDirection,
    SEEstimatedRightGazeDirectionQ,
    SEEstimatedRightGazeHeading,
    SEEstimatedRightGazePitch,
    SEFilteredEstimatedGazeDirection,
    SEFilteredEstimatedGazeDirectionQ,
    SEFilteredEstimatedGazeHeading,
    SEFilteredEstimatedGazePitch,
    SEFilteredEstimatedLeftGazeDirection,
    SEFilteredEstimatedLeftGazeDirectionQ,
    SEFilteredEstimatedLeftGazeHeading,
    SEFilteredEstimatedLeftGazePitch,
    SEFilteredEstimatedRightGazeDirection,
    SEFilteredEstimatedRightGazeDirectionQ,
    SEFilteredEstimatedRightGazeHeading,
    SEFilteredEstimatedRightGazePitch,
}

/// The field id that each numeric wire value stands for.
pub open spec fn data_id_of(value: u16) -> Option<SEOutputDataId> {
    if value == 1 {
        Some(SEOutputDataId::SEFrameNumber)
    } else if value == 2 {
        Some(SEOutputDataId::SEEstimatedDelay)
    } else if value == 3 {
        Some(SEOutputDataId::SETimeStamp)
    } else if value == 4 {
        Some(SEOutputDataId::SEUserTimeStamp)
    } else if value == 5 {
        Some(SEOutputDataId::SEFrameRate)
    } else if value == 6 {
        Some(SEOutputDataId::SECameraPositions)
    } else if value == 7 {
        Some(SEOutputDataId::SECameraRotations)
    } else if value == 8 {
        Some(SEOutputDataId::SEUserDefinedData)
    } else if value == 9 {
        Some(SEOutputDataId::SERealTimeClock)
    } else if value == 10 {
        Some(SEOutputDataId::SEKeyboardState)
    } else if value == 11 {
        Some(SEOutputDataId::SEASCIIKeyboardState)
    } else if value == 12 {
        Some(SEOutputDataId::SEUserMarker)
    } else if value == 13 {
        Some(SEOutputDataId::SECameraClocks)
    } else if value == 14 {
        Some(SEOutputDataId::SEHeadPosition)
    } else if value == 15 {
        Some(SEOutputDataId::SEHeadPositionQ)
    } else if value == 16 {
        Some(SEOutputDataId::SEHeadRotationRodrigues)
    } else if value == 17 {
        Some(SEOutputDataId::SEHeadRotationQuaternion)
    } else if value == 18 {
        Some(SEOutputDataId::SEHeadLeftEarDirection)
    } else if value == 19 {
        Some(SEOutputDataId::SEHeadUpDirection)
    } else if value == 20 {
        Some(SEOutputDataId::SEHeadNoseDirection)
    } else if value == 21 {
        Some(SEOutputDataId::SEHeadHeading)
    } else if value == 22 {
        Some(SEOutputDataId::SEHeadPitch)
    } else if value == 23 {
        Some(SEOutputDataId::SEHeadRoll)
    } else if value == 24 {
        Some(SEOutputDataId::SEHeadRotationQ)
    } else if value == 25 {
        Some(SEOutputDataId::SEGazeOrigin)
    } else if value == 26 {
        Some(SEOutputDataId::SELeftGazeOrigin)
    } else if value == 27 {
        Some(SEOutputDataId::SERightGazeOrigin)
    } else if value == 28 {
        Some(SEOutputDataId::SEEyePosition)
    } else if value == 29 {
        Some(SEOutputDataId::SEGazeDirection)
    } else if value == 30 {
        Some(SEOutputDataId::SEGazeDirectionQ)
    } else if value == 31 {
        Some(SEOutputDataId::SELeftEyePosition)
    } else if value == 32 {
        Some(SEOutputDataId::SELeftGazeDirection)
    } else if value == 33 {
        Some(SEOutputDataId::SELeftGazeDirectionQ)
    } else if value == 34 {
        Some(SEOutputDataId::SERightEyePosition)
    } else if value == 35 {
        Some(SEOutputDataId::SERightGazeDirection)
    } else if value == 36 {
        Some(SEOutputDataId::SERightGazeDirectionQ)
    } else if value == 37 {
        Some(SEOutputDataId::SEGazeHeading)
    } else if value == 38 {
        Some(SEOutputDataId::SEGazePitch)
    } else if value == 39 {
        Some(SEOutputDataId::SELeftGazeHeading)
    } else if value == 40 {
        Some(SEOutputDataId::SELeftGazePitch)
    } else if value == 41 {
        Some(SEOutputDataId::SERightGazeHeading)
    } else if value == 42 {
        Some(SEOutputDataId::SERightGazePitch)
    } else if value == 43 {
        Some(SEOutputDataId::SEFilteredGazeDirection)
    } else if value == 44 {
        Some(SEOutputDataId::SEFilteredGazeDirectionQ)
    } else if value == 45 {
        Some(SEOutputDataId::SEFilteredLeftGazeDirection)
    } else if value == 46 {
        Some(SEOutputDataId::SEFilteredLeftGazeDirectionQ)
    } else if value == 47 {
        Some(SEOutputDataId::SEFilteredRightGazeDirection)
    } else if value == 48 {
        Some(SEOutputDataId::SEFilteredRightGazeDirectionQ)
    } else if value == 49 {
        Some(SEOutputDataId::SEFilteredGazeHeading)
    } else if value == 50 {
        Some(SEOutputDataId::SEFilteredGazePitch)
    } else if value == 51 {
        Some(SEOutputDataId::SEFilteredLeftGazeHeading)
    } else if value == 52 {
        Some(SEOutputDataId::SEFilteredLeftGazePitch)
    } else if value == 53 {
        Some(SEOutputDataId::SEFilteredRightGazeHeading)
    } else if value == 54 {
        Some(SEOutputDataId::SEFilteredRightGazePitch)
    } else if value == 55 {
        Some(SEOutputDataId::SESaccade)
    } else if value == 56 {
        Some(SEOutputDataId::SEFixation)
    } else if value == 57 {
        Some(SEOutputDataId::SEBlink)
    } else if value == 58 {
        Some(SEOutputDataId::SETrackingState)
    } else if value == 59 {
        Some(SEOutputDataId::SEEyeglassesStatus)
    } else if value == 60 {
        Some(SEOutputDataId::SEReflexReductionStateDEPRECATED)
    } else if value == 61 {
        Some(SEOutputDataId::SELeftBlinkClosingMidTime)
    } else if value == 62 {
        Some(SEOutputDataId::SELeftBlinkOpeningMidTime)
    } else if value == 63 {
        Some(SEOutputDataId::SELeftBlinkClosingAmplitude)
    } else if value == 64 {
        Some(SEOutputDataId::SELeftBlinkOpeningAmplitude)
    } else if value == 65 {
        Some(SEOutputDataId::SELeftBlinkClosingSpeed)
    } else if value == 66 {
        Some(SEOutputDataId::SELeftBlinkOpeningSpeed)
    } else if value == 67 {
        Some(SEOutputDataId::SERightBlinkClosingMidTime)
    } else if value == 68 {
        Some(SEOutputDataId::SERightBlinkOpeningMidTime)
    } else if value == 69 {
        Some(SEOutputDataId::SERightBlinkClosingAmplitude)
    } else if value == 70 {
        Some(SEOutputDataId::SERightBlinkOpeningAmplitude)
    } else if value == 71 {
        Some(SEOutputDataId::SERightBlinkClosingSpeed)
    } else if value == 72 {
        Some(SEOutputDataId::SERightBlinkOpeningSpeed)
    } else if value == 73 {
        Some(SEOutputDataId::SEClosestWorldIntersection)
    } else if value == 74 {
        Some(SEOutputDataId::SEFilteredClosestWorldIntersection)
    } else if value == 75 {
        Some(SEOutputDataId::SEAllWorldIntersections)
    } else if value == 76 {
        Some(SEOutputDataId::SEFilteredAllWorldIntersections)
    } else if value == 77 {
        Some(SEOutputDataId::SEZoneId)
    } else if value == 78 {
        Some(SEOutputDataId::SEEstimatedClosestWorldIntersection)
    } else if value == 79 {
        Some(SEOutputDataId::SEEstimatedAllWorldIntersections)
    } else if value == 80 {
        Some(SEOutputDataId::SEHeadClosestWorldIntersection)
    } else if value == 81 {
        Some(SEOutputDataId::SEHeadAllWorldIntersections)
    } else if value == 82 {
        Some(SEOutputDataId::SECalibrationGazeIntersection)
    } else if value == 83 {
        Some(SEOutputDataId::SETaggedGazeIntersection)
    } else if value == 84 {
        Some(SEOutputDataId::SELeftClosestWorldIntersection)
    } else if value == 85 {
        Some(SEOutputDataId::SELeftAllWorldIntersections)
    } else if value == 86 {
        Some(SEOutputDataId::SERightClosestWorldIntersection)
    } else if value == 87 {
        Some(SEOutputDataId::SERightAllWorldIntersections)
    } else if value == 88 {
        Some(SEOutputDataId::SEFilteredLeftClosestWorldIntersection)
    } else if value == 89 {
        Some(SEOutputDataId::SEFilteredLeftAllWorldIntersections)
    } else if value == 90 {
        Some(SEOutputDataId::SEFilteredRightClosestWorldIntersection)
    } else if value == 91 {
        Some(SEOutputDataId::SEFilteredRightAllWorldIntersections)
    } else if value == 92 {
        Some(SEOutputDataId::SEEstimatedLeftClosestWorldIntersection)
    } else if value == 93 {
        Some(SEOutputDataId::SEEstimatedLeftAllWorldIntersections)
    } else if value == 94 {
        Some(SEOutputDataId::SEEstimatedRightClosestWorldIntersection)
    } else if value == 95 {
        Some(SEOutputDataId::SEEstimatedRightAllWorldIntersections)
    } else if value == 96 {
        Some(SEOutputDataId::SEFilteredEstimatedClosestWorldIntersection)
    } else if value == 97 {
        Some(SEOutputDataId::SEFilteredEstimatedAllWorldIntersections)
    } else if value == 98 {
        Some(SEOutputDataId::SEFilteredEstimatedLeftClosestWorldIntersection)
    } else if value == 99 {
        Some(SEOutputDataId::SEFilteredEstimatedLeftAllWorldIntersections)
    } else if value == 100 {
        Some(SEOutputDataId::SEFilteredEstimatedRightClosestWorldIntersection)
    } else if value == 101 {
        Some(SEOutputDataId::SEFilteredEstimatedRightAllWorldIntersections)
    } else if value == 102 {
        Some(SEOutputDataId::SEEyelidOpening)
    } else if value == 103 {
        Some(SEOutputDataId::SEEyelidOpeningQ)
    } else if value == 104 {
        Some(SEOutputDataId::SELeftEyelidOpening)
    } else if value == 105 {
        Some(SEOutputDataId::SELeftEyelidOpeningQ)
    } else if value == 106 {
        Some(SEOutputDataId::SERightEyelidOpening)
    } else if value == 107 {
        Some(SEOutputDataId::SERightEyelidOpeningQ)
    } else if value == 108 {
        Some(SEOutputDataId::SELeftLowerEyelidExtremePoint)
    } else if value == 109 {
        Some(SEOutputDataId::SELeftUpperEyelidExtremePoint)
    } else if value == 110 {
        Some(SEOutputDataId::SERightLowerEyelidExtremePoint)
    } else if value == 111 {
        Some(SEOutputDataId::SERightUpperEyelidExtremePoint)
    } else if value == 112 {
        Some(SEOutputDataId::SELeftEyelidState)
    } else if value == 113 {
        Some(SEOutputDataId::SERightEyelidState)
    } else if value == 114 {
        Some(SEOutputDataId::SEPupilDiameter)
    } else if value == 115 {
        Some(SEOutputDataId::SEPupilDiameterQ)
    } else if value == 116 {
        Some(SEOutputDataId::SELeftPupilDiameter)
    } else if value == 117 {
        Some(SEOutputDataId::SELeftPupilDiameterQ)
    } else if value == 118 {
        Some(SEOutputDataId::SERightPupilDiameter)
    } else if value == 119 {
        Some(SEOutputDataId::SERightPupilDiameterQ)
    } else if value == 120 {
        Some(SEOutputDataId::SEFilteredPupilDiameter)
    } else if value == 121 {
        Some(SEOutputDataId::SEFilteredPupilDiameterQ)
    } else if value == 122 {
        Some(SEOutputDataId::SEFilteredLeftPupilDiameter)
    } else if value == 123 {
        Some(SEOutputDataId::SEFilteredLeftPupilDiameterQ)
    } else if value == 124 {
        Some(SEOutputDataId::SEFilteredRightPupilDiameter)
    } else if value == 125 {
        Some(SEOutputDataId::SEFilteredRightPupilDiameterQ)
    } else if value == 126 {
        Some(SEOutputDataId::SEGPSPosition)
    } else if value == 127 {
        Some(SEOutputDataId::SEGPSGroundSpeed)
    } else if value == 128 {
        Some(SEOutputDataId::SEGPSCourse)
    } else if value == 129 {
        Some(SEOutputDataId::SEGPSTime)
    } else if value == 130 {
        Some(SEOutputDataId::SEEstimatedGazeOrigin)
    } else if value == 131 {
        Some(SEOutputDataId::SEEstimatedLeftGazeOrigin)
    } else if value == 132 {
        Some(SEOutputDataId::SEEstimatedRightGazeOrigin)
    } else if value == 133 {
        Some(SEOutputDataId::SEEstimatedEyePosition)
    } else if value == 134 {
        Some(SEOutputDataId::SEEstimatedGazeDirection)
    } else if value == 135 {
        Some(SEOutputDataId::SEEstimatedGazeDirectionQ)
    } else if value == 136 {
        Some(SEOutputDataId::SEEstimatedGazeHeading)
    } else if value == 137 {
        Some(SEOutputDataId::SEEstimatedGazePitch)
    } else if value == 138 {
        Some(SEOutputDataId::SEEstimatedLeftEyePosition)
    } else if value == 139 {
        Some(SEOutputDataId::SEEstimatedLeftGazeDirection)
    } else if value == 140 {
        Some(SEOutputDataId::SEEstimatedLeftGazeDirectionQ)
    } else if value == 141 {
        Some(SEOutputDataId::SEEstimatedLeftGazeHeading)
    } else if value == 142 {
        Some(SEOutputDataId::SEEstimatedLeftGazePitch)
    } else if value == 143 {
        Some(SEOutputDataId::SEEstimatedRightEyePosition)
    } else if value == 144 {
        Some(SEOutputDataId::SEEstimatedRightGazeDirection)
    } else if value == 145 {
        Some(SEOutputDataId::SEEstimatedRightGazeDirectionQ)
    } else if value == 146 {
        Some(SEOutputDataId::SEEstimatedRightGazeHeading)
    } else if value == 147 {
        Some(SEOutputDataId::SEEstimatedRightGazePitch)
    } else if value == 148 {
        Some(SEOutputDataId::SEFilteredEstimatedGazeDirection)
    } else if value == 149 {
        Some(SEOutputDataId::SEFilteredEstimatedGazeDirectionQ)
    } else if value == 150 {
        Some(SEOutputDataId::SEFilteredEstimatedGazeHeading)
    } else if value == 151 {
        Some(SEOutputDataId::SEFilteredEstimatedGazePitch)
    } else if value == 152 {
        Some(SEOutputDataId::SEFilteredEstimatedLeftGazeDirection)
    } else if value == 153 {
        Some(SEOutputDataId::SEFilteredEstimatedLeftGazeDirectionQ)
    } else if value == 154 {
        Some(SEOutputDataId::SEFilteredEstimatedLeftGazeHeading)
    } else if value == 155 {
        Some(SEOutputDataId::SEFilteredEstimatedLeftGazePitch)
    } else if value == 156 {
        Some(SEOutputDataId::SEFilteredEstimatedRightGazeDirection)
    } else if value == 157 {
        Some(SEOutputDataId::SEFilteredEstimatedRightGazeDirectionQ)
    } else if value == 158 {
        Some(SEOutputDataId::SEFilteredEstimatedRightGazeHeading)
    } else if value == 159 {
        Some(SEOutputDataId::SEFilteredEstimatedRightGazePitch)
    } else {
        None
    }
}

impl SEOutputDataId {
    /// Maps a numeric wire field id to its identifier; fails on ids
    /// outside the closed set.
    pub fn try_from(value: u16) -> (r: Result<SEOutputDataId, ()>)
        ensures
            r is Ok <==> data_id_of(value) is Some,
            r is Ok ==> data_id_of(value) == Some(r->Ok_0),
    {
        match value {
            1u16 => Ok(SEOutputDataId::SEFrameNumber),
            2u16 => Ok(SEOutputDataId::SEEstimatedDelay),
            3u16 => Ok(SEOutputDataId::SETimeStamp),
            4u16 => Ok(SEOutputDataId::SEUserTimeStamp),
            5u16 => Ok(SEOutputDataId::SEFrameRate),
            6u16 => Ok(SEOutputDataId::SECameraPositions),
            7u16 => Ok(SEOutputDataId::SECameraRotations),
            8u16 => Ok(SEOutputDataId::SEUserDefinedData),
            9u16 => Ok(SEOutputDataId::SERealTimeClock),
            10u16 => Ok(SEOutputDataId::SEKeyboardState),
            11u16 => Ok(SEOutputDataId::SEASCIIKeyboardState),
            12u16 => Ok(SEOutputDataId::SEUserMarker),
            13u16 => Ok(SEOutputDataId::SECameraClocks),
            14u16 => Ok(SEOutputDataId::SEHeadPosition),
            15u16 => Ok(SEOutputDataId::SEHeadPositionQ),
            16u16 => Ok(SEOutputDataId::SEHeadRotationRodrigues),
            17u16 => Ok(SEOutputDataId::SEHeadRotationQuaternion),
            18u16 => Ok(SEOutputDataId::SEHeadLeftEarDirection),
            19u16 => Ok(SEOutputDataId::SEHeadUpDirection),
            20u16 => Ok(SEOutputDataId::SEHeadNoseDirection),
            21u16 => Ok(SEOutputDataId::SEHeadHeading),
            22u16 => Ok(SEOutputDataId::SEHeadPitch),
            23u16 => Ok(SEOutputDataId::SEHeadRoll),
            24u16 => Ok(SEOutputDataId::SEHeadRotationQ),
            25u16 => Ok(SEOutputDataId::SEGazeOrigin),
            26u16 => Ok(SEOutputDataId::SELeftGazeOrigin),
            27u16 => Ok(SEOutputDataId::SERightGazeOrigin),
            28u16 => Ok(SEOutputDataId::SEEyePosition),
            29u16 => Ok(SEOutputDataId::SEGazeDirection),
            30u16 => Ok(SEOutputDataId::SEGazeDirectionQ),
            31u16 => Ok(SEOutputDataId::SELeftEyePosition),
            32u16 => Ok(SEOutputDataId::SELeftGazeDirection),
            33u16 => Ok(SEOutputDataId::SELeftGazeDirectionQ),
            34u16 => Ok(SEOutputDataId::SERightEyePosition),
            35u16 => Ok(SEOutputDataId::SERightGazeDirection),
            36u16 => Ok(SEOutputDataId::SERightGazeDirectionQ),
            37u16 => Ok(SEOutputDataId::SEGazeHeading),
            38u16 => Ok(SEOutputDataId::SEGazePitch),
            39u16 => Ok(SEOutputDataId::SELeftGazeHeading),
            40u16 => Ok(SEOutputDataId::SELeftGazePitch),
            41u16 => Ok(SEOutputDataId::SERightGazeHeading),
            42u16 => Ok(SEOutputDataId::SERightGazePitch),
            43u16 => Ok(SEOutputDataId::SEFilteredGazeDirection),
            44u16 => Ok(SEOutputDataId::SEFilteredGazeDirectionQ),
            45u16 => Ok(SEOutputDataId::SEFilteredLeftGazeDirection),
            46u16 => Ok(SEOutputDataId::SEFilteredLeftGazeDirectionQ),
            47u16 => Ok(SEOutputDataId::SEFilteredRightGazeDirection),
            48u16 => Ok(SEOutputDataId::SEFilteredRightGazeDirectionQ),
            49u16 => Ok(SEOutputDataId::SEFilteredGazeHeading),
            50u16 => Ok(SEOutputDataId::SEFilteredGazePitch),
            51u16 => Ok(SEOutputDataId::SEFilteredLeftGazeHeading),
            52u16 => Ok(SEOutputDataId::SEFilteredLeftGazePitch),
            53u16 => Ok(SEOutputDataId::SEFilteredRightGazeHeading),
            54u16 => Ok(SEOutputDataId::SEFilteredRightGazePitch),
            55u16 => Ok(SEOutputDataId::SESaccade),
            56u16 => Ok(SEOutputDataId::SEFixation),
            57u16 => Ok(SEOutputDataId::SEBlink),
            58u16 => Ok(SEOutputDataId::SETrackingState),
            59u16 => Ok(SEOutputDataId::SEEyeglassesStatus),
            60u16 => Ok(SEOutputDataId::SEReflexReductionStateDEPRECATED),
            61u16 => Ok(SEOutputDataId::SELeftBlinkClosingMidTime),
            62u16 => Ok(SEOutputDataId::SELeftBlinkOpeningMidTime),
            63u16 => Ok(SEOutputDataId::SELeftBlinkClosingAmplitude),
            64u16 => Ok(SEOutputDataId::SELeftBlinkOpeningAmplitude),
            65u16 => Ok(SEOutputDataId::SELeftBlinkClosingSpeed),
            66u16 => Ok(SEOutputDataId::SELeftBlinkOpeningSpeed),
            67u16 => Ok(SEOutputDataId::SERightBlinkClosingMidTime),
            68u16 => Ok(SEOutputDataId::SERightBlinkOpeningMidTime),
            69u16 => Ok(SEOutputDataId::SERightBlinkClosingAmplitude),
            70u16 => Ok(SEOutputDataId::SERightBlinkOpeningAmplitude),
            71u16 => Ok(SEOutputDataId::SERightBlinkClosingSpeed),
            72u16 => Ok(SEOutputDataId::SERightBlinkOpeningSpeed),
            73u16 => Ok(SEOutputDataId::SEClosestWorldIntersection),
            74u16 => Ok(SEOutputDataId::SEFilteredClosestWorldIntersection),
            75u16 => Ok(SEOutputDataId::SEAllWorldIntersections),
            76u16 => Ok(SEOutputDataId::SEFilteredAllWorldIntersections),
            77u16 => Ok(SEOutputDataId::SEZoneId),
            78u16 => Ok(SEOutputDataId::SEEstimatedClosestWorldIntersection),
            79u16 => Ok(SEOutputDataId::SEEstimatedAllWorldIntersections),
            80u16 => Ok(SEOutputDataId::SEHeadClosestWorldIntersection),
            81u16 => Ok(SEOutputDataId::SEHeadAllWorldIntersections),
            82u16 => Ok(SEOutputDataId::SECalibrationGazeIntersection),
            83u16 => Ok(SEOutputDataId::SETaggedGazeIntersection),
            84u16 => Ok(SEOutputDataId::SELeftClosestWorldIntersection),
            85u16 => Ok(SEOutputDataId::SELeftAllWorldIntersections),
            86u16 => Ok(SEOutputDataId::SERightClosestWorldIntersection),
            87u16 => Ok(SEOutputDataId::SERightAllWorldIntersections),
            88u16 => Ok(SEOutputDataId::SEFilteredLeftClosestWorldIntersection),
            89u16 => Ok(SEOutputDataId::SEFilteredLeftAllWorldIntersections),
            90u16 => Ok(SEOutputDataId::SEFilteredRightClosestWorldIntersection),
            91u16 => Ok(SEOutputDataId::SEFilteredRightAllWorldIntersections),
            92u16 => Ok(SEOutputDataId::SEEstimatedLeftClosestWorldIntersection),
            93u16 => Ok(SEOutputDataId::SEEstimatedLeftAllWorldIntersections),
            94u16 => Ok(SEOutputDataId::SEEstimatedRightClosestWorldIntersection),
            95u16 => Ok(SEOutputDataId::SEEstimatedRightAllWorldIntersections),
            96u16 => Ok(SEOutputDataId::SEFilteredEstimatedClosestWorldIntersection),
            97u16 => Ok(SEOutputDataId::SEFilteredEstimatedAllWorldIntersections),
            98u16 => Ok(SEOutputDataId::SEFilteredEstimatedLeftClosestWorldIntersection),
            99u16 => Ok(SEOutputDataId::SEFilteredEstimatedLeftAllWorldIntersections),
            100u16 => Ok(SEOutputDataId::SEFilteredEstimatedRightClosestWorldIntersection),
            101u16 => Ok(SEOutputDataId::SEFilteredEstimatedRightAllWorldIntersections),
            102u16 => Ok(SEOutputDataId::SEEyelidOpening),
            103u16 => Ok(SEOutputDataId::SEEyelidOpeningQ),
            104u16 => Ok(SEOutputDataId::SELeftEyelidOpening),
            105u16 => Ok(SEOutputDataId::SELeftEyelidOpeningQ),
            106u16 => Ok(SEOutputDataId::SERightEyelidOpening),
            107u16 => Ok(SEOutputDataId::SERightEyelidOpeningQ),
            108u16 => Ok(SEOutputDataId::SELeftLowerEyelidExtremePoint),
            109u16 => Ok(SEOutputDataId::SELeftUpperEyelidExtremePoint),
            110u16 => Ok(SEOutputDataId::SERightLowerEyelidExtremePoint),
            111u16 => Ok(SEOutputDataId::SERightUpperEyelidExtremePoint),
            112u16 => Ok(SEOutputDataId::SELeftEyelidState),
            113u16 => Ok(SEOutputDataId::SERightEyelidState),
            114u16 => Ok(SEOutputDataId::SEPupilDiameter),
            115u16 => Ok(SEOutputDataId::SEPupilDiameterQ),
            116u16 => Ok(SEOutputDataId::SELeftPupilDiameter),
            117u16 => Ok(SEOutputDataId::SELeftPupilDiameterQ),
            118u16 => Ok(SEOutputDataId::SERightPupilDiameter),
            119u16 => Ok(SEOutputDataId::SERightPupilDiameterQ),
            120u16 => Ok(SEOutputDataId::SEFilteredPupilDiameter),
            121u16 => Ok(SEOutputDataId::SEFilteredPupilDiameterQ),
            122u16 => Ok(SEOutputDataId::SEFilteredLeftPupilDiameter),
            123u16 => Ok(SEOutputDataId::SEFilteredLeftPupilDiameterQ),
            124u16 => Ok(SEOutputDataId::SEFilteredRightPupilDiameter),
            125u16 => Ok(SEOutputDataId::SEFilteredRightPupilDiameterQ),
            126u16 => Ok(SEOutputDataId::SEGPSPosition),
            127u16 => Ok(SEOutputDataId::SEGPSGroundSpeed),
            128u16 => Ok(SEOutputDataId::SEGPSCourse),
            129u16 => Ok(SEOutputDataId::SEGPSTime),
            130u16 => Ok(SEOutputDataId::SEEstimatedGazeOrigin),
            131u16 => Ok(SEOutputDataId::SEEstimatedLeftGazeOrigin),
            132u16 => Ok(SEOutputDataId::SEEstimatedRightGazeOrigin),
            133u16 => Ok(SEOutputDataId::SEEstimatedEyePosition),
            134u16 => Ok(SEOutputDataId::SEEstimatedGazeDirection),
            135u16 => Ok(SEOutputDataId::SEEstimatedGazeDirectionQ),
            136u16 => Ok(SEOutputDataId::SEEstimatedGazeHeading),
            137u16 => Ok(SEOutputDataId::SEEstimatedGazePitch),
            138u16 => Ok(SEOutputDataId::SEEstimatedLeftEyePosition),
            139u16 => Ok(SEOutputDataId::SEEstimatedLeftGazeDirection),
            140u16 => Ok(SEOutputDataId::SEEstimatedLeftGazeDirectionQ),
            141u16 => Ok(SEOutputDataId::SEEstimatedLeftGazeHeading),
            142u16 => Ok(SEOutputDataId::SEEstimatedLeftGazePitch),
            143u16 => Ok(SEOutputDataId::SEEstimatedRightEyePosition),
            144u16 => Ok(SEOutputDataId::SEEstimatedRightGazeDirection),
            145u16 => Ok(SEOutputDataId::SEEstimatedRightGazeDirectionQ),
            146u16 => Ok(SEOutputDataId::SEEstimatedRightGazeHeading),
            147u16 => Ok(SEOutputDataId::SEEstimatedRightGazePitch),
            148u16 => Ok(SEOutputDataId::SEFilteredEstimatedGazeDirection),
            149u16 => Ok(SEOutputDataId::SEFilteredEstimatedGazeDirectionQ),
            150u16 => Ok(SEOutputDataId::SEFilteredEstimatedGazeHeading),
            151u16 => Ok(SEOutputDataId::SEFilteredEstimatedGazePitch),
            152u16 => Ok(SEOutputDataId::SEFilteredEstimatedLeftGazeDirection),
            153u16 => Ok(SEOutputDataId::SEFilteredEstimatedLeftGazeDirectionQ),
            154u16 => Ok(SEOutputDataId::SEFilteredEstimatedLeftGazeHeading),
            155u16 => Ok(SEOutputDataId::SEFilteredEstimatedLeftGazePitch),
            156u16 => Ok(SEOutputDataId::SEFilteredEstimatedRightGazeDirection),
            157u16 => Ok(SEOutputDataId::SEFilteredEstimatedRightGazeDirectionQ),
            158u16 => Ok(SEOutputDataId::SEFilteredEstimatedRightGazeHeading),
            159u16 => Ok(SEOutputDataId::SEFilteredEstimatedRightGazePitch),
            _ => Err(()),
        }
    }
}

/// One decoded telemetry field, named by its id, holding its payload.
#[derive(Debug, PartialEq)]
pub enum SEOutputData {
    SEFrameNumber(u32),
    SEEstimatedDelay(u32),
    SETimeStamp(u64),
    SEUserTimeStamp(u64),
    SEFrameRate(u64),
    SECameraPositions(Vec<SEVariant>),
    SECameraRotations(Vec<SEVariant>),
    SEUserDefinedData(u64),
    SERealTimeClock(u64),
    SEKeyboardState(String),
    SEASCIIKeyboardState(u16),
    SEUserMarker(Option<UserMarker>),
    SECameraClocks(Vec<SEVariant>),
    SEHeadPosition(Point3D),
    SEHeadPositionQ(u64),
    SEHeadRotationRodrigues(Vect3D),
    SEHeadRotationQuaternion(Quaternion),
    SEHeadLeftEarDirection(Vect3D),
    SEHeadUpDirection(Vect3D),
    SEHeadNoseDirection(Vect3D),
    SEHeadHeading(u64),
    SEHeadPitch(u64),
    SEHeadRoll(u64),
    SEHeadRotationQ(u64),
    SEGazeOrigin(Point3D),
    SELeftGazeOrigin(Point3D),
    SERightGazeOrigin(Point3D),
    SEEyePosition(Point3D),
    SEGazeDirection(Vect3D),
    SEGazeDirectionQ(u64),
    SELeftEyePosition(Point3D),
    SELeftGazeDirection(Vect3D),
    SELeftGazeDirectionQ(u64),
    SERightEyePosition(Point3D),
    SERightGazeDirection(Vect3D),
    SERightGazeDirectionQ(u64),
    SEGazeHeading(u64),
    SEGazePitch(u64),
    SELeftGazeHeading(u64),
    SELeftGazePitch(u64),
    SERightGazeHeading(u64),
    SERightGazePitch(u64),
    SEFilteredGazeDirection(Vect3D),
    SEFilteredGazeDirectionQ(u64),
    SEFilteredLeftGazeDirection(Vect3D),
    SEFilteredLeftGazeDirectionQ(u64),
    SEFilteredRightGazeDirection(Vect3D),
    SEFilteredRightGazeDirectionQ(u64),
    SEFilteredGazeHeading(u64),
    SEFilteredGazePitch(u64),
    SEFilteredLeftGazeHeading(u64),
    SEFilteredLeftGazePitch(u64),
    SEFilteredRightGazeHeading(u64),
    SEFilteredRightGazePitch(u64),
    SESaccade(u32),
    SEFixation(u32),
    SEBlink(u32),
    SELeftBlinkClosingMidTime(u64),
    SELeftBlinkOpeningMidTime(u64),
    SELeftBlinkClosingAmplitude(u64),
    SELeftBlinkOpeningAmplitude(u64),
    SELeftBlinkClosingSpeed(u64),
    SELeftBlinkOpeningSpeed(u64),
    SERightBlinkClosingMidTime(u64),
    SERightBlinkOpeningMidTime(u64),
    SERightBlinkClosingAmplitude(u64),
    SERightBlinkOpeningAmplitude(u64),
    SERightBlinkClosingSpeed(u64),
    SERightBlinkOpeningSpeed(u64),
    SEClosestWorldIntersection(Option<WorldIntersection>),
    SEFilteredClosestWorldIntersection(Option<WorldIntersection>),
    SEAllWorldIntersections(Vec<WorldIntersection>),
    SEFilteredAllWorldIntersections(Vec<WorldIntersection>),
    SEZoneId(u16),
    SEEstimatedClosestWorldIntersection(Option<WorldIntersection>),
    SEEstimatedAllWorldIntersections(Vec<WorldIntersection>),
    SEHeadClosestWorldIntersection(Option<WorldIntersection>),
    SEHeadAllWorldIntersections(Vec<WorldIntersection>),
    SECalibrationGazeIntersection(Option<WorldIntersection>),
    SETaggedGazeIntersection(Option<WorldIntersection>),
    SELeftClosestWorldIntersection(Option<WorldIntersection>),
    SELeftAllWorldIntersections(Vec<WorldIntersection>),
    SERightClosestWorldIntersection(Option<WorldIntersection>),
    SERightAllWorldIntersections(Vec<WorldIntersection>),
    SEFilteredLeftClosestWorldIntersection(Option<WorldIntersection>),
    SEFilteredLeftAllWorldIntersections(Vec<WorldIntersection>),
    SEFilteredRightClosestWorldIntersection(Option<WorldIntersection>),
    SEFilteredRightAllWorldIntersections(Vec<WorldIntersection>),
    SEEstimatedLeftClosestWorldIntersection(Option<WorldIntersection>),
    SEEstimatedLeftAllWorldIntersections(Vec<WorldIntersection>),
    SEEstimatedRightClosestWorldIntersection(Option<WorldIntersection>),
    SEEstimatedRightAllWorldIntersections(Vec<WorldIntersection>),
    SEFilteredEstimatedClosestWorldIntersection(Option<WorldIntersection>),
    SEFilteredEstimatedAllWorldIntersections(Vec<WorldIntersection>),
    SEFilteredEstimatedLeftClosestWorldIntersection(Option<WorldIntersection>),
    SEFilteredEstimatedLeftAllWorldIntersections(Vec<WorldIntersection>),
    SEFilteredEstimatedRightClosestWorldIntersection(Option<WorldIntersection>),
    SEFilteredEstimatedRightAllWorldIntersections(Vec<WorldIntersection>),
    SEEyelidOpening(u64),
    SEEyelidOpeningQ(u64),
    SELeftEyelidOpening(u64),
    SELeftEyelidOpeningQ(u64),
    SERightEyelidOpening(u64),
    SERightEyelidOpeningQ(u64),
    SELeftLowerEyelidExtremePoint(Point3D),
    SELeftUpperEyelidExtremePoint(Point3D),
    SERightLowerEyelidExtremePoint(Point3D),
    SERightUpperEyelidExtremePoint(Point3D),
    SELeftEyelidState(u8),
    SERightEyelidState(u8),
    SEPupilDiameter(u64),
    SEPupilDiameterQ(u64),
    SELeftPupilDiameter(u64),
    SELeftPupilDiameterQ(u64),
    SERightPupilDiameter(u64),
    SERightPupilDiameterQ(u64),
    SEFilteredPupilDiameter(u64),
    SEFilteredPupilDiameterQ(u64),
    SEFilteredLeftPupilDiameter(u64),
    SEFilteredLeftPupilDiameterQ(u64),
    SEFilteredRightPupilDiameter(u64),
    SEFilteredRightPupilDiameterQ(u64),
    SEGPSPosition(Point2D),
    SEGPSGroundSpeed(u64),
    SEGPSCourse(u64),
    SEGPSTime(u64),
    SEEstimatedGazeOrigin(Point3D),
    SEEstimatedLeftGazeOrigin(Point3D),
    SEEstimatedRightGazeOrigin(Point3D),
    SEEstimatedEyePosition(Point3D),
    SEEstimatedGazeDirection(Vect3D),
    SEEstimatedGazeDirectionQ(u64),
    SEEstimatedGazeHeading(u64),
    SEEstimatedGazePitch(u64),
    SEEstimatedLeftEyePosition(Point3D),
    SEEstimatedLeftGazeDirection(Vect3D),
    SEEstimatedLeftGazeDirectionQ(u64),
    SEEstimatedLeftGazeHeading(u64),
    SEEstimatedLeftGazePitch(u64),
    SEEstimatedRightEyePosition(Point3D),
    SEEstimatedRightGazeDirection(Vect3D),
    SEEstimatedRightGazeDirectionQ(u64),
    SEEstimatedRightGazeHeading(u64),
    SEEstimatedRightGazePitch(u64),
    SEFilteredEstimatedGazeDirection(Vect3D),
    SEFilteredEstimatedGazeDirectionQ(u64),
    SEFilteredEstimatedGazeHeading(u64),
    SEFilteredEstimatedGazePitch(u64),
    SEFilteredEstimatedLeftGazeDirection(Vect3D),
    SEFilteredEstimatedLeftGazeDirectionQ(u64),
    SEFilteredEstimatedLeftGazeHeading(u64),
    SEFilteredEstimatedLeftGazePitch(u64),
    SEFilteredEstimatedRightGazeDirection(Vect3D),
    SEFilteredEstimatedRightGazeDirectionQ(u64),
    SEFilteredEstimatedRightGazeHeading(u64),
    SEFilteredEstimatedRightGazePitch(u64),
}

/// Mathematical model of an [`SEOutputData`].
pub enum FieldV {
    SEFrameNumber(u32),
    SEEstimatedDelay(u32),
    SETimeStamp(u64),
    SEUserTimeStamp(u64),
    SEFrameRate(u64),
    SECameraPositions(Seq<VariantV>),
    SECameraRotations(Seq<VariantV>),
    SEUserDefinedData(u64),
    SERealTimeClock(u64),
    SEKeyboardState(Seq<char>),
    SEASCIIKeyboardState(u16),
    SEUserMarker(Option<UserMarker>),
    SECameraClocks(Seq<VariantV>),
    SEHeadPosition(Point3D),
    SEHeadPositionQ(u64),
    SEHeadRotationRodrigues(Vect3D),
    SEHeadRotationQuaternion(Quaternion),
    SEHeadLeftEarDirection(Vect3D),
    SEHeadUpDirection(Vect3D),
    SEHeadNoseDirection(Vect3D),
    SEHeadHeading(u64),
    SEHeadPitch(u64),
    SEHeadRoll(u64),
    SEHeadRotationQ(u64),
    SEGazeOrigin(Point3D),
    SELeftGazeOrigin(Point3D),
    SERightGazeOrigin(Point3D),
    SEEyePosition(Point3D),
    SEGazeDirection(Vect3D),
    SEGazeDirectionQ(u64),
    SELeftEyePosition(Point3D),
    SELeftGazeDirection(Vect3D),
    SELeftGazeDirectionQ(u64),
    SERightEyePosition(Point3D),
    SERightGazeDirection(Vect3D),
    SERightGazeDirectionQ(u64),
    SEGazeHeading(u64),
    SEGazePitch(u64),
    SELeftGazeHeading(u64),
    SELeftGazePitch(u64),
    SERightGazeHeading(u64),
    SERightGazePitch(u64),
    SEFilteredGazeDirection(Vect3D),
    SEFilteredGazeDirectionQ(u64),
    SEFilteredLeftGazeDirection(Vect3D),
    SEFilteredLeftGazeDirectionQ(u64),
    SEFilteredRightGazeDirection(Vect3D),
    SEFilteredRightGazeDirectionQ(u64),
    SEFilteredGazeHeading(u64),
    SEFilteredGazePitch(u64),
    SEFilteredLeftGazeHeading(u64),
    SEFilteredLeftGazePitch(u64),
    SEFilteredRightGazeHeading(u64),
    SEFilteredRightGazePitch(u64),
    SESaccade(u32),
    SEFixation(u32),
    SEBlink(u32),
    SELeftBlinkClosingMidTime(u64),
    SELeftBlinkOpeningMidTime(u64),
    SELeftBlinkClosingAmplitude(u64),
    SELeftBlinkOpeningAmplitude(u64),
    SELeftBlinkClosingSpeed(u64),
    SELeftBlinkOpeningSpeed(u64),
    SERightBlinkClosingMidTime(u64),
    SERightBlinkOpeningMidTime(u64),
    SERightBlinkClosingAmplitude(u64),
    SERightBlinkOpeningAmplitude(u64),
    SERightBlinkClosingSpeed(u64),
    SERightBlinkOpeningSpeed(u64),
    SEClosestWorldIntersection(Option<WorldIntersectionV>),
    SEFilteredClosestWorldIntersection(Option<WorldIntersectionV>),
    SEAllWorldIntersections(Seq<WorldIntersectionV>),
    SEFilteredAllWorldIntersections(Seq<WorldIntersectionV>),
    SEZoneId(u16),
    SEEstimatedClosestWorldIntersection(Option<WorldIntersectionV>),
    SEEstimatedAllWorldIntersections(Seq<WorldIntersectionV>),
    SEHeadClosestWorldIntersection(Option<WorldIntersectionV>),
    SEHeadAllWorldIntersections(Seq<WorldIntersectionV>),
    SECalibrationGazeIntersection(Option<WorldIntersectionV>),
    SETaggedGazeIntersection(Option<WorldIntersectionV>),
    SELeftClosestWorldIntersection(Option<WorldIntersectionV>),
    SELeftAllWorldIntersections(Seq<WorldIntersectionV>),
    SERightClosestWorldIntersection(Option<WorldIntersectionV>),
    SERightAllWorldIntersections(Seq<WorldIntersectionV>),
    SEFilteredLeftClosestWorldIntersection(Option<WorldIntersectionV>),
    SEFilteredLeftAllWorldIntersections(Seq<WorldIntersectionV>),
    SEFilteredRightClosestWorldIntersection(Option<WorldIntersectionV>),
    SEFilteredRightAllWorldIntersections(Seq<WorldIntersectionV>),
    SEEstimatedLeftClosestWorldIntersection(Option<WorldIntersectionV>),
    SEEstimatedLeftAllWorldIntersections(Seq<WorldIntersectionV>),
    SEEstimatedRightClosestWorldIntersection(Option<WorldIntersectionV>),
    SEEstimatedRightAllWorldIntersections(Seq<WorldIntersectionV>),
    SEFilteredEstimatedClosestWorldIntersection(Option<WorldIntersectionV>),
    SEFilteredEstimatedAllWorldIntersections(Seq<WorldIntersectionV>),
    SEFilteredEstimatedLeftClosestWorldIntersection(Option<WorldIntersectionV>),
    SEFilteredEstimatedLeftAllWorldIntersections(Seq<WorldIntersectionV>),
    SEFilteredEstimatedRightClosestWorldIntersection(Option<WorldIntersectionV>),
    SEFilteredEstimatedRightAllWorldIntersections(Seq<WorldIntersectionV>),
    SEEyelidOpening(u64),
    SEEyelidOpeningQ(u64),
    SELeftEyelidOpening(u64),
    SELeftEyelidOpeningQ(u64),
    SERightEyelidOpening(u64),
    SERightEyelidOpeningQ(u64),
    SELeftLowerEyelidExtremePoint(Point3D),
    SELeftUpperEyelidExtremePoint(Point3D),
    SERightLowerEyelidExtremePoint(Point3D),
    SERightUpperEyelidExtremePoint(Point3D),
    SELeftEyelidState(u8),
    SERightEyelidState(u8),
    SEPupilDiameter(u64),
    SEPupilDiameterQ(u64),
    SELeftPupilDiameter(u64),
    SELeftPupilDiameterQ(u64),
    SERightPupilDiameter(u64),
    SERightPupilDiameterQ(u64),
    SEFilteredPupilDiameter(u64),
    SEFilteredPupilDiameterQ(u64),
    SEFilteredLeftPupilDiameter(u64),
    SEFilteredLeftPupilDiameterQ(u64),
    SEFilteredRightPupilDiameter(u64),
    SEFilteredRightPupilDiameterQ(u64),
    SEGPSPosition(Point2D),
    SEGPSGroundSpeed(u64),
    SEGPSCourse(u64),
    SEGPSTime(u64),
    SEEstimatedGazeOrigin(Point3D),
    SEEstimatedLeftGazeOrigin(Point3D),
    SEEstimatedRightGazeOrigin(Point3D),
    SEEstimatedEyePosition(Point3D),
    SEEstimatedGazeDirection(Vect3D),
    SEEstimatedGazeDirectionQ(u64),
    SEEstimatedGazeHeading(u64),
    SEEstimatedGazePitch(u64),
    SEEstimatedLeftEyePosition(Point3D),
    SEEstimatedLeftGazeDirection(Vect3D),
    SEEstimatedLeftGazeDirectionQ(u64),
    SEEstimatedLeftGazeHeading(u64),
    SEEstimatedLeftGazePitch(u64),
    SEEstimatedRightEyePosition(Point3D),
    SEEstimatedRightGazeDirection(Vect3D),
    SEEstimatedRightGazeDirectionQ(u64),
    SEEstimatedRightGazeHeading(u64),
    SEEstimatedRightGazePitch(u64),
    SEFilteredEstimatedGazeDirection(Vect3D),
    SEFilteredEstimatedGazeDirectionQ(u64),
    SEFilteredEstimatedGazeHeading(u64),
    SEFilteredEstimatedGazePitch(u64),
    SEFilteredEstimatedLeftGazeDirection(Vect3D),
    SEFilteredEstimatedLeftGazeDirectionQ(u64),
    SEFilteredEstimatedLeftGazeHeading(u64),
    SEFilteredEstimatedLeftGazePitch(u64),
    SEFilteredEstimatedRightGazeDirection(Vect3D),
    SEFilteredEstimatedRightGazeDirectionQ(u64),
    SEFilteredEstimatedRightGazeHeading(u64),
    SEFilteredEstimatedRightGazePitch(u64),
}

pub open spec fn field_view(f: SEOutputData) -> FieldV {
    match f {
        SEOutputData::SEFrameNumber(x) => FieldV::SEFrameNumber(x),
        SEOutputData::SEEstimatedDelay(x) => FieldV::SEEstimatedDelay(x),
        SEOutputData::SETimeStamp(x) => FieldV::SETimeStamp(x),
        SEOutputData::SEUserTimeStamp(x) => FieldV::SEUserTimeStamp(x),
        SEOutputData::SEFrameRate(x) => FieldV::SEFrameRate(x),
        SEOutputData::SECameraPositions(x) => FieldV::SECameraPositions(variants_view(x@)),
        SEOutputData::SECameraRotations(x) => FieldV::SECameraRotations(variants_view(x@)),
        SEOutputData::SEUserDefinedData(x) => FieldV::SEUserDefinedData(x),
        SEOutputData::SERealTimeClock(x) => FieldV::SERealTimeClock(x),
        SEOutputData::SEKeyboardState(x) => FieldV::SEKeyboardState(x@),
        SEOutputData::SEASCIIKeyboardState(x) => FieldV::SEASCIIKeyboardState(x),
        SEOutputData::SEUserMarker(x) => FieldV::SEUserMarker(x),
        SEOutputData::SECameraClocks(x) => FieldV::SECameraClocks(variants_view(x@)),
        SEOutputData::SEHeadPosition(x) => FieldV::SEHeadPosition(x),
        SEOutputData::SEHeadPositionQ(x) => FieldV::SEHeadPositionQ(x),
        SEOutputData::SEHeadRotationRodrigues(x) => FieldV::SEHeadRotationRodrigues(x),
        SEOutputData::SEHeadRotationQuaternion(x) => FieldV::SEHeadRotationQuaternion(x),
        SEOutputData::SEHeadLeftEarDirection(x) => FieldV::SEHeadLeftEarDirection(x),
        SEOutputData::SEHeadUpDirection(x) => FieldV::SEHeadUpDirection(x),
        SEOutputData::SEHeadNoseDirection(x) => FieldV::SEHeadNoseDirection(x),
        SEOutputData::SEHeadHeading(x) => FieldV::SEHeadHeading(x),
        SEOutputData::SEHeadPitch(x) => FieldV::SEHeadPitch(x),
        SEOutputData::SEHeadRoll(x) => FieldV::SEHeadRoll(x),
        SEOutputData::SEHeadRotationQ(x) => FieldV::SEHeadRotationQ(x),
        SEOutputData::SEGazeOrigin(x) => FieldV::SEGazeOrigin(x),
        SEOutputData::SELeftGazeOrigin(x) => FieldV::SELeftGazeOrigin(x),
        SEOutputData::SERightGazeOrigin(x) => FieldV::SERightGazeOrigin(x),
        SEOutputData::SEEyePosition(x) => FieldV::SEEyePosition(x),
        SEOutputData::SEGazeDirection(x) => FieldV::SEGazeDirection(x),
        SEOutputData::SEGazeDirectionQ(x) => FieldV::SEGazeDirectionQ(x),
        SEOutputData::SELeftEyePosition(x) => FieldV::SELeftEyePosition(x),
        SEOutputData::SELeftGazeDirection(x) => FieldV::SELeftGazeDirection(x),
        SEOutputData::SELeftGazeDirectionQ(x) => FieldV::SELeftGazeDirectionQ(x),
        SEOutputData::SERightEyePosition(x) => FieldV::SERightEyePosition(x),
        SEOutputData::SERightGazeDirection(x) => FieldV::SERightGazeDirection(x),
        SEOutputData::SERightGazeDirectionQ(x) => FieldV::SERightGazeDirectionQ(x),
        SEOutputData::SEGazeHeading(x) => FieldV::SEGazeHeading(x),
        SEOutputData::SEGazePitch(x) => FieldV::SEGazePitch(x),
        SEOutputData::SELeftGazeHeading(x) => FieldV::SELeftGazeHeading(x),
        SEOutputData::SELeftGazePitch(x) => FieldV::SELeftGazePitch(x),
        SEOutputData::SERightGazeHeading(x) => FieldV::SERightGazeHeading(x),
        SEOutputData::SERightGazePitch(x) => FieldV::SERightGazePitch(x),
        SEOutputData::SEFilteredGazeDirection(x) => FieldV::SEFilteredGazeDirection(x),
        SEOutputData::SEFilteredGazeDirectionQ(x) => FieldV::SEFilteredGazeDirectionQ(x),
        SEOutputData::SEFilteredLeftGazeDirection(x) => FieldV::SEFilteredLeftGazeDirection(x),
        SEOutputData::SEFilteredLeftGazeDirectionQ(x) => FieldV::SEFilteredLeftGazeDirectionQ(x),
        SEOutputData::SEFilteredRightGazeDirection(x) => FieldV::SEFilteredRightGazeDirection(x),
        SEOutputData::SEFilteredRightGazeDirectionQ(x) => FieldV::SEFilteredRightGazeDirectionQ(x),
        SEOutputData::SEFilteredGazeHeading(x) => FieldV::SEFilteredGazeHeading(x),
        SEOutputData::SEFilteredGazePitch(x) => FieldV::SEFilteredGazePitch(x),
        SEOutputData::SEFilteredLeftGazeHeading(x) => FieldV::SEFilteredLeftGazeHeading(x),
        SEOutputData::SEFilteredLeftGazePitch(x) => FieldV::SEFilteredLeftGazePitch(x),
        SEOutputData::SEFilteredRightGazeHeading(x) => FieldV::SEFilteredRightGazeHeading(x),
        SEOutputData::SEFilteredRightGazePitch(x) => FieldV::SEFilteredRightGazePitch(x),
        SEOutputData::SESaccade(x) => FieldV::SESaccade(x),
        SEOutputData::SEFixation(x) => FieldV::SEFixation(x),
        SEOutputData::SEBlink(x) => FieldV::SEBlink(x),
        SEOutputData::SELeftBlinkClosingMidTime(x) => FieldV::SELeftBlinkClosingMidTime(x),
        SEOutputData::SELeftBlinkOpeningMidTime(x) => FieldV::SELeftBlinkOpeningMidTime(x),
        SEOutputData::SELeftBlinkClosingAmplitude(x) => FieldV::SELeftBlinkClosingAmplitude(x),
        SEOutputData::SELeftBlinkOpeningAmplitude(x) => FieldV::SELeftBlinkOpeningAmplitude(x),
        SEOutputData::SELeftBlinkClosingSpeed(x) => FieldV::SELeftBlinkClosingSpeed(x),
        SEOutputData::SELeftBlinkOpeningSpeed(x) => FieldV::SELeftBlinkOpeningSpeed(x),
        SEOutputData::SERightBlinkClosingMidTime(x) => FieldV::SERightBlinkClosingMidTime(x),
        SEOutputData::SERightBlinkOpeningMidTime(x) => FieldV::SERightBlinkOpeningMidTime(x),
        SEOutputData::SERightBlinkClosingAmplitude(x) => FieldV::SERightBlinkClosingAmplitude(x),
        SEOutputData::SERightBlinkOpeningAmplitude(x) => FieldV::SERightBlinkOpeningAmplitude(x),
        SEOutputData::SERightBlinkClosingSpeed(x) => FieldV::SERightBlinkClosingSpeed(x),
        SEOutputData::SERightBlinkOpeningSpeed(x) => FieldV::SERightBlinkOpeningSpeed(x),
        SEOutputData::SEClosestWorldIntersection(x) => FieldV::SEClosestWorldIntersection(opt_wi_view(x)),
        SEOutputData::SEFilteredClosestWorldIntersection(x) => FieldV::SEFilteredClosestWorldIntersection(opt_wi_view(x)),
        SEOutputData::SEAllWorldIntersections(x) => FieldV::SEAllWorldIntersections(wis_view(x@)),
        SEOutputData::SEFilteredAllWorldIntersections(x) => FieldV::SEFilteredAllWorldIntersections(wis_view(x@)),
        SEOutputData::SEZoneId(x) => FieldV::SEZoneId(x),
        SEOutputData::SEEstimatedClosestWorldIntersection(x) => FieldV::SEEstimatedClosestWorldIntersection(opt_wi_view(x)),
        SEOutputData::SEEstimatedAllWorldIntersections(x) => FieldV::SEEstimatedAllWorldIntersections(wis_view(x@)),
        SEOutputData::SEHeadClosestWorldIntersection(x) => FieldV::SEHeadClosestWorldIntersection(opt_wi_view(x)),
        SEOutputData::SEHeadAllWorldIntersections(x) => FieldV::SEHeadAllWorldIntersections(wis_view(x@)),
        SEOutputData::SECalibrationGazeIntersection(x) => FieldV::SECalibrationGazeIntersection(opt_wi_view(x)),
        SEOutputData::SETaggedGazeIntersection(x) => FieldV::SETaggedGazeIntersection(opt_wi_view(x)),
        SEOutputData::SELeftClosestWorldIntersection(x) => FieldV::SELeftClosestWorldIntersection(opt_wi_view(x)),
        SEOutputData::SELeftAllWorldIntersections(x) => FieldV::SELeftAllWorldIntersections(wis_view(x@)),
        SEOutputData::SERightClosestWorldIntersection(x) => FieldV::SERightClosestWorldIntersection(opt_wi_view(x)),
        SEOutputData::SERightAllWorldIntersections(x) => FieldV::SERightAllWorldIntersections(wis_view(x@)),
        SEOutputData::SEFilteredLeftClosestWorldIntersection(x) => FieldV::SEFilteredLeftClosestWorldIntersection(opt_wi_view(x)),
        SEOutputData::SEFilteredLeftAllWorldIntersections(x) => FieldV::SEFilteredLeftAllWorldIntersections(wis_view(x@)),
        SEOutputData::SEFilteredRightClosestWorldIntersection(x) => FieldV::SEFilteredRightClosestWorldIntersection(opt_wi_view(x)),
        SEOutputData::SEFilteredRightAllWorldIntersections(x) => FieldV::SEFilteredRightAllWorldIntersections(wis_view(x@)),
        SEOutputData::SEEstimatedLeftClosestWorldIntersection(x) => FieldV::SEEstimatedLeftClosestWorldIntersection(opt_wi_view(x)),
        SEOutputData::SEEstimatedLeftAllWorldIntersections(x) => FieldV::SEEstimatedLeftAllWorldIntersections(wis_view(x@)),
        SEOutputData::SEEstimatedRightClosestWorldIntersection(x) => FieldV::SEEstimatedRightClosestWorldIntersection(opt_wi_view(x)),
        SEOutputData::SEEstimatedRightAllWorldIntersections(x) => FieldV::SEEstimatedRightAllWorldIntersections(wis_view(x@)),
        SEOutputData::SEFilteredEstimatedClosestWorldIntersection(x) => FieldV::SEFilteredEstimatedClosestWorldIntersection(opt_wi_view(x)),
        SEOutputData::SEFilteredEstimatedAllWorldIntersections(x) => FieldV::SEFilteredEstimatedAllWorldIntersections(wis_view(x@)),
        SEOutputData::SEFilteredEstimatedLeftClosestWorldIntersection(x) => FieldV::SEFilteredEstimatedLeftClosestWorldIntersection(opt_wi_view(x)),
        SEOutputData::SEFilteredEstimatedLeftAllWorldIntersections(x) => FieldV::SEFilteredEstimatedLeftAllWorldIntersections(wis_view(x@)),
        SEOutputData::SEFilteredEstimatedRightClosestWorldIntersection(x) => FieldV::SEFilteredEstimatedRightClosestWorldIntersection(opt_wi_view(x)),
        SEOutputData::SEFilteredEstimatedRightAllWorldIntersections(x) => FieldV::SEFilteredEstimatedRightAllWorldIntersections(wis_view(x@)),
        SEOutputData::SEEyelidOpening(x) => FieldV::SEEyelidOpening(x),
        SEOutputData::SEEyelidOpeningQ(x) => FieldV::SEEyelidOpeningQ(x),
        SEOutputData::SELeftEyelidOpening(x) => FieldV::SELeftEyelidOpening(x),
        SEOutputData::SELeftEyelidOpeningQ(x) => FieldV::SELeftEyelidOpeningQ(x),
        SEOutputData::SERightEyelidOpening(x) => FieldV::SERightEyelidOpening(x),
        SEOutputData::SERightEyelidOpeningQ(x) => FieldV::SERightEyelidOpeningQ(x),
        SEOutputData::SELeftLowerEyelidExtremePoint(x) => FieldV::SELeftLowerEyelidExtremePoint(x),
        SEOutputData::SELeftUpperEyelidExtremePoint(x) => FieldV::SELeftUpperEyelidExtremePoint(x),
        SEOutputData::SERightLowerEyelidExtremePoint(x) => FieldV::SERightLowerEyelidExtremePoint(x),
        SEOutputData::SERightUpperEyelidExtremePoint(x) => FieldV::SERightUpperEyelidExtremePoint(x),
        SEOutputData::SELeftEyelidState(x) => FieldV::SELeftEyelidState(x),
        SEOutputData::SERightEyelidState(x) => FieldV::SERightEyelidState(x),
        SEOutputData::SEPupilDiameter(x) => FieldV::SEPupilDiameter(x),
        SEOutputData::SEPupilDiameterQ(x) => FieldV::SEPupilDiameterQ(x),
        SEOutputData::SELeftPupilDiameter(x) => FieldV::SELeftPupilDiameter(x),
        SEOutputData::SELeftPupilDiameterQ(x) => FieldV::SELeftPupilDiameterQ(x),
        SEOutputData::SERightPupilDiameter(x) => FieldV::SERightPupilDiameter(x),
        SEOutputData::SERightPupilDiameterQ(x) => FieldV::SERightPupilDiameterQ(x),
        SEOutputData::SEFilteredPupilDiameter(x) => FieldV::SEFilteredPupilDiameter(x),
        SEOutputData::SEFilteredPupilDiameterQ(x) => FieldV::SEFilteredPupilDiameterQ(x),
        SEOutputData::SEFilteredLeftPupilDiameter(x) => FieldV::SEFilteredLeftPupilDiameter(x),
        SEOutputData::SEFilteredLeftPupilDiameterQ(x) => FieldV::SEFilteredLeftPupilDiameterQ(x),
        SEOutputData::SEFilteredRightPupilDiameter(x) => FieldV::SEFilteredRightPupilDiameter(x),
        SEOutputData::SEFilteredRightPupilDiameterQ(x) => FieldV::SEFilteredRightPupilDiameterQ(x),
        SEOutputData::SEGPSPosition(x) => FieldV::SEGPSPosition(x),
        SEOutputData::SEGPSGroundSpeed(x) => FieldV::SEGPSGroundSpeed(x),
        SEOutputData::SEGPSCourse(x) => FieldV::SEGPSCourse(x),
        SEOutputData::SEGPSTime(x) => FieldV::SEGPSTime(x),
        SEOutputData::SEEstimatedGazeOrigin(x) => FieldV::SEEstimatedGazeOrigin(x),
        SEOutputData::SEEstimatedLeftGazeOrigin(x) => FieldV::SEEstimatedLeftGazeOrigin(x),
        SEOutputData::SEEstimatedRightGazeOrigin(x) => FieldV::SEEstimatedRightGazeOrigin(x),
        SEOutputData::SEEstimatedEyePosition(x) => FieldV::SEEstimatedEyePosition(x),
        SEOutputData::SEEstimatedGazeDirection(x) => FieldV::SEEstimatedGazeDirection(x),
        SEOutputData::SEEstimatedGazeDirectionQ(x) => FieldV::SEEstimatedGazeDirectionQ(x),
        SEOutputData::SEEstimatedGazeHeading(x) => FieldV::SEEstimatedGazeHeading(x),
        SEOutputData::SEEstimatedGazePitch(x) => FieldV::SEEstimatedGazePitch(x),
        SEOutputData::SEEstimatedLeftEyePosition(x) => FieldV::SEEstimatedLeftEyePosition(x),
        SEOutputData::SEEstimatedLeftGazeDirection(x) => FieldV::SEEstimatedLeftGazeDirection(x),
        SEOutputData::SEEstimatedLeftGazeDirectionQ(x) => FieldV::SEEstimatedLeftGazeDirectionQ(x),
        SEOutputData::SEEstimatedLeftGazeHeading(x) => FieldV::SEEstimatedLeftGazeHeading(x),
        SEOutputData::SEEstimatedLeftGazePitch(x) => FieldV::SEEstimatedLeftGazePitch(x),
        SEOutputData::SEEstimatedRightEyePosition(x) => FieldV::SEEstimatedRightEyePosition(x),
        SEOutputData::SEEstimatedRightGazeDirection(x) => FieldV::SEEstimatedRightGazeDirection(x),
        SEOutputData::SEEstimatedRightGazeDirectionQ(x) => FieldV::SEEstimatedRightGazeDirectionQ(x),
        SEOutputData::SEEstimatedRightGazeHeading(x) => FieldV::SEEstimatedRightGazeHeading(x),
        SEOutputData::SEEstimatedRightGazePitch(x) => FieldV::SEEstimatedRightGazePitch(x),
        SEOutputData::SEFilteredEstimatedGazeDirection(x) => FieldV::SEFilteredEstimatedGazeDirection(x),
        SEOutputData::SEFilteredEstimatedGazeDirectionQ(x) => FieldV::SEFilteredEstimatedGazeDirectionQ(x),
        SEOutputData::SEFilteredEstimatedGazeHeading(x) => FieldV::SEFilteredEstimatedGazeHeading(x),
        SEOutputData::SEFilteredEstimatedGazePitch(x) => FieldV::SEFilteredEstimatedGazePitch(x),
        SEOutputData::SEFilteredEstimatedLeftGazeDirection(x) => FieldV::SEFilteredEstimatedLeftGazeDirection(x),
        SEOutputData::SEFilteredEstimatedLeftGazeDirectionQ(x) => FieldV::SEFilteredEstimatedLeftGazeDirectionQ(x),
        SEOutputData::SEFilteredEstimatedLeftGazeHeading(x) => FieldV::SEFilteredEstimatedLeftGazeHeading(x),
        SEOutputData::SEFilteredEstimatedLeftGazePitch(x) => FieldV::SEFilteredEstimatedLeftGazePitch(x),
        SEOutputData::SEFilteredEstimatedRightGazeDirection(x) => FieldV::SEFilteredEstimatedRightGazeDirection(x),
        SEOutputData::SEFilteredEstimatedRightGazeDirectionQ(x) => FieldV::SEFilteredEstimatedRightGazeDirectionQ(x),
        SEOutputData::SEFilteredEstimatedRightGazeHeading(x) => FieldV::SEFilteredEstimatedRightGazeHeading(x),
        SEOutputData::SEFilteredEstimatedRightGazePitch(x) => FieldV::SEFilteredEstimatedRightGazePitch(x),
    }
}

pub open spec fn fields_view(s: Seq<SEOutputData>) -> Seq<FieldV>
    decreases s,
{
    if s.len() == 0 {
        Seq::empty()
    } else {
        seq![field_view(s[0])] + fields_view(s.subrange(1, s.len() as int))
    }
}

pub proof fn lemma_fields_view_index(s: Seq<SEOutputData>)
    ensures
        fields_view(s).len() == s.len(),
        forall|i: int| 0 <= i < s.len() ==> fields_view(s)[i] == field_view(s[i]),
    decreases s.len(),
{
    if s.len() > 0 {
        let tail = s.subrange(1, s.len() as int);
        lemma_fields_view_index(tail);
        assert forall|i: int| 0 <= i < s.len() implies fields_view(s)[i] == field_view(s[i]) by {
            if i >= 1 {
                assert(tail[i - 1] == s[i]);
            }
        }
    }
}

pub proof fn lemma_fields_view_push(s: Seq<SEOutputData>, v: SEOutputData)
    ensures
        fields_view(s.push(v)) == fields_view(s).push(field_view(v)),
{
    lemma_fields_view_index(s.push(v));
    lemma_fields_view_index(s);
    assert forall|i: int| 0 <= i < s.len() + 1 implies fields_view(s.push(v))[i]
        == fields_view(s).push(field_view(v))[i] by {
        assert(s.push(v)[i] == if i < s.len() { s[i] } else { v });
    }
    assert(fields_view(s.push(v)) =~= fields_view(s).push(field_view(v)));
}

/// The decode rules of one span of the field-id table.
pub open spec fn spec_field_group_a(id: SEOutputDataId, b: Seq<u8>, pos: int) -> Result<
    (FieldV, int),
    DecodeError,
> {
    match id {
        SEOutputDataId::SEFrameNumber => match spec_parse_u32(b, pos) {
            Err(e) => Err(e),
            Ok((v, end)) => Ok((FieldV::SEFrameNumber(v), end)),
        },
        SEOutputDataId::SEEstimatedDelay => match spec_parse_u32(b, pos) {
            Err(e) => Err(e),
            Ok((v, end)) => Ok((FieldV::SEEstimatedDelay(v), end)),
        },
        SEOutputDataId::SETimeStamp => match spec_parse_u64(b, pos) {
            Err(e) => Err(e),
            Ok((v, end)) => Ok((FieldV::SETimeStamp(v), end)),
        },
        SEOutputDataId::SEUserTimeStamp => match spec_parse_u64(b, pos) {
            Err(e) => Err(e),
            Ok((v, end)) => Ok((FieldV::SEUserTimeStamp(v), end)),
        },
        SEOutputDataId::SEFrameRate => match spec_parse_f64(b, pos) {
            Err(e) => Err(e),
            Ok((v, end)) => Ok((FieldV::SEFrameRate(v), end)),
        },
        SEOutputDataId::SECameraPositions => match spec_parse_vector(b, pos, DEPTH_LIMIT as nat) {
            Err(e) => Err(e),
            Ok((v, end)) => Ok((FieldV::SECameraPositions(v), end)),
        },
        SEOutputDataId::SECameraRotations => match spec_parse_vector(b, pos, DEPTH_LIMIT as nat) {
            Err(e) => Err(e),
            Ok((v, end)) => Ok((FieldV::SECameraRotations(v), end)),
        },
        SEOutputDataId::SEUserDefinedData => match spec_parse_u64(b, pos) {
            Err(e) => Err(e),
            Ok((v, end)) => Ok((FieldV::SEUserDefinedData(v), end)),
        },
        SEOutputDataId::SERealTimeClock => match spec_parse_u64(b, pos) {
            Err(e) => Err(e),
            Ok((v, end)) => Ok((FieldV::SERealTimeClock(v), end)),
        },
        SEOutputDataId::SEKeyboardState => match spec_parse_string(b, pos) {
            Err(e) => Err(e),
            Ok((v, end)) => Ok((FieldV::SEKeyboardState(v), end)),
        },
        SEOutputDataId::SEASCIIKeyboardState => match spec_parse_u16(b, pos) {
            Err(e) => Err(e),
            Ok((v, end)) => Ok((FieldV::SEASCIIKeyboardState(v), end)),
        },
        SEOutputDataId::SEUserMarker => match spec_parse_user_marker(b, pos) {
            Err(e) => Err(e),
            Ok((v, end)) => Ok((FieldV::SEUserMarker(v), end)),
        },
        SEOutputDataId::SECameraClocks => match spec_parse_vector(b, pos, DEPTH_LIMIT as nat) {
            Err(e) => Err(e),
            Ok((v, end)) => Ok((FieldV::SECameraClocks(v), end)),
        },
        SEOutputDataId::SEHeadPosition => match spec_parse_point_3d(b, pos) {
            Err(e) => Err(e),
            Ok((v, end)) => Ok((FieldV::SEHeadPosition(v), end)),
        },
        SEOutputDataId::SEHeadPositionQ => match spec_parse_f64(b, pos) {
            Err(e) => Err(e),
            Ok((v, end)) => Ok((FieldV::SEHeadPositionQ(v), end)),
        },
        SEOutputDataId::SEHeadRotationRodrigues => match spec_parse_vect_3d(b, pos) {
            Err(e) => Err(e),
            Ok((v, end)) => Ok((FieldV::SEHeadRotationRodrigues(v), end)),
        },
        SEOutputDataId::SEHeadRotationQuaternion => match spec_parse_quaternion(b, pos) {
            Err(e) => Err(e),
            Ok((v, end)) => Ok((FieldV::SEHeadRotationQuaternion(v), end)),
        },
        SEOutputDataId::SEHeadLeftEarDirection => match spec_parse_vect_3d(b, pos) {
            Err(e) => Err(e),
            Ok((v, end)) => Ok((FieldV::SEHeadLeftEarDirection(v), end)),
        },
        SEOutputDataId::SEHeadUpDirection => match spec_parse_vect_3d(b, pos) {
            Err(e) => Err(e),
            Ok((v, end)) => Ok((FieldV::SEHeadUpDirection(v), end)),
        },
        SEOutputDataId::SEHeadNoseDirection => match spec_parse_vect_3d(b, pos) {
            Err(e) => Err(e),
            Ok((v, end)) => Ok((FieldV::SEHeadNoseDirection(v), end)),
        },
        _ => Err(DecodeError::UnknownField),
    }
}

/// The decode rules of one span of the field-id table.
pub open spec fn spec_field_group_b(id: SEOutputDataId, b: Seq<u8>, pos: int) -> Result<
    (FieldV, int),
    DecodeError,
> {
    match id {
        SEOutputDataId::SEHeadHeading => match spec_parse_f64(b, pos) {
            Err(e) => Err(e),
            Ok((v, end)) => Ok((FieldV::SEHeadHeading(v), end)),
        },
        SEOutputDataId::SEHeadPitch => match spec_parse_f64(b, pos) {
            Err(e) => Err(e),
            Ok((v, end)) => Ok((FieldV::SEHeadPitch(v), end)),
        },
        SEOutputDataId::SEHeadRoll => match spec_parse_f64(b, pos) {
            Err(e) => Err(e),
            Ok((v, end)) => Ok((FieldV::SEHeadRoll(v), end)),
        },
        SEOutputDataId::SEHeadRotationQ => match spec_parse_f64(b, pos) {
            Err(e) => Err(e),
            Ok((v, end)) => Ok((FieldV::SEHeadRotationQ(v), end)),
        },
        SEOutputDataId::SEGazeOrigin => match spec_parse_point_3d(b, pos) {
            Err(e) => Err(e),
            Ok((v, end)) => Ok((FieldV::SEGazeOrigin(v), end)),
        },
        SEOutputDataId::SELeftGazeOrigin => match spec_parse_point_3d(b, pos) {
            Err(e) => Err(e),
            Ok((v, end)) => Ok((FieldV::SELeftGazeOrigin(v), end)),
        },
        SEOutputDataId::SERightGazeOrigin => match spec_parse_point_3d(b, pos) {
            Err(e) => Err(e),
            Ok((v, end)) => Ok((FieldV::SERightGazeOrigin(v), end)),
        },
        SEOutputDataId::SEEyePosition => match spec_parse_point_3d(b, pos) {
            Err(e) => Err(e),
            Ok((v, end)) => Ok((FieldV::SEEyePosition(v), end)),
        },
        SEOutputDataId::SEGazeDirection => match spec_parse_vect_3d(b, pos) {
            Err(e) => Err(e),
            Ok((v, end)) => Ok((FieldV::SEGazeDirection(v), end)),
        },
        SEOutputDataId::SEGazeDirectionQ => match spec_parse_f64(b, pos) {
            Err(e) => Err(e),
            Ok((v, end)) => Ok((FieldV::SEGazeDirectionQ(v), end)),
        },
        SEOutputDataId::SELeftEyePosition => match spec_parse_point_3d(b, pos) {
            Err(e) => Err(e),
            Ok((v, end)) => Ok((FieldV::SELeftEyePosition(v), end)),
        },
        SEOutputDataId::SELeftGazeDirection => match spec_parse_vect_3d(b, pos) {
            Err(e) => Err(e),
            Ok((v, end)) => Ok((FieldV::SELeftGazeDirection(v), end)),
        },
        SEOutputDataId::SELeftGazeDirectionQ => match spec_parse_f64(b, pos) {
            Err(e) => Err(e),
            Ok((v, end)) => Ok((FieldV::SELeftGazeDirectionQ(v), end)),
        },
        SEOutputDataId::SERightEyePosition => match spec_parse_point_3d(b, pos) {
            Err(e) => Err(e),
            Ok((v, end)) => Ok((FieldV::SERightEyePosition(v), end)),
        },
        SEOutputDataId::SERightGazeDirection => match spec_parse_vect_3d(b, pos) {
            Err(e) => Err(e),
            Ok((v, end)) => Ok((FieldV::SERightGazeDirection(v), end)),
        },
        SEOutputDataId::SERightGazeDirectionQ => match spec_parse_f64(b, pos) {
            Err(e) => Err(e),
            Ok((v, end)) => Ok((FieldV::SERightGazeDirectionQ(v), end)),
        },
        SEOutputDataId::SEGazeHeading => match spec_parse_f64(b, pos) {
            Err(e) => Err(e),
            Ok((v, end)) => Ok((FieldV::SEGazeHeading(v), end)),
        },
        SEOutputDataId::SEGazePitch => match spec_parse_f64(b, pos) {
            Err(e) => Err(e),
            Ok((v, end)) => Ok((FieldV::SEGazePitch(v), end)),
        },
        SEOutputDataId::SELeftGazeHeading => match spec_parse_f64(b, pos) {
            Err(e) => Err(e),
            Ok((v, end)) => Ok((FieldV::SELeftGazeHeading(v), end)),
        },
        SEOutputDataId::SELeftGazePitch => match spec_parse_f64(b, pos) {
            Err(e) => Err(e),
            Ok((v, end)) => Ok((FieldV::SELeftGazePitch(v), end)),
        },
        _ => Err(DecodeError::UnknownField),
    }
}

/// The decode rules of one span of the field-id table.
pub open spec fn spec_field_group_c(id: SEOutputDataId, b: Seq<u8>, pos: int) -> Result<
    (FieldV, int),
    DecodeError,
> {
    match id {
        SEOutputDataId::SERightGazeHeading => match spec_parse_f64(b, pos) {
            Err(e) => Err(e),
            Ok((v, end)) => Ok((FieldV::SERightGazeHeading(v), end)),
        },
        SEOutputDataId::SERightGazePitch => match spec_parse_f64(b, pos) {
            Err(e) => Err(e),
            Ok((v, end)) => Ok((FieldV::SERightGazePitch(v), end)),
        },
        SEOutputDataId::SEFilteredGazeDirection => match spec_parse_vect_3d(b, pos) {
            Err(e) => Err(e),
            Ok((v, end)) => Ok((FieldV::SEFilteredGazeDirection(v), end)),
        },
        SEOutputDataId::SEFilteredGazeDirectionQ => match spec_parse_f64(b, pos) {
            Err(e) => Err(e),
            Ok((v, end)) => Ok((FieldV::SEFilteredGazeDirectionQ(v), end)),
        },
        SEOutputDataId::SEFilteredLeftGazeDirection => match spec_parse_vect_3d(b, pos) {
            Err(e) => Err(e),
            Ok((v, end)) => Ok((FieldV::SEFilteredLeftGazeDirection(v), end)),
        },
        SEOutputDataId::SEFilteredLeftGazeDirectionQ => match spec_parse_f64(b, pos) {
            Err(e) => Err(e),
            Ok((v, end)) => Ok((FieldV::SEFilteredLeftGazeDirectionQ(v), end)),
        },
        SEOutputDataId::SEFilteredRightGazeDirection => match spec_parse_vect_3d(b, pos) {
            Err(e) => Err(e),
            Ok((v, end)) => Ok((FieldV::SEFilteredRightGazeDirection(v), end)),
        },
        SEOutputDataId::SEFilteredRightGazeDirectionQ => match spec_parse_f64(b, pos) {
            Err(e) => Err(e),
            Ok((v, end)) => Ok((FieldV::SEFilteredRightGazeDirectionQ(v), end)),
        },
        SEOutputDataId::SEFilteredGazeHeading => match spec_parse_f64(b, pos) {
            Err(e) => Err(e),
            Ok((v, end)) => Ok((FieldV::SEFilteredGazeHeading(v), end)),
        },
        SEOutputDataId::SEFilteredGazePitch => match spec_parse_f64(b, pos) {
            Err(e) => Err(e),
            Ok((v, end)) => Ok((FieldV::SEFilteredGazePitch(v), end)),
        },
        SEOutputDataId::SEFilteredLeftGazeHeading => match spec_parse_f64(b, pos) {
            Err(e) => Err(e),
            Ok((v, end)) => Ok((FieldV::SEFilteredLeftGazeHeading(v), end)),
        },
        SEOutputDataId::SEFilteredLeftGazePitch => match spec_parse_f64(b, pos) {
            Err(e) => Err(e),
            Ok((v, end)) => Ok((FieldV::SEFilteredLeftGazePitch(v), end)),
        },
        SEOutputDataId::SEFilteredRightGazeHeading => match spec_parse_f64(b, pos) {
            Err(e) => Err(e),
            Ok((v, end)) => Ok((FieldV::SEFilteredRightGazeHeading(v), end)),
        },
        SEOutputDataId::SEFilteredRightGazePitch => match spec_parse_f64(b, pos) {
            Err(e) => Err(e),
            Ok((v, end)) => Ok((FieldV::SEFilteredRightGazePitch(v), end)),
        },
        SEOutputDataId::SESaccade => match spec_parse_u32(b, pos) {
            Err(e) => Err(e),
            Ok((v, end)) => Ok((FieldV::SESaccade(v), end)),
        },
        SEOutputDataId::SEFixation => match spec_parse_u32(b, pos) {
            Err(e) => Err(e),
            Ok((v, end)) => Ok((FieldV::SEFixation(v), end)),
        },
        SEOutputDataId::SEBlink => match spec_parse_u32(b, pos) {
            Err(e) => Err(e),
            Ok((v, end)) => Ok((FieldV::SEBlink(v), end)),
        },
        SEOutputDataId::SETrackingState => Err(DecodeError::NotImplemented),
        SEOutputDataId::SEEyeglassesStatus => Err(DecodeError::NotImplemented),
        SEOutputDataId::SEReflexReductionStateDEPRECATED => Err(DecodeError::NotImplemented),
        _ => Err(DecodeError::UnknownField),
    }
}

/// The decode rules of one span of the field-id table.
pub open spec fn spec_field_group_d(id: SEOutputDataId, b: Seq<u8>, pos: int) -> Result<
    (FieldV, int),
    DecodeError,
> {
    match id {
        SEOutputDataId::SELeftBlinkClosingMidTime => match spec_parse_u64(b, pos) {
            Err(e) => Err(e),
            Ok((v, end)) => Ok((FieldV::SELeftBlinkClosingMidTime(v), end)),
        },
        SEOutputDataId::SELeftBlinkOpeningMidTime => match spec_parse_u64(b, pos) {
            Err(e) => Err(e),
            Ok((v, end)) => Ok((FieldV::SELeftBlinkOpeningMidTime(v), end)),
        },
        SEOutputDataId::SELeftBlinkClosingAmplitude => match spec_parse_f64(b, pos) {
            Err(e) => Err(e),
            Ok((v, end)) => Ok((FieldV::SELeftBlinkClosingAmplitude(v), end)),
        },
        SEOutputDataId::SELeftBlinkOpeningAmplitude => match spec_parse_f64(b, pos) {
            Err(e) => Err(e),
            Ok((v, end)) => Ok((FieldV::SELeftBlinkOpeningAmplitude(v), end)),
        },
        SEOutputDataId::SELeftBlinkClosingSpeed => match spec_parse_f64(b, pos) {
            Err(e) => Err(e),
            Ok((v, end)) => Ok((FieldV::SELeftBlinkClosingSpeed(v), end)),
        },
        SEOutputDataId::SELeftBlinkOpeningSpeed => match spec_parse_f64(b, pos) {
            Err(e) => Err(e),
            Ok((v, end)) => Ok((FieldV::SELeftBlinkOpeningSpeed(v), end)),
        },
        SEOutputDataId::SERightBlinkClosingMidTime => match spec_parse_u64(b, pos) {
            Err(e) => Err(e),
            Ok((v, end)) => Ok((FieldV::SERightBlinkClosingMidTime(v), end)),
        },
        SEOutputDataId::SERightBlinkOpeningMidTime => match spec_parse_u64(b, pos) {
            Err(e) => Err(e),
            Ok((v, end)) => Ok((FieldV::SERightBlinkOpeningMidTime(v), end)),
        },
        SEOutputDataId::SERightBlinkClosingAmplitude => match spec_parse_f64(b, pos) {
            Err(e) => Err(e),
            Ok((v, end)) => Ok((FieldV::SERightBlinkClosingAmplitude(v), end)),
        },
        SEOutputDataId::SERightBlinkOpeningAmplitude => match spec_parse_f64(b, pos) {
            Err(e) => Err(e),
            Ok((v, end)) => Ok((FieldV::SERightBlinkOpeningAmplitude(v), end)),
        },
        SEOutputDataId::SERightBlinkClosingSpeed => match spec_parse_f64(b, pos) {
            Err(e) => Err(e),
            Ok((v, end)) => Ok((FieldV::SERightBlinkClosingSpeed(v), end)),
        },
        SEOutputDataId::SERightBlinkOpeningSpeed => match spec_parse_f64(b, pos) {
            Err(e) => Err(e),
            Ok((v, end)) => Ok((FieldV::SERightBlinkOpeningSpeed(v), end)),
        },
        SEOutputDataId::SEClosestWorldIntersection => match spec_parse_world_intersection(b, pos) {
            Err(e) => Err(e),
            Ok((v, end)) => Ok((FieldV::SEClosestWorldIntersection(v), end)),
        },
        SEOutputDataId::SEFilteredClosestWorldIntersection => match spec_parse_world_intersection(b, pos) {
            Err(e) => Err(e),
            Ok((v, end)) => Ok((FieldV::SEFilteredClosestWorldIntersection(v), end)),
        },
        SEOutputDataId::SEAllWorldIntersections => match spec_parse_world_intersections(b, pos) {
            Err(e) => Err(e),
            Ok((v, end)) => Ok((FieldV::SEAllWorldIntersections(v), end)),
        },
        SEOutputDataId::SEFilteredAllWorldIntersections => match spec_parse_world_intersections(b, pos) {
            Err(e) => Err(e),
            Ok((v, end)) => Ok((FieldV::SEFilteredAllWorldIntersections(v), end)),
        },
        SEOutputDataId::SEZoneId => match spec_parse_u16(b, pos) {
            Err(e) => Err(e),
            Ok((v, end)) => Ok((FieldV::SEZoneId(v), end)),
        },
        SEOutputDataId::SEEstimatedClosestWorldIntersection => match spec_parse_world_intersection(b, pos) {
            Err(e) => Err(e),
            Ok((v, end)) => Ok((FieldV::SEEstimatedClosestWorldIntersection(v), end)),
        },
        SEOutputDataId::SEEstimatedAllWorldIntersections => match spec_parse_world_intersections(b, pos) {
            Err(e) => Err(e),
            Ok((v, end)) => Ok((FieldV::SEEstimatedAllWorldIntersections(v), end)),
        },
        SEOutputDataId::SEHeadClosestWorldIntersection => match spec_parse_world_intersection(b, pos) {
            Err(e) => Err(e),
            Ok((v, end)) => Ok((FieldV::SEHeadClosestWorldIntersection(v), end)),
        },
        _ => Err(DecodeError::UnknownField),
    }
}

/// The decode rules of one span of the field-id table.
pub open spec fn spec_field_group_e(id: SEOutputDataId, b: Seq<u8>, pos: int) -> Result<
    (FieldV, int),
    DecodeError,
> {
    match id {
        SEOutputDataId::SEHeadAllWorldIntersections => match spec_parse_world_intersections(b, pos) {
            Err(e) => Err(e),
            Ok((v, end)) => Ok((FieldV::SEHeadAllWorldIntersections(v), end)),
        },
        SEOutputDataId::SECalibrationGazeIntersection => match spec_parse_world_intersection(b, pos) {
            Err(e) => Err(e),
            Ok((v, end)) => Ok((FieldV::SECalibrationGazeIntersection(v), end)),
        },
        SEOutputDataId::SETaggedGazeIntersection => match spec_parse_world_intersection(b, pos) {
            Err(e) => Err(e),
            Ok((v, end)) => Ok((FieldV::SETaggedGazeIntersection(v), end)),
        },
        SEOutputDataId::SELeftClosestWorldIntersection => match spec_parse_world_intersection(b, pos) {
            Err(e) => Err(e),
            Ok((v, end)) => Ok((FieldV::SELeftClosestWorldIntersection(v), end)),
        },
        SEOutputDataId::SELeftAllWorldIntersections => match spec_parse_world_intersections(b, pos) {
            Err(e) => Err(e),
            Ok((v, end)) => Ok((FieldV::SELeftAllWorldIntersections(v), end)),
        },
        SEOutputDataId::SERightClosestWorldIntersection => match spec_parse_world_intersection(b, pos) {
            Err(e) => Err(e),
            Ok((v, end)) => Ok((FieldV::SERightClosestWorldIntersection(v), end)),
        },
        SEOutputDataId::SERightAllWorldIntersections => match spec_parse_world_intersections(b, pos) {
            Err(e) => Err(e),
            Ok((v, end)) => Ok((FieldV::SERightAllWorldIntersections(v), end)),
        },
        SEOutputDataId::SEFilteredLeftClosestWorldIntersection => match spec_parse_world_intersection(b, pos) {
            Err(e) => Err(e),
            Ok((v, end)) => Ok((FieldV::SEFilteredLeftClosestWorldIntersection(v), end)),
        },
        SEOutputDataId::SEFilteredLeftAllWorldIntersections => match spec_parse_world_intersections(b, pos) {
            Err(e) => Err(e),
            Ok((v, end)) => Ok((FieldV::SEFilteredLeftAllWorldIntersections(v), end)),
        },
        SEOutputDataId::SEFilteredRightClosestWorldIntersection => match spec_parse_world_intersection(b, pos) {
            Err(e) => Err(e),
            Ok((v, end)) => Ok((FieldV::SEFilteredRightClosestWorldIntersection(v), end)),
        },
        SEOutputDataId::SEFilteredRightAllWorldIntersections => match spec_parse_world_intersections(b, pos) {
            Err(e) => Err(e),
            Ok((v, end)) => Ok((FieldV::SEFilteredRightAllWorldIntersections(v), end)),
        },
        SEOutputDataId::SEEstimatedLeftClosestWorldIntersection => match spec_parse_world_intersection(b, pos) {
            Err(e) => Err(e),
            Ok((v, end)) => Ok((FieldV::SEEstimatedLeftClosestWorldIntersection(v), end)),
        },
        SEOutputDataId::SEEstimatedLeftAllWorldIntersections => match spec_parse_world_intersections(b, pos) {
            Err(e) => Err(e),
            Ok((v, end)) => Ok((FieldV::SEEstimatedLeftAllWorldIntersections(v), end)),
        },
        SEOutputDataId::SEEstimatedRightClosestWorldIntersection => match spec_parse_world_intersection(b, pos) {
            Err(e) => Err(e),
            Ok((v, end)) => Ok((FieldV::SEEstimatedRightClosestWorldIntersection(v), end)),
        },
        SEOutputDataId::SEEstimatedRightAllWorldIntersections => match spec_parse_world_intersections(b, pos) {
            Err(e) => Err(e),
            Ok((v, end)) => Ok((FieldV::SEEstimatedRightAllWorldIntersections(v), end)),
        },
        SEOutputDataId::SEFilteredEstimatedClosestWorldIntersection => match spec_parse_world_intersection(b, pos) {
            Err(e) => Err(e),
            Ok((v, end)) => Ok((FieldV::SEFilteredEstimatedClosestWorldIntersection(v), end)),
        },
        SEOutputDataId::SEFilteredEstimatedAllWorldIntersections => match spec_parse_world_intersections(b, pos) {
            Err(e) => Err(e),
            Ok((v, end)) => Ok((FieldV::SEFilteredEstimatedAllWorldIntersections(v), end)),
        },
        SEOutputDataId::SEFilteredEstimatedLeftClosestWorldIntersection => match spec_parse_world_intersection(b, pos) {
            Err(e) => Err(e),
            Ok((v, end)) => Ok((FieldV::SEFilteredEstimatedLeftClosestWorldIntersection(v), end)),
        },
        SEOutputDataId::SEFilteredEstimatedLeftAllWorldIntersections => match spec_parse_world_intersections(b, pos) {
            Err(e) => Err(e),
            Ok((v, end)) => Ok((FieldV::SEFilteredEstimatedLeftAllWorldIntersections(v), end)),
        },
        SEOutputDataId::SEFilteredEstimatedRightClosestWorldIntersection => match spec_parse_world_intersection(b, pos) {
            Err(e) => Err(e),
            Ok((v, end)) => Ok((FieldV::SEFilteredEstimatedRightClosestWorldIntersection(v), end)),
        },
        _ => Err(DecodeError::UnknownField),
    }
}

/// The decode rules of one span of the field-id table.
pub open spec fn spec_field_group_f(id: SEOutputDataId, b: Seq<u8>, pos: int) -> Result<
    (FieldV, int),
    DecodeError,
> {
    match id {
        SEOutputDataId::SEFilteredEstimatedRightAllWorldIntersections => match spec_parse_world_intersections(b, pos) {
            Err(e) => Err(e),
            Ok((v, end)) => Ok((FieldV::SEFilteredEstimatedRightAllWorldIntersections(v), end)),
        },
        SEOutputDataId::SEEyelidOpening => match spec_parse_f64(b, pos) {
            Err(e) => Err(e),
            Ok((v, end)) => Ok((FieldV::SEEyelidOpening(v), end)),
        },
        SEOutputDataId::SEEyelidOpeningQ => match spec_parse_f64(b, pos) {
            Err(e) => Err(e),
            Ok((v, end)) => Ok((FieldV::SEEyelidOpeningQ(v), end)),
        },
        SEOutputDataId::SELeftEyelidOpening => match spec_parse_f64(b, pos) {
            Err(e) => Err(e),
            Ok((v, end)) => Ok((FieldV::SELeftEyelidOpening(v), end)),
        },
        SEOutputDataId::SELeftEyelidOpeningQ => match spec_parse_f64(b, pos) {
            Err(e) => Err(e),
            Ok((v, end)) => Ok((FieldV::SELeftEyelidOpeningQ(v), end)),
        },
        SEOutputDataId::SERightEyelidOpening => match spec_parse_f64(b, pos) {
            Err(e) => Err(e),
            Ok((v, end)) => Ok((FieldV::SERightEyelidOpening(v), end)),
        },
        SEOutputDataId::SERightEyelidOpeningQ => match spec_parse_f64(b, pos) {
            Err(e) => Err(e),
            Ok((v, end)) => Ok((FieldV::SERightEyelidOpeningQ(v), end)),
        },
        SEOutputDataId::SELeftLowerEyelidExtremePoint => match spec_parse_point_3d(b, pos) {
            Err(e) => Err(e),
            Ok((v, end)) => Ok((FieldV::SELeftLowerEyelidExtremePoint(v), end)),
        },
        SEOutputDataId::SELeftUpperEyelidExtremePoint => match spec_parse_point_3d(b, pos) {
            Err(e) => Err(e),
            Ok((v, end)) => Ok((FieldV::SELeftUpperEyelidExtremePoint(v), end)),
        },
        SEOutputDataId::SERightLowerEyelidExtremePoint => match spec_parse_point_3d(b, pos) {
            Err(e) => Err(e),
            Ok((v, end)) => Ok((FieldV::SERightLowerEyelidExtremePoint(v), end)),
        },
        SEOutputDataId::SERightUpperEyelidExtremePoint => match spec_parse_point_3d(b, pos) {
            Err(e) => Err(e),
            Ok((v, end)) => Ok((FieldV::SERightUpperEyelidExtremePoint(v), end)),
        },
        SEOutputDataId::SELeftEyelidState => match spec_parse_u8(b, pos) {
            Err(e) => Err(e),
            Ok((v, end)) => Ok((FieldV::SELeftEyelidState(v), end)),
        },
        SEOutputDataId::SERightEyelidState => match spec_parse_u8(b, pos) {
            Err(e) => Err(e),
            Ok((v, end)) => Ok((FieldV::SERightEyelidState(v), end)),
        },
        SEOutputDataId::SEPupilDiameter => match spec_parse_f64(b, pos) {
            Err(e) => Err(e),
            Ok((v, end)) => Ok((FieldV::SEPupilDiameter(v), end)),
        },
        SEOutputDataId::SEPupilDiameterQ => match spec_parse_f64(b, pos) {
            Err(e) => Err(e),
            Ok((v, end)) => Ok((FieldV::SEPupilDiameterQ(v), end)),
        },
        SEOutputDataId::SELeftPupilDiameter => match spec_parse_f64(b, pos) {
            Err(e) => Err(e),
            Ok((v, end)) => Ok((FieldV::SELeftPupilDiameter(v), end)),
        },
        SEOutputDataId::SELeftPupilDiameterQ => match spec_parse_f64(b, pos) {
            Err(e) => Err(e),
            Ok((v, end)) => Ok((FieldV::SELeftPupilDiameterQ(v), end)),
        },
        SEOutputDataId::SERightPupilDiameter => match spec_parse_f64(b, pos) {
            Err(e) => Err(e),
            Ok((v, end)) => Ok((FieldV::SERightPupilDiameter(v), end)),
        },
        SEOutputDataId::SERightPupilDiameterQ => match spec_parse_f64(b, pos) {
            Err(e) => Err(e),
            Ok((v, end)) => Ok((FieldV::SERightPupilDiameterQ(v), end)),
        },
        SEOutputDataId::SEFilteredPupilDiameter => match spec_parse_f64(b, pos) {
            Err(e) => Err(e),
            Ok((v, end)) => Ok((FieldV::SEFilteredPupilDiameter(v), end)),
        },
        _ => Err(DecodeError::UnknownField),
    }
}

/// The decode rules of one span of the field-id table.
pub open spec fn spec_field_group_g(id: SEOutputDataId, b: Seq<u8>, pos: int) -> Result<
    (FieldV, int),
    DecodeError,
> {
    match id {
        SEOutputDataId::SEFilteredPupilDiameterQ => match spec_parse_f64(b, pos) {
            Err(e) => Err(e),
            Ok((v, end)) => Ok((FieldV::SEFilteredPupilDiameterQ(v), end)),
        },
        SEOutputDataId::SEFilteredLeftPupilDiameter => match spec_parse_f64(b, pos) {
            Err(e) => Err(e),
            Ok((v, end)) => Ok((FieldV::SEFilteredLeftPupilDiameter(v), end)),
        },
        SEOutputDataId::SEFilteredLeftPupilDiameterQ => match spec_parse_f64(b, pos) {
            Err(e) => Err(e),
            Ok((v, end)) => Ok((FieldV::SEFilteredLeftPupilDiameterQ(v), end)),
        },
        SEOutputDataId::SEFilteredRightPupilDiameter => match spec_parse_f64(b, pos) {
            Err(e) => Err(e),
            Ok((v, end)) => Ok((FieldV::SEFilteredRightPupilDiameter(v), end)),
        },
        SEOutputDataId::SEFilteredRightPupilDiameterQ => match spec_parse_f64(b, pos) {
            Err(e) => Err(e),
            Ok((v, end)) => Ok((FieldV::SEFilteredRightPupilDiameterQ(v), end)),
        },
        SEOutputDataId::SEGPSPosition => match spec_parse_point_2d(b, pos) {
            Err(e) => Err(e),
            Ok((v, end)) => Ok((FieldV::SEGPSPosition(v), end)),
        },
        SEOutputDataId::SEGPSGroundSpeed => match spec_parse_f64(b, pos) {
            Err(e) => Err(e),
            Ok((v, end)) => Ok((FieldV::SEGPSGroundSpeed(v), end)),
        },
        SEOutputDataId::SEGPSCourse => match spec_parse_f64(b, pos) {
            Err(e) => Err(e),
            Ok((v, end)) => Ok((FieldV::SEGPSCourse(v), end)),
        },
        SEOutputDataId::SEGPSTime => match spec_parse_u64(b, pos) {
            Err(e) => Err(e),
            Ok((v, end)) => Ok((FieldV::SEGPSTime(v), end)),
        },
        SEOutputDataId::SEEstimatedGazeOrigin => match spec_parse_point_3d(b, pos) {
            Err(e) => Err(e),
            Ok((v, end)) => Ok((FieldV::SEEstimatedGazeOrigin(v), end)),
        },
        SEOutputDataId::SEEstimatedLeftGazeOrigin => match spec_parse_point_3d(b, pos) {
            Err(e) => Err(e),
            Ok((v, end)) => Ok((FieldV::SEEstimatedLeftGazeOrigin(v), end)),
        },
        SEOutputDataId::SEEstimatedRightGazeOrigin => match spec_parse_point_3d(b, pos) {
            Err(e) => Err(e),
            Ok((v, end)) => Ok((FieldV::SEEstimatedRightGazeOrigin(v), end)),
        },
        SEOutputDataId::SEEstimatedEyePosition => match spec_parse_point_3d(b, pos) {
            Err(e) => Err(e),
            Ok((v, end)) => Ok((FieldV::SEEstimatedEyePosition(v), end)),
        },
        SEOutputDataId::SEEstimatedGazeDirection => match spec_parse_vect_3d(b, pos) {
            Err(e) => Err(e),
            Ok((v, end)) => Ok((FieldV::SEEstimatedGazeDirection(v), end)),
        },
        SEOutputDataId::SEEstimatedGazeDirectionQ => match spec_parse_f64(b, pos) {
            Err(e) => Err(e),
            Ok((v, end)) => Ok((FieldV::SEEstimatedGazeDirectionQ(v), end)),
        },
        SEOutputDataId::SEEstimatedGazeHeading => match spec_parse_f64(b, pos) {
            Err(e) => Err(e),
            Ok((v, end)) => Ok((FieldV::SEEstimatedGazeHeading(v), end)),
        },
        SEOutputDataId::SEEstimatedGazePitch => match spec_parse_f64(b, pos) {
            Err(e) => Err(e),
            Ok((v, end)) => Ok((FieldV::SEEstimatedGazePitch(v), end)),
        },
        SEOutputDataId::SEEstimatedLeftEyePosition => match spec_parse_point_3d(b, pos) {
            Err(e) => Err(e),
            Ok((v, end)) => Ok((FieldV::SEEstimatedLeftEyePosition(v), end)),
        },
        SEOutputDataId::SEEstimatedLeftGazeDirection => match spec_parse_vect_3d(b, pos) {
            Err(e) => Err(e),
            Ok((v, end)) => Ok((FieldV::SEEstimatedLeftGazeDirection(v), end)),
        },
        SEOutputDataId::SEEstimatedLeftGazeDirectionQ => match spec_parse_f64(b, pos) {
            Err(e) => Err(e),
            Ok((v, end)) => Ok((FieldV::SEEstimatedLeftGazeDirectionQ(v), end)),
        },
        _ => Err(DecodeError::UnknownField),
    }
}

/// The decode rules of one span of the field-id table.
pub open spec fn spec_field_group_h(id: SEOutputDataId, b: Seq<u8>, pos: int) -> Result<
    (FieldV, int),
    DecodeError,
> {
    match id {
        SEOutputDataId::SEEstimatedLeftGazeHeading => match spec_parse_f64(b, pos) {
            Err(e) => Err(e),
            Ok((v, end)) => Ok((FieldV::SEEstimatedLeftGazeHeading(v), end)),
        },
        SEOutputDataId::SEEstimatedLeftGazePitch => match spec_parse_f64(b, pos) {
            Err(e) => Err(e),
            Ok((v, end)) => Ok((FieldV::SEEstimatedLeftGazePitch(v), end)),
        },
        SEOutputDataId::SEEstimatedRightEyePosition => match spec_parse_point_3d(b, pos) {
            Err(e) => Err(e),
            Ok((v, end)) => Ok((FieldV::SEEstimatedRightEyePosition(v), end)),
        },
        SEOutputDataId::SEEstimatedRightGazeDirection => match spec_parse_vect_3d(b, pos) {
            Err(e) => Err(e),
            Ok((v, end)) => Ok((FieldV::SEEstimatedRightGazeDirection(v), end)),
        },
        SEOutputDataId::SEEstimatedRightGazeDirectionQ => match spec_parse_f64(b, pos) {
            Err(e) => Err(e),
            Ok((v, end)) => Ok((FieldV::SEEstimatedRightGazeDirectionQ(v), end)),
        },
        SEOutputDataId::SEEstimatedRightGazeHeading => match spec_parse_f64(b, pos) {
            Err(e) => Err(e),
            Ok((v, end)) => Ok((FieldV::SEEstimatedRightGazeHeading(v), end)),
        },
        SEOutputDataId::SEEstimatedRightGazePitch => match spec_parse_f64(b, pos) {
            Err(e) => Err(e),
            Ok((v, end)) => Ok((FieldV::SEEstimatedRightGazePitch(v), end)),
        },
        SEOutputDataId::SEFilteredEstimatedGazeDirection => match spec_parse_vect_3d(b, pos) {
            Err(e) => Err(e),
            Ok((v, end)) => Ok((FieldV::SEFilteredEstimatedGazeDirection(v), end)),
        },
        SEOutputDataId::SEFilteredEstimatedGazeDirectionQ => match spec_parse_f64(b, pos) {
            Err(e) => Err(e),
            Ok((v, end)) => Ok((FieldV::SEFilteredEstimatedGazeDirectionQ(v), end)),
        },
        SEOutputDataId::SEFilteredEstimatedGazeHeading => match spec_parse_f64(b, pos) {
            Err(e) => Err(e),
            Ok((v, end)) => Ok((FieldV::SEFilteredEstimatedGazeHeading(v), end)),
        },
        SEOutputDataId::SEFilteredEstimatedGazePitch => match spec_parse_f64(b, pos) {
            Err(e) => Err(e),
            Ok((v, end)) => Ok((FieldV::SEFilteredEstimatedGazePitch(v), end)),
        },
        SEOutputDataId::SEFilteredEstimatedLeftGazeDirection => match spec_parse_vect_3d(b, pos) {
            Err(e) => Err(e),
            Ok((v, end)) => Ok((FieldV::SEFilteredEstimatedLeftGazeDirection(v), end)),
        },
        SEOutputDataId::SEFilteredEstimatedLeftGazeDirectionQ => match spec_parse_f64(b, pos) {
            Err(e) => Err(e),
            Ok((v, end)) => Ok((FieldV::SEFilteredEstimatedLeftGazeDirectionQ(v), end)),
        },
        SEOutputDataId::SEFilteredEstimatedLeftGazeHeading => match spec_parse_f64(b, pos) {
            Err(e) => Err(e),
            Ok((v, end)) => Ok((FieldV::SEFilteredEstimatedLeftGazeHeading(v), end)),
        },
        SEOutputDataId::SEFilteredEstimatedLeftGazePitch => match spec_parse_f64(b, pos) {
            Err(e) => Err(e),
            Ok((v, end)) => Ok((FieldV::SEFilteredEstimatedLeftGazePitch(v), end)),
        },
        SEOutputDataId::SEFilteredEstimatedRightGazeDirection => match spec_parse_vect_3d(b, pos) {
            Err(e) => Err(e),
            Ok((v, end)) => Ok((FieldV::SEFilteredEstimatedRightGazeDirection(v), end)),
        },
        SEOutputDataId::SEFilteredEstimatedRightGazeDirectionQ => match spec_parse_f64(b, pos) {
            Err(e) => Err(e),
            Ok((v, end)) => Ok((FieldV::SEFilteredEstimatedRightGazeDirectionQ(v), end)),
        },
        SEOutputDataId::SEFilteredEstimatedRightGazeHeading => match spec_parse_f64(b, pos) {
            Err(e) => Err(e),
            Ok((v, end)) => Ok((FieldV::SEFilteredEstimatedRightGazeHeading(v), end)),
        },
        SEOutputDataId::SEFilteredEstimatedRightGazePitch => match spec_parse_f64(b, pos) {
            Err(e) => Err(e),
            Ok((v, end)) => Ok((FieldV::SEFilteredEstimatedRightGazePitch(v), end)),
        },
        _ => Err(DecodeError::UnknownField),
    }
}

/// The decode rule of the dispatch table: what one field id's payload
/// holds, decoded from `pos`. Reserved ids fail, never silently skipped.
#[verifier::opaque]
pub open spec fn spec_parse_field(id: SEOutputDataId, b: Seq<u8>, pos: int) -> Result<
    (FieldV, int),
    DecodeError,
> {
    match id {
        SEOutputDataId::SEFrameNumber | SEOutputDataId::SEEstimatedDelay | SEOutputDataId::SETimeStamp | SEOutputDataId::SEUserTimeStamp | SEOutputDataId::SEFrameRate | SEOutputDataId::SECameraPositions | SEOutputDataId::SECameraRotations | SEOutputDataId::SEUserDefinedData | SEOutputDataId::SERealTimeClock | SEOutputDataId::SEKeyboardState | SEOutputDataId::SEASCIIKeyboardState | SEOutputDataId::SEUserMarker | SEOutputDataId::SECameraClocks | SEOutputDataId::SEHeadPosition | SEOutputDataId::SEHeadPositionQ | SEOutputDataId::SEHeadRotationRodrigues | SEOutputDataId::SEHeadRotationQuaternion | SEOutputDataId::SEHeadLeftEarDirection | SEOutputDataId::SEHeadUpDirection | SEOutputDataId::SEHeadNoseDirection => spec_field_group_a(id, b, pos),
        SEOutputDataId::SEHeadHeading | SEOutputDataId::SEHeadPitch | SEOutputDataId::SEHeadRoll | SEOutputDataId::SEHeadRotationQ | SEOutputDataId::SEGazeOrigin | SEOutputDataId::SELeftGazeOrigin | SEOutputDataId::SERightGazeOrigin | SEOutputDataId::SEEyePosition | SEOutputDataId::SEGazeDirection | SEOutputDataId::SEGazeDirectionQ | SEOutputDataId::SELeftEyePosition | SEOutputDataId::SELeftGazeDirection | SEOutputDataId::SELeftGazeDirectionQ | SEOutputDataId::SERightEyePosition | SEOutputDataId::SERightGazeDirection | SEOutputDataId::SERightGazeDirectionQ | SEOutputDataId::SEGazeHeading | SEOutputDataId::SEGazePitch | SEOutputDataId::SELeftGazeHeading | SEOutputDataId::SELeftGazePitch => spec_field_group_b(id, b, pos),
        SEOutputDataId::SERightGazeHeading | SEOutputDataId::SERightGazePitch | SEOutputDataId::SEFilteredGazeDirection | SEOutputDataId::SEFilteredGazeDirectionQ | SEOutputDataId::SEFilteredLeftGazeDirection | SEOutputDataId::SEFilteredLeftGazeDirectionQ | SEOutputDataId::SEFilteredRightGazeDirection | SEOutputDataId::SEFilteredRightGazeDirectionQ | SEOutputDataId::SEFilteredGazeHeading | SEOutputDataId::SEFilteredGazePitch | SEOutputDataId::SEFilteredLeftGazeHeading | SEOutputDataId::SEFilteredLeftGazePitch | SEOutputDataId::SEFilteredRightGazeHeading | SEOutputDataId::SEFilteredRightGazePitch | SEOutputDataId::SESaccade | SEOutputDataId::SEFixation | SEOutputDataId::SEBlink | SEOutputDataId::SETrackingState | SEOutputDataId::SEEyeglassesStatus | SEOutputDataId::SEReflexReductionStateDEPRECATED => spec_field_group_c(id, b, pos),
        SEOutputDataId::SELeftBlinkClosingMidTime | SEOutputDataId::SELeftBlinkOpeningMidTime | SEOutputDataId::SELeftBlinkClosingAmplitude | SEOutputDataId::SELeftBlinkOpeningAmplitude | SEOutputDataId::SELeftBlinkClosingSpeed | SEOutputDataId::SELeftBlinkOpeningSpeed | SEOutputDataId::SERightBlinkClosingMidTime | SEOutputDataId::SERightBlinkOpeningMidTime | SEOutputDataId::SERightBlinkClosingAmplitude | SEOutputDataId::SERightBlinkOpeningAmplitude | SEOutputDataId::SERightBlinkClosingSpeed | SEOutputDataId::SERightBlinkOpeningSpeed | SEOutputDataId::SEClosestWorldIntersection | SEOutputDataId::SEFilteredClosestWorldIntersection | SEOutputDataId::SEAllWorldIntersections | SEOutputDataId::SEFilteredAllWorldIntersections | SEOutputDataId::SEZoneId | SEOutputDataId::SEEstimatedClosestWorldIntersection | SEOutputDataId::SEEstimatedAllWorldIntersections | SEOutputDataId::SEHeadClosestWorldIntersection => spec_field_group_d(id, b, pos),
        SEOutputDataId::SEHeadAllWorldIntersections | SEOutputDataId::SECalibrationGazeIntersection | SEOutputDataId::SETaggedGazeIntersection | SEOutputDataId::SELeftClosestWorldIntersection | SEOutputDataId::SELeftAllWorldIntersections | SEOutputDataId::SERightClosestWorldIntersection | SEOutputDataId::SERightAllWorldIntersections | SEOutputDataId::SEFilteredLeftClosestWorldIntersection | SEOutputDataId::SEFilteredLeftAllWorldIntersections | SEOutputDataId::SEFilteredRightClosestWorldIntersection | SEOutputDataId::SEFilteredRightAllWorldIntersections | SEOutputDataId::SEEstimatedLeftClosestWorldIntersection | SEOutputDataId::SEEstimatedLeftAllWorldIntersections | SEOutputDataId::SEEstimatedRightClosestWorldIntersection | SEOutputDataId::SEEstimatedRightAllWorldIntersections | SEOutputDataId::SEFilteredEstimatedClosestWorldIntersection | SEOutputDataId::SEFilteredEstimatedAllWorldIntersections | SEOutputDataId::SEFilteredEstimatedLeftClosestWorldIntersection | SEOutputDataId::SEFilteredEstimatedLeftAllWorldIntersections | SEOutputDataId::SEFilteredEstimatedRightClosestWorldIntersection => spec_field_group_e(id, b, pos),
        SEOutputDataId::SEFilteredEstimatedRightAllWorldIntersections | SEOutputDataId::SEEyelidOpening | SEOutputDataId::SEEyelidOpeningQ | SEOutputDataId::SELeftEyelidOpening | SEOutputDataId::SELeftEyelidOpeningQ | SEOutputDataId::SERightEyelidOpening | SEOutputDataId::SERightEyelidOpeningQ | SEOutputDataId::SELeftLowerEyelidExtremePoint | SEOutputDataId::SELeftUpperEyelidExtremePoint | SEOutputDataId::SERightLowerEyelidExtremePoint | SEOutputDataId::SERightUpperEyelidExtremePoint | SEOutputDataId::SELeftEyelidState | SEOutputDataId::SERightEyelidState | SEOutputDataId::SEPupilDiameter | SEOutputDataId::SEPupilDiameterQ | SEOutputDataId::SELeftPupilDiameter | SEOutputDataId::SELeftPupilDiameterQ | SEOutputDataId::SERightPupilDiameter | SEOutputDataId::SERightPupilDiameterQ | SEOutputDataId::SEFilteredPupilDiameter => spec_field_group_f(id, b, pos),
        SEOutputDataId::SEFilteredPupilDiameterQ | SEOutputDataId::SEFilteredLeftPupilDiameter | SEOutputDataId::SEFilteredLeftPupilDiameterQ | SEOutputDataId::SEFilteredRightPupilDiameter | SEOutputDataId::SEFilteredRightPupilDiameterQ | SEOutputDataId::SEGPSPosition | SEOutputDataId::SEGPSGroundSpeed | SEOutputDataId::SEGPSCourse | SEOutputDataId::SEGPSTime | SEOutputDataId::SEEstimatedGazeOrigin | SEOutputDataId::SEEstimatedLeftGazeOrigin | SEOutputDataId::SEEstimatedRightGazeOrigin | SEOutputDataId::SEEstimatedEyePosition | SEOutputDataId::SEEstimatedGazeDirection | SEOutputDataId::SEEstimatedGazeDirectionQ | SEOutputDataId::SEEstimatedGazeHeading | SEOutputDataId::SEEstimatedGazePitch | SEOutputDataId::SEEstimatedLeftEyePosition | SEOutputDataId::SEEstimatedLeftGazeDirection | SEOutputDataId::SEEstimatedLeftGazeDirectionQ => spec_field_group_g(id, b, pos),
        SEOutputDataId::SEEstimatedLeftGazeHeading | SEOutputDataId::SEEstimatedLeftGazePitch | SEOutputDataId::SEEstimatedRightEyePosition | SEOutputDataId::SEEstimatedRightGazeDirection | SEOutputDataId::SEEstimatedRightGazeDirectionQ | SEOutputDataId::SEEstimatedRightGazeHeading | SEOutputDataId::SEEstimatedRightGazePitch | SEOutputDataId::SEFilteredEstimatedGazeDirection | SEOutputDataId::SEFilteredEstimatedGazeDirectionQ | SEOutputDataId::SEFilteredEstimatedGazeHeading | SEOutputDataId::SEFilteredEstimatedGazePitch | SEOutputDataId::SEFilteredEstimatedLeftGazeDirection | SEOutputDataId::SEFilteredEstimatedLeftGazeDirectionQ | SEOutputDataId::SEFilteredEstimatedLeftGazeHeading | SEOutputDataId::SEFilteredEstimatedLeftGazePitch | SEOutputDataId::SEFilteredEstimatedRightGazeDirection | SEOutputDataId::SEFilteredEstimatedRightGazeDirectionQ | SEOutputDataId::SEFilteredEstimatedRightGazeHeading | SEOutputDataId::SEFilteredEstimatedRightGazePitch => spec_field_group_h(id, b, pos),
    }
}

} // verus!
