//! Error types and the mapping from raw SDK status codes to them.
//!
//! Every ASI camera call returns an `ASI_ERROR_CODE` and every EFW filter-wheel
//! call an `EFW_ERROR_CODE`; `0` is success in both. [`asi_check`] and
//! [`efw_check`] turn such a code into a `Result`, keeping codes outside the
//! known tables as `Unknown`.
use vstd::prelude::*;

verus! {

/// An ASI camera SDK error (`ASI_ERROR_CODE`, success excluded).
#[derive(Debug, Clone, Copy, PartialEq, Eq, Structural)]
pub enum AsiError {
    /// `ASI_ERROR_INVALID_INDEX` (1): no camera connected or index out of range.
    InvalidIndex,
    /// `ASI_ERROR_INVALID_ID` (2).
    InvalidId,
    /// `ASI_ERROR_INVALID_CONTROL_TYPE` (3).
    InvalidControlType,
    /// `ASI_ERROR_CAMERA_CLOSED` (4).
    CameraClosed,
    /// `ASI_ERROR_CAMERA_REMOVED` (5).
    CameraRemoved,
    /// `ASI_ERROR_INVALID_PATH` (6).
    InvalidPath,
    /// `ASI_ERROR_INVALID_FILEFORMAT` (7).
    InvalidFileFormat,
    /// `ASI_ERROR_INVALID_SIZE` (8): wrong video format size.
    InvalidSize,
    /// `ASI_ERROR_INVALID_IMGTYPE` (9).
    InvalidImgType,
    /// `ASI_ERROR_OUTOF_BOUNDARY` (10): start position out of boundary.
    OutOfBoundary,
    /// `ASI_ERROR_TIMEOUT` (11).
    Timeout,
    /// `ASI_ERROR_INVALID_SEQUENCE` (12).
    InvalidSequence,
    /// `ASI_ERROR_BUFFER_TOO_SMALL` (13).
    BufferTooSmall,
    /// `ASI_ERROR_VIDEO_MODE_ACTIVE` (14).
    VideoModeActive,
    /// `ASI_ERROR_EXPOSURE_IN_PROGRESS` (15).
    ExposureInProgress,
    /// `ASI_ERROR_GENERAL_ERROR` (16).
    GeneralError,
    /// `ASI_ERROR_INVALID_MODE` (17).
    InvalidMode,
    /// `ASI_ERROR_GPS_NOT_SUPPORTED` (18).
    GpsNotSupported,
    /// `ASI_ERROR_GPS_VER_ERR` (19).
    GpsVerErr,
    /// `ASI_ERROR_GPS_FPGA_ERR` (20).
    GpsFpgaErr,
    /// `ASI_ERROR_GPS_PARAM_OUT_OF_RANGE` (21).
    GpsParamOutOfRange,
    /// `ASI_ERROR_GPS_DATA_INVALID` (22).
    GpsDataInvalid,
    /// A code outside the known table; carries the raw value.
    Unknown(i32),
}

/// An EFW filter-wheel SDK error (`EFW_ERROR_CODE`, success excluded).
#[derive(Debug, Clone, Copy, PartialEq, Eq, Structural)]
pub enum EfwError {
    /// `EFW_ERROR_INVALID_INDEX` (1).
    InvalidIndex,
    /// `EFW_ERROR_INVALID_ID` (2).
    InvalidId,
    /// `EFW_ERROR_INVALID_VALUE` (3).
    InvalidValue,
    /// `EFW_ERROR_REMOVED` (4): the wheel was unplugged.
    Removed,
    /// `EFW_ERROR_MOVING` (5): the wheel is still moving.
    Moving,
    /// `EFW_ERROR_ERROR_STATE` (6).
    ErrorState,
    /// `EFW_ERROR_GENERAL_ERROR` (7).
    GeneralError,
    /// `EFW_ERROR_NOT_SUPPORTED` (8).
    NotSupported,
    /// `EFW_ERROR_CLOSED` (9).
    Closed,
    /// A code outside the known table; carries the raw value.
    Unknown(i32),
}

/// Any error surfaced by this crate.
#[derive(Debug, Clone, Copy, PartialEq, Eq, Structural)]
pub enum Error {
    /// An ASI camera error.
    Asi(AsiError),
    /// An EFW filter-wheel error.
    Efw(EfwError),
}

/// The SDK code of an ASI error (`Unknown(v)` stands for `v` itself).
pub open spec fn asi_error_code(e: AsiError) -> i32 {
    match e {
        AsiError::InvalidIndex => 1,
        AsiError::InvalidId => 2,
        AsiError::InvalidControlType => 3,
        AsiError::CameraClosed => 4,
        AsiError::CameraRemoved => 5,
        AsiError::InvalidPath => 6,
        AsiError::InvalidFileFormat => 7,
        AsiError::InvalidSize => 8,
        AsiError::InvalidImgType => 9,
        AsiError::OutOfBoundary => 10,
        AsiError::Timeout => 11,
        AsiError::InvalidSequence => 12,
        AsiError::BufferTooSmall => 13,
        AsiError::VideoModeActive => 14,
        AsiError::ExposureInProgress => 15,
        AsiError::GeneralError => 16,
        AsiError::InvalidMode => 17,
        AsiError::GpsNotSupported => 18,
        AsiError::GpsVerErr => 19,
        AsiError::GpsFpgaErr => 20,
        AsiError::GpsParamOutOfRange => 21,
        AsiError::GpsDataInvalid => 22,
        AsiError::Unknown(v) => v,
    }
}

/// Whether `code` is one of the ASI error codes with a variant of its own.
pub open spec fn is_known_asi_error_code(code: i32) -> bool {
    1 <= code <= 22
}

/// The SDK code of an EFW error (`Unknown(v)` stands for `v` itself).
pub open spec fn efw_error_code(e: EfwError) -> i32 {
    match e {
        EfwError::InvalidIndex => 1,
        EfwError::InvalidId => 2,
        EfwError::InvalidValue => 3,
        EfwError::Removed => 4,
        EfwError::Moving => 5,
        EfwError::ErrorState => 6,
        EfwError::GeneralError => 7,
        EfwError::NotSupported => 8,
        EfwError::Closed => 9,
        EfwError::Unknown(v) => v,
    }
}

/// Whether `code` is one of the EFW error codes with a variant of its own.
pub open spec fn is_known_efw_error_code(code: i32) -> bool {
    1 <= code <= 9
}

/// Map an ASI status code to `Ok(())` (code `0`) or the matching [`AsiError`].
pub fn asi_check(code: i32) -> (r: Result<(), Error>)
    ensures
        r is Ok <==> code == 0,
        r matches Err(err) ==> (err matches Error::Asi(e) && asi_error_code(e) == code && (
        e is Unknown <==> !is_known_asi_error_code(code))),
{
    let e = match code {
        0 => return Ok(()),
        1 => AsiError::InvalidIndex,
        2 => AsiError::InvalidId,
        3 => AsiError::InvalidControlType,
        4 => AsiError::CameraClosed,
        5 => AsiError::CameraRemoved,
        6 => AsiError::InvalidPath,
        7 => AsiError::InvalidFileFormat,
        8 => AsiError::InvalidSize,
        9 => AsiError::InvalidImgType,
        10 => AsiError::OutOfBoundary,
        11 => AsiError::Timeout,
        12 => AsiError::InvalidSequence,
        13 => AsiError::BufferTooSmall,
        14 => AsiError::VideoModeActive,
        15 => AsiError::ExposureInProgress,
        16 => AsiError::GeneralError,
        17 => AsiError::InvalidMode,
        18 => AsiError::GpsNotSupported,
        19 => AsiError::GpsVerErr,
        20 => AsiError::GpsFpgaErr,
        21 => AsiError::GpsParamOutOfRange,
        22 => AsiError::GpsDataInvalid,
        other => AsiError::Unknown(other),
    };
    Err(Error::Asi(e))
}

/// Map an EFW status code to `Ok(())` (code `0`) or the matching [`EfwError`].
pub fn efw_check(code: i32) -> (r: Result<(), Error>)
    ensures
        r is Ok <==> code == 0,
        r matches Err(err) ==> (err matches Error::Efw(e) && efw_error_code(e) == code && (
        e is Unknown <==> !is_known_efw_error_code(code))),
{
    let e = match code {
        0 => return Ok(()),
        1 => EfwError::InvalidIndex,
        2 => EfwError::InvalidId,
        3 => EfwError::InvalidValue,
        4 => EfwError::Removed,
        5 => EfwError::Moving,
        6 => EfwError::ErrorState,
        7 => EfwError::GeneralError,
        8 => EfwError::NotSupported,
        9 => EfwError::Closed,
        other => EfwError::Unknown(other),
    };
    Err(Error::Efw(e))
}

} // verus!
