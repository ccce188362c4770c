//! ASI camera enumeration and device handles.
//!
//! [`Sdk::cameras`] lists every connected camera's [`CameraInfo`] without
//! opening it. [`Sdk::open_camera`] opens a camera and returns a [`Camera`]
//! handle. The handle covers the imaging path: ROI/binning
//! ([`Camera::set_roi_format`]), controls ([`Camera::control_value`] /
//! [`Camera::set_control_value`]), single exposures
//! ([`Camera::start_exposure`] / [`Camera::download_exposure`]), and ST4
//! guiding ([`Camera::pulse_guide_on`]). A single fabricated
//! `ASI2600MM-Pro-Simulated` camera is presented.
//!
//! The camera's mutable state is modelled by [`SimState`], which is also the
//! view (`cam@`) that the contracts speak of. The type invariant of
//! [`Camera`] keeps the current ROI one that [`Camera::set_roi_format`] would
//! accept, with the ROI window inside the binned sensor.
use vstd::prelude::*;

use crate::error::{AsiError, Error};
use crate::ffi_util::{c_string_bytes, c_string_field, hex8, spec_hex, utf8_lossy};
use crate::simulation::fill_noise;
use crate::{Sdk, SIM_CAMERA_COUNT};

verus! {

// ---- value types and their SDK codes ----------------------------------------

/// Bayer colour-filter pattern (`ASI_BAYER_PATTERN`).
#[derive(Debug, Clone, Copy, PartialEq, Eq, Structural)]
pub enum BayerPattern {
    /// `ASI_BAYER_RG`.
    Rg,
    /// `ASI_BAYER_BG`.
    Bg,
    /// `ASI_BAYER_GR`.
    Gr,
    /// `ASI_BAYER_GB`.
    Gb,
}

/// The SDK code of a Bayer pattern.
pub open spec fn bayer_code(p: BayerPattern) -> u32 {
    match p {
        BayerPattern::Rg => 0,
        BayerPattern::Bg => 1,
        BayerPattern::Gr => 2,
        BayerPattern::Gb => 3,
    }
}

impl BayerPattern {
    /// Decode an `ASI_BAYER_PATTERN` code; codes past the table read as `Gb`.
    pub fn from_raw(v: u32) -> (r: BayerPattern)
        ensures
            v <= 3 ==> bayer_code(r) == v,
            v > 3 ==> r == BayerPattern::Gb,
    {
        match v {
            0 => BayerPattern::Rg,
            1 => BayerPattern::Bg,
            2 => BayerPattern::Gr,
            _ => BayerPattern::Gb,
        }
    }
}

/// ASI control type (`ASI_CONTROL_TYPE`) — the imaging-relevant subset.
///
/// Unrecognised control types are preserved as [`ControlType::Other`].
#[derive(Debug, Clone, Copy, PartialEq, Eq, Structural)]
pub enum ControlType {
    /// `ASI_GAIN`.
    Gain,
    /// `ASI_EXPOSURE` (microseconds).
    Exposure,
    /// `ASI_OFFSET` (a.k.a. brightness).
    Offset,
    /// `ASI_TEMPERATURE` (sensor temperature, in 0.1 °C units).
    Temperature,
    /// `ASI_HIGH_SPEED_MODE`.
    HighSpeedMode,
    /// `ASI_COOLER_POWER_PERC`.
    CoolerPowerPerc,
    /// `ASI_TARGET_TEMP` (cooler set-point, whole °C).
    TargetTemp,
    /// `ASI_COOLER_ON`.
    CoolerOn,
    /// A control type outside the subset mapped here; carries the raw value.
    Other(i32),
}

/// The SDK code of a control type (`Other(v)` stands for `v` itself).
pub open spec fn control_code(c: ControlType) -> i32 {
    match c {
        ControlType::Gain => 0,
        ControlType::Exposure => 1,
        ControlType::Offset => 5,
        ControlType::Temperature => 8,
        ControlType::HighSpeedMode => 14,
        ControlType::CoolerPowerPerc => 15,
        ControlType::TargetTemp => 16,
        ControlType::CoolerOn => 17,
        ControlType::Other(v) => v,
    }
}

/// Whether `v` is the code of one of the named control types.
pub open spec fn is_named_control_code(v: i32) -> bool {
    v == 0 || v == 1 || v == 5 || v == 8 || v == 14 || v == 15 || v == 16 || v == 17
}

impl ControlType {
    /// Decode an `ASI_CONTROL_TYPE` code; unnamed codes become `Other(v)`.
    pub fn from_raw(v: i32) -> (r: ControlType)
        ensures
            control_code(r) == v,
            r is Other <==> !is_named_control_code(v),
    {
        match v {
            0 => ControlType::Gain,
            1 => ControlType::Exposure,
            5 => ControlType::Offset,
            8 => ControlType::Temperature,
            14 => ControlType::HighSpeedMode,
            15 => ControlType::CoolerPowerPerc,
            16 => ControlType::TargetTemp,
            17 => ControlType::CoolerOn,
            other => ControlType::Other(other),
        }
    }

    /// The `ASI_CONTROL_TYPE` code of this control (as the SDK's unsigned type).
    pub fn to_raw(self) -> (r: u32)
        ensures
            r == control_code(self) as u32,
    {
        match self {
            ControlType::Gain => 0,
            ControlType::Exposure => 1,
            ControlType::Offset => 5,
            ControlType::Temperature => 8,
            ControlType::HighSpeedMode => 14,
            ControlType::CoolerPowerPerc => 15,
            ControlType::TargetTemp => 16,
            ControlType::CoolerOn => 17,
            ControlType::Other(v) => v as u32,
        }
    }
}

/// Output image format (`ASI_IMG_TYPE`).
#[derive(Debug, Clone, Copy, PartialEq, Eq, Structural)]
pub enum ImageType {
    /// `ASI_IMG_RAW8` — 8-bit raw (1 byte/pixel).
    Raw8,
    /// `ASI_IMG_RGB24` — 8-bit BGR (3 bytes/pixel).
    Rgb24,
    /// `ASI_IMG_RAW16` — 16-bit raw (2 bytes/pixel).
    Raw16,
    /// `ASI_IMG_Y8` — 8-bit luminance (1 byte/pixel).
    Y8,
}

/// Bytes per pixel of an image format.
pub open spec fn spec_bytes_per_pixel(t: ImageType) -> nat {
    match t {
        ImageType::Raw8 => 1,
        ImageType::Y8 => 1,
        ImageType::Raw16 => 2,
        ImageType::Rgb24 => 3,
    }
}

/// The SDK code of an image format.
pub open spec fn image_type_code(t: ImageType) -> i32 {
    match t {
        ImageType::Raw8 => 0,
        ImageType::Rgb24 => 1,
        ImageType::Raw16 => 2,
        ImageType::Y8 => 3,
    }
}

impl ImageType {
    /// Bytes per pixel for this format.
    pub fn bytes_per_pixel(self) -> (r: usize)
        ensures
            r == spec_bytes_per_pixel(self),
    {
        match self {
            ImageType::Raw8 | ImageType::Y8 => 1,
            ImageType::Raw16 => 2,
            ImageType::Rgb24 => 3,
        }
    }

    /// The `ASI_IMG_TYPE` code of this format.
    pub fn to_raw(self) -> (r: i32)
        ensures
            r == image_type_code(self),
    {
        match self {
            ImageType::Raw8 => 0,
            ImageType::Rgb24 => 1,
            ImageType::Raw16 => 2,
            ImageType::Y8 => 3,
        }
    }

    /// Decode an `ASI_IMG_TYPE` code; `None` for codes outside the table.
    pub fn from_raw(v: i32) -> (r: Option<ImageType>)
        ensures
            r is None <==> !(0 <= v <= 3),
            r matches Some(t) ==> image_type_code(t) == v,
    {
        match v {
            0 => Some(ImageType::Raw8),
            1 => Some(ImageType::Rgb24),
            2 => Some(ImageType::Raw16),
            3 => Some(ImageType::Y8),
            _ => None,
        }
    }
}

/// The region-of-interest format: frame size, binning, and pixel format.
///
/// `width`/`height` are **post-binning** pixel counts: a full-frame 6248×4176
/// sensor at bin 2 is `width = 3124`, `height = 2088`. The SDK requires
/// `width % 8 == 0` and `height % 2 == 0`.
#[derive(Debug, Clone, Copy, PartialEq, Eq, Structural)]
pub struct RoiFormat {
    /// Post-binning frame width in pixels (`width % 8 == 0`).
    pub width: u32,
    /// Post-binning frame height in pixels (`height % 2 == 0`).
    pub height: u32,
    /// Symmetric binning factor (1 = no binning).
    pub bin: u32,
    /// Pixel/output format.
    pub image_type: ImageType,
}

/// Byte length of one frame in the format `roi`: width × height × bytes/pixel.
pub open spec fn spec_buffer_len(roi: RoiFormat) -> int {
    roi.width * roi.height * spec_bytes_per_pixel(roi.image_type)
}

impl RoiFormat {
    /// Byte length of one full frame in this format
    /// (`width × height × bytes/pixel`).
    pub fn buffer_len(&self) -> (r: usize)
        requires
            spec_buffer_len(*self) <= usize::MAX,
        ensures
            r == spec_buffer_len(*self),
    {
        let bpp = self.image_type.bytes_per_pixel();
        let w = self.width as usize;
        let h = self.height as usize;
        proof {
            vstd::arithmetic::mul::lemma_mul_nonnegative(w as int, h as int);
            vstd::arithmetic::mul::lemma_mul_inequality(1, bpp as int, w * h);
            vstd::arithmetic::mul::lemma_mul_is_commutative(bpp as int, w * h);
        }
        w * h * bpp
    }
}

/// Exposure state machine (`ASI_EXPOSURE_STATUS`), reported by
/// [`Camera::exposure_status`].
#[derive(Debug, Clone, Copy, PartialEq, Eq, Structural)]
pub enum ExposureStatus {
    /// `ASI_EXP_IDLE` — no exposure in progress; ready to start one.
    Idle,
    /// `ASI_EXP_WORKING` — exposing.
    Working,
    /// `ASI_EXP_SUCCESS` — finished; the frame is ready to download.
    Success,
    /// `ASI_EXP_FAILED` — the exposure failed; start it again.
    Failed,
}

/// The SDK code of an exposure status.
pub open spec fn exposure_status_code(s: ExposureStatus) -> u32 {
    match s {
        ExposureStatus::Idle => 0,
        ExposureStatus::Working => 1,
        ExposureStatus::Success => 2,
        ExposureStatus::Failed => 3,
    }
}

impl ExposureStatus {
    /// Decode an `ASI_EXPOSURE_STATUS` code; codes past the table read as
    /// `Failed`.
    pub fn from_raw(v: u32) -> (r: ExposureStatus)
        ensures
            v <= 3 ==> exposure_status_code(r) == v,
            v > 3 ==> r == ExposureStatus::Failed,
    {
        match v {
            0 => ExposureStatus::Idle,
            1 => ExposureStatus::Working,
            2 => ExposureStatus::Success,
            _ => ExposureStatus::Failed,
        }
    }
}

/// ST4 guide-pulse direction (`ASI_GUIDE_DIRECTION`).
#[derive(Debug, Clone, Copy, PartialEq, Eq, Structural)]
pub enum GuideDirection {
    /// `ASI_GUIDE_NORTH` (+Dec).
    North,
    /// `ASI_GUIDE_SOUTH` (−Dec).
    South,
    /// `ASI_GUIDE_EAST` (+RA).
    East,
    /// `ASI_GUIDE_WEST` (−RA).
    West,
}

/// The SDK code of a guide direction.
pub open spec fn guide_code(d: GuideDirection) -> u32 {
    match d {
        GuideDirection::North => 0,
        GuideDirection::South => 1,
        GuideDirection::East => 2,
        GuideDirection::West => 3,
    }
}

impl GuideDirection {
    /// The `ASI_GUIDE_DIRECTION` code of this direction.
    pub fn to_raw(self) -> (r: u32)
        ensures
            r == guide_code(self),
    {
        match self {
            GuideDirection::North => 0,
            GuideDirection::South => 1,
            GuideDirection::East => 2,
            GuideDirection::West => 3,
        }
    }
}

/// A control's current value and whether it is in SDK auto mode.
#[derive(Debug, Clone, Copy, PartialEq, Eq, Structural)]
pub struct ControlValue {
    /// The raw control value (e.g. gain, offset; temperature is in 0.1 °C units).
    pub value: i64,
    /// Whether the control is currently in the SDK's auto mode.
    pub is_auto: bool,
}

/// A camera's static description (`ASI_CAMERA_INFO`). Readable without
/// opening the camera (via [`Sdk::cameras`]); also cached on an open
/// [`Camera`].
///
/// The SDK's two floating-point fields are held in fixed point:
/// `pixel_size_nm` (pixel size in nanometres) and `e_per_adu_milli`
/// (milli-electrons per ADU).
#[derive(Debug, Clone, PartialEq)]
pub struct CameraInfo {
    /// `CameraID` — the handle used by all per-camera SDK calls.
    pub id: i32,
    /// Model name, e.g. `"ZWO ASI2600MM Pro"`.
    pub name: String,
    /// Full sensor width in pixels.
    pub max_width: u32,
    /// Full sensor height in pixels.
    pub max_height: u32,
    /// Colour (Bayer) sensor when `true`, monochrome when `false`.
    pub is_color: bool,
    /// Bayer pattern (meaningful only when `is_color`).
    pub bayer_pattern: BayerPattern,
    /// Supported symmetric binning factors (e.g. `[1, 2, 3, 4]`).
    pub supported_bins: Vec<u32>,
    /// Pixel size in nanometres.
    pub pixel_size_nm: u32,
    /// Whether the camera has a mechanical shutter.
    pub has_mechanical_shutter: bool,
    /// Whether the camera exposes an ST4 guide port.
    pub has_st4_port: bool,
    /// Whether the camera is a cooled model.
    pub is_cooler_cam: bool,
    /// Whether the camera is a USB 3.0 device.
    pub is_usb3: bool,
    /// Electrons per ADU, in thousandths.
    pub e_per_adu_milli: u32,
    /// ADC bit depth (e.g. `16`, `14`, `12`).
    pub bit_depth: u32,
    /// Whether the camera supports the trigger (industrial) modes.
    pub is_trigger_cam: bool,
}

/// A tunable control's range (`ASI_CONTROL_CAPS`).
#[derive(Debug, Clone, PartialEq, Eq)]
pub struct ControlCaps {
    /// Control name, e.g. `"Gain"`.
    pub name: String,
    /// Which control this describes.
    pub control_type: ControlType,
    /// Minimum value.
    pub min: i64,
    /// Maximum value.
    pub max: i64,
    /// Default value.
    pub default: i64,
    /// Whether the control can be written (some, e.g. temperature, are read-only).
    pub is_writable: bool,
    /// Whether the control supports the SDK's auto mode.
    pub is_auto_supported: bool,
}

/// The fields of an SDK `ASI_CONTROL_CAPS` record as plain values: the
/// NUL-terminated name buffer, the three limits, the two SDK booleans and the
/// raw control-type code.
pub struct RawControlCaps {
    /// `Name`: a NUL-terminated C `char` buffer.
    pub name: Vec<i8>,
    /// `MaxValue`.
    pub max_value: i64,
    /// `MinValue`.
    pub min_value: i64,
    /// `DefaultValue`.
    pub default_value: i64,
    /// `IsAutoSupported` (`ASI_BOOL`).
    pub is_auto_supported: u32,
    /// `IsWritable` (`ASI_BOOL`).
    pub is_writable: u32,
    /// `ControlType` (`ASI_CONTROL_TYPE`).
    pub control_type: u32,
}

/// The fields of an SDK `ASI_CAMERA_INFO` record as plain values, except the
/// two floating-point ones (`PixelSize`, `ElecPerADU`), which the caller
/// supplies already in fixed point.
pub struct RawCameraInfo {
    /// `CameraID`.
    pub id: i32,
    /// `Name`: a NUL-terminated C `char` buffer.
    pub name: Vec<i8>,
    /// `MaxHeight`.
    pub max_height: i64,
    /// `MaxWidth`.
    pub max_width: i64,
    /// `IsColorCam` (`ASI_BOOL`).
    pub is_color_cam: u32,
    /// `BayerPattern` (`ASI_BAYER_PATTERN`).
    pub bayer_pattern: u32,
    /// `SupportedBins`: binning factors, terminated by a 0 entry.
    pub supported_bins: Vec<i32>,
    /// `MechanicalShutter` (`ASI_BOOL`).
    pub mechanical_shutter: u32,
    /// `ST4Port` (`ASI_BOOL`).
    pub st4_port: u32,
    /// `IsCoolerCam` (`ASI_BOOL`).
    pub is_cooler_cam: u32,
    /// `IsUSB3Camera` (`ASI_BOOL`).
    pub is_usb3_camera: u32,
    /// `BitDepth`.
    pub bit_depth: i32,
    /// `IsTriggerCam` (`ASI_BOOL`).
    pub is_trigger_cam: u32,
}

/// `v` as a `u32` when it fits, else 0.
pub open spec fn u32_or_zero(v: int) -> u32 {
    if 0 <= v <= u32::MAX {
        v as u32
    } else {
        0
    }
}

/// The binning factors of a 0-terminated `SupportedBins` list: the entries
/// before the first 0 (all of them if it holds none), negative ones read as 0.
pub open spec fn raw_bins(bins: Seq<i32>) -> Seq<u32>
    decreases bins.len(),
{
    if bins.len() == 0 || bins[0] == 0 {
        Seq::empty()
    } else {
        seq![u32_or_zero(bins[0] as int)] + raw_bins(bins.drop_first())
    }
}

fn u32_from_i64_or_zero(v: i64) -> (r: u32)
    ensures
        r == u32_or_zero(v as int),
{
    if 0 <= v && v <= 0xffff_ffff {
        v as u32
    } else {
        0
    }
}

fn decode_bins(bins: &Vec<i32>) -> (r: Vec<u32>)
    ensures
        r@ == raw_bins(bins@),
{
    let mut out: Vec<u32> = Vec::new();
    let mut i: usize = 0;
    assert(bins@.skip(0) =~= bins@);
    while i < bins.len() && bins[i] != 0
        invariant
            i <= bins@.len(),
            raw_bins(bins@) == out@ + raw_bins(bins@.skip(i as int)),
        decreases bins@.len() - i,
    {
        let b = bins[i];
        let ghost rest = bins@.skip(i as int);
        assert(rest[0] == b);
        assert(rest.drop_first() =~= bins@.skip(i + 1));
        let d = u32_from_i64_or_zero(b as i64);
        assert(out@.push(d) + raw_bins(bins@.skip(i + 1)) =~= out@ + (seq![d] + raw_bins(
            bins@.skip(i + 1),
        )));
        out.push(d);
        i = i + 1;
    }
    assert(raw_bins(bins@.skip(i as int)) =~= Seq::<u32>::empty()) by {
        if i < bins@.len() {
            assert(bins@.skip(i as int)[0] == bins@[i as int]);
        }
    }
    assert(out@ + Seq::<u32>::empty() =~= out@);
    out
}

/// Convert an SDK camera-info record into a [`CameraInfo`]; `pixel_size_nm`
/// and `e_per_adu_milli` are the record's floating-point fields in fixed
/// point. Sizes and the bit depth that do not fit a `u32` read as 0; the SDK
/// booleans are true when non-zero.
pub fn camera_info_from_raw(raw: &RawCameraInfo, pixel_size_nm: u32, e_per_adu_milli: u32) -> (info:
    CameraInfo)
    ensures
        info.id == raw.id,
        info.name@ == utf8_lossy(c_string_bytes(raw.name@)),
        info.max_width == u32_or_zero(raw.max_width as int),
        info.max_height == u32_or_zero(raw.max_height as int),
        info.is_color == (raw.is_color_cam != 0),
        raw.bayer_pattern <= 3 ==> bayer_code(info.bayer_pattern) == raw.bayer_pattern,
        raw.bayer_pattern > 3 ==> info.bayer_pattern == BayerPattern::Gb,
        info.supported_bins@ == raw_bins(raw.supported_bins@),
        info.pixel_size_nm == pixel_size_nm,
        info.has_mechanical_shutter == (raw.mechanical_shutter != 0),
        info.has_st4_port == (raw.st4_port != 0),
        info.is_cooler_cam == (raw.is_cooler_cam != 0),
        info.is_usb3 == (raw.is_usb3_camera != 0),
        info.e_per_adu_milli == e_per_adu_milli,
        info.bit_depth == u32_or_zero(raw.bit_depth as int),
        info.is_trigger_cam == (raw.is_trigger_cam != 0),
{
    CameraInfo {
        id: raw.id,
        name: c_string_field(raw.name.as_slice()),
        max_width: u32_from_i64_or_zero(raw.max_width),
        max_height: u32_from_i64_or_zero(raw.max_height),
        is_color: raw.is_color_cam != 0,
        bayer_pattern: BayerPattern::from_raw(raw.bayer_pattern),
        supported_bins: decode_bins(&raw.supported_bins),
        pixel_size_nm,
        has_mechanical_shutter: raw.mechanical_shutter != 0,
        has_st4_port: raw.st4_port != 0,
        is_cooler_cam: raw.is_cooler_cam != 0,
        is_usb3: raw.is_usb3_camera != 0,
        e_per_adu_milli,
        bit_depth: u32_from_i64_or_zero(raw.bit_depth as i64),
        is_trigger_cam: raw.is_trigger_cam != 0,
    }
}

/// Decode the out-values of the SDK's ROI query (width, height, binning and
/// image-type code) into a [`RoiFormat`]. Sizes that do not fit a `u32` read
/// as 0; an image-type code outside the table fails with
/// [`AsiError::InvalidImgType`].
pub fn roi_format_from_raw(width: i32, height: i32, bin: i32, image_type: i32) -> (r: Result<
    RoiFormat,
    Error,
>)
    ensures
        r is Ok <==> 0 <= image_type <= 3,
        r matches Err(e) ==> e == Error::Asi(AsiError::InvalidImgType),
        r matches Ok(roi) ==> {
            &&& roi.width == u32_or_zero(width as int)
            &&& roi.height == u32_or_zero(height as int)
            &&& roi.bin == u32_or_zero(bin as int)
            &&& image_type_code(roi.image_type) == image_type
        },
{
    let image_type = match ImageType::from_raw(image_type) {
        Some(t) => t,
        None => return Err(Error::Asi(AsiError::InvalidImgType)),
    };
    Ok(
        RoiFormat {
            width: u32_from_i64_or_zero(width as i64),
            height: u32_from_i64_or_zero(height as i64),
            bin: u32_from_i64_or_zero(bin as i64),
            image_type,
        },
    )
}

/// Decode the out-values of the SDK's start-position query; coordinates
/// that do not fit a `u32` read as 0.
pub fn start_pos_from_raw(x: i32, y: i32) -> (r: (u32, u32))
    ensures
        r == (u32_or_zero(x as int), u32_or_zero(y as int)),
{
    (u32_from_i64_or_zero(x as i64), u32_from_i64_or_zero(y as i64))
}

/// Decode the out-values of the SDK's control query: the value, and the SDK
/// boolean auto flag (true when non-zero).
pub fn control_value_from_raw(value: i64, auto: u32) -> (r: ControlValue)
    ensures
        r == (ControlValue { value, is_auto: auto != 0 }),
{
    ControlValue { value, is_auto: auto != 0 }
}

/// Convert an SDK control-caps record into a [`ControlCaps`].
pub fn control_caps_from_raw(raw: &RawControlCaps) -> (c: ControlCaps)
    ensures
        c.name@ == utf8_lossy(c_string_bytes(raw.name@)),
        control_code(c.control_type) == raw.control_type as i32,
        c.control_type is Other <==> !is_named_control_code(raw.control_type as i32),
        c.min == raw.min_value,
        c.max == raw.max_value,
        c.default == raw.default_value,
        c.is_writable == (raw.is_writable != 0),
        c.is_auto_supported == (raw.is_auto_supported != 0),
{
    ControlCaps {
        name: c_string_field(raw.name.as_slice()),
        control_type: ControlType::from_raw(raw.control_type as i32),
        min: raw.min_value,
        max: raw.max_value,
        default: raw.default_value,
        is_writable: raw.is_writable != 0,
        is_auto_supported: raw.is_auto_supported != 0,
    }
}

// ---- the simulated camera -----------------------------------------------------

/// The mutable state of a camera: the current ROI and start position, the
/// exposure state machine, and the writable control values. It is the view
/// (`cam@`) of an open [`Camera`].
#[derive(Debug, Clone, Copy, PartialEq, Eq, Structural)]
pub struct SimState {
    /// Current ROI format.
    pub roi: RoiFormat,
    /// ROI start column, in post-binning coordinates.
    pub start_x: u32,
    /// ROI start row, in post-binning coordinates.
    pub start_y: u32,
    /// Where the single-exposure state machine stands.
    pub exposure_status: ExposureStatus,
    /// `Gain` control value.
    pub gain: i64,
    /// `Offset` control value.
    pub offset: i64,
    /// `Exposure` control value (microseconds).
    pub exposure_us: i64,
    /// `TargetTemp` control value (whole °C).
    pub target_temp: i64,
    /// Whether the cooler is on (`CoolerOn`).
    pub cooler_on: bool,
    /// Whether `Gain` is in auto mode.
    pub gain_auto: bool,
    /// Whether `Exposure` is in auto mode.
    pub exposure_auto: bool,
}

/// Width of the sensor in post-binning pixels at binning `bin`.
pub open spec fn binned_width(info: CameraInfo, bin: u32) -> int {
    info.max_width as int / bin as int
}

/// Height of the sensor in post-binning pixels at binning `bin`.
pub open spec fn binned_height(info: CameraInfo, bin: u32) -> int {
    info.max_height as int / bin as int
}

/// A camera description the simulation can serve: every supported binning
/// factor is at least 1, and a full frame at 3 bytes per pixel fits in memory.
pub open spec fn sensor_supported(info: CameraInfo) -> bool {
    &&& forall|i: int| 0 <= i < info.supported_bins@.len() ==> #[trigger] info.supported_bins@[i] >= 1
    &&& info.max_width * info.max_height * 3 <= usize::MAX
}

/// The ROI sizes [`Camera::set_roi_format`] accepts: a supported binning
/// factor, a width that is a multiple of 8 and a height that is a multiple
/// of 2, both non-zero and within the binned sensor.
pub open spec fn roi_acceptable(info: CameraInfo, width: u32, height: u32, bin: u32) -> bool {
    &&& info.supported_bins@.contains(bin)
    &&& width % 8 == 0
    &&& height % 2 == 0
    &&& 0 < width <= binned_width(info, bin)
    &&& 0 < height <= binned_height(info, bin)
}

/// The start positions [`Camera::set_start_pos`] accepts: the ROI window
/// starting there stays inside the binned sensor.
pub open spec fn start_pos_acceptable(info: CameraInfo, st: SimState, x: u32, y: u32) -> bool {
    &&& x + st.roi.width <= binned_width(info, st.roi.bin)
    &&& y + st.roi.height <= binned_height(info, st.roi.bin)
}

/// The invariant of an open camera: a supported sensor, an acceptable ROI, a
/// ROI window inside the binned sensor, and every control within its range.
pub open spec fn camera_wf(info: CameraInfo, st: SimState) -> bool {
    &&& sensor_supported(info)
    &&& roi_acceptable(info, st.roi.width, st.roi.height, st.roi.bin)
    &&& start_pos_acceptable(info, st, st.start_x, st.start_y)
    &&& controls_in_range(st)
}

/// The state right after opening a camera: full-frame Raw16 at bin 1 starting
/// at the origin, idle, gain 100, offset 50, 10 ms exposure, cooler off with a
/// 0 °C set-point.
pub open spec fn initial_state(info: CameraInfo) -> SimState {
    SimState {
        roi: RoiFormat {
            width: info.max_width,
            height: info.max_height,
            bin: 1,
            image_type: ImageType::Raw16,
        },
        start_x: 0,
        start_y: 0,
        exposure_status: ExposureStatus::Idle,
        gain: 100,
        offset: 50,
        exposure_us: 10_000,
        target_temp: 0,
        cooler_on: false,
        gain_auto: false,
        exposure_auto: false,
    }
}

/// The state after an accepted ROI change: the new format, with the window
/// re-centred on the binned sensor.
pub open spec fn with_roi(
    info: CameraInfo,
    st: SimState,
    width: u32,
    height: u32,
    bin: u32,
    image_type: ImageType,
) -> SimState {
    SimState {
        roi: RoiFormat { width, height, bin, image_type },
        start_x: ((binned_width(info, bin) - width) / 2) as u32,
        start_y: ((binned_height(info, bin) - height) / 2) as u32,
        ..st
    }
}

/// The state after an accepted start-position change.
pub open spec fn with_start_pos(st: SimState, x: u32, y: u32) -> SimState {
    SimState { start_x: x, start_y: y, ..st }
}

/// What reading `control` reports in state `st`, or `None` where the control
/// cannot be read. The sensor temperature (in 0.1 °C) follows the set-point
/// while the cooler is on and is 20 °C otherwise; cooler power is 60 % while
/// the cooler is on.
pub open spec fn control_reading(st: SimState, control: ControlType) -> Option<int> {
    match control {
        ControlType::Gain => Some(st.gain as int),
        ControlType::Offset => Some(st.offset as int),
        ControlType::Exposure => Some(st.exposure_us as int),
        ControlType::TargetTemp => Some(st.target_temp as int),
        ControlType::CoolerOn => Some(
            if st.cooler_on {
                1
            } else {
                0
            },
        ),
        ControlType::CoolerPowerPerc => Some(
            if st.cooler_on {
                60
            } else {
                0
            },
        ),
        ControlType::Temperature => Some(
            (if st.cooler_on {
                st.target_temp as int
            } else {
                20
            }) * 10,
        ),
        _ => None,
    }
}

/// The controls [`Camera::set_control_value`] accepts.
pub open spec fn control_writable(control: ControlType) -> bool {
    ||| control is Gain
    ||| control is Offset
    ||| control is Exposure
    ||| control is TargetTemp
    ||| control is CoolerOn
}

/// `v` limited to the range `lo..=hi`.
pub open spec fn spec_clamp(v: int, lo: int, hi: int) -> int {
    if v < lo {
        lo
    } else if v > hi {
        hi
    } else {
        v
    }
}

/// The lowest value a writable control takes (its advertised minimum).
pub open spec fn control_min(control: ControlType) -> int {
    match control {
        ControlType::Gain => 0,
        ControlType::Offset => 0,
        ControlType::Exposure => 32,
        ControlType::TargetTemp => -40,
        ControlType::CoolerOn => 0,
        _ => 0,
    }
}

/// The highest value a writable control takes (its advertised maximum).
pub open spec fn control_max(control: ControlType) -> int {
    match control {
        ControlType::Gain => 500,
        ControlType::Offset => 1000,
        ControlType::Exposure => 2_000_000_000,
        ControlType::TargetTemp => 30,
        ControlType::CoolerOn => 1,
        _ => 0,
    }
}

/// Every writable control holds a value within its advertised range.
pub open spec fn controls_in_range(st: SimState) -> bool {
    &&& control_min(ControlType::Gain) <= st.gain <= control_max(ControlType::Gain)
    &&& control_min(ControlType::Offset) <= st.offset <= control_max(ControlType::Offset)
    &&& control_min(ControlType::Exposure) <= st.exposure_us <= control_max(ControlType::Exposure)
    &&& control_min(ControlType::TargetTemp) <= st.target_temp <= control_max(
        ControlType::TargetTemp,
    )
}

/// The controls that support the SDK's auto mode (those advertised with
/// `is_auto_supported`).
pub open spec fn control_auto_supported(control: ControlType) -> bool {
    control is Gain || control is Exposure
}

/// Whether `control` is in auto mode in state `st`; controls without auto
/// support never are.
pub open spec fn control_auto(st: SimState, control: ControlType) -> bool {
    match control {
        ControlType::Gain => st.gain_auto,
        ControlType::Exposure => st.exposure_auto,
        _ => false,
    }
}

/// The state after writing `value` and the auto flag `auto` to a writable
/// `control`: the value is clamped to the control's range; the auto flag is
/// kept for the auto-capable controls; for `CoolerOn` the clamped value turns
/// the cooler on when it is 1.
pub open spec fn with_control(st: SimState, control: ControlType, value: i64, auto: bool) -> SimState {
    let v = spec_clamp(value as int, control_min(control), control_max(control));
    match control {
        ControlType::Gain => SimState { gain: v as i64, gain_auto: auto, ..st },
        ControlType::Offset => SimState { offset: v as i64, ..st },
        ControlType::Exposure => SimState { exposure_us: v as i64, exposure_auto: auto, ..st },
        ControlType::TargetTemp => SimState { target_temp: v as i64, ..st },
        ControlType::CoolerOn => SimState { cooler_on: v != 0, ..st },
        _ => st,
    }
}

/// The state after a status poll: a running exposure completes on the poll
/// that first reports it running.
pub open spec fn after_poll(st: SimState) -> SimState {
    if st.exposure_status == ExposureStatus::Working {
        SimState { exposure_status: ExposureStatus::Success, ..st }
    } else {
        st
    }
}

/// The fabricated `ASI2600MM-Pro-Simulated` camera: 6248×4176 monochrome,
/// 3.76 µm pixels, 16-bit, cooled, USB 3, ST4 present, bins 1–4.
pub open spec fn is_sim_camera_info(info: CameraInfo) -> bool {
    &&& info.id == 0
    &&& info.name@ == "ASI2600MM-Pro-Simulated"@
    &&& info.max_width == 6248
    &&& info.max_height == 4176
    &&& !info.is_color
    &&& info.bayer_pattern == BayerPattern::Rg
    &&& info.supported_bins@ == seq![1u32, 2, 3, 4]
    &&& info.pixel_size_nm == 3760
    &&& !info.has_mechanical_shutter
    &&& info.has_st4_port
    &&& info.is_cooler_cam
    &&& info.is_usb3
    &&& info.e_per_adu_milli == 250
    &&& info.bit_depth == 16
    &&& !info.is_trigger_cam
}

/// A control-caps entry with the given fields.
pub open spec fn cap_is(
    c: ControlCaps,
    name: Seq<char>,
    control_type: ControlType,
    min: i64,
    max: i64,
    default: i64,
    is_writable: bool,
    is_auto_supported: bool,
) -> bool {
    &&& c.name@ == name
    &&& c.control_type == control_type
    &&& c.min == min
    &&& c.max == max
    &&& c.default == default
    &&& c.is_writable == is_writable
    &&& c.is_auto_supported == is_auto_supported
}

/// The controls the simulated camera advertises, in order: Gain, Exposure,
/// Offset, Temperature (read-only), CoolerOn, TargetTemp.
pub open spec fn is_sim_control_caps(caps: Seq<ControlCaps>) -> bool {
    &&& caps.len() == 6
    &&& cap_is(caps[0], "Gain"@, ControlType::Gain, 0, 500, 100, true, true)
    &&& cap_is(caps[1], "Exposure"@, ControlType::Exposure, 32, 2_000_000_000, 10_000, true, true)
    &&& cap_is(caps[2], "Offset"@, ControlType::Offset, 0, 1000, 50, true, false)
    &&& cap_is(caps[3], "Temperature"@, ControlType::Temperature, -500i64, 1000, 0, false, false)
    &&& cap_is(caps[4], "CoolerOn"@, ControlType::CoolerOn, 0, 1, 0, true, false)
    &&& cap_is(caps[5], "TargetTemp"@, ControlType::TargetTemp, -40i64, 30, 0, true, false)
}

/// The 8-byte id behind the simulated camera's serial number.
pub open spec fn sim_serial_id() -> Seq<u8> {
    seq![0x0au8, 0x1b, 0x2c, 0x3d, 0x4e, 0x5f, 0x60, 0x71]
}

/// The fabricated simulated camera's description.
pub fn sim_camera_info() -> (info: CameraInfo)
    ensures
        is_sim_camera_info(info),
{
    let mut supported_bins: Vec<u32> = Vec::new();
    supported_bins.push(1);
    supported_bins.push(2);
    supported_bins.push(3);
    supported_bins.push(4);
    assert(supported_bins@ =~= seq![1u32, 2, 3, 4]);
    CameraInfo {
        id: 0,
        name: "ASI2600MM-Pro-Simulated".to_owned(),
        max_width: 6248,
        max_height: 4176,
        is_color: false,
        bayer_pattern: BayerPattern::Rg,
        supported_bins,
        pixel_size_nm: 3760,
        has_mechanical_shutter: false,
        has_st4_port: true,
        is_cooler_cam: true,
        is_usb3: true,
        e_per_adu_milli: 250,
        bit_depth: 16,
        is_trigger_cam: false,
    }
}

fn cap(
    name: &str,
    control_type: ControlType,
    min: i64,
    max: i64,
    default: i64,
    is_writable: bool,
    is_auto_supported: bool,
) -> (c: ControlCaps)
    ensures
        cap_is(c, name@, control_type, min, max, default, is_writable, is_auto_supported),
{
    ControlCaps {
        name: name.to_owned(),
        control_type,
        min,
        max,
        default,
        is_writable,
        is_auto_supported,
    }
}

/// The controls the simulated camera advertises.
pub fn sim_control_caps() -> (caps: Vec<ControlCaps>)
    ensures
        is_sim_control_caps(caps@),
{
    let mut caps: Vec<ControlCaps> = Vec::new();
    caps.push(cap("Gain", ControlType::Gain, 0, 500, 100, true, true));
    caps.push(cap("Exposure", ControlType::Exposure, 32, 2_000_000_000, 10_000, true, true));
    caps.push(cap("Offset", ControlType::Offset, 0, 1000, 50, true, false));
    caps.push(cap("Temperature", ControlType::Temperature, -500, 1000, 0, false, false));
    caps.push(cap("CoolerOn", ControlType::CoolerOn, 0, 1, 0, true, false));
    caps.push(cap("TargetTemp", ControlType::TargetTemp, -40, 30, 0, true, false));
    caps
}

/// Facts about the simulated camera description that its handle relies on.
proof fn lemma_sim_info_supported(info: CameraInfo)
    requires
        is_sim_camera_info(info),
    ensures
        sensor_supported(info),
        camera_wf(info, initial_state(info)),
{
    assert(info.supported_bins@[0] == 1);
    assert(info.supported_bins@.contains(1));
}

/// `v` limited to the range `lo..=hi`.
fn clamp(v: i64, lo: i64, hi: i64) -> (r: i64)
    requires
        lo <= hi,
    ensures
        r == spec_clamp(v as int, lo as int, hi as int),
{
    if v < lo {
        lo
    } else if v > hi {
        hi
    } else {
        v
    }
}

/// Whether `bins` holds `bin`.
fn contains_bin(bins: &Vec<u32>, bin: u32) -> (r: bool)
    ensures
        r == bins@.contains(bin),
{
    let mut i: usize = 0;
    while i < bins.len()
        invariant
            i <= bins@.len(),
            forall|j: int| 0 <= j < i ==> bins@[j] != bin,
        decreases bins@.len() - i,
    {
        if bins[i] == bin {
            assert(bins@[i as int] == bin);
            return true;
        }
        i = i + 1;
    }
    false
}

/// A full frame of an acceptable ROI fits in memory.
proof fn lemma_frame_fits(info: CameraInfo, roi: RoiFormat)
    requires
        sensor_supported(info),
        roi_acceptable(info, roi.width, roi.height, roi.bin),
    ensures
        spec_buffer_len(roi) <= usize::MAX,
{
    let k = choose|k: int| 0 <= k < info.supported_bins@.len() && info.supported_bins@[k] == roi.bin;
    assert(roi.bin >= 1);
    let mw = info.max_width as int;
    let mh = info.max_height as int;
    let b = roi.bin as int;
    assert(mw / b <= mw) by (nonlinear_arith)
        requires
            mw >= 0,
            b >= 1,
    ;
    assert(mh / b <= mh) by (nonlinear_arith)
        requires
            mh >= 0,
            b >= 1,
    ;
    let w = roi.width as int;
    let h = roi.height as int;
    let p = spec_bytes_per_pixel(roi.image_type) as int;
    assert(w * h * p <= mw * mh * 3) by (nonlinear_arith)
        requires
            0 <= w <= mw,
            0 <= h <= mh,
            0 <= p <= 3,
    ;
}

/// An open ASI camera.
///
/// Every method that changes the camera takes `&mut self`, so a shared
/// `Camera` is only ever read; to drive one camera from several threads put
/// it behind a `Mutex`, which serialises the calls.
#[derive(Debug)]
pub struct Camera {
    info: CameraInfo,
    state: SimState,
}

impl View for Camera {
    type V = SimState;

    closed spec fn view(&self) -> SimState {
        self.state
    }
}

impl SimState {
    /// The state of a freshly opened camera with description `info`.
    pub fn new(info: &CameraInfo) -> (st: SimState)
        ensures
            st == initial_state(*info),
    {
        SimState {
            roi: RoiFormat {
                width: info.max_width,
                height: info.max_height,
                bin: 1,
                image_type: ImageType::Raw16,
            },
            start_x: 0,
            start_y: 0,
            exposure_status: ExposureStatus::Idle,
            gain: 100,
            offset: 50,
            exposure_us: 10_000,
            target_temp: 0,
            cooler_on: false,
            gain_auto: false,
            exposure_auto: false,
        }
    }
}

impl Sdk {
    /// Enumerate every connected camera's [`CameraInfo`] without opening it:
    /// [`SIM_CAMERA_COUNT`] copies of the simulated camera's description.
    pub fn cameras(&self) -> (r: Result<Vec<CameraInfo>, Error>)
        ensures
            r matches Ok(infos) && infos@.len() == SIM_CAMERA_COUNT && (forall|i: int|
                0 <= i < infos@.len() ==> is_sim_camera_info(#[trigger] infos@[i])),
    {
        let mut infos: Vec<CameraInfo> = Vec::new();
        let mut i: usize = 0;
        while i < SIM_CAMERA_COUNT
            invariant
                i <= SIM_CAMERA_COUNT,
                infos@.len() == i,
                forall|j: int| 0 <= j < infos@.len() ==> is_sim_camera_info(#[trigger] infos@[j]),
            decreases SIM_CAMERA_COUNT - i,
        {
            infos.push(sim_camera_info());
            i = i + 1;
        }
        Ok(infos)
    }

    /// Open the camera at enumeration `index`.
    ///
    /// Fails with [`AsiError::InvalidIndex`] when `index` is not below
    /// [`SIM_CAMERA_COUNT`]; otherwise the simulated camera is opened in its
    /// initial state.
    pub fn open_camera(&self, index: usize) -> (r: Result<Camera, Error>)
        ensures
            r is Ok <==> index < SIM_CAMERA_COUNT,
            r matches Err(e) ==> e == Error::Asi(AsiError::InvalidIndex),
            r matches Ok(cam) ==> is_sim_camera_info(cam.spec_info()) && cam@ == initial_state(
                cam.spec_info(),
            ),
    {
        if index >= SIM_CAMERA_COUNT {
            return Err(Error::Asi(AsiError::InvalidIndex));
        }
        let info = sim_camera_info();
        let state = SimState::new(&info);
        proof {
            lemma_sim_info_supported(info);
        }
        Ok(Camera { info, state })
    }
}

impl Camera {
    #[verifier::type_invariant]
    spec fn inv(self) -> bool {
        is_sim_camera_info(self.info) && camera_wf(self.info, self.state)
    }

    /// The camera's description (fixed for the life of the handle).
    pub closed spec fn spec_info(&self) -> CameraInfo {
        self.info
    }

    /// The camera's cached [`CameraInfo`].
    pub fn info(&self) -> (r: &CameraInfo)
        ensures
            *r == self.spec_info(),
    {
        &self.info
    }

    /// The camera's `CameraID`.
    pub fn id(&self) -> (r: i32)
        ensures
            r == self.spec_info().id,
    {
        self.info.id
    }

    /// The camera's serial number as a 16-character lowercase hex string: the
    /// simulated camera's fixed 8-byte id, formatted.
    pub fn serial(&self) -> (r: Result<String, Error>)
        ensures
            r matches Ok(s) && s@ == spec_hex(sim_serial_id()),
    {
        let id: [u8; 8] = [0x0a, 0x1b, 0x2c, 0x3d, 0x4e, 0x5f, 0x60, 0x71];
        assert(id@ =~= sim_serial_id());
        Ok(hex8(&id))
    }

    /// This camera's tunable controls and their ranges.
    pub fn control_caps(&self) -> (r: Result<Vec<ControlCaps>, Error>)
        ensures
            r matches Ok(caps) && is_sim_control_caps(caps@),
    {
        Ok(sim_control_caps())
    }

    /// Set the ROI format: frame size (post-binning), binning, and pixel format.
    ///
    /// Fails with [`AsiError::InvalidSize`], changing nothing, unless
    /// `roi_acceptable` holds. On success the ROI start is re-centred on the
    /// binned sensor.
    pub fn set_roi_format(&mut self, width: u32, height: u32, bin: u32, image_type: ImageType) -> (r:
        Result<(), Error>)
        ensures
            final(self).spec_info() == old(self).spec_info(),
            r is Ok <==> roi_acceptable(old(self).spec_info(), width, height, bin),
            r is Ok ==> final(self)@ == with_roi(
                old(self).spec_info(),
                old(self)@,
                width,
                height,
                bin,
                image_type,
            ),
            r matches Err(e) ==> e == Error::Asi(AsiError::InvalidSize) && final(self)@ == old(
                self,
            )@,
    {
        proof {
            use_type_invariant(&*self);
        }
        if !contains_bin(&self.info.supported_bins, bin) {
            return Err(Error::Asi(AsiError::InvalidSize));
        }
        proof {
            let k = choose|k: int|
                0 <= k < self.info.supported_bins@.len() && self.info.supported_bins@[k] == bin;
            assert(bin >= 1);
        }
        if width % 8 != 0 || height % 2 != 0 {
            return Err(Error::Asi(AsiError::InvalidSize));
        }
        let max_w = self.info.max_width / bin;
        let max_h = self.info.max_height / bin;
        if width == 0 || height == 0 || width > max_w || height > max_h {
            return Err(Error::Asi(AsiError::InvalidSize));
        }
        let st = self.state;
        self.state = SimState {
            roi: RoiFormat { width, height, bin, image_type },
            start_x: (max_w - width) / 2,
            start_y: (max_h - height) / 2,
            ..st
        };
        Ok(())
    }

    /// Read the current ROI format. The ROI reported is always one that
    /// [`Camera::set_roi_format`] accepts, and its window lies inside the
    /// binned sensor.
    pub fn roi_format(&self) -> (r: Result<RoiFormat, Error>)
        ensures
            r == Ok::<RoiFormat, Error>(self@.roi),
            camera_wf(self.spec_info(), self@),
    {
        proof {
            use_type_invariant(self);
        }
        Ok(self.state.roi)
    }

    /// Set the ROI start position (top-left), in post-binning coordinates.
    ///
    /// Fails with [`AsiError::OutOfBoundary`], changing nothing, when the ROI
    /// window starting there would leave the binned sensor.
    pub fn set_start_pos(&mut self, x: u32, y: u32) -> (r: Result<(), Error>)
        ensures
            final(self).spec_info() == old(self).spec_info(),
            r is Ok <==> start_pos_acceptable(old(self).spec_info(), old(self)@, x, y),
            r is Ok ==> final(self)@ == with_start_pos(old(self)@, x, y),
            r matches Err(e) ==> e == Error::Asi(AsiError::OutOfBoundary) && final(self)@ == old(
                self,
            )@,
    {
        proof {
            use_type_invariant(&*self);
        }
        let roi = self.state.roi;
        let max_w = self.info.max_width / roi.bin;
        let max_h = self.info.max_height / roi.bin;
        proof {
            let k = choose|k: int|
                0 <= k < self.info.supported_bins@.len() && self.info.supported_bins@[k] == roi.bin;
            let b = roi.bin as int;
            assert(6248int / b <= 6248 && 4176int / b <= 4176) by (nonlinear_arith)
                requires
                    b >= 1,
            ;
        }
        if x.saturating_add(roi.width) > max_w || y.saturating_add(roi.height) > max_h {
            return Err(Error::Asi(AsiError::OutOfBoundary));
        }
        let st = self.state;
        self.state = SimState { start_x: x, start_y: y, ..st };
        Ok(())
    }

    /// Read the current ROI start position (top-left), in post-binning
    /// coordinates.
    pub fn start_pos(&self) -> (r: Result<(u32, u32), Error>)
        ensures
            r == Ok::<(u32, u32), Error>((self@.start_x, self@.start_y)),
            start_pos_acceptable(self.spec_info(), self@, self@.start_x, self@.start_y),
    {
        proof {
            use_type_invariant(self);
        }
        Ok((self.state.start_x, self.state.start_y))
    }

    /// Read a control's current value and auto flag.
    ///
    /// Temperature is reported in 0.1 °C units. Controls without a reading
    /// fail with [`AsiError::InvalidControlType`].
    pub fn control_value(&self, control: ControlType) -> (r: Result<ControlValue, Error>)
        ensures
            control_reading(self@, control) matches Some(v) ==> r == Ok::<ControlValue, Error>(
                ControlValue { value: v as i64, is_auto: control_auto(self@, control) },
            ),
            control_reading(self@, control) is None ==> r == Err::<ControlValue, Error>(
                Error::Asi(AsiError::InvalidControlType),
            ),
    {
        proof {
            use_type_invariant(self);
        }
        let st = &self.state;
        let value: i64 = match control {
            ControlType::Gain => st.gain,
            ControlType::Offset => st.offset,
            ControlType::Exposure => st.exposure_us,
            ControlType::TargetTemp => st.target_temp,
            ControlType::CoolerOn => if st.cooler_on {
                1
            } else {
                0
            },
            ControlType::CoolerPowerPerc => {
                if st.cooler_on {
                    60
                } else {
                    0
                }
            },
            ControlType::Temperature => {
                let celsius: i64 = if st.cooler_on {
                    st.target_temp
                } else {
                    20
                };
                celsius * 10
            },
            _ => return Err(Error::Asi(AsiError::InvalidControlType)),
        };
        let is_auto = match control {
            ControlType::Gain => st.gain_auto,
            ControlType::Exposure => st.exposure_auto,
            _ => false,
        };
        Ok(ControlValue { value, is_auto })
    }

    /// Set a control's value (and auto mode).
    ///
    /// The auto flag is kept for the controls that support auto mode (Gain
    /// and Exposure) and has no effect on the others. Out-of-range values are clamped to the control's min/max rather than
    /// rejected (the ranges are those [`Camera::control_caps`] advertises);
    /// CoolerOn turns the cooler on when its clamped value is 1. Read-only and
    /// unknown controls fail with [`AsiError::InvalidControlType`], changing
    /// nothing.
    pub fn set_control_value(&mut self, control: ControlType, value: i64, auto: bool) -> (r: Result<
        (),
        Error,
    >)
        ensures
            final(self).spec_info() == old(self).spec_info(),
            r is Ok <==> control_writable(control),
            final(self)@ == with_control(old(self)@, control, value, auto),
            r matches Err(e) ==> e == Error::Asi(AsiError::InvalidControlType),
    {
        proof {
            use_type_invariant(&*self);
        }
        match control {
            ControlType::Gain => {
                self.state.gain = clamp(value, 0, 500);
                self.state.gain_auto = auto;
            },
            ControlType::Offset => self.state.offset = clamp(value, 0, 1000),
            ControlType::Exposure => {
                self.state.exposure_us = clamp(value, 32, 2_000_000_000);
                self.state.exposure_auto = auto;
            },
            ControlType::TargetTemp => self.state.target_temp = clamp(value, -40, 30),
            ControlType::CoolerOn => self.state.cooler_on = clamp(value, 0, 1) != 0,
            _ => return Err(Error::Asi(AsiError::InvalidControlType)),
        }
        Ok(())
    }

    /// Start a single exposure; the exposure state becomes `Working`.
    /// `is_dark` is accepted and ignored (the camera has no shutter).
    pub fn start_exposure(&mut self, is_dark: bool) -> (r: Result<(), Error>)
        ensures
            final(self).spec_info() == old(self).spec_info(),
            r is Ok,
            final(self)@ == (SimState { exposure_status: ExposureStatus::Working, ..old(self)@ }),
    {
        proof {
            use_type_invariant(&*self);
        }
        self.state.exposure_status = ExposureStatus::Working;
        Ok(())
    }

    /// Cancel an exposure in progress; the exposure state becomes `Idle`.
    pub fn stop_exposure(&mut self) -> (r: Result<(), Error>)
        ensures
            final(self).spec_info() == old(self).spec_info(),
            r is Ok,
            final(self)@ == (SimState { exposure_status: ExposureStatus::Idle, ..old(self)@ }),
    {
        proof {
            use_type_invariant(&*self);
        }
        self.state.exposure_status = ExposureStatus::Idle;
        Ok(())
    }

    /// Read the current [`ExposureStatus`]. A running exposure completes one
    /// poll after it starts: the poll that reports `Working` moves the state
    /// on to `Success`.
    pub fn exposure_status(&mut self) -> (r: Result<ExposureStatus, Error>)
        ensures
            final(self).spec_info() == old(self).spec_info(),
            r == Ok::<ExposureStatus, Error>(old(self)@.exposure_status),
            final(self)@ == after_poll(old(self)@),
    {
        proof {
            use_type_invariant(&*self);
        }
        let current = self.state.exposure_status;
        if current == ExposureStatus::Working {
            self.state.exposure_status = ExposureStatus::Success;
        }
        Ok(current)
    }

    /// Download the most recent frame into `buf`.
    ///
    /// `buf` must be at least [`RoiFormat::buffer_len`] bytes for the current
    /// ROI; a short buffer is rejected with [`AsiError::BufferTooSmall`] and
    /// left untouched. On success the first `buffer_len` bytes receive the
    /// frame (simulated noise) and the rest of `buf` is left as it was.
    pub fn download_exposure(&self, buf: &mut [u8]) -> (r: Result<(), Error>)
        ensures
            final(buf)@.len() == old(buf)@.len(),
            r is Ok <==> old(buf)@.len() >= spec_buffer_len(self@.roi),
            r matches Err(e) ==> e == Error::Asi(AsiError::BufferTooSmall) && final(buf)@ == old(
                buf,
            )@,
            r is Ok ==> forall|i: int|
                spec_buffer_len(self@.roi) <= i < old(buf)@.len() ==> #[trigger] final(buf)@[i]
                    == old(buf)@[i],
    {
        proof {
            use_type_invariant(self);
            lemma_frame_fits(self.info, self.state.roi);
        }
        let need = self.state.roi.buffer_len();
        if buf.len() < need {
            return Err(Error::Asi(AsiError::BufferTooSmall));
        }
        fill_noise(buf, need);
        Ok(())
    }

    /// Begin an ST4 guide pulse in `direction`. Always accepted.
    pub fn pulse_guide_on(&self, direction: GuideDirection) -> (r: Result<(), Error>)
        ensures
            r is Ok,
    {
        Ok(())
    }

    /// End an ST4 guide pulse in `direction`. Always accepted.
    pub fn pulse_guide_off(&self, direction: GuideDirection) -> (r: Result<(), Error>)
        ensures
            r is Ok,
    {
        Ok(())
    }
}

} // verus!
