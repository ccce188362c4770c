//! # zwo-rs — a verified model of the ZWO ASI camera & EFW filter wheel SDK
//!
//! The crate presents a hardware-free, simulated ZWO environment: a fixed
//! number of cameras and filter wheels, and a single fabricated
//! `ASI2600MM-Pro-Simulated` camera whose handle covers the imaging path
//! (ROI/binning, controls, single exposures, ST4 guiding). Alongside it stand
//! the pure decoders of the SDK's raw values (status codes, enum codes, C
//! string fields, hardware ids).
use vstd::prelude::*;

pub mod camera;
pub mod error;
pub mod ffi_util;
pub mod laws;
pub mod simulation;

pub use camera::{
    BayerPattern, Camera, CameraInfo, ControlCaps, ControlType, ControlValue, ExposureStatus,
    GuideDirection, ImageType, RawCameraInfo, RawControlCaps, RoiFormat, SimState,
};
pub use error::{asi_check, efw_check, AsiError, EfwError, Error};

verus! {

/// Number of simulated ASI cameras presented by [`Sdk`].
pub const SIM_CAMERA_COUNT: usize = 1;

/// Number of simulated EFW filter wheels presented by [`Sdk`].
pub const SIM_FILTER_WHEEL_COUNT: usize = 1;

/// Entry point to the (simulated) ZWO SDK.
///
/// Enumerates the simulated ASI cameras and EFW filter wheels.
#[derive(Debug, Default)]
pub struct Sdk {
    _private: (),
}

impl Sdk {
    /// Initialise the SDK. Always succeeds.
    pub fn new() -> (r: Result<Sdk, Error>)
        ensures
            r is Ok,
    {
        Ok(Sdk { _private: () })
    }

    /// Number of connected ASI cameras: [`SIM_CAMERA_COUNT`].
    pub fn camera_count(&self) -> (r: Result<usize, Error>)
        ensures
            r == Ok::<usize, Error>(SIM_CAMERA_COUNT),
    {
        Ok(SIM_CAMERA_COUNT)
    }

    /// Number of connected EFW filter wheels: [`SIM_FILTER_WHEEL_COUNT`].
    pub fn filter_wheel_count(&self) -> (r: Result<usize, Error>)
        ensures
            r == Ok::<usize, Error>(SIM_FILTER_WHEEL_COUNT),
    {
        Ok(SIM_FILTER_WHEEL_COUNT)
    }

    /// ASI camera SDK version string: `"simulation"`.
    pub fn asi_version(&self) -> (r: Result<String, Error>)
        ensures
            r matches Ok(v) && v@ == "simulation"@,
    {
        Ok("simulation".to_owned())
    }

    /// EFW filter-wheel SDK version string: `"simulation"`.
    pub fn efw_version(&self) -> (r: Result<String, Error>)
        ensures
            r matches Ok(v) && v@ == "simulation"@,
    {
        Ok("simulation".to_owned())
    }
}

} // verus!
