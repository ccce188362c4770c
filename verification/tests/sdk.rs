use zwo_rs::simulation;
use zwo_rs::{
    asi_check, efw_check, AsiError, EfwError, Error, Sdk, SIM_CAMERA_COUNT,
    SIM_FILTER_WHEEL_COUNT,
};

#[test]
fn sdk_new_succeeds() {
    Sdk::new().unwrap();
}

#[test]
fn enumeration_returns_a_count() {
    let sdk = Sdk::new().unwrap();
    let cameras = sdk.camera_count().unwrap();
    let wheels = sdk.filter_wheel_count().unwrap();
    assert_eq!(cameras, SIM_CAMERA_COUNT);
    assert_eq!(wheels, SIM_FILTER_WHEEL_COUNT);
}

#[test]
fn sdk_versions_are_non_empty() {
    let sdk = Sdk::new().unwrap();
    assert!(!sdk.asi_version().unwrap().is_empty());
    assert!(!sdk.efw_version().unwrap().is_empty());
}

#[test]
fn asi_check_maps_known_and_unknown_codes() {
    asi_check(0).unwrap();
    assert_eq!(
        asi_check(1).unwrap_err(),
        Error::Asi(AsiError::InvalidIndex)
    );
    assert_eq!(
        asi_check(16).unwrap_err(),
        Error::Asi(AsiError::GeneralError)
    );
    assert_eq!(
        asi_check(999).unwrap_err(),
        Error::Asi(AsiError::Unknown(999))
    );
}

#[test]
fn efw_check_maps_known_and_unknown_codes() {
    efw_check(0).unwrap();
    assert_eq!(efw_check(5).unwrap_err(), Error::Efw(EfwError::Moving));
    assert_eq!(efw_check(9).unwrap_err(), Error::Efw(EfwError::Closed));
    assert_eq!(
        efw_check(42).unwrap_err(),
        Error::Efw(EfwError::Unknown(42))
    );
}

#[test]
fn simulation_noise_sample_runs() {
    // Any u16 is valid; just exercise the simulation path.
    let _ = simulation::noise_sample();
}

#[test]
fn sdk_versions_are_simulation() {
    let sdk = Sdk::new().unwrap();
    assert_eq!(sdk.asi_version().unwrap(), "simulation");
    assert_eq!(sdk.efw_version().unwrap(), "simulation");
}

#[test]
fn asi_check_maps_every_known_code() {
    let expected = [
        AsiError::InvalidIndex,
        AsiError::InvalidId,
        AsiError::InvalidControlType,
        AsiError::CameraClosed,
        AsiError::CameraRemoved,
        AsiError::InvalidPath,
        AsiError::InvalidFileFormat,
        AsiError::InvalidSize,
        AsiError::InvalidImgType,
        AsiError::OutOfBoundary,
        AsiError::Timeout,
        AsiError::InvalidSequence,
        AsiError::BufferTooSmall,
        AsiError::VideoModeActive,
        AsiError::ExposureInProgress,
        AsiError::GeneralError,
        AsiError::InvalidMode,
        AsiError::GpsNotSupported,
        AsiError::GpsVerErr,
        AsiError::GpsFpgaErr,
        AsiError::GpsParamOutOfRange,
        AsiError::GpsDataInvalid,
    ];
    for (i, e) in expected.iter().enumerate() {
        let code = i as i32 + 1;
        assert_eq!(asi_check(code).unwrap_err(), Error::Asi(*e));
    }
    assert_eq!(asi_check(23).unwrap_err(), Error::Asi(AsiError::Unknown(23)));
    assert_eq!(asi_check(-1).unwrap_err(), Error::Asi(AsiError::Unknown(-1)));
}

#[test]
fn efw_check_maps_every_known_code() {
    let expected = [
        EfwError::InvalidIndex,
        EfwError::InvalidId,
        EfwError::InvalidValue,
        EfwError::Removed,
        EfwError::Moving,
        EfwError::ErrorState,
        EfwError::GeneralError,
        EfwError::NotSupported,
        EfwError::Closed,
    ];
    for (i, e) in expected.iter().enumerate() {
        let code = i as i32 + 1;
        assert_eq!(efw_check(code).unwrap_err(), Error::Efw(*e));
    }
    assert_eq!(efw_check(10).unwrap_err(), Error::Efw(EfwError::Unknown(10)));
    assert_eq!(efw_check(-1).unwrap_err(), Error::Efw(EfwError::Unknown(-1)));
}
