use zwo_rs::{
    AsiError, Camera, ControlType, Error, ExposureStatus, GuideDirection, ImageType, Sdk,
    SIM_CAMERA_COUNT,
};

fn assert_send<T: Send>() {}

#[test]
fn camera_is_send() {
    // `Camera` must be movable between threads (the driver runs on a
    // multi-threaded runtime).
    assert_send::<Camera>();
}

#[test]
fn cameras_enumerates() {
    let sdk = Sdk::new().unwrap();
    let cams = sdk.cameras().unwrap();
    assert_eq!(cams.len(), SIM_CAMERA_COUNT);
    let info = &cams[0];
    assert_eq!(info.name, "ASI2600MM-Pro-Simulated");
    assert_eq!(info.max_width, 6248);
    assert_eq!(info.max_height, 4176);
    assert!(!info.is_color);
    assert_eq!(info.bit_depth, 16);
    assert!(info.is_cooler_cam);
    assert!(info.has_st4_port);
    assert_eq!(info.supported_bins, vec![1, 2, 3, 4]);
}

#[test]
fn open_camera_exposes_info_serial_and_controls() {
    let sdk = Sdk::new().unwrap();
    let cam = sdk.open_camera(0).unwrap();
    assert_eq!(cam.id(), 0);
    assert_eq!(cam.info().name, "ASI2600MM-Pro-Simulated");

    let serial = cam.serial().unwrap();
    assert_eq!(serial.len(), 16);
    assert!(serial.chars().all(|c| c.is_ascii_hexdigit()));

    let caps = cam.control_caps().unwrap();
    let gain = caps
        .iter()
        .find(|c| c.control_type == ControlType::Gain)
        .unwrap();
    assert_eq!(gain.max, 500);
    let exposure = caps
        .iter()
        .find(|c| c.control_type == ControlType::Exposure)
        .unwrap();
    assert_eq!(exposure.min, 32);
}

#[test]
fn open_camera_out_of_range_is_rejected() {
    let sdk = Sdk::new().unwrap();
    assert_eq!(
        sdk.open_camera(99).unwrap_err(),
        Error::Asi(AsiError::InvalidIndex)
    );
}

#[test]
fn roi_format_round_trips_and_recenters() {
    let sdk = Sdk::new().unwrap();
    let mut cam = sdk.open_camera(0).unwrap();
    // Default ROI is full-frame Raw16 bin1.
    let default = cam.roi_format().unwrap();
    assert_eq!(default.width, 6248);
    assert_eq!(default.height, 4176);
    assert_eq!(default.bin, 1);
    assert_eq!(default.image_type, ImageType::Raw16);
    assert_eq!(default.buffer_len(), 6248 * 4176 * 2);

    // A binned, sub-framed ROI.
    cam.set_roi_format(800, 600, 2, ImageType::Raw8).unwrap();
    let roi = cam.roi_format().unwrap();
    assert_eq!(roi.width, 800);
    assert_eq!(roi.height, 600);
    assert_eq!(roi.bin, 2);
    assert_eq!(roi.image_type, ImageType::Raw8);
    assert_eq!(roi.buffer_len(), 800 * 600);
    // Setting the ROI re-centres the start position (binned coordinates).
    let (sx, sy) = cam.start_pos().unwrap();
    assert_eq!(sx, (6248 / 2 - 800) / 2);
    assert_eq!(sy, (4176 / 2 - 600) / 2);
}

#[test]
fn set_roi_format_rejects_misaligned_and_unsupported() {
    let sdk = Sdk::new().unwrap();
    let mut cam = sdk.open_camera(0).unwrap();
    // width not a multiple of 8
    assert_eq!(
        cam.set_roi_format(801, 600, 1, ImageType::Raw16)
            .unwrap_err(),
        Error::Asi(AsiError::InvalidSize)
    );
    // height not a multiple of 2
    assert_eq!(
        cam.set_roi_format(800, 601, 1, ImageType::Raw16)
            .unwrap_err(),
        Error::Asi(AsiError::InvalidSize)
    );
    // unsupported binning
    assert_eq!(
        cam.set_roi_format(800, 600, 5, ImageType::Raw16)
            .unwrap_err(),
        Error::Asi(AsiError::InvalidSize)
    );
}

#[test]
fn set_start_pos_rejects_out_of_bounds() {
    let sdk = Sdk::new().unwrap();
    let mut cam = sdk.open_camera(0).unwrap();
    cam.set_roi_format(800, 600, 1, ImageType::Raw16).unwrap();
    cam.set_start_pos(100, 100).unwrap();
    assert_eq!(cam.start_pos().unwrap(), (100, 100));
    // start + size beyond the full frame
    assert_eq!(
        cam.set_start_pos(6000, 100).unwrap_err(),
        Error::Asi(AsiError::OutOfBoundary)
    );
}

#[test]
fn control_values_round_trip() {
    let sdk = Sdk::new().unwrap();
    let mut cam = sdk.open_camera(0).unwrap();
    cam.set_control_value(ControlType::Gain, 200, false)
        .unwrap();
    assert_eq!(cam.control_value(ControlType::Gain).unwrap().value, 200);
    cam.set_control_value(ControlType::Offset, 30, false)
        .unwrap();
    assert_eq!(cam.control_value(ControlType::Offset).unwrap().value, 30);
    // Cooler + target temperature drive the simulated sensor temperature.
    cam.set_control_value(ControlType::TargetTemp, -10, false)
        .unwrap();
    cam.set_control_value(ControlType::CoolerOn, 1, false)
        .unwrap();
    assert_eq!(cam.control_value(ControlType::CoolerOn).unwrap().value, 1);
    // The temperature control reads in 0.1 °C units.
    let celsius = cam.control_value(ControlType::Temperature).unwrap().value as f64 / 10.0;
    assert!((celsius - (-10.0)).abs() < f64::EPSILON);
}

#[test]
fn exposure_control_round_trips() {
    let sdk = Sdk::new().unwrap();
    let mut cam = sdk.open_camera(0).unwrap();
    assert_eq!(
        cam.control_value(ControlType::Exposure).unwrap().value,
        10_000
    );
    cam.set_control_value(ControlType::Exposure, 1_500_000, false)
        .unwrap();
    assert_eq!(
        cam.control_value(ControlType::Exposure).unwrap().value,
        1_500_000
    );
}

#[test]
fn full_frame_download_fills_buffer() {
    let sdk = Sdk::new().unwrap();
    let mut cam = sdk.open_camera(0).unwrap();
    let need = cam.roi_format().unwrap().buffer_len();
    assert_eq!(need, 6248 * 4176 * 2);
    cam.start_exposure(false).unwrap();
    assert_eq!(cam.exposure_status().unwrap(), ExposureStatus::Working);
    assert_eq!(cam.exposure_status().unwrap(), ExposureStatus::Success);
    let mut buf = vec![0u8; need];
    cam.download_exposure(&mut buf).unwrap();
    assert_eq!(buf.len(), need);
}

#[test]
fn set_unwritable_control_is_rejected() {
    let sdk = Sdk::new().unwrap();
    let mut cam = sdk.open_camera(0).unwrap();
    assert_eq!(
        cam.set_control_value(ControlType::Temperature, 0, false)
            .unwrap_err(),
        Error::Asi(AsiError::InvalidControlType)
    );
}

#[test]
fn exposure_cycle_completes_and_downloads() {
    let sdk = Sdk::new().unwrap();
    let mut cam = sdk.open_camera(0).unwrap();
    cam.set_roi_format(800, 600, 1, ImageType::Raw16).unwrap();
    assert_eq!(cam.exposure_status().unwrap(), ExposureStatus::Idle);

    cam.start_exposure(false).unwrap();
    // The simulated exposure reports Working once, then Success.
    assert_eq!(cam.exposure_status().unwrap(), ExposureStatus::Working);
    assert_eq!(cam.exposure_status().unwrap(), ExposureStatus::Success);

    let mut buf = vec![0u8; cam.roi_format().unwrap().buffer_len()];
    cam.download_exposure(&mut buf).unwrap();
    assert_eq!(buf.len(), 800 * 600 * 2);
}

#[test]
fn download_rejects_short_buffer() {
    let sdk = Sdk::new().unwrap();
    let mut cam = sdk.open_camera(0).unwrap();
    cam.set_roi_format(800, 600, 1, ImageType::Raw16).unwrap();
    let mut buf = vec![0u8; 10];
    assert_eq!(
        cam.download_exposure(&mut buf).unwrap_err(),
        Error::Asi(AsiError::BufferTooSmall)
    );
}

#[test]
fn stop_exposure_returns_to_idle() {
    let sdk = Sdk::new().unwrap();
    let mut cam = sdk.open_camera(0).unwrap();
    cam.start_exposure(false).unwrap();
    cam.stop_exposure().unwrap();
    assert_eq!(cam.exposure_status().unwrap(), ExposureStatus::Idle);
}

#[test]
fn pulse_guide_is_accepted() {
    let sdk = Sdk::new().unwrap();
    let cam = sdk.open_camera(0).unwrap();
    cam.pulse_guide_on(GuideDirection::North).unwrap();
    cam.pulse_guide_off(GuideDirection::North).unwrap();
    cam.pulse_guide_on(GuideDirection::West).unwrap();
    cam.pulse_guide_off(GuideDirection::West).unwrap();
}
