//! Properties that relate several operations of the library, stated over the
//! spec functions that the operations' own contracts use.
use vstd::prelude::*;

use crate::camera::{
    after_poll, binned_height, binned_width, camera_wf, control_code, control_reading,
    control_auto, control_auto_supported, control_max, control_min, control_writable, image_type_code, initial_state, is_named_control_code, is_sim_control_caps,
    sim_serial_id, spec_clamp, start_pos_acceptable, roi_acceptable, with_control, with_roi, with_start_pos,
    is_sim_camera_info, CameraInfo, ControlCaps, ControlType, ExposureStatus, ImageType, RoiFormat, SimState,
};
use crate::error::{
    asi_error_code, efw_error_code, is_known_asi_error_code, is_known_efw_error_code, AsiError,
    EfwError,
};
use crate::ffi_util::{is_lower_hex_digit, spec_hex, spec_hex_digit};

verus! {

/// An accepted ROI change is read back unchanged by `roi_format`, re-centres
/// the start position on the binned sensor, and keeps the camera invariant
/// (the window stays inside the binned sensor).
pub proof fn law_roi_round_trip(
    info: CameraInfo,
    st: SimState,
    width: u32,
    height: u32,
    bin: u32,
    image_type: ImageType,
)
    requires
        camera_wf(info, st),
        roi_acceptable(info, width, height, bin),
    ensures
        with_roi(info, st, width, height, bin, image_type).roi == (RoiFormat {
            width,
            height,
            bin,
            image_type,
        }),
        with_roi(info, st, width, height, bin, image_type).start_x == (binned_width(info, bin)
            - width) / 2,
        with_roi(info, st, width, height, bin, image_type).start_y == (binned_height(info, bin)
            - height) / 2,
        camera_wf(info, with_roi(info, st, width, height, bin, image_type)),
{
}

/// An accepted start position is read back unchanged by `start_pos`, leaves
/// the ROI as it was, and keeps the camera invariant.
pub proof fn law_start_pos_round_trip(info: CameraInfo, st: SimState, x: u32, y: u32)
    requires
        camera_wf(info, st),
        start_pos_acceptable(info, st, x, y),
    ensures
        with_start_pos(st, x, y).start_x == x,
        with_start_pos(st, x, y).start_y == y,
        with_start_pos(st, x, y).roi == st.roi,
        camera_wf(info, with_start_pos(st, x, y)),
{
}

/// Writing a control is read back as the written value clamped to the
/// control's range (for `CoolerOn`, whose range is `0..=1`, any positive value
/// reads back as 1 and any other as 0), and the written auto flag is read back
/// for the controls that support auto mode.
pub proof fn law_control_round_trip(st: SimState, control: ControlType, value: i64, auto: bool)
    requires
        control_writable(control),
    ensures
        control_reading(with_control(st, control, value, auto), control) == Some(
            spec_clamp(value as int, control_min(control), control_max(control)),
        ),
        control_auto(with_control(st, control, value, auto), control) == (auto
            && control_auto_supported(control)),
{
}

/// With the cooler on, the sensor temperature (in 0.1 °C) follows the target
/// temperature (clamped to `-40..=30` °C); with it off, the sensor sits at
/// 20 °C.
pub proof fn law_temperature_follows_set_point(
    st: SimState,
    target: i64,
    cooler: i64,
    auto: bool,
)
    ensures
        ({
            let s = with_control(
                with_control(st, ControlType::TargetTemp, target, auto),
                ControlType::CoolerOn,
                cooler,
                auto,
            );
            control_reading(s, ControlType::Temperature) == Some(
                if cooler > 0 {
                    spec_clamp(target as int, -40, 30) * 10
                } else {
                    200int
                },
            )
        }),
{
}

/// Writing a control leaves the frame geometry and the exposure state alone,
/// and keeps the camera invariant.
pub proof fn law_control_write_keeps_frame(
    info: CameraInfo,
    st: SimState,
    control: ControlType,
    value: i64,
    auto: bool,
)
    requires
        camera_wf(info, st),
    ensures
        with_control(st, control, value, auto).roi == st.roi,
        with_control(st, control, value, auto).start_x == st.start_x,
        with_control(st, control, value, auto).start_y == st.start_y,
        with_control(st, control, value, auto).exposure_status == st.exposure_status,
        camera_wf(info, with_control(st, control, value, auto)),
{
}

/// The single-exposure cycle: after a start, the first poll reports
/// `Working`, the next reports `Success`, and later polls keep reporting
/// `Success`; after a stop, polls report `Idle`. Polling never touches the
/// frame geometry or the controls.
pub proof fn law_exposure_cycle(st: SimState)
    ensures
        ({
            let started = SimState { exposure_status: ExposureStatus::Working, ..st };
            &&& started.exposure_status == ExposureStatus::Working
            &&& after_poll(started).exposure_status == ExposureStatus::Success
            &&& after_poll(after_poll(started)) == after_poll(started)
        }),
        ({
            let stopped = SimState { exposure_status: ExposureStatus::Idle, ..st };
            after_poll(stopped) == stopped
        }),
        after_poll(st).roi == st.roi,
        after_poll(st).start_x == st.start_x && after_poll(st).start_y == st.start_y,
        after_poll(st).gain == st.gain && after_poll(st).offset == st.offset,
        after_poll(st).exposure_us == st.exposure_us,
        after_poll(st).target_temp == st.target_temp && after_poll(st).cooler_on == st.cooler_on,
        after_poll(st).gain_auto == st.gain_auto && after_poll(st).exposure_auto
            == st.exposure_auto,
{
}

/// The controls the camera advertises as writable are exactly those
/// `set_control_value` accepts; each writable control starts out at its
/// advertised default and is clamped to its advertised range. The controls
/// advertised as auto-capable are exactly those that keep an auto flag, and
/// none starts out in auto mode.
pub proof fn law_advertised_controls(caps: Seq<ControlCaps>, info: CameraInfo, i: int)
    requires
        is_sim_control_caps(caps),
        0 <= i < caps.len(),
    ensures
        caps[i].is_writable <==> control_writable(caps[i].control_type),
        caps[i].is_writable ==> control_reading(initial_state(info), caps[i].control_type) == Some(
            caps[i].default as int,
        ),
        caps[i].is_writable ==> control_min(caps[i].control_type) == caps[i].min && control_max(
            caps[i].control_type,
        ) == caps[i].max,
        caps[i].is_auto_supported <==> control_auto_supported(caps[i].control_type),
        !control_auto(initial_state(info), caps[i].control_type),
{
}

/// `ControlType::from_raw` undoes `ControlType::to_raw`: the only control
/// types whose code decodes to another value are `Other(v)` with `v` the code
/// of a named control.
pub proof fn law_control_code_round_trip(c: ControlType, decoded: ControlType)
    requires
        !(c matches ControlType::Other(v) && is_named_control_code(v)),
        control_code(decoded) == (control_code(c) as u32) as i32,
        decoded is Other <==> !is_named_control_code((control_code(c) as u32) as i32),
    ensures
        decoded == c,
{
    let v = control_code(c);
    assert(((v as u32) as i32) == v) by (bit_vector);
}

/// `ImageType::from_raw` undoes `ImageType::to_raw`.
pub proof fn law_image_type_code_round_trip(t: ImageType, decoded: Option<ImageType>)
    requires
        decoded is None <==> !(0 <= image_type_code(t) <= 3),
        decoded matches Some(u) ==> image_type_code(u) == image_type_code(t),
    ensures
        decoded == Some(t),
{
}

/// A byte sequence formatted as hex is two lowercase hex digits per byte.
pub proof fn law_hex_shape(bytes: Seq<u8>)
    ensures
        spec_hex(bytes).len() == 2 * bytes.len(),
        forall|i: int| 0 <= i < spec_hex(bytes).len() ==> is_lower_hex_digit(#[trigger] spec_hex(bytes)[i]),
{
    assert forall|i: int| 0 <= i < spec_hex(bytes).len() implies is_lower_hex_digit(
        #[trigger] spec_hex(bytes)[i],
    ) by {
        let b = bytes[i / 2] as int;
        assert(0 <= b / 16 < 16 && 0 <= b % 16 < 16);
        lemma_hex_digit(b / 16);
        lemma_hex_digit(b % 16);
    }
}

proof fn lemma_hex_digit(n: int)
    requires
        0 <= n < 16,
    ensures
        is_lower_hex_digit(spec_hex_digit(n)),
{
}

/// The simulated camera's serial number is 16 lowercase hex digits.
pub proof fn law_serial_shape()
    ensures
        spec_hex(sim_serial_id()).len() == 16,
        forall|i: int| 0 <= i < 16 ==> is_lower_hex_digit(#[trigger] spec_hex(sim_serial_id())[i]),
{
    law_hex_shape(sim_serial_id());
}

/// `asi_check` loses no information: two errors it can produce for the same
/// code are the same error, so distinct codes give distinct errors.
pub proof fn law_asi_errors_are_faithful(e1: AsiError, e2: AsiError)
    requires
        e1 is Unknown <==> !is_known_asi_error_code(asi_error_code(e1)),
        e2 is Unknown <==> !is_known_asi_error_code(asi_error_code(e2)),
        asi_error_code(e1) == asi_error_code(e2),
    ensures
        e1 == e2,
{
}

/// `efw_check` loses no information: two errors it can produce for the same
/// code are the same error, so distinct codes give distinct errors.
pub proof fn law_efw_errors_are_faithful(e1: EfwError, e2: EfwError)
    requires
        e1 is Unknown <==> !is_known_efw_error_code(efw_error_code(e1)),
        e2 is Unknown <==> !is_known_efw_error_code(efw_error_code(e2)),
        efw_error_code(e1) == efw_error_code(e2),
    ensures
        e1 == e2,
{
}

/// The ROIs `set_roi_format` accepts are exactly those whose binning factor
/// is listed in `supported_bins`, whose width is a multiple of 8 and height a
/// multiple of 2, and whose non-zero width and height fit the sensor divided
/// by the binning factor. No other condition (such as the binning factor
/// dividing the sensor size) is imposed.
pub proof fn law_roi_acceptance(info: CameraInfo, width: u32, height: u32, bin: u32)
    ensures
        roi_acceptable(info, width, height, bin) <==> {
            &&& info.supported_bins@.contains(bin)
            &&& width % 8 == 0
            &&& height % 2 == 0
            &&& 0 < width && width as int <= info.max_width as int / bin as int
            &&& 0 < height && height as int <= info.max_height as int / bin as int
        },
{
}

/// On the simulated camera every listed binning factor is usable: the
/// smallest aligned ROI (8×2) is accepted at each of them, whether or not the
/// factor divides the sensor size.
pub proof fn law_every_listed_bin_is_usable(info: CameraInfo, bin: u32)
    requires
        is_sim_camera_info(info),
        info.supported_bins@.contains(bin),
    ensures
        roi_acceptable(info, 8, 2, bin),
        1 <= bin <= 4,
{
    let k = choose|k: int| 0 <= k < info.supported_bins@.len() && info.supported_bins@[k] == bin;
    assert(info.supported_bins@[k] == bin);
    assert(6248int / 4 >= 8 && 4176int / 4 >= 2);
    assert(6248int / bin as int >= 8 && 4176int / bin as int >= 2) by (nonlinear_arith)
        requires
            1 <= bin <= 4,
    ;
}

/// The start positions `set_start_pos` accepts are exactly those that keep
/// the ROI window inside the sensor divided by the current binning factor
/// (post-binning coordinates), and every open camera's window lies there.
pub proof fn law_start_pos_within_binned_sensor(info: CameraInfo, st: SimState, x: u32, y: u32)
    ensures
        start_pos_acceptable(info, st, x, y) <==> {
            &&& x as int + st.roi.width as int <= info.max_width as int / st.roi.bin as int
            &&& y as int + st.roi.height as int <= info.max_height as int / st.roi.bin as int
        },
        camera_wf(info, st) ==> {
            &&& st.start_x as int + st.roi.width as int <= info.max_width as int / st.roi.bin as int
            &&& st.start_y as int + st.roi.height as int <= info.max_height as int
                / st.roi.bin as int
        },
{
}

/// Cooler power follows the cooler switch alone: after writing `CoolerOn`,
/// the cooler-power reading is 60 % for a positive value and 0 % otherwise,
/// whatever the target temperature or any other state.
pub proof fn law_cooler_power_follows_switch(st: SimState, value: i64, auto: bool)
    ensures
        control_reading(with_control(st, ControlType::CoolerOn, value, auto), ControlType::CoolerPowerPerc)
            == Some(
            if value > 0 {
                60int
            } else {
                0int
            },
        ),
        control_reading(with_control(st, ControlType::CoolerOn, value, auto), ControlType::CoolerOn)
            == Some(
            if value > 0 {
                1int
            } else {
                0int
            },
        ),
{
}

} // verus!
