use zenseapi::enums::{
    DataMode, DepthRange, FrameType, GmmGainEffectiveTime, PixelFormat, PropertyType,
    PropertyValue, Resolution, SensorType, WdrStyle, WdrTotalRange, ZenseError,
};
use zenseapi::{
    complete_open_device, get_device_count, get_device_info, get_device_list_info, initialize,
    open_device, shutdown, DeviceHandle, Lifecycle, NativeCall, PsGmmGain, PsWdrOutputMode,
    ZenseResult,
};

const ADDRESS: usize = 0x7f00_1000;

fn ready() -> Lifecycle {
    let mut lifecycle = Lifecycle::new();
    assert_eq!(lifecycle.complete_initialize(0), Ok(()));
    lifecycle
}

fn wdr_mode() -> PsWdrOutputMode {
    PsWdrOutputMode {
        total_range: WdrTotalRange::WdrTotalRangeTwo,
        range1: DepthRange::NearRange,
        range1_count: 1,
        range2: DepthRange::FarRange,
        range2_count: 1,
        range3: DepthRange::Unknown,
        range3_count: 0,
    }
}

fn every_request(handle: &DeviceHandle, lifecycle: &Lifecycle) -> Vec<ZenseResult<NativeCall>> {
    let text = PropertyValue::StringValue(String::from("x"));
    vec![
        handle.close_device(lifecycle),
        handle.start_stream(lifecycle, 0),
        handle.stop_stream(lifecycle, 0),
        handle.read_next_frame(lifecycle, 0),
        handle.get_frame(lifecycle, 0, FrameType::DepthFrame),
        handle.set_data_mode(lifecycle, 0, DataMode::WdrDepth),
        handle.get_data_mode(lifecycle, 0),
        handle.get_depth_range(lifecycle, 0),
        handle.set_depth_range(lifecycle, 0, DepthRange::MidRange),
        handle.get_threshold(lifecycle, 0),
        handle.set_threshold(lifecycle, 0, 20),
        handle.get_pulse_count(lifecycle, 0),
        handle.set_pulse_count(lifecycle, 0, 300),
        handle.get_gmm_gain(lifecycle, 0),
        handle.set_gmm_gain(lifecycle, 0, 5, GmmGainEffectiveTime::Temporary),
        handle.get_property(lifecycle, 0, PropertyType::SerialNumber),
        handle.get_property(lifecycle, 0, PropertyType::DataMode),
        handle.set_property(lifecycle, 0, PropertyType::SerialNumber, &text),
        handle.get_camera_parameters(lifecycle, 0, SensorType::DepthSensor),
        handle.set_wdr_output_mode(lifecycle, 0, wdr_mode()),
        handle.set_wdr_style(lifecycle, 0, WdrStyle::Fusion),
        handle.set_rgb_frame_enabled(lifecycle, 0, true),
        handle.set_depth_distortion_correction_enabled(lifecycle, 0, true),
        handle.set_ir_distortion_correction_enabled(lifecycle, 0, true),
        handle.set_rgb_distortion_correction_enabled(lifecycle, 0, true),
        handle.set_compute_real_depth_correction_enabled(lifecycle, 0, true),
        handle.set_spatial_filter_enabled(lifecycle, 0, true),
        handle.set_time_filter_enabled(lifecycle, 0, true),
        handle.set_mapper_enabled_rgb_to_depth(lifecycle, 0, true),
        handle.set_mapper_enabled_depth_to_rgb(lifecycle, 0, true),
        handle.set_rgb_resolution(lifecycle, 0, Resolution::Res640x480),
        handle.set_color_pixel_format(lifecycle, 0, PixelFormat::Rgb888),
    ]
}

#[test]
fn lifecycle_starts_down_and_follows_the_answers() {
    let mut lifecycle = Lifecycle::new();
    assert!(!lifecycle.is_ready());
    assert_eq!(lifecycle.complete_initialize(-1), Err(ZenseError::NoDeviceConnected));
    assert!(!lifecycle.is_ready());
    assert_eq!(lifecycle.complete_initialize(0), Ok(()));
    assert!(lifecycle.is_ready());
    assert_eq!(lifecycle.complete_shutdown(-255), Err(ZenseError::Others));
    assert!(lifecycle.is_ready());
    assert_eq!(lifecycle.complete_shutdown(0), Ok(()));
    assert!(!lifecycle.is_ready());
}

#[test]
fn initialize_is_asked_for_only_once() {
    let mut lifecycle = Lifecycle::new();
    assert_eq!(initialize(&lifecycle), Ok(NativeCall::Initialize));
    assert_eq!(lifecycle.complete_initialize(0), Ok(()));
    assert_eq!(initialize(&lifecycle), Err(ZenseError::OrderingError));
    assert_eq!(shutdown(&lifecycle), Ok(NativeCall::Shutdown));
    assert_eq!(lifecycle.complete_shutdown(0), Ok(()));
    assert_eq!(initialize(&lifecycle), Ok(NativeCall::Initialize));
}

#[test]
fn nothing_is_called_before_initialize() {
    let lifecycle = Lifecycle::new();
    assert_eq!(shutdown(&lifecycle), Err(ZenseError::OrderingError));
    assert_eq!(get_device_count(&lifecycle), Err(ZenseError::OrderingError));
    assert_eq!(get_device_list_info(&lifecycle, 2), Err(ZenseError::OrderingError));
    assert_eq!(get_device_info(&lifecycle, 0), Err(ZenseError::OrderingError));
    assert_eq!(open_device(&lifecycle, "/dev/video0"), Err(ZenseError::OrderingError));
    let handle = DeviceHandle::new(ADDRESS);
    for request in every_request(&handle, &lifecycle) {
        assert_eq!(request, Err(ZenseError::OrderingError));
    }
}

#[test]
fn nothing_is_called_after_shutdown() {
    let mut lifecycle = ready();
    let handle = complete_open_device(0, ADDRESS).unwrap();
    assert_eq!(lifecycle.complete_shutdown(0), Ok(()));
    assert_eq!(get_device_count(&lifecycle), Err(ZenseError::OrderingError));
    for request in every_request(&handle, &lifecycle) {
        assert_eq!(request, Err(ZenseError::OrderingError));
    }
}

#[test]
fn library_requests_name_their_arguments() {
    let lifecycle = ready();
    assert_eq!(get_device_count(&lifecycle), Ok(NativeCall::GetDeviceCount));
    assert_eq!(
        get_device_list_info(&lifecycle, 3),
        Ok(NativeCall::GetDeviceListInfo { device_count: 3 })
    );
    assert_eq!(get_device_info(&lifecycle, 2), Ok(NativeCall::GetDeviceInfo { device_index: 2 }));
    assert_eq!(
        open_device(&lifecycle, "/dev/video0"),
        Ok(NativeCall::OpenDevice { uri: b"/dev/video0".to_vec() })
    );
    assert_eq!(
        open_device(&lifecycle, "caméra"),
        Ok(NativeCall::OpenDevice { uri: "caméra".as_bytes().to_vec() })
    );
    assert_eq!(open_device(&lifecycle, ""), Ok(NativeCall::OpenDevice { uri: Vec::new() }));
}

#[test]
fn open_device_refuses_an_embedded_zero_byte() {
    let lifecycle = ready();
    assert_eq!(open_device(&lifecycle, "/dev/\0video0"), Err(ZenseError::RuntimeError));
    assert_eq!(open_device(&lifecycle, "\0"), Err(ZenseError::RuntimeError));
    assert_eq!(open_device(&lifecycle, "/dev/video0\0"), Err(ZenseError::RuntimeError));
}

#[test]
fn open_device_answer_must_carry_an_address() {
    let handle = complete_open_device(0, ADDRESS).unwrap();
    assert!(!handle.is_null());
    assert!(!handle.is_closed());
    assert_eq!(handle, DeviceHandle::new(ADDRESS));
    assert_eq!(complete_open_device(0, 0), Err(ZenseError::FfiError));
    assert_eq!(complete_open_device(-1, ADDRESS), Err(ZenseError::NoDeviceConnected));
    assert_eq!(complete_open_device(-1, 0), Err(ZenseError::NoDeviceConnected));
    assert_eq!(complete_open_device(17, ADDRESS), Err(ZenseError::FfiError));
}

#[test]
fn open_handle_asks_for_exactly_the_call() {
    let lifecycle = ready();
    let h = DeviceHandle::new(ADDRESS);
    let handle = ADDRESS;
    assert_eq!(h.check(&lifecycle), Ok(ADDRESS));
    assert_eq!(h.close_device(&lifecycle), Ok(NativeCall::CloseDevice { handle }));
    assert_eq!(
        h.start_stream(&lifecycle, 1),
        Ok(NativeCall::StartStream { handle, session_index: 1 })
    );
    assert_eq!(
        h.stop_stream(&lifecycle, 2),
        Ok(NativeCall::StopStream { handle, session_index: 2 })
    );
    assert_eq!(
        h.read_next_frame(&lifecycle, 0),
        Ok(NativeCall::ReadNextFrame { handle, session_index: 0 })
    );
    assert_eq!(
        h.get_frame(&lifecycle, 0, FrameType::IrFrame),
        Ok(NativeCall::GetFrame { handle, session_index: 0, frame_type: FrameType::IrFrame })
    );
    assert_eq!(
        h.set_data_mode(&lifecycle, 0, DataMode::WdrIr),
        Ok(NativeCall::SetDataMode { handle, session_index: 0, data_mode: DataMode::WdrIr })
    );
    assert_eq!(
        h.get_data_mode(&lifecycle, 3),
        Ok(NativeCall::GetDataMode { handle, session_index: 3 })
    );
    assert_eq!(
        h.get_depth_range(&lifecycle, 3),
        Ok(NativeCall::GetDepthRange { handle, session_index: 3 })
    );
    assert_eq!(
        h.set_depth_range(&lifecycle, 0, DepthRange::XFarRange),
        Ok(NativeCall::SetDepthRange {
            handle,
            session_index: 0,
            depth_range: DepthRange::XFarRange
        })
    );
    assert_eq!(
        h.get_threshold(&lifecycle, 0),
        Ok(NativeCall::GetThreshold { handle, session_index: 0 })
    );
    assert_eq!(
        h.set_threshold(&lifecycle, 0, 25),
        Ok(NativeCall::SetThreshold { handle, session_index: 0, threshold: 25 })
    );
    assert_eq!(
        h.get_pulse_count(&lifecycle, 0),
        Ok(NativeCall::GetPulseCount { handle, session_index: 0 })
    );
    assert_eq!(
        h.set_pulse_count(&lifecycle, 0, 600),
        Ok(NativeCall::SetPulseCount { handle, session_index: 0, pulse_count: 600 })
    );
    assert_eq!(
        h.get_gmm_gain(&lifecycle, 0),
        Ok(NativeCall::GetGmmGain { handle, session_index: 0 })
    );
    assert_eq!(
        h.set_gmm_gain(&lifecycle, 0, 7, GmmGainEffectiveTime::Permanent),
        Ok(NativeCall::SetGmmGain {
            handle,
            session_index: 0,
            gmm_gain: PsGmmGain { gain: 7, option: GmmGainEffectiveTime::Permanent }
        })
    );
    assert_eq!(
        h.get_camera_parameters(&lifecycle, 0, SensorType::RgbSensor),
        Ok(NativeCall::GetCameraParameters {
            handle,
            session_index: 0,
            sensor_type: SensorType::RgbSensor
        })
    );
}

#[test]
fn open_handle_asks_for_exactly_the_toggle() {
    let lifecycle = ready();
    let h = DeviceHandle::new(ADDRESS);
    let handle = ADDRESS;
    let session_index = 4;
    assert_eq!(
        h.set_wdr_output_mode(&lifecycle, 4, wdr_mode()),
        Ok(NativeCall::SetWdrOutputMode { handle, session_index, wdr_mode: wdr_mode() })
    );
    assert_eq!(
        h.set_wdr_style(&lifecycle, 4, WdrStyle::Alternation),
        Ok(NativeCall::SetWdrStyle { handle, session_index, wdr_style: WdrStyle::Alternation })
    );
    assert_eq!(
        h.set_rgb_frame_enabled(&lifecycle, 4, false),
        Ok(NativeCall::SetRgbFrameEnabled { handle, session_index, enabled: false })
    );
    assert_eq!(
        h.set_depth_distortion_correction_enabled(&lifecycle, 4, true),
        Ok(NativeCall::SetDepthDistortionCorrectionEnabled {
            handle,
            session_index,
            enabled: true
        })
    );
    assert_eq!(
        h.set_ir_distortion_correction_enabled(&lifecycle, 4, true),
        Ok(NativeCall::SetIrDistortionCorrectionEnabled { handle, session_index, enabled: true })
    );
    assert_eq!(
        h.set_rgb_distortion_correction_enabled(&lifecycle, 4, false),
        Ok(NativeCall::SetRgbDistortionCorrectionEnabled { handle, session_index, enabled: false })
    );
    assert_eq!(
        h.set_compute_real_depth_correction_enabled(&lifecycle, 4, true),
        Ok(NativeCall::SetComputeRealDepthCorrectionEnabled {
            handle,
            session_index,
            enabled: true
        })
    );
    assert_eq!(
        h.set_spatial_filter_enabled(&lifecycle, 4, true),
        Ok(NativeCall::SetSpatialFilterEnabled { handle, session_index, enabled: true })
    );
    assert_eq!(
        h.set_time_filter_enabled(&lifecycle, 4, false),
        Ok(NativeCall::SetTimeFilterEnabled { handle, session_index, enabled: false })
    );
    assert_eq!(
        h.set_mapper_enabled_rgb_to_depth(&lifecycle, 4, true),
        Ok(NativeCall::SetMapperEnabledRgbToDepth { handle, session_index, enabled: true })
    );
    assert_eq!(
        h.set_mapper_enabled_depth_to_rgb(&lifecycle, 4, true),
        Ok(NativeCall::SetMapperEnabledDepthToRgb { handle, session_index, enabled: true })
    );
    assert_eq!(
        h.set_rgb_resolution(&lifecycle, 4, Resolution::Res1280x720),
        Ok(NativeCall::SetRgbResolution {
            handle,
            session_index,
            resolution: Resolution::Res1280x720
        })
    );
    assert_eq!(
        h.set_color_pixel_format(&lifecycle, 4, PixelFormat::Bgr888),
        Ok(NativeCall::SetColorPixelFormat {
            handle,
            session_index,
            pixel_format: PixelFormat::Bgr888
        })
    );
}

#[test]
fn closed_handle_refuses_every_request() {
    let lifecycle = ready();
    let mut handle = complete_open_device(0, ADDRESS).unwrap();
    assert_eq!(handle.complete_close_device(0), Ok(()));
    assert!(handle.is_closed());
    assert_eq!(handle.check(&lifecycle), Err(ZenseError::CameraNotOpened));
    let requests = every_request(&handle, &lifecycle);
    assert_eq!(requests.len(), 32);
    let calls = requests.iter().filter(|request| request.is_ok()).count();
    assert_eq!(calls, 0);
    for request in requests {
        assert_eq!(request, Err(ZenseError::CameraNotOpened));
    }
}

#[test]
fn closed_handle_says_so_whatever_the_library_state() {
    let mut lifecycle = ready();
    let mut handle = DeviceHandle::new(ADDRESS);
    assert_eq!(handle.complete_close_device(0), Ok(()));
    assert_eq!(lifecycle.complete_shutdown(0), Ok(()));
    for request in every_request(&handle, &lifecycle) {
        assert_eq!(request, Err(ZenseError::CameraNotOpened));
    }
}

#[test]
fn close_happens_once() {
    let lifecycle = ready();
    let mut handle = DeviceHandle::new(ADDRESS);
    assert_eq!(handle.complete_close_device(-3), Err(ZenseError::DevicePointerIsNull));
    assert!(!handle.is_closed());
    assert_eq!(handle.complete_close_device(5), Err(ZenseError::FfiError));
    assert!(!handle.is_closed());
    assert_eq!(
        handle.close_device(&lifecycle),
        Ok(NativeCall::CloseDevice { handle: ADDRESS })
    );
    assert_eq!(handle.complete_close_device(0), Ok(()));
    assert!(handle.is_closed());
    assert_eq!(handle.close_device(&lifecycle), Err(ZenseError::CameraNotOpened));
    assert_eq!(handle.complete_close_device(0), Err(ZenseError::CameraNotOpened));
    assert!(handle.is_closed());
}

#[test]
fn null_handle_refuses_every_request() {
    let lifecycle = ready();
    let mut handle = DeviceHandle::new(0);
    assert!(handle.is_null());
    assert_eq!(handle.check(&lifecycle), Err(ZenseError::FfiError));
    for request in every_request(&handle, &lifecycle) {
        assert_eq!(request, Err(ZenseError::FfiError));
    }
    assert_eq!(handle.complete_close_device(0), Err(ZenseError::FfiError));
    assert!(!handle.is_closed());
    let down = Lifecycle::new();
    for request in every_request(&handle, &down) {
        assert_eq!(request, Err(ZenseError::FfiError));
    }
}

#[test]
fn get_property_is_asked_only_for_text() {
    let lifecycle = ready();
    let h = DeviceHandle::new(ADDRESS);
    for property_type in
        [PropertyType::SerialNumber, PropertyType::FirmwareVersion, PropertyType::HardwareVersion]
    {
        assert_eq!(
            h.get_property(&lifecycle, 1, property_type),
            Ok(NativeCall::GetProperty {
                handle: ADDRESS,
                session_index: 1,
                property_type,
                capacity: 128
            })
        );
    }
    for property_type in
        [PropertyType::DataMode, PropertyType::DataModeList, PropertyType::DepthRangeList]
    {
        assert_eq!(h.get_property(&lifecycle, 1, property_type), Err(ZenseError::Unsupported));
    }
}

#[test]
fn set_property_hands_over_the_bytes_of_a_text() {
    let lifecycle = ready();
    let h = DeviceHandle::new(ADDRESS);
    let text = PropertyValue::StringValue(String::from("SN-é1"));
    assert_eq!(
        h.set_property(&lifecycle, 2, PropertyType::SerialNumber, &text),
        Ok(NativeCall::SetProperty {
            handle: ADDRESS,
            session_index: 2,
            property_type: PropertyType::SerialNumber,
            data: "SN-é1".as_bytes().to_vec()
        })
    );
}

#[test]
fn set_property_refuses_what_it_cannot_hand_over() {
    let lifecycle = ready();
    let h = DeviceHandle::new(ADDRESS);
    let text = PropertyValue::StringValue(String::from("a"));
    let with_zero = PropertyValue::StringValue(String::from("a\0b"));
    let byte = PropertyValue::Uint8Value(1);
    let list = PropertyValue::Int32ValueList(vec![1, 2]);
    assert_eq!(
        h.set_property(&lifecycle, 0, PropertyType::SerialNumber, &with_zero),
        Err(ZenseError::RuntimeError)
    );
    assert_eq!(
        h.set_property(&lifecycle, 0, PropertyType::SerialNumber, &byte),
        Err(ZenseError::Unsupported)
    );
    assert_eq!(
        h.set_property(&lifecycle, 0, PropertyType::SerialNumber, &list),
        Err(ZenseError::Unsupported)
    );
    assert_eq!(
        h.set_property(&lifecycle, 0, PropertyType::DataMode, &text),
        Err(ZenseError::Unsupported)
    );
    assert_eq!(
        h.set_property(&lifecycle, 0, PropertyType::DataModeList, &list),
        Err(ZenseError::Unsupported)
    );
}
