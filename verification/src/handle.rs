//! The handle of an open device, and what may be asked of it.

use crate::enums::{
    DataMode, DepthRange, FrameType, GmmGainEffectiveTime, PixelFormat, PropertyType,
    PropertyValue, Resolution, SensorType, WdrStyle, ZenseError,
};
use crate::lifecycle::Lifecycle;
use crate::native::{NativeCall, PsGmmGain, PsWdrOutputMode, PROPERTY_CAPACITY};
use crate::status::{check_status, status_outcome, ZenseResult};
use crate::text::{contains_nul, has_nul};
use vstd::prelude::*;
use vstd::utf8::encode_utf8;

verus! {

/// One open device session. It holds the address that the native side
/// handed out and whether the session has been closed since; the address
/// leaves it only inside a [`NativeCall`], and only while the session is
/// open.
#[derive(Debug, PartialEq, Eq)]
pub struct DeviceHandle {
    device_handle: usize,
    device_closed: bool,
}

impl DeviceHandle {
    /// The address that the native side knows the session by.
    pub closed spec fn address(&self) -> usize {
        self.device_handle
    }

    /// Whether the session has been closed.
    pub closed spec fn closed(&self) -> bool {
        self.device_closed
    }

    /// What holds of every handle: a session that is closed was open before,
    /// and none opens at the null address.
    #[verifier::type_invariant]
    pub open spec fn sound(&self) -> bool {
        self.closed() ==> self.address() != 0
    }

    /// Why the handle cannot be used at present, if it cannot: the session
    /// is closed, the address is null, or the library is not initialized.
    /// (A sound handle is never both closed and null, so the first two do
    /// not compete.)
    pub open spec fn refusal(&self, lifecycle: &Lifecycle) -> Option<ZenseError> {
        if self.closed() {
            Some(ZenseError::CameraNotOpened)
        } else if self.address() == 0 {
            Some(ZenseError::FfiError)
        } else if !lifecycle.ready() {
            Some(ZenseError::OrderingError)
        } else {
            None
        }
    }

    /// What asking for `call` comes to: the refusal where there is one, and
    /// otherwise the call itself.
    pub open spec fn request(&self, lifecycle: &Lifecycle, call: NativeCall) -> ZenseResult<
        NativeCall,
    > {
        match self.refusal(lifecycle) {
            Some(e) => Err(e),
            None => Ok(call),
        }
    }

    /// A handle for the open session at `device_handle`.
    pub fn new(device_handle: usize) -> (handle: DeviceHandle)
        ensures
            handle.address() == device_handle,
            !handle.closed(),
            handle.sound(),
    {
        DeviceHandle { device_handle, device_closed: false }
    }

    /// Whether the handle holds the null address.
    pub fn is_null(&self) -> (b: bool)
        ensures
            b == (self.address() == 0),
    {
        self.device_handle == 0
    }

    /// Whether the session has been closed.
    pub fn is_closed(&self) -> (b: bool)
        ensures
            b == self.closed(),
    {
        self.device_closed
    }

    /// The check that stands before every operation on a session. It hands
    /// out the address to call with, and nothing where the handle is null,
    /// the session closed or the library not initialized.
    pub fn check(&self, lifecycle: &Lifecycle) -> (r: ZenseResult<usize>)
        ensures
            match self.refusal(lifecycle) {
                Some(e) => r == Err::<usize, ZenseError>(e),
                None => r == Ok::<usize, ZenseError>(self.address()),
            },
            self.sound(),
    {
        proof {
            use_type_invariant(self);
        }
        if self.device_handle == 0 {
            Err(ZenseError::FfiError)
        } else if self.device_closed {
            Err(ZenseError::CameraNotOpened)
        } else if !lifecycle.is_ready() {
            Err(ZenseError::OrderingError)
        } else {
            Ok(self.device_handle)
        }
    }

    /// Closes the session. The handle changes only when the native side has
    /// answered: see [`DeviceHandle::complete_close_device`].
    pub fn close_device(&self, lifecycle: &Lifecycle) -> (r: ZenseResult<NativeCall>)
        ensures
            r == self.request(lifecycle, (NativeCall::CloseDevice { handle: self.address() })),
            self.sound(),
    {
        match self.check(lifecycle) {
            Ok(handle) => Ok(NativeCall::CloseDevice { handle }),
            Err(e) => Err(e),
        }
    }

    /// Takes note of how the native close ended. From a status of 0 on the
    /// session is closed, for good; any other status leaves it open. A
    /// handle that is null or closed already keeps its state and gives the
    /// error of its state, whatever the status.
    pub fn complete_close_device(&mut self, status: i32) -> (r: ZenseResult<()>)
        ensures
            final(self).sound(),
            final(self).address() == old(self).address(),
            old(self).address() == 0 ==> r == Err::<(), ZenseError>(ZenseError::FfiError)
                && !final(self).closed(),
            old(self).closed() ==> r == Err::<(), ZenseError>(ZenseError::CameraNotOpened)
                && final(self).closed(),
            old(self).address() != 0 && !old(self).closed() ==> {
                &&& final(self).closed() == (status == 0)
                &&& r == status_outcome(status as int)
            },
    {
        proof {
            use_type_invariant(&*self);
        }
        if self.device_handle == 0 {
            Err(ZenseError::FfiError)
        } else if self.device_closed {
            Err(ZenseError::CameraNotOpened)
        } else {
            let r = check_status(status);
            if r.is_ok() {
                self.device_closed = true;
            }
            r
        }
    }

    /// Starts the capture stream of a session.
    /// [`crate::check_status`] takes the answer.
    pub fn start_stream(
        &self,
        lifecycle: &Lifecycle,
        session_index: u32,
    ) -> (r: ZenseResult<NativeCall>)
        ensures
            r == self.request(
                lifecycle,
                (NativeCall::StartStream { handle: self.address(), session_index }),
            ),
            self.sound(),
    {
        match self.check(lifecycle) {
            Ok(handle) => Ok(NativeCall::StartStream { handle, session_index }),
            Err(e) => Err(e),
        }
    }

    /// Stops the capture stream of a session.
    /// [`crate::check_status`] takes the answer.
    pub fn stop_stream(
        &self,
        lifecycle: &Lifecycle,
        session_index: u32,
    ) -> (r: ZenseResult<NativeCall>)
        ensures
            r == self.request(
                lifecycle,
                (NativeCall::StopStream { handle: self.address(), session_index }),
            ),
            self.sound(),
    {
        match self.check(lifecycle) {
            Ok(handle) => Ok(NativeCall::StopStream { handle, session_index }),
            Err(e) => Err(e),
        }
    }

    /// Waits for the next set of frames of a session; the native side
    /// answers with the mask that [`crate::complete_read_next_frame`] decodes.
    pub fn read_next_frame(
        &self,
        lifecycle: &Lifecycle,
        session_index: u32,
    ) -> (r: ZenseResult<NativeCall>)
        ensures
            r == self.request(
                lifecycle,
                (NativeCall::ReadNextFrame { handle: self.address(), session_index }),
            ),
            self.sound(),
    {
        match self.check(lifecycle) {
            Ok(handle) => Ok(NativeCall::ReadNextFrame { handle, session_index }),
            Err(e) => Err(e),
        }
    }

    /// Fetches a frame of the set that the last read made available; the
    /// native side answers with what [`crate::complete_get_frame`] takes over.
    pub fn get_frame(
        &self,
        lifecycle: &Lifecycle,
        session_index: u32,
        frame_type: FrameType,
    ) -> (r: ZenseResult<NativeCall>)
        ensures
            r == self.request(
                lifecycle,
                (NativeCall::GetFrame { handle: self.address(), session_index, frame_type }),
            ),
            self.sound(),
    {
        match self.check(lifecycle) {
            Ok(handle) => Ok(NativeCall::GetFrame { handle, session_index, frame_type }),
            Err(e) => Err(e),
        }
    }

    /// Sets which frames the session produces.
    /// [`crate::check_status`] takes the answer.
    pub fn set_data_mode(
        &self,
        lifecycle: &Lifecycle,
        session_index: u32,
        data_mode: DataMode,
    ) -> (r: ZenseResult<NativeCall>)
        ensures
            r == self.request(
                lifecycle,
                (NativeCall::SetDataMode { handle: self.address(), session_index, data_mode }),
            ),
            self.sound(),
    {
        match self.check(lifecycle) {
            Ok(handle) => Ok(NativeCall::SetDataMode { handle, session_index, data_mode }),
            Err(e) => Err(e),
        }
    }

    /// Asks which frames the session produces; the native side answers with
    /// the code that [`crate::complete_get_data_mode`] decodes.
    pub fn get_data_mode(
        &self,
        lifecycle: &Lifecycle,
        session_index: u32,
    ) -> (r: ZenseResult<NativeCall>)
        ensures
            r == self.request(
                lifecycle,
                (NativeCall::GetDataMode { handle: self.address(), session_index }),
            ),
            self.sound(),
    {
        match self.check(lifecycle) {
            Ok(handle) => Ok(NativeCall::GetDataMode { handle, session_index }),
            Err(e) => Err(e),
        }
    }

    /// Asks for the depth range of the session; the native side answers with
    /// the code that [`crate::complete_get_depth_range`] decodes.
    pub fn get_depth_range(
        &self,
        lifecycle: &Lifecycle,
        session_index: u32,
    ) -> (r: ZenseResult<NativeCall>)
        ensures
            r == self.request(
                lifecycle,
                (NativeCall::GetDepthRange { handle: self.address(), session_index }),
            ),
            self.sound(),
    {
        match self.check(lifecycle) {
            Ok(handle) => Ok(NativeCall::GetDepthRange { handle, session_index }),
            Err(e) => Err(e),
        }
    }

    /// Sets the depth range of the session.
    /// [`crate::check_status`] takes the answer.
    pub fn set_depth_range(
        &self,
        lifecycle: &Lifecycle,
        session_index: u32,
        depth_range: DepthRange,
    ) -> (r: ZenseResult<NativeCall>)
        ensures
            r == self.request(
                lifecycle,
                (NativeCall::SetDepthRange { handle: self.address(), session_index, depth_range }),
            ),
            self.sound(),
    {
        match self.check(lifecycle) {
            Ok(handle) => Ok(NativeCall::SetDepthRange { handle, session_index, depth_range }),
            Err(e) => Err(e),
        }
    }

    /// Asks for the confidence threshold of the session.
    /// [`crate::value_or_error`] takes the answer.
    pub fn get_threshold(
        &self,
        lifecycle: &Lifecycle,
        session_index: u32,
    ) -> (r: ZenseResult<NativeCall>)
        ensures
            r == self.request(
                lifecycle,
                (NativeCall::GetThreshold { handle: self.address(), session_index }),
            ),
            self.sound(),
    {
        match self.check(lifecycle) {
            Ok(handle) => Ok(NativeCall::GetThreshold { handle, session_index }),
            Err(e) => Err(e),
        }
    }

    /// Sets the confidence threshold of the session.
    /// [`crate::check_status`] takes the answer.
    pub fn set_threshold(
        &self,
        lifecycle: &Lifecycle,
        session_index: u32,
        threshold: u16,
    ) -> (r: ZenseResult<NativeCall>)
        ensures
            r == self.request(
                lifecycle,
                (NativeCall::SetThreshold { handle: self.address(), session_index, threshold }),
            ),
            self.sound(),
    {
        match self.check(lifecycle) {
            Ok(handle) => Ok(NativeCall::SetThreshold { handle, session_index, threshold }),
            Err(e) => Err(e),
        }
    }

    /// Asks for the pulse count of the session.
    /// [`crate::value_or_error`] takes the answer.
    pub fn get_pulse_count(
        &self,
        lifecycle: &Lifecycle,
        session_index: u32,
    ) -> (r: ZenseResult<NativeCall>)
        ensures
            r == self.request(
                lifecycle,
                (NativeCall::GetPulseCount { handle: self.address(), session_index }),
            ),
            self.sound(),
    {
        match self.check(lifecycle) {
            Ok(handle) => Ok(NativeCall::GetPulseCount { handle, session_index }),
            Err(e) => Err(e),
        }
    }

    /// Sets the pulse count of the session.
    /// [`crate::check_status`] takes the answer.
    pub fn set_pulse_count(
        &self,
        lifecycle: &Lifecycle,
        session_index: u32,
        pulse_count: u16,
    ) -> (r: ZenseResult<NativeCall>)
        ensures
            r == self.request(
                lifecycle,
                (NativeCall::SetPulseCount { handle: self.address(), session_index, pulse_count }),
            ),
            self.sound(),
    {
        match self.check(lifecycle) {
            Ok(handle) => Ok(NativeCall::SetPulseCount { handle, session_index, pulse_count }),
            Err(e) => Err(e),
        }
    }

    /// Asks for the gain of the session.
    /// [`crate::value_or_error`] takes the answer.
    pub fn get_gmm_gain(
        &self,
        lifecycle: &Lifecycle,
        session_index: u32,
    ) -> (r: ZenseResult<NativeCall>)
        ensures
            r == self.request(
                lifecycle,
                (NativeCall::GetGmmGain { handle: self.address(), session_index }),
            ),
            self.sound(),
    {
        match self.check(lifecycle) {
            Ok(handle) => Ok(NativeCall::GetGmmGain { handle, session_index }),
            Err(e) => Err(e),
        }
    }

    /// Asks for the calibration of one sensor; the native side answers with
    /// what [`crate::complete_get_camera_parameters`] examines.
    pub fn get_camera_parameters(
        &self,
        lifecycle: &Lifecycle,
        session_index: u32,
        sensor_type: SensorType,
    ) -> (r: ZenseResult<NativeCall>)
        ensures
            r == self.request(
                lifecycle,
                (NativeCall::GetCameraParameters {
                    handle: self.address(),
                    session_index,
                    sensor_type,
                }),
            ),
            self.sound(),
    {
        match self.check(lifecycle) {
            Ok(handle) => Ok(
                NativeCall::GetCameraParameters { handle, session_index, sensor_type },
            ),
            Err(e) => Err(e),
        }
    }

    /// Sets the ranges of a wide-dynamic-range capture.
    /// [`crate::check_status`] takes the answer.
    pub fn set_wdr_output_mode(
        &self,
        lifecycle: &Lifecycle,
        session_index: u32,
        wdr_mode: PsWdrOutputMode,
    ) -> (r: ZenseResult<NativeCall>)
        ensures
            r == self.request(
                lifecycle,
                (NativeCall::SetWdrOutputMode { handle: self.address(), session_index, wdr_mode }),
            ),
            self.sound(),
    {
        match self.check(lifecycle) {
            Ok(handle) => Ok(NativeCall::SetWdrOutputMode { handle, session_index, wdr_mode }),
            Err(e) => Err(e),
        }
    }

    /// Sets how a wide-dynamic-range capture hands out its ranges.
    /// [`crate::check_status`] takes the answer.
    pub fn set_wdr_style(
        &self,
        lifecycle: &Lifecycle,
        session_index: u32,
        wdr_style: WdrStyle,
    ) -> (r: ZenseResult<NativeCall>)
        ensures
            r == self.request(
                lifecycle,
                (NativeCall::SetWdrStyle { handle: self.address(), session_index, wdr_style }),
            ),
            self.sound(),
    {
        match self.check(lifecycle) {
            Ok(handle) => Ok(NativeCall::SetWdrStyle { handle, session_index, wdr_style }),
            Err(e) => Err(e),
        }
    }

    /// Switches the colour frames on or off.
    /// [`crate::check_status`] takes the answer.
    pub fn set_rgb_frame_enabled(
        &self,
        lifecycle: &Lifecycle,
        session_index: u32,
        enabled: bool,
    ) -> (r: ZenseResult<NativeCall>)
        ensures
            r == self.request(
                lifecycle,
                (NativeCall::SetRgbFrameEnabled { handle: self.address(), session_index, enabled }),
            ),
            self.sound(),
    {
        match self.check(lifecycle) {
            Ok(handle) => Ok(NativeCall::SetRgbFrameEnabled { handle, session_index, enabled }),
            Err(e) => Err(e),
        }
    }

    /// Switches the distortion correction of depth frames on or off.
    /// [`crate::check_status`] takes the answer.
    pub fn set_depth_distortion_correction_enabled(
        &self,
        lifecycle: &Lifecycle,
        session_index: u32,
        enabled: bool,
    ) -> (r: ZenseResult<NativeCall>)
        ensures
            r == self.request(
                lifecycle,
                (NativeCall::SetDepthDistortionCorrectionEnabled {
                    handle: self.address(),
                    session_index,
                    enabled,
                }),
            ),
            self.sound(),
    {
        match self.check(lifecycle) {
            Ok(handle) => Ok(
                NativeCall::SetDepthDistortionCorrectionEnabled { handle, session_index, enabled },
            ),
            Err(e) => Err(e),
        }
    }

    /// Switches the distortion correction of infrared frames on or off.
    /// [`crate::check_status`] takes the answer.
    pub fn set_ir_distortion_correction_enabled(
        &self,
        lifecycle: &Lifecycle,
        session_index: u32,
        enabled: bool,
    ) -> (r: ZenseResult<NativeCall>)
        ensures
            r == self.request(
                lifecycle,
                (NativeCall::SetIrDistortionCorrectionEnabled {
                    handle: self.address(),
                    session_index,
                    enabled,
                }),
            ),
            self.sound(),
    {
        match self.check(lifecycle) {
            Ok(handle) => Ok(
                NativeCall::SetIrDistortionCorrectionEnabled { handle, session_index, enabled },
            ),
            Err(e) => Err(e),
        }
    }

    /// Switches the distortion correction of colour frames on or off.
    /// [`crate::check_status`] takes the answer.
    pub fn set_rgb_distortion_correction_enabled(
        &self,
        lifecycle: &Lifecycle,
        session_index: u32,
        enabled: bool,
    ) -> (r: ZenseResult<NativeCall>)
        ensures
            r == self.request(
                lifecycle,
                (NativeCall::SetRgbDistortionCorrectionEnabled {
                    handle: self.address(),
                    session_index,
                    enabled,
                }),
            ),
            self.sound(),
    {
        match self.check(lifecycle) {
            Ok(handle) => Ok(
                NativeCall::SetRgbDistortionCorrectionEnabled { handle, session_index, enabled },
            ),
            Err(e) => Err(e),
        }
    }

    /// Switches the correction to real depth on or off.
    /// [`crate::check_status`] takes the answer.
    pub fn set_compute_real_depth_correction_enabled(
        &self,
        lifecycle: &Lifecycle,
        session_index: u32,
        enabled: bool,
    ) -> (r: ZenseResult<NativeCall>)
        ensures
            r == self.request(
                lifecycle,
                (NativeCall::SetComputeRealDepthCorrectionEnabled {
                    handle: self.address(),
                    session_index,
                    enabled,
                }),
            ),
            self.sound(),
    {
        match self.check(lifecycle) {
            Ok(handle) => Ok(
                NativeCall::SetComputeRealDepthCorrectionEnabled { handle, session_index, enabled },
            ),
            Err(e) => Err(e),
        }
    }

    /// Switches the spatial filter on or off.
    /// [`crate::check_status`] takes the answer.
    pub fn set_spatial_filter_enabled(
        &self,
        lifecycle: &Lifecycle,
        session_index: u32,
        enabled: bool,
    ) -> (r: ZenseResult<NativeCall>)
        ensures
            r == self.request(
                lifecycle,
                (NativeCall::SetSpatialFilterEnabled {
                    handle: self.address(),
                    session_index,
                    enabled,
                }),
            ),
            self.sound(),
    {
        match self.check(lifecycle) {
            Ok(handle) => Ok(
                NativeCall::SetSpatialFilterEnabled { handle, session_index, enabled },
            ),
            Err(e) => Err(e),
        }
    }

    /// Switches the time filter on or off.
    /// [`crate::check_status`] takes the answer.
    pub fn set_time_filter_enabled(
        &self,
        lifecycle: &Lifecycle,
        session_index: u32,
        enabled: bool,
    ) -> (r: ZenseResult<NativeCall>)
        ensures
            r == self.request(
                lifecycle,
                (NativeCall::SetTimeFilterEnabled {
                    handle: self.address(),
                    session_index,
                    enabled,
                }),
            ),
            self.sound(),
    {
        match self.check(lifecycle) {
            Ok(handle) => Ok(NativeCall::SetTimeFilterEnabled { handle, session_index, enabled }),
            Err(e) => Err(e),
        }
    }

    /// Switches the mapping of colour frames onto depth frames on or off.
    /// [`crate::check_status`] takes the answer.
    pub fn set_mapper_enabled_rgb_to_depth(
        &self,
        lifecycle: &Lifecycle,
        session_index: u32,
        enabled: bool,
    ) -> (r: ZenseResult<NativeCall>)
        ensures
            r == self.request(
                lifecycle,
                (NativeCall::SetMapperEnabledRgbToDepth {
                    handle: self.address(),
                    session_index,
                    enabled,
                }),
            ),
            self.sound(),
    {
        match self.check(lifecycle) {
            Ok(handle) => Ok(
                NativeCall::SetMapperEnabledRgbToDepth { handle, session_index, enabled },
            ),
            Err(e) => Err(e),
        }
    }

    /// Switches the mapping of depth frames onto colour frames on or off.
    /// [`crate::check_status`] takes the answer.
    pub fn set_mapper_enabled_depth_to_rgb(
        &self,
        lifecycle: &Lifecycle,
        session_index: u32,
        enabled: bool,
    ) -> (r: ZenseResult<NativeCall>)
        ensures
            r == self.request(
                lifecycle,
                (NativeCall::SetMapperEnabledDepthToRgb {
                    handle: self.address(),
                    session_index,
                    enabled,
                }),
            ),
            self.sound(),
    {
        match self.check(lifecycle) {
            Ok(handle) => Ok(
                NativeCall::SetMapperEnabledDepthToRgb { handle, session_index, enabled },
            ),
            Err(e) => Err(e),
        }
    }

    /// Sets the resolution of the colour sensor.
    /// [`crate::check_status`] takes the answer.
    pub fn set_rgb_resolution(
        &self,
        lifecycle: &Lifecycle,
        session_index: u32,
        resolution: Resolution,
    ) -> (r: ZenseResult<NativeCall>)
        ensures
            r == self.request(
                lifecycle,
                (NativeCall::SetRgbResolution {
                    handle: self.address(),
                    session_index,
                    resolution,
                }),
            ),
            self.sound(),
    {
        match self.check(lifecycle) {
            Ok(handle) => Ok(NativeCall::SetRgbResolution { handle, session_index, resolution }),
            Err(e) => Err(e),
        }
    }

    /// Sets the pixel format of colour frames.
    /// [`crate::check_status`] takes the answer.
    pub fn set_color_pixel_format(
        &self,
        lifecycle: &Lifecycle,
        session_index: u32,
        pixel_format: PixelFormat,
    ) -> (r: ZenseResult<NativeCall>)
        ensures
            r == self.request(
                lifecycle,
                (NativeCall::SetColorPixelFormat {
                    handle: self.address(),
                    session_index,
                    pixel_format,
                }),
            ),
            self.sound(),
    {
        match self.check(lifecycle) {
            Ok(handle) => Ok(
                NativeCall::SetColorPixelFormat { handle, session_index, pixel_format },
            ),
            Err(e) => Err(e),
        }
    }

    /// Sets the gain of the session, for the time that `option` names.
    /// [`crate::check_status`] takes the answer.
    /// [`crate::check_status`] takes the answer.
    pub fn set_gmm_gain(
        &self,
        lifecycle: &Lifecycle,
        session_index: u32,
        gmm_gain: u16,
        option: GmmGainEffectiveTime,
    ) -> (r: ZenseResult<NativeCall>)
        ensures
            r == self.request(
                lifecycle,
                (NativeCall::SetGmmGain {
                    handle: self.address(),
                    session_index,
                    gmm_gain: PsGmmGain { gain: gmm_gain, option },
                }),
            ),
            self.sound(),
    {
        match self.check(lifecycle) {
            Ok(handle) => Ok(
                NativeCall::SetGmmGain {
                    handle,
                    session_index,
                    gmm_gain: PsGmmGain { gain: gmm_gain, option },
                },
            ),
            Err(e) => Err(e),
        }
    }

    /// Asks for the value of a property; the native side answers with the
    /// buffer that [`crate::complete_get_property`] decodes. Only the text
    /// properties can be read: for the others no decoding is defined, and
    /// the request ends in `Unsupported` before anything is called.
    pub fn get_property(
        &self,
        lifecycle: &Lifecycle,
        session_index: u32,
        property_type: PropertyType,
    ) -> (r: ZenseResult<NativeCall>)
        ensures
            self.refusal(lifecycle) matches Some(e) ==> r == Err::<NativeCall, ZenseError>(e),
            self.refusal(lifecycle) is None && !property_type.is_text() ==> r == Err::<
                NativeCall,
                ZenseError,
            >(ZenseError::Unsupported),
            self.refusal(lifecycle) is None && property_type.is_text() ==> r == Ok::<
                NativeCall,
                ZenseError,
            >(
                (NativeCall::GetProperty {
                    handle: self.address(),
                    session_index,
                    property_type,
                    capacity: PROPERTY_CAPACITY,
                }),
            ),
            self.sound(),
    {
        match self.check(lifecycle) {
            Ok(handle) => {
                if property_type.holds_text() {
                    Ok(
                        NativeCall::GetProperty {
                            handle,
                            session_index,
                            property_type,
                            capacity: PROPERTY_CAPACITY,
                        },
                    )
                } else {
                    Err(ZenseError::Unsupported)
                }
            },
            Err(e) => Err(e),
        }
    }

    /// Sets the value of a property. Only a text property can be set, and
    /// only to a text: anything else ends in `Unsupported`. A text that
    /// holds a zero byte cannot be handed over and ends in `RuntimeError`;
    /// one of more bytes than the native size parameter can count ends in
    /// `InvalidParams`. [`crate::check_status`] takes the answer.
    pub fn set_property(
        &self,
        lifecycle: &Lifecycle,
        session_index: u32,
        property_type: PropertyType,
        data: &PropertyValue,
    ) -> (r: ZenseResult<NativeCall>)
        ensures
            self.refusal(lifecycle) matches Some(e) ==> r == Err::<NativeCall, ZenseError>(e),
            self.refusal(lifecycle) is None ==> match Self::property_bytes(property_type, data) {
                Err(e) => r == Err::<NativeCall, ZenseError>(e),
                Ok(bytes) => {
                    &&& r matches Ok(
                        NativeCall::SetProperty {
                            handle,
                            session_index: session,
                            property_type: property,
                            data: sent,
                        },
                    )
                    &&& handle == self.address()
                    &&& session == session_index
                    &&& property == property_type
                    &&& sent@ == bytes
                },
            },
            self.sound(),
    {
        match self.check(lifecycle) {
            Ok(handle) => {
                if !property_type.holds_text() {
                    return Err(ZenseError::Unsupported);
                }
                match data {
                    PropertyValue::StringValue(text) => {
                        let bytes = text.as_str().as_bytes_vec();
                        if contains_nul(bytes.as_slice()) {
                            Err(ZenseError::RuntimeError)
                        } else if bytes.len() > 0x7fff_ffff {
                            Err(ZenseError::InvalidParams)
                        } else {
                            Ok(
                                NativeCall::SetProperty {
                                    handle,
                                    session_index,
                                    property_type,
                                    data: bytes,
                                },
                            )
                        }
                    },
                    _ => Err(ZenseError::Unsupported),
                }
            },
            Err(e) => Err(e),
        }
    }

    /// The bytes to hand to the native side for setting `property_type` to
    /// `data`, or the reason why that cannot be done.
    pub open spec fn property_bytes(property_type: PropertyType, data: &PropertyValue) -> Result<
        Seq<u8>,
        ZenseError,
    > {
        if !property_type.is_text() {
            Err(ZenseError::Unsupported)
        } else {
            match data {
                PropertyValue::StringValue(text) => {
                    if has_nul(encode_utf8(text@)) {
                        Err(ZenseError::RuntimeError)
                    } else if encode_utf8(text@).len() > 0x7fff_ffff {
                        Err(ZenseError::InvalidParams)
                    } else {
                        Ok(encode_utf8(text@))
                    }
                },
                _ => Err(ZenseError::Unsupported),
            }
        }
    }
}

/// A closed session refuses every request with `CameraNotOpened`, whatever
/// is asked of it and whatever state the library is in: no call comes out
/// of it.
pub proof fn lemma_closed_handle_yields_no_call(
    handle: &DeviceHandle,
    lifecycle: &Lifecycle,
    call: NativeCall,
)
    requires
        handle.closed(),
    ensures
        handle.refusal(lifecycle) == Some(ZenseError::CameraNotOpened),
        handle.request(lifecycle, call) == Err::<NativeCall, ZenseError>(
            ZenseError::CameraNotOpened,
        ),
{
}

/// A handle with the null address refuses every request with `FfiError`,
/// whatever is asked of it and whatever state the library is in.
pub proof fn lemma_null_handle_yields_no_call(
    handle: &DeviceHandle,
    lifecycle: &Lifecycle,
    call: NativeCall,
)
    requires
        handle.sound(),
        handle.address() == 0,
    ensures
        handle.request(lifecycle, call) == Err::<NativeCall, ZenseError>(ZenseError::FfiError),
{
}

/// A refused request yields no call, and a request that is let through
/// yields the very call that was asked for.
pub proof fn lemma_request_is_call_or_refusal(
    handle: &DeviceHandle,
    lifecycle: &Lifecycle,
    call: NativeCall,
)
    ensures
        handle.request(lifecycle, call) is Ok <==> handle.refusal(lifecycle) is None,
        handle.request(lifecycle, call) is Ok ==> handle.request(lifecycle, call) == Ok::<
            NativeCall,
            ZenseError,
        >(call) && handle.address() != 0 && !handle.closed() && lifecycle.ready(),
{
}

} // verus!
