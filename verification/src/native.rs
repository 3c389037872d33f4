//! The native interface as data: the records that cross it, held as plain
//! values, and the catalogue of calls that a performer carries out.

use crate::enums::{
    DataMode, DepthRange, FrameType, GmmGainEffectiveTime, PixelFormat, PropertyType, Resolution,
    SensorType, WdrStyle, WdrTotalRange,
};
use vstd::prelude::*;

verus! {

/// Bytes in the identifier field of a device record.
pub const URI_CAPACITY: usize = 256;

/// Bytes in the firmware field of a device record.
pub const FW_CAPACITY: usize = 50;

/// Bytes offered to the native side for the value of a property.
pub const PROPERTY_CAPACITY: usize = 128;

/// A device record as the native side fills it: integer codes, and text in
/// fixed-size fields that a zero byte ends.
#[derive(Copy, Clone, Debug, PartialEq, Eq)]
pub struct PsDeviceInfo {
    pub session_count: i32,
    pub device_type: i32,
    pub uri: [u8; URI_CAPACITY],
    pub fw: [u8; FW_CAPACITY],
    pub status: i32,
}

/// A frame as the native side describes it. `frame_data` holds the bytes
/// that the performer copied out of native memory, `data_len` the length
/// that the native side reported for them; the enumerations are still codes
/// and `exposure_time` is the bit pattern of a single-precision number.
#[derive(Clone, Debug, PartialEq, Eq)]
pub struct PsFrame {
    pub frame_index: u32,
    pub frame_type: i32,
    pub pixel_format: i32,
    pub imu_frame_no: u8,
    pub frame_data: Vec<u8>,
    pub data_len: u32,
    pub exposure_time: u32,
    pub depth_range: i32,
    pub width: u16,
    pub height: u16,
}

/// A gain and for how long it is to hold.
#[derive(Copy, Clone, Debug, PartialEq, Eq)]
pub struct PsGmmGain {
    pub gain: u16,
    pub option: GmmGainEffectiveTime,
}

/// The ranges of a wide-dynamic-range capture and how many frames each gets.
#[derive(Copy, Clone, Debug, PartialEq, Eq)]
pub struct PsWdrOutputMode {
    pub total_range: WdrTotalRange,
    pub range1: DepthRange,
    pub range1_count: u8,
    pub range2: DepthRange,
    pub range2_count: u8,
    pub range3: DepthRange,
    pub range3_count: u8,
}

/// One call into the native library, with the values to pass. `handle` is
/// the address that `open_device` was handed; a request function yields a
/// call only after it has found the handle fit for use.
#[derive(Clone, Debug, PartialEq, Eq)]
pub enum NativeCall {
    Initialize,
    Shutdown,
    GetDeviceCount,
    GetDeviceListInfo { device_count: u32 },
    GetDeviceInfo { device_index: u32 },
    /// `uri` holds the bytes of the identifier, without a zero byte.
    OpenDevice { uri: Vec<u8> },
    CloseDevice { handle: usize },
    StartStream { handle: usize, session_index: u32 },
    StopStream { handle: usize, session_index: u32 },
    ReadNextFrame { handle: usize, session_index: u32 },
    GetFrame { handle: usize, session_index: u32, frame_type: FrameType },
    SetDataMode { handle: usize, session_index: u32, data_mode: DataMode },
    GetDataMode { handle: usize, session_index: u32 },
    GetDepthRange { handle: usize, session_index: u32 },
    SetDepthRange { handle: usize, session_index: u32, depth_range: DepthRange },
    GetThreshold { handle: usize, session_index: u32 },
    SetThreshold { handle: usize, session_index: u32, threshold: u16 },
    GetPulseCount { handle: usize, session_index: u32 },
    SetPulseCount { handle: usize, session_index: u32, pulse_count: u16 },
    GetGmmGain { handle: usize, session_index: u32 },
    SetGmmGain { handle: usize, session_index: u32, gmm_gain: PsGmmGain },
    /// `capacity` is the size of the buffer to offer.
    GetProperty { handle: usize, session_index: u32, property_type: PropertyType, capacity: usize },
    /// `data` holds the bytes of the value, without a zero byte.
    SetProperty { handle: usize, session_index: u32, property_type: PropertyType, data: Vec<u8> },
    GetCameraParameters { handle: usize, session_index: u32, sensor_type: SensorType },
    SetWdrOutputMode { handle: usize, session_index: u32, wdr_mode: PsWdrOutputMode },
    SetWdrStyle { handle: usize, session_index: u32, wdr_style: WdrStyle },
    SetRgbFrameEnabled { handle: usize, session_index: u32, enabled: bool },
    SetDepthDistortionCorrectionEnabled { handle: usize, session_index: u32, enabled: bool },
    SetIrDistortionCorrectionEnabled { handle: usize, session_index: u32, enabled: bool },
    SetRgbDistortionCorrectionEnabled { handle: usize, session_index: u32, enabled: bool },
    SetComputeRealDepthCorrectionEnabled { handle: usize, session_index: u32, enabled: bool },
    SetSpatialFilterEnabled { handle: usize, session_index: u32, enabled: bool },
    SetTimeFilterEnabled { handle: usize, session_index: u32, enabled: bool },
    SetMapperEnabledRgbToDepth { handle: usize, session_index: u32, enabled: bool },
    SetMapperEnabledDepthToRgb { handle: usize, session_index: u32, enabled: bool },
    SetRgbResolution { handle: usize, session_index: u32, resolution: Resolution },
    SetColorPixelFormat { handle: usize, session_index: u32, pixel_format: PixelFormat },
}

} // verus!
