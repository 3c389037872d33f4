//! The typed values that operations hand to their callers.

use crate::enums::{
    ConnectStatus, DepthRange, DeviceType, FrameType, PixelFormat, PropertyValue, ZenseError,
};
use crate::native::{PsDeviceInfo, PsFrame};
use crate::status::ZenseResult;
use crate::text::{c_string_to_string, lossy_text};
use vstd::prelude::*;

verus! {

broadcast use vstd::array::group_array_axioms;

/// What enumeration tells about one device.
#[derive(Debug, Clone, Eq, PartialEq)]
pub struct DeviceInfo {
    pub session_count: i64,
    pub device_type: DeviceType,
    pub uri: String,
    pub fw: String,
    pub status: ConnectStatus,
}

/// A [`DeviceInfo`] with its texts as sequences of characters.
pub struct DeviceInfoView {
    pub session_count: int,
    pub device_type: DeviceType,
    pub uri: Seq<char>,
    pub fw: Seq<char>,
    pub status: ConnectStatus,
}

impl View for DeviceInfo {
    type V = DeviceInfoView;

    open spec fn view(&self) -> DeviceInfoView {
        DeviceInfoView {
            session_count: self.session_count as int,
            device_type: self.device_type,
            uri: self.uri@,
            fw: self.fw@,
            status: self.status,
        }
    }
}

/// What a native device record says: the codes decoded, and of each text
/// field what comes before its first zero byte, read as UTF-8, or nothing
/// where that is not UTF-8.
pub open spec fn device_info_of(record: PsDeviceInfo) -> DeviceInfoView {
    DeviceInfoView {
        session_count: record.session_count as int,
        device_type: DeviceType::of_code(record.device_type as int),
        uri: lossy_text(record.uri@),
        fw: lossy_text(record.fw@),
        status: ConnectStatus::of_code(record.status as int),
    }
}

/// Converts a native device record into the typed value.
pub fn ps_device_info_to_device_info(ps_device_info: &PsDeviceInfo) -> (info: DeviceInfo)
    ensures
        info@ == device_info_of(*ps_device_info),
{
    let uri = c_string_to_string(ps_device_info.uri.as_slice());
    let fw = c_string_to_string(ps_device_info.fw.as_slice());
    DeviceInfo {
        session_count: ps_device_info.session_count as i64,
        device_type: DeviceType::from_int(ps_device_info.device_type),
        uri,
        fw,
        status: ConnectStatus::from_int(ps_device_info.status),
    }
}

/// Which frames a read has made available.
#[derive(Copy, Clone, Debug, Default, PartialEq, Eq)]
pub struct FrameReady {
    pub depth: bool,
    pub ir: bool,
    pub rgb: bool,
    pub mapped_rgb: bool,
    pub mapped_depth: bool,
    pub mapped_ir: bool,
    pub confidence: bool,
    pub wdr_depth: bool,
    /// Set where the mask holds any bit above the eight named ones.
    pub unknown: bool,
}

/// Whether the binary digit of weight `weight` is set in `mask`.
pub open spec fn has_bit(mask: u32, weight: int) -> bool
    recommends
        weight > 0,
{
    (mask as int / weight) % 2 == 1
}

impl FrameReady {
    /// The flags that a mask stands for: one per binary digit, from weight 1
    /// for `depth` to weight 128 for `wdr_depth`, and `unknown` for
    /// everything from 256 on.
    pub open spec fn decode(mask: u32) -> FrameReady {
        FrameReady {
            depth: has_bit(mask, 1),
            ir: has_bit(mask, 2),
            rgb: has_bit(mask, 4),
            mapped_rgb: has_bit(mask, 8),
            mapped_depth: has_bit(mask, 16),
            mapped_ir: has_bit(mask, 32),
            confidence: has_bit(mask, 64),
            wdr_depth: has_bit(mask, 128),
            unknown: mask >= 256,
        }
    }

    /// Decodes a frame-ready mask.
    pub fn from(frame_ready: u32) -> (r: FrameReady)
        ensures
            r == Self::decode(frame_ready),
    {
        assert((frame_ready & 0x01u32 != 0) == ((frame_ready / 1) % 2 == 1)) by (bit_vector);
        assert((frame_ready & 0x02u32 != 0) == ((frame_ready / 2) % 2 == 1)) by (bit_vector);
        assert((frame_ready & 0x04u32 != 0) == ((frame_ready / 4) % 2 == 1)) by (bit_vector);
        assert((frame_ready & 0x08u32 != 0) == ((frame_ready / 8) % 2 == 1)) by (bit_vector);
        assert((frame_ready & 0x10u32 != 0) == ((frame_ready / 16) % 2 == 1)) by (bit_vector);
        assert((frame_ready & 0x20u32 != 0) == ((frame_ready / 32) % 2 == 1)) by (bit_vector);
        assert((frame_ready & 0x40u32 != 0) == ((frame_ready / 64) % 2 == 1)) by (bit_vector);
        assert((frame_ready & 0x80u32 != 0) == ((frame_ready / 128) % 2 == 1)) by (bit_vector);
        assert((frame_ready & !0xffu32 != 0) == (frame_ready >= 256)) by (bit_vector);
        FrameReady {
            depth: (frame_ready & 0x01u32) != 0,
            ir: (frame_ready & 0x02u32) != 0,
            rgb: (frame_ready & 0x04u32) != 0,
            mapped_rgb: (frame_ready & 0x08u32) != 0,
            mapped_depth: (frame_ready & 0x10u32) != 0,
            mapped_ir: (frame_ready & 0x20u32) != 0,
            confidence: (frame_ready & 0x40u32) != 0,
            wdr_depth: (frame_ready & 0x80u32) != 0,
            unknown: (frame_ready & !0xffu32) != 0,
        }
    }
}

/// The named flags of a mask are those of its low eight binary digits, and
/// `unknown` is set exactly where the mask is more than those digits can
/// hold.
pub proof fn lemma_named_flags_are_the_low_byte(mask: u32)
    ensures
        FrameReady::decode(mask).unknown <==> mask > 0xff,
        !FrameReady::decode((mask % 256) as u32).unknown,
        FrameReady::decode(mask) == (FrameReady {
            unknown: mask > 0xff,
            ..FrameReady::decode((mask % 256) as u32)
        }),
{
    assert(((mask / 1) % 2 == 1) == (((mask % 256) / 1) % 2 == 1)) by (bit_vector);
    assert(((mask / 2) % 2 == 1) == (((mask % 256) / 2) % 2 == 1)) by (bit_vector);
    assert(((mask / 4) % 2 == 1) == (((mask % 256) / 4) % 2 == 1)) by (bit_vector);
    assert(((mask / 8) % 2 == 1) == (((mask % 256) / 8) % 2 == 1)) by (bit_vector);
    assert(((mask / 16) % 2 == 1) == (((mask % 256) / 16) % 2 == 1)) by (bit_vector);
    assert(((mask / 32) % 2 == 1) == (((mask % 256) / 32) % 2 == 1)) by (bit_vector);
    assert(((mask / 64) % 2 == 1) == (((mask % 256) / 64) % 2 == 1)) by (bit_vector);
    assert(((mask / 128) % 2 == 1) == (((mask % 256) / 128) % 2 == 1)) by (bit_vector);
}

/// A frame with its pixels in a buffer of its own.
#[derive(Clone, Debug, PartialEq, Eq)]
pub struct Frame {
    pub frame_index: u32,
    pub frame_type: FrameType,
    pub pixel_format: PixelFormat,
    pub imu_frame_no: u8,
    pub frame_data: Vec<u8>,
    /// The bit pattern of the exposure time, a single-precision number.
    pub exposure_time: u32,
    pub depth_range: DepthRange,
    pub width: u16,
    pub height: u16,
}

/// A [`Frame`] with its pixels as a sequence of bytes.
pub struct FrameView {
    pub frame_index: u32,
    pub frame_type: FrameType,
    pub pixel_format: PixelFormat,
    pub imu_frame_no: u8,
    pub frame_data: Seq<u8>,
    pub exposure_time: u32,
    pub depth_range: DepthRange,
    pub width: u16,
    pub height: u16,
}

impl View for Frame {
    type V = FrameView;

    open spec fn view(&self) -> FrameView {
        FrameView {
            frame_index: self.frame_index,
            frame_type: self.frame_type,
            pixel_format: self.pixel_format,
            imu_frame_no: self.imu_frame_no,
            frame_data: self.frame_data@,
            exposure_time: self.exposure_time,
            depth_range: self.depth_range,
            width: self.width,
            height: self.height,
        }
    }
}

/// Whether a native frame can be taken over: its three codes are codes of
/// the enumerations, and it carries as many bytes as it says.
pub open spec fn frame_is_sound(ps_frame: PsFrame) -> bool {
    &&& FrameType::of_code(ps_frame.frame_type as int) is Some
    &&& PixelFormat::of_code(ps_frame.pixel_format as int) is Some
    &&& DepthRange::of_code(ps_frame.depth_range as int) is Some
    &&& ps_frame.frame_data@.len() == ps_frame.data_len
}

/// The typed frame that a sound native frame stands for.
pub open spec fn frame_of(ps_frame: PsFrame) -> FrameView {
    FrameView {
        frame_index: ps_frame.frame_index,
        frame_type: FrameType::of_code(ps_frame.frame_type as int)->Some_0,
        pixel_format: PixelFormat::of_code(ps_frame.pixel_format as int)->Some_0,
        imu_frame_no: ps_frame.imu_frame_no,
        frame_data: ps_frame.frame_data@,
        exposure_time: ps_frame.exposure_time,
        depth_range: DepthRange::of_code(ps_frame.depth_range as int)->Some_0,
        width: ps_frame.width,
        height: ps_frame.height,
    }
}

impl Frame {
    /// Takes a native frame over, with the bytes it carries. A frame whose
    /// codes or length are not what the native interface promises is a
    /// breach of that interface.
    pub fn from(ps_frame: PsFrame) -> (r: ZenseResult<Frame>)
        ensures
            frame_is_sound(ps_frame) ==> r is Ok && r->Ok_0@ == frame_of(ps_frame),
            !frame_is_sound(ps_frame) ==> r == Err::<Frame, ZenseError>(ZenseError::FfiError),
    {
        let frame_type = FrameType::from_int(ps_frame.frame_type);
        let pixel_format = PixelFormat::from_int(ps_frame.pixel_format);
        let depth_range = DepthRange::from_int(ps_frame.depth_range);
        let length_agrees = ps_frame.frame_data.len() == ps_frame.data_len as usize;
        match (frame_type, pixel_format, depth_range) {
            (Some(frame_type), Some(pixel_format), Some(depth_range)) => {
                if length_agrees {
                    Ok(
                        Frame {
                            frame_index: ps_frame.frame_index,
                            frame_type,
                            pixel_format,
                            imu_frame_no: ps_frame.imu_frame_no,
                            frame_data: ps_frame.frame_data,
                            exposure_time: ps_frame.exposure_time,
                            depth_range,
                            width: ps_frame.width,
                            height: ps_frame.height,
                        },
                    )
                } else {
                    Err(ZenseError::FfiError)
                }
            },
            _ => Err(ZenseError::FfiError),
        }
    }
}

/// The twelve intrinsic and distortion coefficients of a sensor. Each field
/// holds the bit pattern of a double-precision number: one sign bit, eleven
/// bits of exponent, fifty-two of fraction.
#[derive(Copy, Clone, Debug, PartialEq, Eq)]
pub struct CameraParameters {
    pub fx: u64,
    pub fy: u64,
    pub cx: u64,
    pub cy: u64,
    pub k1: u64,
    pub k2: u64,
    pub p1: u64,
    pub p2: u64,
    pub k3: u64,
    pub k4: u64,
    pub k5: u64,
    pub k6: u64,
}

/// The bit pattern of the double-precision number nearest to 0.001.
pub const NEAR_ZERO_LIMIT: u64 = 0x3F50_624D_D2F1_A9FC;

/// The weight of the sign bit of a double-precision bit pattern.
pub const SIGN_BIT: u64 = 0x8000_0000_0000_0000;

/// Whether the number with the bit pattern `bits` is nearer to zero than
/// 0.001. The pattern without its sign bit is that of the magnitude, and
/// the patterns of magnitudes are ordered as the magnitudes are, with
/// every not-a-number above every number: so the test is one comparison of
/// integers, and no not-a-number passes it.
pub open spec fn near_zero(bits: u64) -> bool {
    bits as int % (SIGN_BIT as int) < NEAR_ZERO_LIMIT as int
}

/// Whether the number with the bit pattern `bits` is nearer to zero than
/// 0.001.
pub fn is_near_zero(bits: u64) -> (b: bool)
    ensures
        b == near_zero(bits),
{
    assert((bits & 0x7FFF_FFFF_FFFF_FFFFu64) == bits % 0x8000_0000_0000_0000u64) by (bit_vector);
    (bits & 0x7FFF_FFFF_FFFF_FFFFu64) < NEAR_ZERO_LIMIT
}

impl CameraParameters {
    /// Whether every coefficient is nearer to zero than 0.001. Such a
    /// record is no calibration.
    pub open spec fn degenerate(self) -> bool {
        &&& near_zero(self.fx)
        &&& near_zero(self.fy)
        &&& near_zero(self.cx)
        &&& near_zero(self.cy)
        &&& near_zero(self.k1)
        &&& near_zero(self.k2)
        &&& near_zero(self.p1)
        &&& near_zero(self.p2)
        &&& near_zero(self.k3)
        &&& near_zero(self.k4)
        &&& near_zero(self.k5)
        &&& near_zero(self.k6)
    }

    /// Whether every coefficient is nearer to zero than 0.001.
    pub fn is_degenerate(&self) -> (b: bool)
        ensures
            b == self.degenerate(),
    {
        is_near_zero(self.fx) && is_near_zero(self.fy) && is_near_zero(self.cx) && is_near_zero(
            self.cy,
        ) && is_near_zero(self.k1) && is_near_zero(self.k2) && is_near_zero(self.p1)
            && is_near_zero(self.p2) && is_near_zero(self.k3) && is_near_zero(self.k4)
            && is_near_zero(self.k5) && is_near_zero(self.k6)
    }
}

/// The sign of a number plays no part in whether it is near zero.
pub proof fn lemma_near_zero_ignores_sign(bits: u64)
    requires
        bits < SIGN_BIT,
    ensures
        near_zero(bits) == near_zero((bits + SIGN_BIT) as u64),
{
}

/// A record of twelve zeros, of either sign, is degenerate.
pub proof fn lemma_zeroed_parameters_are_degenerate(p: CameraParameters)
    requires
        p.fx % SIGN_BIT == 0,
        p.fy % SIGN_BIT == 0,
        p.cx % SIGN_BIT == 0,
        p.cy % SIGN_BIT == 0,
        p.k1 % SIGN_BIT == 0,
        p.k2 % SIGN_BIT == 0,
        p.p1 % SIGN_BIT == 0,
        p.p2 % SIGN_BIT == 0,
        p.k3 % SIGN_BIT == 0,
        p.k4 % SIGN_BIT == 0,
        p.k5 % SIGN_BIT == 0,
        p.k6 % SIGN_BIT == 0,
    ensures
        p.degenerate(),
{
}

/// A [`PropertyValue`] with its contents as sequences.
pub enum PropertyValueView {
    StringValue(Seq<char>),
    Uint8Value(u8),
    Int32ValueList(Seq<i32>),
}

impl View for PropertyValue {
    type V = PropertyValueView;

    open spec fn view(&self) -> PropertyValueView {
        match self {
            PropertyValue::StringValue(s) => PropertyValueView::StringValue(s@),
            PropertyValue::Uint8Value(b) => PropertyValueView::Uint8Value(*b),
            PropertyValue::Int32ValueList(l) => PropertyValueView::Int32ValueList(l@),
        }
    }
}

} // verus!
