//! The enumerations of the SDK and the integer codes they travel under.

use vstd::prelude::*;

verus! {

/// Every way an operation can fail.
#[derive(Eq, PartialEq, Copy, Clone, Debug, Structural)]
pub enum ZenseError {
    NoDeviceConnected,
    InvalidDeviceIndex,
    DevicePointerIsNull,
    InvalidFrameType,
    FramePointerIsNull,
    NoPropertyValueGet,
    NoPropertyValueSet,
    PropertyPointerIsNull,
    PropertySizeNotEnough,
    InvalidDepthRange,
    ReadNextFrameError,
    InputPointerIsNull,
    CameraNotOpened,
    InvalidCameraType,
    InvalidParams,
    /// The vendor's catch-all.
    Others,
    /// The native side reported success but its output is not usable, or it
    /// answered with a status outside its documented range.
    FfiError,
    /// A value could not be converted, such as text that is not UTF-8.
    RuntimeError,
    /// An operation was asked for before `initialize` or after `shutdown`.
    OrderingError,
    /// The operation is not offered for this kind of property or value.
    Unsupported,
    /// A status code that the table does not know.
    Unknown,
}

impl ZenseError {
    /// The table from status codes to errors; every code outside it is
    /// `Unknown`.
    pub open spec fn of_code(n: int) -> ZenseError {
        if n == -1 {
            ZenseError::NoDeviceConnected
        } else if n == -2 {
            ZenseError::InvalidDeviceIndex
        } else if n == -3 {
            ZenseError::DevicePointerIsNull
        } else if n == -4 {
            ZenseError::InvalidFrameType
        } else if n == -5 {
            ZenseError::FramePointerIsNull
        } else if n == -6 {
            ZenseError::NoPropertyValueGet
        } else if n == -7 {
            ZenseError::NoPropertyValueSet
        } else if n == -8 {
            ZenseError::PropertyPointerIsNull
        } else if n == -9 {
            ZenseError::PropertySizeNotEnough
        } else if n == -10 {
            ZenseError::InvalidDepthRange
        } else if n == -11 {
            ZenseError::ReadNextFrameError
        } else if n == -12 {
            ZenseError::InputPointerIsNull
        } else if n == -13 {
            ZenseError::CameraNotOpened
        } else if n == -14 {
            ZenseError::InvalidCameraType
        } else if n == -15 {
            ZenseError::InvalidParams
        } else if n == -255 {
            ZenseError::Others
        } else if n == 254 {
            ZenseError::RuntimeError
        } else if n == 255 {
            ZenseError::FfiError
        } else {
            ZenseError::Unknown
        }
    }

    /// The one status code that stands for this error, if it has one.
    pub open spec fn code(self) -> Option<int> {
        match self {
            ZenseError::NoDeviceConnected => Some(-1),
            ZenseError::InvalidDeviceIndex => Some(-2),
            ZenseError::DevicePointerIsNull => Some(-3),
            ZenseError::InvalidFrameType => Some(-4),
            ZenseError::FramePointerIsNull => Some(-5),
            ZenseError::NoPropertyValueGet => Some(-6),
            ZenseError::NoPropertyValueSet => Some(-7),
            ZenseError::PropertyPointerIsNull => Some(-8),
            ZenseError::PropertySizeNotEnough => Some(-9),
            ZenseError::InvalidDepthRange => Some(-10),
            ZenseError::ReadNextFrameError => Some(-11),
            ZenseError::InputPointerIsNull => Some(-12),
            ZenseError::CameraNotOpened => Some(-13),
            ZenseError::InvalidCameraType => Some(-14),
            ZenseError::InvalidParams => Some(-15),
            ZenseError::Others => Some(-255),
            ZenseError::RuntimeError => Some(254),
            ZenseError::FfiError => Some(255),
            ZenseError::OrderingError => None,
            ZenseError::Unsupported => None,
            ZenseError::Unknown => None,
        }
    }

    /// Whether `n` is a code of the table.
    pub open spec fn is_mapped(n: int) -> bool {
        -15 <= n <= -1 || n == -255 || n == 254 || n == 255
    }

    /// The error that the status code `n` stands for.
    pub fn from_int(n: i32) -> (e: ZenseError)
        ensures
            e == Self::of_code(n as int),
    {
        match n {
            -1 => ZenseError::NoDeviceConnected,
            -2 => ZenseError::InvalidDeviceIndex,
            -3 => ZenseError::DevicePointerIsNull,
            -4 => ZenseError::InvalidFrameType,
            -5 => ZenseError::FramePointerIsNull,
            -6 => ZenseError::NoPropertyValueGet,
            -7 => ZenseError::NoPropertyValueSet,
            -8 => ZenseError::PropertyPointerIsNull,
            -9 => ZenseError::PropertySizeNotEnough,
            -10 => ZenseError::InvalidDepthRange,
            -11 => ZenseError::ReadNextFrameError,
            -12 => ZenseError::InputPointerIsNull,
            -13 => ZenseError::CameraNotOpened,
            -14 => ZenseError::InvalidCameraType,
            -15 => ZenseError::InvalidParams,
            -255 => ZenseError::Others,
            254 => ZenseError::RuntimeError,
            255 => ZenseError::FfiError,
            _ => ZenseError::Unknown,
        }
    }

    /// The status code of this error, for the errors that have one.
    pub fn to_int(&self) -> (r: Option<i32>)
        ensures
            r is Some <==> self.code() is Some,
            r matches Some(n) ==> self.code() == Some(n as int),
    {
        match self {
            ZenseError::NoDeviceConnected => Some(-1),
            ZenseError::InvalidDeviceIndex => Some(-2),
            ZenseError::DevicePointerIsNull => Some(-3),
            ZenseError::InvalidFrameType => Some(-4),
            ZenseError::FramePointerIsNull => Some(-5),
            ZenseError::NoPropertyValueGet => Some(-6),
            ZenseError::NoPropertyValueSet => Some(-7),
            ZenseError::PropertyPointerIsNull => Some(-8),
            ZenseError::PropertySizeNotEnough => Some(-9),
            ZenseError::InvalidDepthRange => Some(-10),
            ZenseError::ReadNextFrameError => Some(-11),
            ZenseError::InputPointerIsNull => Some(-12),
            ZenseError::CameraNotOpened => Some(-13),
            ZenseError::InvalidCameraType => Some(-14),
            ZenseError::InvalidParams => Some(-15),
            ZenseError::Others => Some(-255),
            ZenseError::RuntimeError => Some(254),
            ZenseError::FfiError => Some(255),
            ZenseError::OrderingError => None,
            ZenseError::Unsupported => None,
            ZenseError::Unknown => None,
        }
    }

    /// Whether this is the error of an unrecognised status code.
    pub fn is_unknown(&self) -> (b: bool)
        ensures
            b == (*self == ZenseError::Unknown),
    {
        match self {
            ZenseError::Unknown => true,
            _ => false,
        }
    }
}

/// A status code outside the table is `Unknown`: it is never taken for
/// `Others` or for any other named error.
pub proof fn lemma_unmapped_code_is_unknown(n: int)
    requires
        !ZenseError::is_mapped(n),
    ensures
        ZenseError::of_code(n) == ZenseError::Unknown,
{
}

/// A code of the table gives a named error, and that error's own code is the
/// code it came from.
pub proof fn lemma_mapped_code_round_trip(n: int)
    requires
        ZenseError::is_mapped(n),
    ensures
        ZenseError::of_code(n) != ZenseError::Unknown,
        ZenseError::of_code(n).code() == Some(n),
{
}

/// Each named error comes from exactly one status code: two codes that give
/// the same named error are the same code.
pub proof fn lemma_named_error_has_one_code(a: int, b: int)
    requires
        ZenseError::of_code(a) == ZenseError::of_code(b),
        ZenseError::of_code(a) != ZenseError::Unknown,
    ensures
        a == b,
{
}

/// An error that has a code is the error which that code stands for.
pub proof fn lemma_code_gives_error_back(e: ZenseError)
    requires
        e.code() is Some,
    ensures
        ZenseError::of_code(e.code()->Some_0) == e,
{
}

/// The distance band that a depth frame was taken in.
#[derive(Eq, PartialEq, Copy, Clone, Debug, Structural)]
pub enum DepthRange {
    Unknown,
    NearRange,
    MidRange,
    FarRange,
    XNearRange,
    XMidRange,
    XFarRange,
    XxNearRange,
    XxMidRange,
    XxFarRange,
}

impl DepthRange {
    /// The integer that the native side knows this value by.
    pub open spec fn code(self) -> int {
        match self {
            DepthRange::Unknown => -1,
            DepthRange::NearRange => 0,
            DepthRange::MidRange => 1,
            DepthRange::FarRange => 2,
            DepthRange::XNearRange => 3,
            DepthRange::XMidRange => 4,
            DepthRange::XFarRange => 5,
            DepthRange::XxNearRange => 6,
            DepthRange::XxMidRange => 7,
            DepthRange::XxFarRange => 8,
        }
    }

    /// The code of this value, as it is handed to the native side.
    pub fn to_int(&self) -> (n: i32)
        ensures
            n as int == self.code(),
    {
        match self {
            DepthRange::Unknown => -1,
            DepthRange::NearRange => 0,
            DepthRange::MidRange => 1,
            DepthRange::FarRange => 2,
            DepthRange::XNearRange => 3,
            DepthRange::XMidRange => 4,
            DepthRange::XFarRange => 5,
            DepthRange::XxNearRange => 6,
            DepthRange::XxMidRange => 7,
            DepthRange::XxFarRange => 8,
        }
    }

    /// The value that the code `n` stands for, if it stands for one.
    pub open spec fn of_code(n: int) -> Option<DepthRange> {
        if n == -1 {
            Some(DepthRange::Unknown)
        } else if n == 0 {
            Some(DepthRange::NearRange)
        } else if n == 1 {
            Some(DepthRange::MidRange)
        } else if n == 2 {
            Some(DepthRange::FarRange)
        } else if n == 3 {
            Some(DepthRange::XNearRange)
        } else if n == 4 {
            Some(DepthRange::XMidRange)
        } else if n == 5 {
            Some(DepthRange::XFarRange)
        } else if n == 6 {
            Some(DepthRange::XxNearRange)
        } else if n == 7 {
            Some(DepthRange::XxMidRange)
        } else if n == 8 {
            Some(DepthRange::XxFarRange)
        } else {
            None
        }
    }

    /// Decodes a code that the native side handed back. A code that no
    /// value has is refused, never taken over unchecked.
    pub fn from_int(n: i32) -> (r: Option<DepthRange>)
        ensures
            r == Self::of_code(n as int),
    {
        match n {
            -1 => Some(DepthRange::Unknown),
            0 => Some(DepthRange::NearRange),
            1 => Some(DepthRange::MidRange),
            2 => Some(DepthRange::FarRange),
            3 => Some(DepthRange::XNearRange),
            4 => Some(DepthRange::XMidRange),
            5 => Some(DepthRange::XFarRange),
            6 => Some(DepthRange::XxNearRange),
            7 => Some(DepthRange::XxMidRange),
            8 => Some(DepthRange::XxFarRange),
            _ => None,
        }
    }

    /// Decoding the code of a value gives the value back, and a code that
    /// decodes to a value is that value's code.
    pub proof fn lemma_code_round_trip(v: DepthRange, n: int)
        ensures
            Self::of_code(v.code()) == Some(v),
            Self::of_code(n) == Some(v) ==> v.code() == n,
    {
    }
}

/// Which frames a session produces, and how fast.
#[derive(Eq, PartialEq, Copy, Clone, Debug, Structural)]
pub enum DataMode {
    DepthAndRgb30Fps,
    IrAndRGB30Fps,
    DepthAndIr30Fps,
    NoCcd30Fps,
    DepthAndIr15FpsRgb30Fps,
    WdrDepth,
    WdrIr,
    WdrDepthAndIr,
}

impl DataMode {
    /// The integer that the native side knows this value by.
    pub open spec fn code(self) -> int {
        match self {
            DataMode::DepthAndRgb30Fps => 0,
            DataMode::IrAndRGB30Fps => 1,
            DataMode::DepthAndIr30Fps => 2,
            DataMode::NoCcd30Fps => 4,
            DataMode::DepthAndIr15FpsRgb30Fps => 10,
            DataMode::WdrDepth => 11,
            DataMode::WdrIr => 12,
            DataMode::WdrDepthAndIr => 13,
        }
    }

    /// The code of this value, as it is handed to the native side.
    pub fn to_int(&self) -> (n: i32)
        ensures
            n as int == self.code(),
    {
        match self {
            DataMode::DepthAndRgb30Fps => 0,
            DataMode::IrAndRGB30Fps => 1,
            DataMode::DepthAndIr30Fps => 2,
            DataMode::NoCcd30Fps => 4,
            DataMode::DepthAndIr15FpsRgb30Fps => 10,
            DataMode::WdrDepth => 11,
            DataMode::WdrIr => 12,
            DataMode::WdrDepthAndIr => 13,
        }
    }

    /// The value that the code `n` stands for, if it stands for one.
    pub open spec fn of_code(n: int) -> Option<DataMode> {
        if n == 0 {
            Some(DataMode::DepthAndRgb30Fps)
        } else if n == 1 {
            Some(DataMode::IrAndRGB30Fps)
        } else if n == 2 {
            Some(DataMode::DepthAndIr30Fps)
        } else if n == 4 {
            Some(DataMode::NoCcd30Fps)
        } else if n == 10 {
            Some(DataMode::DepthAndIr15FpsRgb30Fps)
        } else if n == 11 {
            Some(DataMode::WdrDepth)
        } else if n == 12 {
            Some(DataMode::WdrIr)
        } else if n == 13 {
            Some(DataMode::WdrDepthAndIr)
        } else {
            None
        }
    }

    /// Decodes a code that the native side handed back. A code that no
    /// value has is refused, never taken over unchecked.
    pub fn from_int(n: i32) -> (r: Option<DataMode>)
        ensures
            r == Self::of_code(n as int),
    {
        match n {
            0 => Some(DataMode::DepthAndRgb30Fps),
            1 => Some(DataMode::IrAndRGB30Fps),
            2 => Some(DataMode::DepthAndIr30Fps),
            4 => Some(DataMode::NoCcd30Fps),
            10 => Some(DataMode::DepthAndIr15FpsRgb30Fps),
            11 => Some(DataMode::WdrDepth),
            12 => Some(DataMode::WdrIr),
            13 => Some(DataMode::WdrDepthAndIr),
            _ => None,
        }
    }

    /// Decoding the code of a value gives the value back, and a code that
    /// decodes to a value is that value's code.
    pub proof fn lemma_code_round_trip(v: DataMode, n: int)
        ensures
            Self::of_code(v.code()) == Some(v),
            Self::of_code(n) == Some(v) ==> v.code() == n,
    {
    }
}

/// The properties that the generic property calls address.
#[derive(Eq, PartialEq, Copy, Clone, Debug, Structural)]
pub enum PropertyType {
    SerialNumber,
    FirmwareVersion,
    HardwareVersion,
    DataMode,
    DataModeList,
    DepthRangeList,
}

impl PropertyType {
    /// The integer that the native side knows this value by.
    pub open spec fn code(self) -> int {
        match self {
            PropertyType::SerialNumber => 5,
            PropertyType::FirmwareVersion => 6,
            PropertyType::HardwareVersion => 7,
            PropertyType::DataMode => 8,
            PropertyType::DataModeList => 9,
            PropertyType::DepthRangeList => 10,
        }
    }

    /// The code of this value, as it is handed to the native side.
    pub fn to_int(&self) -> (n: i32)
        ensures
            n as int == self.code(),
    {
        match self {
            PropertyType::SerialNumber => 5,
            PropertyType::FirmwareVersion => 6,
            PropertyType::HardwareVersion => 7,
            PropertyType::DataMode => 8,
            PropertyType::DataModeList => 9,
            PropertyType::DepthRangeList => 10,
        }
    }
}

/// The kinds of frame a read can make available.
#[derive(Eq, PartialEq, Copy, Clone, Debug, Structural)]
pub enum FrameType {
    DepthFrame,
    IrFrame,
    GrayFrame,
    RgbFrame,
    MappedRgbFrame,
    MappedDepthFrame,
    MappedIrFrame,
    ConfidenceFrame,
    WdrDepthFrame,
}

impl FrameType {
    /// The integer that the native side knows this value by.
    pub open spec fn code(self) -> int {
        match self {
            FrameType::DepthFrame => 0,
            FrameType::IrFrame => 1,
            FrameType::GrayFrame => 2,
            FrameType::RgbFrame => 3,
            FrameType::MappedRgbFrame => 4,
            FrameType::MappedDepthFrame => 5,
            FrameType::MappedIrFrame => 6,
            FrameType::ConfidenceFrame => 8,
            FrameType::WdrDepthFrame => 9,
        }
    }

    /// The code of this value, as it is handed to the native side.
    pub fn to_int(&self) -> (n: i32)
        ensures
            n as int == self.code(),
    {
        match self {
            FrameType::DepthFrame => 0,
            FrameType::IrFrame => 1,
            FrameType::GrayFrame => 2,
            FrameType::RgbFrame => 3,
            FrameType::MappedRgbFrame => 4,
            FrameType::MappedDepthFrame => 5,
            FrameType::MappedIrFrame => 6,
            FrameType::ConfidenceFrame => 8,
            FrameType::WdrDepthFrame => 9,
        }
    }

    /// The value that the code `n` stands for, if it stands for one.
    pub open spec fn of_code(n: int) -> Option<FrameType> {
        if n == 0 {
            Some(FrameType::DepthFrame)
        } else if n == 1 {
            Some(FrameType::IrFrame)
        } else if n == 2 {
            Some(FrameType::GrayFrame)
        } else if n == 3 {
            Some(FrameType::RgbFrame)
        } else if n == 4 {
            Some(FrameType::MappedRgbFrame)
        } else if n == 5 {
            Some(FrameType::MappedDepthFrame)
        } else if n == 6 {
            Some(FrameType::MappedIrFrame)
        } else if n == 8 {
            Some(FrameType::ConfidenceFrame)
        } else if n == 9 {
            Some(FrameType::WdrDepthFrame)
        } else {
            None
        }
    }

    /// Decodes a code that the native side handed back. A code that no
    /// value has is refused, never taken over unchecked.
    pub fn from_int(n: i32) -> (r: Option<FrameType>)
        ensures
            r == Self::of_code(n as int),
    {
        match n {
            0 => Some(FrameType::DepthFrame),
            1 => Some(FrameType::IrFrame),
            2 => Some(FrameType::GrayFrame),
            3 => Some(FrameType::RgbFrame),
            4 => Some(FrameType::MappedRgbFrame),
            5 => Some(FrameType::MappedDepthFrame),
            6 => Some(FrameType::MappedIrFrame),
            8 => Some(FrameType::ConfidenceFrame),
            9 => Some(FrameType::WdrDepthFrame),
            _ => None,
        }
    }

    /// Decoding the code of a value gives the value back, and a code that
    /// decodes to a value is that value's code.
    pub proof fn lemma_code_round_trip(v: FrameType, n: int)
        ensures
            Self::of_code(v.code()) == Some(v),
            Self::of_code(n) == Some(v) ==> v.code() == n,
    {
    }
}

/// The two sensors of a camera.
#[derive(Eq, PartialEq, Copy, Clone, Debug, Structural)]
pub enum SensorType {
    DepthSensor,
    RgbSensor,
}

impl SensorType {
    /// The integer that the native side knows this value by.
    pub open spec fn code(self) -> int {
        match self {
            SensorType::DepthSensor => 1,
            SensorType::RgbSensor => 2,
        }
    }

    /// The code of this value, as it is handed to the native side.
    pub fn to_int(&self) -> (n: i32)
        ensures
            n as int == self.code(),
    {
        match self {
            SensorType::DepthSensor => 1,
            SensorType::RgbSensor => 2,
        }
    }
}

/// How the bytes of a frame encode its pixels.
#[derive(Eq, PartialEq, Copy, Clone, Debug, Structural)]
pub enum PixelFormat {
    DepthMm16,
    Gray16,
    Gray8,
    Rgb888,
    Bgr888,
}

impl PixelFormat {
    /// The integer that the native side knows this value by.
    pub open spec fn code(self) -> int {
        match self {
            PixelFormat::DepthMm16 => 0,
            PixelFormat::Gray16 => 1,
            PixelFormat::Gray8 => 2,
            PixelFormat::Rgb888 => 3,
            PixelFormat::Bgr888 => 4,
        }
    }

    /// The code of this value, as it is handed to the native side.
    pub fn to_int(&self) -> (n: i32)
        ensures
            n as int == self.code(),
    {
        match self {
            PixelFormat::DepthMm16 => 0,
            PixelFormat::Gray16 => 1,
            PixelFormat::Gray8 => 2,
            PixelFormat::Rgb888 => 3,
            PixelFormat::Bgr888 => 4,
        }
    }

    /// The value that the code `n` stands for, if it stands for one.
    pub open spec fn of_code(n: int) -> Option<PixelFormat> {
        if n == 0 {
            Some(PixelFormat::DepthMm16)
        } else if n == 1 {
            Some(PixelFormat::Gray16)
        } else if n == 2 {
            Some(PixelFormat::Gray8)
        } else if n == 3 {
            Some(PixelFormat::Rgb888)
        } else if n == 4 {
            Some(PixelFormat::Bgr888)
        } else {
            None
        }
    }

    /// Decodes a code that the native side handed back. A code that no
    /// value has is refused, never taken over unchecked.
    pub fn from_int(n: i32) -> (r: Option<PixelFormat>)
        ensures
            r == Self::of_code(n as int),
    {
        match n {
            0 => Some(PixelFormat::DepthMm16),
            1 => Some(PixelFormat::Gray16),
            2 => Some(PixelFormat::Gray8),
            3 => Some(PixelFormat::Rgb888),
            4 => Some(PixelFormat::Bgr888),
            _ => None,
        }
    }

    /// Decoding the code of a value gives the value back, and a code that
    /// decodes to a value is that value's code.
    pub proof fn lemma_code_round_trip(v: PixelFormat, n: int)
        ensures
            Self::of_code(v.code()) == Some(v),
            Self::of_code(n) == Some(v) ==> v.code() == n,
    {
    }
}

/// The depth filters.
#[derive(Eq, PartialEq, Copy, Clone, Debug, Structural)]
pub enum FilterType {
    ComputeRealDepthFilter,
    SmoothingFilter,
}

impl FilterType {
    /// The integer that the native side knows this value by.
    pub open spec fn code(self) -> int {
        match self {
            FilterType::ComputeRealDepthFilter => 0,
            FilterType::SmoothingFilter => 1,
        }
    }

    /// The code of this value, as it is handed to the native side.
    pub fn to_int(&self) -> (n: i32)
        ensures
            n as int == self.code(),
    {
        match self {
            FilterType::ComputeRealDepthFilter => 0,
            FilterType::SmoothingFilter => 1,
        }
    }
}

/// How many ranges a wide-dynamic-range capture blends.
#[derive(Eq, PartialEq, Copy, Clone, Debug, Structural)]
pub enum WdrTotalRange {
    WdrTotalRangeTwo,
    WdrTotalRangeThree,
}

impl WdrTotalRange {
    /// The integer that the native side knows this value by.
    pub open spec fn code(self) -> int {
        match self {
            WdrTotalRange::WdrTotalRangeTwo => 2,
            WdrTotalRange::WdrTotalRangeThree => 3,
        }
    }

    /// The code of this value, as it is handed to the native side.
    pub fn to_int(&self) -> (n: i32)
        ensures
            n as int == self.code(),
    {
        match self {
            WdrTotalRange::WdrTotalRangeTwo => 2,
            WdrTotalRange::WdrTotalRangeThree => 3,
        }
    }
}

/// How a wide-dynamic-range capture hands out its ranges.
#[derive(Eq, PartialEq, Copy, Clone, Debug, Structural)]
pub enum WdrStyle {
    Fusion,
    Alternation,
}

impl WdrStyle {
    /// The integer that the native side knows this value by.
    pub open spec fn code(self) -> int {
        match self {
            WdrStyle::Fusion => 0,
            WdrStyle::Alternation => 1,
        }
    }

    /// The code of this value, as it is handed to the native side.
    pub fn to_int(&self) -> (n: i32)
        ensures
            n as int == self.code(),
    {
        match self {
            WdrStyle::Fusion => 0,
            WdrStyle::Alternation => 1,
        }
    }
}

/// The streams of a device.
#[derive(Eq, PartialEq, Copy, Clone, Debug, Structural)]
pub enum StreamType {
    Depth,
    Ir,
    Rgb,
    Audio,
    Imu,
}

impl StreamType {
    /// The integer that the native side knows this value by.
    pub open spec fn code(self) -> int {
        match self {
            StreamType::Depth => 0,
            StreamType::Ir => 1,
            StreamType::Rgb => 2,
            StreamType::Audio => 3,
            StreamType::Imu => 4,
        }
    }

    /// The code of this value, as it is handed to the native side.
    pub fn to_int(&self) -> (n: i32)
        ensures
            n as int == self.code(),
    {
        match self {
            StreamType::Depth => 0,
            StreamType::Ir => 1,
            StreamType::Rgb => 2,
            StreamType::Audio => 3,
            StreamType::Imu => 4,
        }
    }
}

/// The resolutions of the colour sensor.
#[derive(Eq, PartialEq, Copy, Clone, Debug, Structural)]
pub enum Resolution {
    Res1920x1080,
    Res1280x720,
    Res640x480,
    Res640x360,
}

impl Resolution {
    /// The integer that the native side knows this value by.
    pub open spec fn code(self) -> int {
        match self {
            Resolution::Res1920x1080 => 0,
            Resolution::Res1280x720 => 1,
            Resolution::Res640x480 => 2,
            Resolution::Res640x360 => 3,
        }
    }

    /// The code of this value, as it is handed to the native side.
    pub fn to_int(&self) -> (n: i32)
        ensures
            n as int == self.code(),
    {
        match self {
            Resolution::Res1920x1080 => 0,
            Resolution::Res1280x720 => 1,
            Resolution::Res640x480 => 2,
            Resolution::Res640x360 => 3,
        }
    }
}

/// How a device is attached.
#[derive(Eq, PartialEq, Copy, Clone, Debug, Structural)]
pub enum LinkType {
    Unknown,
    Usb,
    Socket,
    Mipi,
}

impl LinkType {
    /// The integer that the native side knows this value by.
    pub open spec fn code(self) -> int {
        match self {
            LinkType::Unknown => 0,
            LinkType::Usb => 1,
            LinkType::Socket => 2,
            LinkType::Mipi => 3,
        }
    }

    /// The code of this value, as it is handed to the native side.
    pub fn to_int(&self) -> (n: i32)
        ensures
            n as int == self.code(),
    {
        match self {
            LinkType::Unknown => 0,
            LinkType::Usb => 1,
            LinkType::Socket => 2,
            LinkType::Mipi => 3,
        }
    }
}

/// For how long a gain setting stays in force.
#[derive(Eq, PartialEq, Copy, Clone, Debug, Structural)]
pub enum GmmGainEffectiveTime {
    Temporary,
    Permanent,
}

impl GmmGainEffectiveTime {
    /// The integer that the native side knows this value by.
    pub open spec fn code(self) -> int {
        match self {
            GmmGainEffectiveTime::Temporary => 0,
            GmmGainEffectiveTime::Permanent => 1,
        }
    }

    /// The code of this value, as it is handed to the native side.
    pub fn to_int(&self) -> (n: u8)
        ensures
            n as int == self.code(),
    {
        match self {
            GmmGainEffectiveTime::Temporary => 0,
            GmmGainEffectiveTime::Permanent => 1,
        }
    }
}

impl PropertyType {
    /// Whether the property is a piece of text: the serial number and the
    /// two version strings are, the data mode and the two lists are not.
    pub open spec fn is_text(self) -> bool {
        self == PropertyType::SerialNumber || self == PropertyType::FirmwareVersion || self
            == PropertyType::HardwareVersion
    }

    /// Whether the property is a piece of text.
    pub fn holds_text(&self) -> (b: bool)
        ensures
            b == self.is_text(),
    {
        match self {
            PropertyType::SerialNumber => true,
            PropertyType::FirmwareVersion => true,
            PropertyType::HardwareVersion => true,
            PropertyType::DataMode => false,
            PropertyType::DataModeList => false,
            PropertyType::DepthRangeList => false,
        }
    }
}

/// The value of a property.
#[derive(Eq, PartialEq, Clone, Debug)]
pub enum PropertyValue {
    StringValue(String),
    Uint8Value(u8),
    Int32ValueList(Vec<i32>),
}

/// Whether a device is attached, and whether somebody holds it open.
#[derive(Eq, PartialEq, Copy, Clone, Debug, Structural)]
pub enum ConnectStatus {
    ConnectUnknown,
    Unconnected,
    Connected,
    Opened,
}

impl ConnectStatus {
    /// The status that the code `n` stands for; every code but 1, 2 and 3
    /// is `ConnectUnknown`.
    pub open spec fn of_code(n: int) -> ConnectStatus {
        if n == 1 {
            ConnectStatus::Unconnected
        } else if n == 2 {
            ConnectStatus::Connected
        } else if n == 3 {
            ConnectStatus::Opened
        } else {
            ConnectStatus::ConnectUnknown
        }
    }

    /// Decodes the connection status of a device record.
    pub fn from_int(n: i32) -> (s: ConnectStatus)
        ensures
            s == Self::of_code(n as int),
    {
        match n {
            1 => ConnectStatus::Unconnected,
            2 => ConnectStatus::Connected,
            3 => ConnectStatus::Opened,
            _ => ConnectStatus::ConnectUnknown,
        }
    }
}

/// The camera models.
#[derive(Eq, PartialEq, Copy, Clone, Debug, Structural)]
pub enum DeviceType {
    Unknown,
    NoDevice,
    DcamUpdate,
    Dcam305,
    Dcam500,
    Dcam700,
    Dcam710,
    Dcam800,
    DcamMipi,
    Dcam800Lite,
    Max,
}

impl DeviceType {
    /// The model that the code `n` stands for; a code that no model has
    /// is `Unknown`.
    pub open spec fn of_code(n: int) -> DeviceType {
        if n == 0 {
            DeviceType::NoDevice
        } else if n == 1 {
            DeviceType::DcamUpdate
        } else if n == 305 {
            DeviceType::Dcam305
        } else if n == 500 {
            DeviceType::Dcam500
        } else if n == 700 {
            DeviceType::Dcam700
        } else if n == 710 {
            DeviceType::Dcam710
        } else if n == 800 {
            DeviceType::Dcam800
        } else if n == 801 {
            DeviceType::DcamMipi
        } else if n == 802 {
            DeviceType::Dcam800Lite
        } else if n == 803 {
            DeviceType::Max
        } else {
            DeviceType::Unknown
        }
    }

    /// Decodes the model code of a device record.
    pub fn from_int(n: i32) -> (t: DeviceType)
        ensures
            t == Self::of_code(n as int),
    {
        match n {
            0 => DeviceType::NoDevice,
            1 => DeviceType::DcamUpdate,
            305 => DeviceType::Dcam305,
            500 => DeviceType::Dcam500,
            700 => DeviceType::Dcam700,
            710 => DeviceType::Dcam710,
            800 => DeviceType::Dcam800,
            801 => DeviceType::DcamMipi,
            802 => DeviceType::Dcam800Lite,
            803 => DeviceType::Max,
            _ => DeviceType::Unknown,
        }
    }
}

/// The names that the raw layer of the SDK knows the enumerations by.
pub type PsDepthRange = DepthRange;

pub type PsDataMode = DataMode;

pub type PsPropertyType = PropertyType;

pub type PsFrameType = FrameType;

pub type PsSensorType = SensorType;

pub type PsPixelFormat = PixelFormat;

pub type PsFilterType = FilterType;

pub type PsWdrTotalRange = WdrTotalRange;

pub type PsWdrStyle = WdrStyle;

pub type PsStreamType = StreamType;

pub type PsResolution = Resolution;

pub type PsLinkType = LinkType;

pub type PsConnectStatus = ConnectStatus;

pub type PsDeviceType = DeviceType;

} // verus!
