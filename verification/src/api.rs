//! The operations that need no open device, and the second half of every
//! operation: what the answer of the native side comes to.

use crate::enums::{DataMode, DepthRange, PropertyType, PropertyValue, ZenseError};
use crate::handle::DeviceHandle;
use crate::lifecycle::Lifecycle;
use crate::native::{NativeCall, PsDeviceInfo, PsFrame};
use crate::status::{check_status, status_error, ZenseResult};
use crate::structs::{
    device_info_of, frame_is_sound, frame_of, ps_device_info_to_device_info, CameraParameters,
    DeviceInfo, Frame, FrameReady, PropertyValueView,
};
use crate::text::{c_string_to_text, contains_nul, has_nul, strict_text};
use vstd::prelude::*;
use vstd::slice::slice_subrange;
use vstd::string::StringSliceAdditionalSpecFns;

verus! {

/// What asking for `call` comes to while no device is involved: the call
/// where the library is initialized, and an ordering error where it is not.
pub open spec fn library_request(lifecycle: &Lifecycle, call: NativeCall) -> ZenseResult<
    NativeCall,
> {
    if lifecycle.ready() {
        Ok(call)
    } else {
        Err(ZenseError::OrderingError)
    }
}

/// Initializes the native library. It can be initialized only while it is
/// not: a second `initialize` without a `shutdown` between is an ordering
/// error. [`Lifecycle::complete_initialize`] takes the answer.
pub fn initialize(lifecycle: &Lifecycle) -> (r: ZenseResult<NativeCall>)
    ensures
        lifecycle.ready() ==> r == Err::<NativeCall, ZenseError>(ZenseError::OrderingError),
        !lifecycle.ready() ==> r == Ok::<NativeCall, ZenseError>(NativeCall::Initialize),
{
    if lifecycle.is_ready() {
        Err(ZenseError::OrderingError)
    } else {
        Ok(NativeCall::Initialize)
    }
}

/// Shuts the native library down. [`Lifecycle::complete_shutdown`] takes the
/// answer.
pub fn shutdown(lifecycle: &Lifecycle) -> (r: ZenseResult<NativeCall>)
    ensures
        r == library_request(lifecycle, NativeCall::Shutdown),
{
    if lifecycle.is_ready() {
        Ok(NativeCall::Shutdown)
    } else {
        Err(ZenseError::OrderingError)
    }
}

/// Asks how many devices are attached. [`crate::value_or_error`] takes the
/// answer.
pub fn get_device_count(lifecycle: &Lifecycle) -> (r: ZenseResult<NativeCall>)
    ensures
        r == library_request(lifecycle, NativeCall::GetDeviceCount),
{
    if lifecycle.is_ready() {
        Ok(NativeCall::GetDeviceCount)
    } else {
        Err(ZenseError::OrderingError)
    }
}

/// Asks for the records of the first `device_count` devices, for which the
/// performer is to offer exactly `device_count` records to fill.
/// [`complete_get_device_list_info`] takes the answer.
pub fn get_device_list_info(lifecycle: &Lifecycle, device_count: u32) -> (r: ZenseResult<
    NativeCall,
>)
    ensures
        r == library_request(lifecycle, (NativeCall::GetDeviceListInfo { device_count })),
{
    if lifecycle.is_ready() {
        Ok(NativeCall::GetDeviceListInfo { device_count })
    } else {
        Err(ZenseError::OrderingError)
    }
}

/// Asks for the record of the device at `device_index`.
/// [`complete_get_device_info`] takes the answer.
pub fn get_device_info(lifecycle: &Lifecycle, device_index: u32) -> (r: ZenseResult<NativeCall>)
    ensures
        r == library_request(lifecycle, (NativeCall::GetDeviceInfo { device_index })),
{
    if lifecycle.is_ready() {
        Ok(NativeCall::GetDeviceInfo { device_index })
    } else {
        Err(ZenseError::OrderingError)
    }
}

/// Opens the device that `uri` names. An identifier that holds a zero byte
/// cannot be handed to the native side: it ends in `RuntimeError`, and no
/// call comes of it. [`complete_open_device`] takes the answer.
pub fn open_device(lifecycle: &Lifecycle, uri: &str) -> (r: ZenseResult<NativeCall>)
    ensures
        !lifecycle.ready() ==> r == Err::<NativeCall, ZenseError>(ZenseError::OrderingError),
        lifecycle.ready() && has_nul(uri.spec_bytes()) ==> r == Err::<NativeCall, ZenseError>(
            ZenseError::RuntimeError,
        ),
        lifecycle.ready() && !has_nul(uri.spec_bytes()) ==> {
            &&& r matches Ok(NativeCall::OpenDevice { uri: bytes })
            &&& bytes@ == uri.spec_bytes()
        },
{
    if !lifecycle.is_ready() {
        return Err(ZenseError::OrderingError);
    }
    let bytes = uri.as_bytes_vec();
    if contains_nul(bytes.as_slice()) {
        Err(ZenseError::RuntimeError)
    } else {
        Ok(NativeCall::OpenDevice { uri: bytes })
    }
}

/// Takes the answer to `OpenDevice`: under status 0 a handle for the
/// address that the native side handed out, unless that address is null,
/// which breaks the native side's promise; under any other status the error
/// of the status, with the address unread.
pub fn complete_open_device(status: i32, address: usize) -> (r: ZenseResult<DeviceHandle>)
    ensures
        status != 0 ==> r == Err::<DeviceHandle, ZenseError>(status_error(status as int)),
        status == 0 && address == 0 ==> r == Err::<DeviceHandle, ZenseError>(
            ZenseError::FfiError,
        ),
        status == 0 && address != 0 ==> {
            &&& r matches Ok(handle)
            &&& handle.address() == address
            &&& !handle.closed()
            &&& handle.sound()
        },
{
    match check_status(status) {
        Err(e) => Err(e),
        Ok(()) => {
            if address == 0 {
                Err(ZenseError::FfiError)
            } else {
                Ok(DeviceHandle::new(address))
            }
        },
    }
}

/// Takes the answer to `GetDeviceInfo`: under status 0 the typed value of
/// the record, under any other status the error of the status.
pub fn complete_get_device_info(status: i32, device: &PsDeviceInfo) -> (r: ZenseResult<DeviceInfo>)
    ensures
        status != 0 ==> r == Err::<DeviceInfo, ZenseError>(status_error(status as int)),
        status == 0 ==> r is Ok && r->Ok_0@ == device_info_of(*device),
{
    match check_status(status) {
        Err(e) => Err(e),
        Ok(()) => Ok(ps_device_info_to_device_info(device)),
    }
}

/// Takes the answer to `GetDeviceListInfo`: under status 0 the typed value
/// of every record, as many as were asked for and in the order in which the
/// native side filled them. Another number of records than was asked for
/// breaks the native side's promise. Under any other status the records are
/// not read.
pub fn complete_get_device_list_info(
    device_count: u32,
    status: i32,
    devices: &Vec<PsDeviceInfo>,
) -> (r: ZenseResult<Vec<DeviceInfo>>)
    ensures
        status != 0 ==> r == Err::<Vec<DeviceInfo>, ZenseError>(status_error(status as int)),
        status == 0 && devices@.len() != device_count ==> r == Err::<Vec<DeviceInfo>, ZenseError>(
            ZenseError::FfiError,
        ),
        status == 0 && devices@.len() == device_count ==> {
            &&& r matches Ok(list)
            &&& list@.len() == device_count
            &&& forall|i: int|
                0 <= i < device_count ==> (#[trigger] list@[i])@ == device_info_of(devices@[i])
        },
{
    match check_status(status) {
        Err(e) => Err(e),
        Ok(()) => {
            if devices.len() != device_count as usize {
                return Err(ZenseError::FfiError);
            }
            let mut list: Vec<DeviceInfo> = Vec::new();
            let mut i: usize = 0;
            while i < devices.len()
                invariant
                    0 <= i <= devices@.len(),
                    list@.len() == i,
                    forall|j: int|
                        0 <= j < i ==> (#[trigger] list@[j])@ == device_info_of(devices@[j]),
                decreases devices@.len() - i,
            {
                list.push(ps_device_info_to_device_info(&devices[i]));
                i = i + 1;
            }
            Ok(list)
        },
    }
}

/// Takes the answer to `ReadNextFrame`: under status 0 the decoded mask.
pub fn complete_read_next_frame(status: i32, frame_ready: u32) -> (r: ZenseResult<FrameReady>)
    ensures
        status != 0 ==> r == Err::<FrameReady, ZenseError>(status_error(status as int)),
        status == 0 ==> r == Ok::<FrameReady, ZenseError>(FrameReady::decode(frame_ready)),
{
    match check_status(status) {
        Err(e) => Err(e),
        Ok(()) => Ok(FrameReady::from(frame_ready)),
    }
}

/// Takes the answer to `GetFrame`: under status 0 the frame with its bytes,
/// which the performer has copied out of native memory; a frame whose codes
/// or length break the native side's promise is refused. Under any other
/// status the frame is not read.
pub fn complete_get_frame(status: i32, frame: PsFrame) -> (r: ZenseResult<Frame>)
    ensures
        status != 0 ==> r == Err::<Frame, ZenseError>(status_error(status as int)),
        status == 0 && !frame_is_sound(frame) ==> r == Err::<Frame, ZenseError>(
            ZenseError::FfiError,
        ),
        status == 0 && frame_is_sound(frame) ==> r is Ok && r->Ok_0@ == frame_of(frame),
{
    match check_status(status) {
        Err(e) => Err(e),
        Ok(()) => Frame::from(frame),
    }
}

/// Takes the answer to `GetDataMode`: under status 0 the mode that the code
/// stands for; a code that stands for none breaks the native side's promise.
pub fn complete_get_data_mode(status: i32, code: i32) -> (r: ZenseResult<DataMode>)
    ensures
        status != 0 ==> r == Err::<DataMode, ZenseError>(status_error(status as int)),
        status == 0 ==> r == match DataMode::of_code(code as int) {
            Some(mode) => Ok::<DataMode, ZenseError>(mode),
            None => Err(ZenseError::FfiError),
        },
{
    match check_status(status) {
        Err(e) => Err(e),
        Ok(()) => match DataMode::from_int(code) {
            Some(mode) => Ok(mode),
            None => Err(ZenseError::FfiError),
        },
    }
}

/// Takes the answer to `GetDepthRange`: under status 0 the range that the
/// code stands for; a code that stands for none breaks the native side's
/// promise.
pub fn complete_get_depth_range(status: i32, code: i32) -> (r: ZenseResult<DepthRange>)
    ensures
        status != 0 ==> r == Err::<DepthRange, ZenseError>(status_error(status as int)),
        status == 0 ==> r == match DepthRange::of_code(code as int) {
            Some(range) => Ok::<DepthRange, ZenseError>(range),
            None => Err(ZenseError::FfiError),
        },
{
    match check_status(status) {
        Err(e) => Err(e),
        Ok(()) => match DepthRange::from_int(code) {
            Some(range) => Ok(range),
            None => Err(ZenseError::FfiError),
        },
    }
}

/// Takes the answer to `GetCameraParameters`: under status 0 the
/// calibration, unless every one of its coefficients is nearer to zero than
/// 0.001: that is no calibration, and is reported as a breach of the native
/// side's promise instead of being handed on.
pub fn complete_get_camera_parameters(
    status: i32,
    camera_parameters: CameraParameters,
) -> (r: ZenseResult<CameraParameters>)
    ensures
        status != 0 ==> r == Err::<CameraParameters, ZenseError>(status_error(status as int)),
        status == 0 && camera_parameters.degenerate() ==> r == Err::<CameraParameters, ZenseError>(
            ZenseError::FfiError,
        ),
        status == 0 && !camera_parameters.degenerate() ==> r == Ok::<CameraParameters, ZenseError>(
            camera_parameters,
        ),
{
    match check_status(status) {
        Err(e) => Err(e),
        Ok(()) => {
            if camera_parameters.is_degenerate() {
                Err(ZenseError::FfiError)
            } else {
                Ok(camera_parameters)
            }
        },
    }
}

/// What a filled property buffer holds, given the size that the native side
/// reported. A size below zero or beyond the buffer breaks the native
/// side's promise. Of a text property the value is what the first `size`
/// bytes hold before their first zero byte, which must be UTF-8; of the
/// other properties no decoding is defined.
pub open spec fn property_value_of(
    property_type: PropertyType,
    buffer: Seq<u8>,
    size: int,
) -> Result<PropertyValueView, ZenseError> {
    if !property_type.is_text() {
        Err(ZenseError::Unsupported)
    } else if size < 0 || size > buffer.len() {
        Err(ZenseError::FfiError)
    } else {
        match strict_text(buffer.subrange(0, size)) {
            Some(text) => Ok(PropertyValueView::StringValue(text)),
            None => Err(ZenseError::RuntimeError),
        }
    }
}

/// Takes the answer to `GetProperty`: the buffer that was offered and the
/// size that the native side wrote back. Under status 0 the value is that
/// of [`property_value_of`]; under any other status neither buffer nor size
/// is read.
pub fn complete_get_property(
    property_type: PropertyType,
    status: i32,
    buffer: &[u8],
    size: i32,
) -> (r: ZenseResult<PropertyValue>)
    ensures
        status != 0 ==> r == Err::<PropertyValue, ZenseError>(status_error(status as int)),
        status == 0 ==> match property_value_of(property_type, buffer@, size as int) {
            Ok(value) => r is Ok && r->Ok_0@ == value,
            Err(e) => r == Err::<PropertyValue, ZenseError>(e),
        },
{
    match check_status(status) {
        Err(e) => Err(e),
        Ok(()) => {
            if !property_type.holds_text() {
                Err(ZenseError::Unsupported)
            } else if size < 0 || size as usize > buffer.len() {
                Err(ZenseError::FfiError)
            } else {
                match c_string_to_text(slice_subrange(buffer, 0, size as usize)) {
                    Some(text) => Ok(PropertyValue::StringValue(text)),
                    None => Err(ZenseError::RuntimeError),
                }
            }
        },
    }
}

} // verus!
