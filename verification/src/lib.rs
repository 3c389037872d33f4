//! A typed, pointer-free core for the Vzense depth-camera SDK binding.
//!
//! The crate never touches the native library itself. Every operation is
//! split around the foreign call: a *request* function checks what must hold
//! before the call and yields the [`NativeCall`] to perform, and a
//! `complete_*` function turns what the native side handed back (a status
//! code plus plain output values) into a typed result. Whoever links the
//! native library performs the call in between.

pub mod api;
pub mod enums;
pub mod handle;
pub mod lifecycle;
pub mod native;
pub mod status;
pub mod structs;
pub mod text;

pub use crate::api::{
    complete_get_camera_parameters, complete_get_data_mode, complete_get_depth_range,
    complete_get_device_info, complete_get_device_list_info, complete_get_frame,
    complete_get_property, complete_open_device, complete_read_next_frame, get_device_count,
    get_device_info, get_device_list_info, initialize, open_device, shutdown,
};
pub use crate::enums::{ConnectStatus, DeviceType, LinkType, ZenseError};
pub use crate::handle::DeviceHandle;
pub use crate::lifecycle::Lifecycle;
pub use crate::native::{NativeCall, PsDeviceInfo, PsFrame, PsGmmGain, PsWdrOutputMode};
pub use crate::structs::{
    ps_device_info_to_device_info, CameraParameters, DeviceInfo, Frame, FrameReady,
};
pub use crate::status::{check_status, value_or_error, ZenseResult};
