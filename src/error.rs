use vstd::prelude::*;
use crate::lifecycle::Stage;

verus! {

/// A driver call whose result the shell reports back to the library.
#[derive(Clone, Copy, Debug, PartialEq, Eq, Structural)]
pub enum DriverCall {
    EnumerateInstanceExtensions,
    EnumerateInstanceLayers,
    EnumerateInstanceVersion,
    CreateInstance,
    CreateDebugMessenger,
    CreateSurface,
    EnumeratePhysicalDevices,
    QuerySurfaceSupport,
    EnumerateDeviceExtensions,
    CreateDevice,
    QuerySurfaceCapabilities,
    QuerySurfaceFormats,
    QueryPresentModes,
    CreateSwapchain,
    GetSwapchainImages,
    CreateImageView,
    CreateRenderPass,
    CreateFramebuffer,
}

/// Every way in which building the rendering context can fail.
///
/// Creation steps carry the driver's result code; any other failed driver
/// call is a `DriverError` naming the call.
#[derive(Clone, Copy, Debug, PartialEq, Eq, Structural)]
pub enum AppError {
    /// The native driver library is missing or incompatible.
    LoaderFailure,
    InstanceCreationFailed(i32),
    SurfaceCreationFailed(i32),
    /// No physical device exposes both a graphics and a present queue family.
    NoSuitableDevice,
    DeviceCreationFailed(i32),
    SwapchainCreationFailed(i32),
    ImageViewCreationFailed(i32),
    RenderPassCreationFailed(i32),
    FramebufferCreationFailed(i32),
    DriverError(i32, DriverCall),
    /// The surface reports no format, or an image count that cannot be met.
    UnusableSurface,
    /// A build step was attempted while the context stood at the given stage,
    /// which does not admit it.
    OutOfOrder(Stage),
    /// The windowing event loop could not be created or run.
    EventLoopFailure,
}

/// The error that stands for a failed driver call with result `code`.
pub open spec fn driver_error(call: DriverCall, code: i32) -> AppError {
    match call {
        DriverCall::CreateInstance => AppError::InstanceCreationFailed(code),
        DriverCall::CreateSurface => AppError::SurfaceCreationFailed(code),
        DriverCall::CreateDevice => AppError::DeviceCreationFailed(code),
        DriverCall::CreateSwapchain => AppError::SwapchainCreationFailed(code),
        DriverCall::CreateImageView => AppError::ImageViewCreationFailed(code),
        DriverCall::CreateRenderPass => AppError::RenderPassCreationFailed(code),
        DriverCall::CreateFramebuffer => AppError::FramebufferCreationFailed(code),
        _ => AppError::DriverError(code, call),
    }
}

impl AppError {
    /// Classifies a failed driver call: creation steps get their own variant,
    /// every other call becomes a `DriverError` that names it.
    pub fn from_driver(call: DriverCall, code: i32) -> (r: AppError)
        ensures
            r == driver_error(call, code),
    {
        match call {
            DriverCall::CreateInstance => AppError::InstanceCreationFailed(code),
            DriverCall::CreateSurface => AppError::SurfaceCreationFailed(code),
            DriverCall::CreateDevice => AppError::DeviceCreationFailed(code),
            DriverCall::CreateSwapchain => AppError::SwapchainCreationFailed(code),
            DriverCall::CreateImageView => AppError::ImageViewCreationFailed(code),
            DriverCall::CreateRenderPass => AppError::RenderPassCreationFailed(code),
            DriverCall::CreateFramebuffer => AppError::FramebufferCreationFailed(code),
            _ => AppError::DriverError(code, call),
        }
    }
}

} // verus!
