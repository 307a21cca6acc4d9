//! What the bridge fixes about the graphics backend: how a context is asked
//! for, how a surface is configured, how a frame is viewed, and how errors
//! that the backend reports on its own are worded for the diagnostic log.

use vstd::prelude::*;

verus! {

/// How much power the adapter may draw.
#[derive(Clone, Copy, Debug, PartialEq, Eq, Structural)]
pub enum PowerPreference {
    /// No preference: the backend's default.
    NoPreference,
    LowPower,
    HighPerformance,
}

/// What is asked of the backend when an adapter is requested.
#[derive(Clone, Copy, Debug, PartialEq, Eq, Structural)]
pub struct AdapterRequest {
    pub power_preference: PowerPreference,
    pub force_fallback_adapter: bool,
}

/// The adapter request of the bridge: default power preference, and no
/// forced fallback adapter.
pub fn adapter_request() -> (r: AdapterRequest)
    ensures
        r == (AdapterRequest {
            power_preference: PowerPreference::NoPreference,
            force_fallback_adapter: false,
        }),
{
    AdapterRequest { power_preference: PowerPreference::NoPreference, force_fallback_adapter: false }
}

/// Why no GPU context could be made.
#[derive(Clone, Copy, Debug, PartialEq, Eq, Structural)]
pub enum InitError {
    /// The backend offered no adapter.
    AdapterNotFound,
    /// The adapter gave no device and queue.
    DeviceRequestFailed,
}

/// How far the making of a GPU context has come.
#[derive(Clone, Copy, Debug, PartialEq, Eq, Structural)]
pub enum InitStep {
    /// Ask for a device and a queue next.
    RequestDevice,
    /// Install the error handler and hand the context out.
    Finish,
}

/// The outcome of the two requests that make a context: the adapter is asked
/// for first, and without one no device is asked for.
pub open spec fn init_outcome(adapter_found: bool, device_granted: bool) -> Result<(), InitError> {
    if !adapter_found {
        Err(InitError::AdapterNotFound)
    } else if !device_granted {
        Err(InitError::DeviceRequestFailed)
    } else {
        Ok(())
    }
}

/// The step after the adapter request.
pub fn after_adapter_request(adapter_found: bool) -> (r: Result<InitStep, InitError>)
    ensures
        r == if adapter_found {
            Ok::<InitStep, InitError>(InitStep::RequestDevice)
        } else {
            Err::<InitStep, InitError>(InitError::AdapterNotFound)
        },
        r is Err <==> init_outcome(adapter_found, true) is Err,
{
    if adapter_found {
        Ok(InitStep::RequestDevice)
    } else {
        Err(InitError::AdapterNotFound)
    }
}

/// The step after the device request, which is only made with an adapter.
pub fn after_device_request(device_granted: bool) -> (r: Result<InitStep, InitError>)
    ensures
        r == if device_granted {
            Ok::<InitStep, InitError>(InitStep::Finish)
        } else {
            Err::<InitStep, InitError>(InitError::DeviceRequestFailed)
        },
        r is Ok <==> init_outcome(true, device_granted) is Ok,
{
    if device_granted {
        Ok(InitStep::Finish)
    } else {
        Err(InitError::DeviceRequestFailed)
    }
}

/// The pixel format of every surface and texture of the bridge.
#[derive(Clone, Copy, Debug, PartialEq, Eq, Structural)]
pub enum TextureFormat {
    /// Four channels of eight bits each, unsigned and normalized.
    Rgba8Unorm,
}

/// When a finished frame is shown.
#[derive(Clone, Copy, Debug, PartialEq, Eq, Structural)]
pub enum PresentMode {
    /// In order, one per vertical blank.
    Fifo,
}

/// How the surface's alpha channel is composited.
#[derive(Clone, Copy, Debug, PartialEq, Eq, Structural)]
pub enum CompositeAlphaMode {
    /// Left to the backend.
    Auto,
}

/// The usage bit of a texture that is a render pass's output.
pub const USAGE_RENDER_ATTACHMENT: u32 = 16;

/// The usage bit of a texture that is bound as storage.
pub const USAGE_STORAGE_BINDING: u32 = 8;

/// The number of frames a surface may have in flight.
pub const MAXIMUM_FRAME_LATENCY: u32 = 3;

/// The configuration of a surface.
#[derive(Clone, Copy, Debug, PartialEq, Eq, Structural)]
pub struct SurfaceConfiguration {
    /// The usage bits of the surface's textures.
    pub usage: u32,
    pub format: TextureFormat,
    pub width: u32,
    pub height: u32,
    pub present_mode: PresentMode,
    pub alpha_mode: CompositeAlphaMode,
    pub desired_maximum_frame_latency: u32,
}

/// The configuration that every surface gets, for a target of the given
/// size.
pub open spec fn configuration_for(width: u32, height: u32) -> SurfaceConfiguration {
    SurfaceConfiguration {
        usage: 24,
        format: TextureFormat::Rgba8Unorm,
        width,
        height,
        present_mode: PresentMode::Fifo,
        alpha_mode: CompositeAlphaMode::Auto,
        desired_maximum_frame_latency: 3,
    }
}

/// Configures a surface for a target of the given size: render attachment
/// and storage binding, 8-bit RGBA, FIFO presentation, automatic alpha, at
/// most three frames in flight. The size is the target's at this moment.
pub fn surface_configuration(width: u32, height: u32) -> (r: SurfaceConfiguration)
    ensures
        r == configuration_for(width, height),
{
    let usage: u32 = USAGE_RENDER_ATTACHMENT | USAGE_STORAGE_BINDING;
    assert(usage == 24) by (bit_vector)
        requires
            usage == 16u32 | 8u32,
    ;
    SurfaceConfiguration {
        usage,
        format: TextureFormat::Rgba8Unorm,
        width,
        height,
        present_mode: PresentMode::Fifo,
        alpha_mode: CompositeAlphaMode::Auto,
        desired_maximum_frame_latency: MAXIMUM_FRAME_LATENCY,
    }
}

/// Which aspect of a texture a view shows.
#[derive(Clone, Copy, Debug, PartialEq, Eq, Structural)]
pub enum TextureAspect {
    /// Everything the format has; for a color format, the color.
    All,
}

/// The part of a texture that a view shows. A count of `None` means all that
/// is left from the base on.
#[derive(Clone, Copy, Debug, PartialEq, Eq, Structural)]
pub struct ViewDescriptor {
    pub aspect: TextureAspect,
    pub base_mip_level: u32,
    pub mip_level_count: Option<u32>,
    pub base_array_layer: u32,
    pub array_layer_count: Option<u32>,
}

/// The view of a whole frame: every mip level and every array layer.
pub fn full_view() -> (r: ViewDescriptor)
    ensures
        r == (ViewDescriptor {
            aspect: TextureAspect::All,
            base_mip_level: 0,
            mip_level_count: None,
            base_array_layer: 0,
            array_layer_count: None,
        }),
{
    ViewDescriptor {
        aspect: TextureAspect::All,
        base_mip_level: 0,
        mip_level_count: None,
        base_array_layer: 0,
        array_layer_count: None,
    }
}

/// The pixels of an image to load into a texture.
#[derive(Clone, Debug, PartialEq, Eq)]
pub struct TextureDesc {
    pub width: u32,
    pub height: u32,
    /// Bytes from one row to the next; `None` where rows are tightly packed.
    pub stride: Option<u32>,
    pub data: Vec<u8>,
    pub format: TextureFormat,
}

/// Describes a raw image for loading: its size and pixels as given, rows
/// tightly packed, 8-bit RGBA.
pub fn texture_desc(width: u32, height: u32, data: Vec<u8>) -> (r: TextureDesc)
    ensures
        r.width == width,
        r.height == height,
        r.stride is None,
        r.data == data,
        r.format == TextureFormat::Rgba8Unorm,
{
    TextureDesc { width, height, stride: None, data, format: TextureFormat::Rgba8Unorm }
}

/// An error that the backend reports on its own, outside any call.
#[derive(Clone, Debug, PartialEq, Eq)]
pub enum GpuError {
    OutOfMemory,
    Validation { description: String, source: String },
    Internal { description: String, source: String },
}

/// The line that the diagnostic log gets for an out-of-memory error.
pub open spec fn out_of_memory_line() -> Seq<char> {
    "GPU Out of Memory error occurred"@
}

/// The line that the diagnostic log gets for a validation error.
pub open spec fn validation_line(description: Seq<char>, source: Seq<char>) -> Seq<char> {
    "GPU Validation error: "@ + description + " : "@ + source
}

/// The line that the diagnostic log gets for an internal error.
pub open spec fn internal_line(description: Seq<char>, source: Seq<char>) -> Seq<char> {
    "GPU Internal error: "@ + description + " : "@ + source
}

/// The line that the diagnostic log gets for an error.
pub open spec fn log_line(error: GpuError) -> Seq<char> {
    match error {
        GpuError::OutOfMemory => out_of_memory_line(),
        GpuError::Validation { description, source } => validation_line(description@, source@),
        GpuError::Internal { description, source } => internal_line(description@, source@),
    }
}

/// Appends text to a string. This is `String::push_str` of the standard
/// library: the string afterwards is the string before followed by the text.
/// The contract says that and is not proved here.
#[verifier::external_body]
fn append_text(buffer: &mut String, text: &str)
    ensures
        final(buffer)@ == old(buffer)@ + text@,
{
    buffer.push_str(text)
}

fn labelled_line(label: &str, description: &str, source: &str) -> (r: String)
    ensures
        r@ == label@ + description@ + " : "@ + source@,
{
    let mut line: String = label.to_owned();
    append_text(&mut line, description);
    append_text(&mut line, " : ");
    append_text(&mut line, source);
    line
}

impl GpuError {
    /// Words the error for the diagnostic log. Every error gets a line; none
    /// ends the process.
    pub fn describe(&self) -> (r: String)
        ensures
            r@ == log_line(*self),
    {
        match self {
            GpuError::OutOfMemory => "GPU Out of Memory error occurred".to_owned(),
            GpuError::Validation { description, source } => labelled_line(
                "GPU Validation error: ",
                description.as_str(),
                source.as_str(),
            ),
            GpuError::Internal { description, source } => labelled_line(
                "GPU Internal error: ",
                description.as_str(),
                source.as_str(),
            ),
        }
    }
}

/// Why no frame could be acquired from a surface.
#[derive(Clone, Copy, Debug, PartialEq, Eq, Structural)]
pub enum SurfaceAcquireError {
    Timeout,
    Outdated,
    Lost,
    OutOfMemory,
    Other,
}

impl SurfaceAcquireError {
    /// The name of this error.
    pub open spec fn text(self) -> Seq<char> {
        match self {
            SurfaceAcquireError::Timeout => "Timeout"@,
            SurfaceAcquireError::Outdated => "Outdated"@,
            SurfaceAcquireError::Lost => "Lost"@,
            SurfaceAcquireError::OutOfMemory => "OutOfMemory"@,
            SurfaceAcquireError::Other => "Other"@,
        }
    }

    /// The name of this error, for the host.
    pub fn message(&self) -> (r: String)
        ensures
            r@ == self.text(),
    {
        match self {
            SurfaceAcquireError::Timeout => "Timeout".to_owned(),
            SurfaceAcquireError::Outdated => "Outdated".to_owned(),
            SurfaceAcquireError::Lost => "Lost".to_owned(),
            SurfaceAcquireError::OutOfMemory => "OutOfMemory".to_owned(),
            SurfaceAcquireError::Other => "Other".to_owned(),
        }
    }
}

impl InitError {
    /// The words of this error.
    pub open spec fn text(self) -> Seq<char> {
        match self {
            InitError::AdapterNotFound => "Failed to find an appropriate adapter"@,
            InitError::DeviceRequestFailed => "Failed to create device"@,
        }
    }

    /// The words of this error, for the host.
    pub fn message(&self) -> (r: String)
        ensures
            r@ == self.text(),
    {
        match self {
            InitError::AdapterNotFound => "Failed to find an appropriate adapter".to_owned(),
            InitError::DeviceRequestFailed => "Failed to create device".to_owned(),
        }
    }
}

} // verus!
