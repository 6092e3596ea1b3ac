use vstd::prelude::*;
use crate::window::ClientArea;

verus! {

/// A step of GPU setup whose status code is checked.
#[derive(Clone, Copy, Debug, PartialEq, Eq, Structural)]
pub enum SetupStep {
    CreateDevice,
    QueryDxgiDevice,
    GetAdapter,
    GetFactory,
    CreateSwapChain,
    GetBackBuffer,
    CreateRenderTargetView,
    CompileVertexShader,
    CompilePixelShader,
    CreateVertexShader,
    CreatePixelShader,
    CreateInputLayout,
    CreateVertexBuffer,
    MapVertexBuffer,
    CreateIndexBuffer,
    CreateConstantBuffer,
    MapConstantBuffer,
}

/// A failed setup step with the status code it returned.
#[derive(Clone, Copy, Debug, PartialEq, Eq, Structural)]
pub struct SetupError {
    pub step: SetupStep,
    pub code: i32,
}

/// A status code reports failure exactly when it is negative.
pub open spec fn failed(code: i32) -> bool {
    code < 0
}

/// The result of a setup step that returned status `code`.
pub fn check_step(step: SetupStep, code: i32) -> (r: Result<(), SetupError>)
    ensures
        r is Ok <==> !failed(code),
        r matches Err(e) ==> e == (SetupError { step, code }),
{
    if code < 0 {
        Err(SetupError { step, code })
    } else {
        Ok(())
    }
}

/// What to do after asking for a device.
#[derive(Clone, Copy, Debug, PartialEq, Eq, Structural)]
pub enum DeviceAttempt {
    /// The device and its immediate context exist.
    Created,
    /// The validation layer could not be had: ask again without it.
    RetryWithoutDebugLayer,
    /// No device: setup cannot go on.
    Failed(SetupError),
}

/// The decision after a device request with or without the validation
/// layer returned status `code`: the layer is optional, the device is not.
pub fn device_attempt(debug_layer: bool, code: i32) -> (r: DeviceAttempt)
    ensures
        !failed(code) ==> r == DeviceAttempt::Created,
        failed(code) && debug_layer ==> r == DeviceAttempt::RetryWithoutDebugLayer,
        failed(code) && !debug_layer ==> r == DeviceAttempt::Failed(
            SetupError { step: SetupStep::CreateDevice, code },
        ),
{
    match check_step(SetupStep::CreateDevice, code) {
        Ok(()) => DeviceAttempt::Created,
        Err(e) => if debug_layer {
            DeviceAttempt::RetryWithoutDebugLayer
        } else {
            DeviceAttempt::Failed(e)
        },
    }
}

/// Pixel layout of the swap chain's buffers.
#[derive(Clone, Copy, Debug, PartialEq, Eq, Structural)]
pub enum PixelFormat {
    /// Four 8-bit normalised channels, red first.
    Rgba8Unorm,
    /// Four 8-bit normalised channels, blue first.
    Bgra8Unorm,
}

/// How presented buffers are handed to the display.
#[derive(Clone, Copy, Debug, PartialEq, Eq, Structural)]
pub enum SwapEffect {
    /// Copy model: contents are discarded after presenting.
    Discard,
    /// Flip model: buffers rotate in order; needs two or more buffers and
    /// single sampling.
    FlipSequential,
}

/// The description from which the swap chain is created.
#[derive(Clone, Copy, Debug, PartialEq, Eq, Structural)]
pub struct SwapChainConfig {
    pub width: u32,
    pub height: u32,
    pub buffer_count: u32,
    pub format: PixelFormat,
    pub swap_effect: SwapEffect,
    pub windowed: bool,
    pub sample_count: u32,
    pub sample_quality: u32,
    /// The buffers are used as render-target output.
    pub render_target_output: bool,
}

/// A description the presentation API accepts.
pub open spec fn valid_swap_chain(c: SwapChainConfig) -> bool {
    &&& c.buffer_count >= 1
    &&& c.sample_count >= 1
    &&& c.swap_effect == SwapEffect::FlipSequential ==> c.buffer_count >= 2 && c.sample_count == 1
        && c.sample_quality == 0
}

impl SwapChainConfig {
    /// A windowed, double-buffered flip-model swap chain of 8-bit RGBA
    /// render-target buffers, single-sampled, sized to the client area.
    pub fn for_window(area: ClientArea) -> (r: SwapChainConfig)
        ensures
            r == (SwapChainConfig {
                width: area.width,
                height: area.height,
                buffer_count: 2,
                format: PixelFormat::Rgba8Unorm,
                swap_effect: SwapEffect::FlipSequential,
                windowed: true,
                sample_count: 1,
                sample_quality: 0,
                render_target_output: true,
            }),
            valid_swap_chain(r),
    {
        SwapChainConfig {
            width: area.width,
            height: area.height,
            buffer_count: 2,
            format: PixelFormat::Rgba8Unorm,
            swap_effect: SwapEffect::FlipSequential,
            windowed: true,
            sample_count: 1,
            sample_quality: 0,
            render_target_output: true,
        }
    }
}

} // verus!
