//! Decision and data logic of a small Direct3D 11 demo that renders a
//! rotating two-colour quad: the frame clock, window sizing and message
//! outcomes, the swap-chain, pipeline and buffer descriptions, and the
//! per-frame command sequence. The program around it performs the actual
//! OS and GPU calls and hands plain values to these functions.

pub mod buffers;
pub mod device;
pub mod frame;
pub mod geometry;
pub mod pipeline;
pub mod time;
pub mod wide;
pub mod window;

pub use buffers::{
    constant_buffer_spec, index_buffer_spec, vertex_buffer_spec, BufferBinding, BufferSpec,
    BufferUsage,
};
pub use device::{
    check_step, device_attempt, DeviceAttempt, PixelFormat, SetupError, SetupStep, SwapChainConfig,
    SwapEffect,
};
pub use frame::{frame_step, FrameCommand, LoopState};
pub use geometry::{
    quad_indices, quad_vertices, twice_signed_area, Corner, QuadVertex, Tint,
    CONSTANT_BUFFER_BYTES, INDEX_BYTES, MATRIX_BYTES, VERTEX_STRIDE,
};
pub use pipeline::{
    input_layout, shader_source, ElementFormat, InputElement, Semantic, ShaderSource, ShaderStage,
};
pub use time::Time;
pub use wide::win32_string;
pub use window::{handle_message, window_proc, ClientArea, PollOutcome, ProcAction, WindowEvent};
