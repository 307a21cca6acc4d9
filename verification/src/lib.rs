//! The bridge between a scripting host and a shader rendering engine: typed
//! inputs and their snapshots, the cache of render surfaces, and the rules for
//! swapping the engine when the shader source changes.

pub mod bridge;
pub mod external;
pub mod input_type;
pub mod payload;
pub mod registry;
pub mod surface;
pub mod util;

pub use bridge::{RenderError, TweakShader};
pub use external::JsInputValue;
