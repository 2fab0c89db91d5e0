//! A verified core for a small 2D sprite renderer.
//!
//! The library holds the logic of the demo: fixed-point scalars and the
//! per-draw model transform, the GL command stream and a model of the
//! binding state it drives, the shader build pipeline's decisions, the
//! texture dimension policy, and the spinner's input and rotation rules.
//! The unverified shell around it performs the actual GL, window and file
//! work and feeds the results back in as plain values.

pub mod fx;
pub mod gl_state;
pub mod shader;
pub mod spinner;
pub mod sprite_renderer;
pub mod text;
pub mod texture;
