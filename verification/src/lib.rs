//! Safe core of a 2D-canvas windowing toolkit wrapper.
//!
//! The library models the observable state of the native windowing layer as
//! plain data, so that the genuinely subtle part of the wrapper — the
//! event/callback vtable bridge that maps per-kind native callback
//! registrations onto per-window tables of polymorphic handlers — is fully
//! specified and verified. The native layer itself (initialization, window
//! creation, rendering) is represented by an explicit, fault-injectable
//! native-host value that the host application supplies.

pub mod bridge;
pub mod config;
pub mod cstr;
pub mod engine;
pub mod events;
pub mod window;

pub use bridge::DispatchOutcome;
pub use bridge::EventHandler;
pub use bridge::EventKind;
pub use bridge::InputHandler;
pub use bridge::InputKind;
pub use config::ColorFormat;
pub use config::DepthBits;
pub use config::GlConfig;
pub use config::GlOptions;
pub use config::MultisampleBits;
pub use config::StencilBits;
pub use engine::Engine;
pub use window::Context;
pub use window::InitError;
pub use window::NativeHost;
pub use window::Window;
pub use window::WindowBuilder;
pub use window::init;
