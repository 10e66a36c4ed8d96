//! Configuration for a GPU-accelerated renderer.
//!
//! The crate offers a single aggregate, [`Settings`], holding the choices an
//! embedding application makes before a renderer is constructed: the output
//! pixel format, the default font bytes, the default text size, the
//! antialiasing strategy, and optionally pre-existing GPU resource handles
//! that the renderer should adopt instead of creating its own.
//!
//! Equality of two configurations compares the value fields by value and the
//! resource handles by identity of the underlying resource.

pub mod antialiasing;
pub mod format;
pub mod resource;
pub mod settings;

pub use antialiasing::Antialiasing;
pub use format::TextureFormat;
pub use resource::Device;
pub use resource::Instance;
pub use resource::Queue;
pub use settings::Settings;
