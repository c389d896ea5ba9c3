//! A bridging layer between a legacy VR rendering API, in which the
//! application hands over a finished color texture per eye and frame, and a
//! newer XR runtime that owns a pool of swapchain images the application must
//! render into.
//!
//! The heart of the crate is the [`graphics_backends::GraphicsBackend`]
//! contract: one implementation per native graphics technology, each
//! responsible for format negotiation, for tracking the runtime's swapchain
//! image set, and for moving every submitted texture into the right
//! swapchain image. The headless implementation,
//! [`graphics_backends::headless::HeadlessData`], does all of that inertly
//! and makes the exact shape of the contract visible.

pub mod types;

pub mod graphics_backends;
