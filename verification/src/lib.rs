//! A verified model of an image-based replacement for the operating-system
//! mouse cursor.
//!
//! The library keeps an on-screen image element aligned with the pointer
//! inside the window of a uniquely tagged camera. Its two routines are a
//! one-time setup, which hides the native cursor and creates the tracked
//! element, and a per-frame update, which re-resolves the camera's window
//! and moves the element to the pointer (or hides it off-screen when the
//! pointer is outside the window). Both routines are specified and proved
//! over a plain scene model; a host shell feeds that model from the engine
//! and writes the results back.

pub mod plugin;
pub mod scene;
pub mod settings;
pub mod ui;

pub use plugin::FancyCursor;
pub use scene::{CameraInfo, CursorError, RenderTarget, Scene, TrackedElement, WindowState};
pub use settings::{CursorSettings, UserCamera, UserCursor};
pub use ui::{Size, Val, Vec2, Visibility, ZIndex};
