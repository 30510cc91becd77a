//! Ownership and marshaling rules for a font atlas that lives in native memory.
//!
//! The native rasteriser is driven from outside this crate. What is decided
//! here is everything around its calls: which bytes a character is sent as,
//! which glyphs are requested when a font is created, in which order native
//! objects are created and destroyed, and what a snapshot of native state must
//! satisfy before it is handed to a caller.
pub mod atlas;
pub mod encoding;
pub mod font;
pub mod loader;
pub mod native;
pub mod render_mode;

pub use atlas::TextureAtlas;
pub use font::{Teardown, TextureFont, TextureGlyph};
pub use loader::{FontLoader, LoadStage};
pub use native::NativeCall;
pub use render_mode::RenderMode;
