//! Matrix digital rain screensaver: the verified core of its
//! configuration presets, font metadata, asset decoding, mesh layout and
//! per-frame decisions.

pub mod config;
pub mod fonts;
pub mod geometry;
pub mod gl_util;
pub mod passes;
pub mod png;
pub mod textures;

pub use config::{MatrixConfig, Preset, RippleType};
pub use fonts::{FontAtlas, FontId};
pub use gl_util::{TargetFilter, TargetFormat};
pub use textures::DecorativeTexture;
