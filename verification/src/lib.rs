//! Glyph encodings, the fourteen built-in fonts, text widths, and the
//! font object records that reference such a font from a document.

pub mod encoding;
pub mod fontsource;
pub mod metrics;

pub use encoding::Encoding;
pub use fontsource::BuiltinFont;
pub use metrics::FontMetrics;
