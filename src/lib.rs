//! Lucide icons for the Floem GUI toolkit.
//!
//! Each icon of the bundled set is an `Icon` whose SVG text `Icon::get_svg`
//! gives. A view of an icon keeps its state in a `Lucide`: on each style pass
//! it rewrites the icon's `stroke-width` attribute to the stroke width that
//! the style resolved, and it gives layout a square box where a size is set.

pub mod adapter;
pub mod icons;
pub mod stroke;

pub use adapter::{lucide, Lucide, LucideProps, StyleAction, DEFAULT_STROKE_WIDTH};
pub use icons::Icon;
pub use stroke::{format_width, stroke_attribute, substitute_stroke_width};
