//! Palette model for a syntax-highlighting theme.
//!
//! Lightness and chroma are exact fixed-point integers: the tuning knobs of a
//! [`palette::Palette`] are in ten-thousandths, scale positions in hundredths,
//! and every [`color::Color`] it hands out is in millionths, so that linear
//! interpolation along the background/foreground scale loses nothing.

pub mod color;
pub mod palette;
