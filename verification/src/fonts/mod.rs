//! The fonts that ship with the application and the font collections that
//! can be downloaded.

pub mod embedded_fonts;
pub mod downloadable_fonts;
