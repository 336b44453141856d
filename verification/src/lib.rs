//! Conversion of the colour table of an indexed PNG image into a JASC-PAL
//! palette document.

pub mod convert;
pub mod decode;
pub mod error;
pub mod image;
pub mod jasc;
pub mod output;
pub mod state;
