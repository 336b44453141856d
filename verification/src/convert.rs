//! The conversion as a whole: from an image to its palette file.

use vstd::prelude::*;
use crate::decode::{load_png, loaded};
use crate::error::ConvertError;
use crate::image::{ensure_indexed, extract_palette, indexed_check, palette_of, ColorMode, ImageInfo, Rgb};
use crate::output::{save_pal, PalFile};

verus! {

/// The palette that the conversion takes from decoded metadata, or the first
/// error on the way: the colour mode is checked before the palette table.
pub open spec fn converted_palette(mode: ColorMode, table: Option<Seq<u8>>) -> Result<
    Seq<Rgb>,
    ConvertError,
> {
    match indexed_check(mode) {
        Err(e) => Err(e),
        Ok(_) => palette_of(table),
    }
}

/// Converts the metadata of a decoded image: checks the colour mode,
/// extracts the palette and builds the palette file.
pub fn convert_info(path: &str, info: &ImageInfo) -> (r: Result<PalFile, ConvertError>)
    ensures
        match r {
            Ok(file) => {
                &&& converted_palette(info.color_mode, info.table()) is Ok
                &&& file.holds(path@, converted_palette(info.color_mode, info.table())->Ok_0)
            },
            Err(e) => converted_palette(info.color_mode, info.table()) == Err::<
                Seq<Rgb>,
                ConvertError,
            >(e),
        },
{
    match ensure_indexed(info) {
        Ok(()) => {},
        Err(e) => return Err(e),
    }
    let palette = match extract_palette(info) {
        Ok(palette) => palette,
        Err(e) => return Err(e),
    };
    Ok(save_pal(path, palette.as_slice()))
}

/// Converts the PNG stream `data`, read from the file at `path`, into the
/// palette file to write: the stream is decoded as `loaded` says, and the
/// metadata that the decoder found is converted as `convert_info` does it.
pub fn convert_png_to_pal(path: &str, data: &[u8]) -> (r: Result<PalFile, ConvertError>)
    ensures
        match loaded(data@) {
            Err(e) => r == Err::<PalFile, ConvertError>(e),
            Ok(found) => match r {
                Ok(file) => {
                    &&& converted_palette(found.0.2, found.0.3) is Ok
                    &&& file.holds(path@, converted_palette(found.0.2, found.0.3)->Ok_0)
                },
                Err(e) => converted_palette(found.0.2, found.0.3) == Err::<
                    Seq<Rgb>,
                    ConvertError,
                >(e),
            },
        },
{
    let (info, _) = match load_png(data) {
        Ok(found) => found,
        Err(e) => return Err(e),
    };
    convert_info(path, &info)
}

} // verus!
