//! Image metadata, the colour-mode check and the extraction of the palette.

use vstd::prelude::*;
use crate::error::ConvertError;

verus! {

/// The colour mode that a PNG header declares.
#[derive(Clone, Copy, Debug, PartialEq, Eq, Structural)]
pub enum ColorMode {
    Grayscale,
    Rgb,
    Indexed,
    GrayscaleAlpha,
    Rgba,
}

/// What the conversion reads of a decoded PNG header.
#[derive(Clone, Debug)]
pub struct ImageInfo {
    pub width: u32,
    pub height: u32,
    pub color_mode: ColorMode,
    /// The palette table as it stands in the file: red, green and blue of
    /// entry 0, then of entry 1, and so on.
    pub palette: Option<Vec<u8>>,
}

/// One palette entry: red, green, blue.
pub type Rgb = (u8, u8, u8);

/// The entries of a flat table of colour bytes, in the table's order. Bytes
/// after the last full group of three belong to no entry.
pub open spec fn triples(table: Seq<u8>) -> Seq<Rgb> {
    Seq::new(
        (table.len() / 3) as nat,
        |i: int| (table[3 * i], table[3 * i + 1], table[3 * i + 2]),
    )
}

/// The outcome of the colour-mode check.
pub open spec fn indexed_check(mode: ColorMode) -> Result<(), ConvertError> {
    if mode == ColorMode::Indexed {
        Ok(())
    } else {
        Err(ConvertError::NotIndexed)
    }
}

/// The outcome of extracting the palette from an optional table of bytes.
pub open spec fn palette_of(table: Option<Seq<u8>>) -> Result<Seq<Rgb>, ConvertError> {
    match table {
        None => Err(ConvertError::NoPalette),
        Some(t) => if t.len() % 3 != 0 {
            Err(ConvertError::InvalidPaletteLength)
        } else {
            Ok(triples(t))
        },
    }
}

impl ImageInfo {
    /// The metadata as plain values: width, height, colour mode and palette
    /// table.
    pub open spec fn summary(&self) -> (u32, u32, ColorMode, Option<Seq<u8>>) {
        (self.width, self.height, self.color_mode, self.table())
    }

    /// The palette table as a sequence of bytes, where there is one.
    pub open spec fn table(&self) -> Option<Seq<u8>> {
        match self.palette {
            Some(t) => Some(t@),
            None => None,
        }
    }
}

/// Accepts an image in the palette colour mode and no other, whatever else
/// the metadata holds.
pub fn ensure_indexed(info: &ImageInfo) -> (r: Result<(), ConvertError>)
    ensures
        r == indexed_check(info.color_mode),
        r is Ok <==> info.color_mode == ColorMode::Indexed,
        r is Err ==> r == Err::<(), ConvertError>(ConvertError::NotIndexed),
{
    if info.color_mode != ColorMode::Indexed {
        return Err(ConvertError::NotIndexed);
    }
    Ok(())
}

/// Splits the palette table into its entries, in order.
pub fn extract_palette(info: &ImageInfo) -> (r: Result<Vec<Rgb>, ConvertError>)
    ensures
        match r {
            Ok(p) => palette_of(info.table()) == Ok::<Seq<Rgb>, ConvertError>(p@),
            Err(e) => palette_of(info.table()) == Err::<Seq<Rgb>, ConvertError>(e),
        },
        r is Ok <==> info.palette is Some && info.palette->0@.len() % 3 == 0,
        r is Ok ==> r->Ok_0@.len() == info.palette->0@.len() / 3,
        r is Ok ==> forall|k: int|
            0 <= k < r->Ok_0@.len() ==> #[trigger] r->Ok_0@[k] == (
                info.palette->0@[3 * k],
                info.palette->0@[3 * k + 1],
                info.palette->0@[3 * k + 2],
            ),
{
    let table = match &info.palette {
        Some(t) => t,
        None => return Err(ConvertError::NoPalette),
    };
    if table.len() % 3 != 0 {
        return Err(ConvertError::InvalidPaletteLength);
    }
    let count: usize = table.len() / 3;
    assert(table@.len() == 3 * count);
    let mut out: Vec<Rgb> = Vec::new();
    let mut i: usize = 0;
    while i < count
        invariant
            table@.len() == 3 * count,
            table@.len() <= usize::MAX,
            i <= count,
            out@.len() == i,
            forall|k: int| 0 <= k < i ==> out@[k] == triples(table@)[k],
        decreases count - i,
    {
        out.push((table[3 * i], table[3 * i + 1], table[3 * i + 2]));
        i += 1;
    }
    proof {
        assert(out@ =~= triples(table@));
    }
    Ok(out)
}

} // verus!
