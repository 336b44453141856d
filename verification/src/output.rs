//! The palette file that a conversion produces: where it goes and what it
//! holds.

use vstd::prelude::*;
use crate::image::Rgb;
use crate::jasc::{document, render_pal};

verus! {

/// A file to be written: its path and its contents.
#[derive(Debug)]
pub struct PalFile {
    pub path: String,
    /// The number of colours in the document.
    pub colors: usize,
    pub contents: Vec<u8>,
}

impl PalFile {
    /// Whether this is the palette file of the image at `original_path`
    /// whose palette is `palette`.
    pub open spec fn holds(&self, original_path: Seq<char>, palette: Seq<Rgb>) -> bool {
        &&& self.path@ == with_pal_extension(original_path)
        &&& self.colors == palette.len()
        &&& self.contents@ == document(palette)
    }
}

/// The path `path` with its extension replaced by `extension`, as
/// `std::path::Path::with_extension` computes it on the platform that the
/// library is built for.
pub uninterp spec fn with_extension(path: Seq<char>, extension: Seq<char>) -> Seq<char>;

/// Whether a character separates the parts of a path on some platform.
pub open spec fn is_separator(c: char) -> bool {
    c == '/' || c == '\\'
}

/// The path of the palette file that belongs to the image at `path`: the
/// same path with the extension `pal`.
pub open spec fn with_pal_extension(path: Seq<char>) -> Seq<char> {
    with_extension(path, "pal"@)
}

/// `std::path::Path::with_extension`: the result is the path that std
/// derives from `path` and `extension`, as text. std panics on an extension
/// that holds a path separator, so none may be in it.
#[verifier::external_body]
fn replace_extension(path: &str, extension: &str) -> (out: String)
    requires
        forall|i: int| 0 <= i < extension@.len() ==> !is_separator(#[trigger] extension@[i]),
    ensures
        out@ == with_extension(path@, extension@),
{
    std::path::Path::new(path).with_extension(extension).to_string_lossy().into_owned()
}

/// The path of the palette file that belongs to the image at `path`.
pub fn pal_path(path: &str) -> (out: String)
    ensures
        out@ == with_pal_extension(path@),
{
    proof {
        reveal_strlit("pal");
    }
    replace_extension(path, "pal")
}

/// The palette file for the image at `original_path`: beside the image,
/// under the same base name, holding the palette as a JASC-PAL document.
pub fn save_pal(original_path: &str, palette: &[Rgb]) -> (file: PalFile)
    ensures
        file.holds(original_path@, palette@),
{
    PalFile {
        path: pal_path(original_path),
        colors: palette.len(),
        contents: render_pal(palette),
    }
}

} // verus!
