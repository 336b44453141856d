//! Reading a PNG stream held in memory: its header, then one frame.

use vstd::prelude::*;
use crate::error::ConvertError;
use crate::image::{ColorMode, ImageInfo};

verus! {

/// The error type of the `png` crate's decoder. Nothing is known of a value
/// of it.
#[verifier::external_type_specification]
#[verifier::external_body]
pub struct ExDecodingError(png::DecodingError);

/// The `png` crate's reader over a cursor on the bytes of a stream. Its type
/// is bound by traits of std's I/O, so it is held here as a whole, and nothing
/// is known of a value of it.
#[verifier::external_body]
struct PngReader<'a> {
    inner: png::Reader<std::io::Cursor<&'a [u8]>>,
}

/// A PNG stream in memory whose header has been read and whose frame has
/// not: the reader, and the bytes that it was made from.
struct PngStream<'a> {
    reader: PngReader<'a>,
    source: Ghost<Seq<u8>>,
}

impl View for PngStream<'_> {
    type V = Seq<u8>;

    /// The bytes of the stream.
    closed spec fn view(&self) -> Seq<u8> {
        self.source@
    }
}

/// Whether `png::Decoder::read_info`, with the decoder's default limits,
/// accepts the stream `data` up to its image data.
pub uninterp spec fn png_read_info(data: Seq<u8>) -> bool;

/// What `png::Reader::info` holds once the header of `data` has been read:
/// width, height, colour mode and palette table.
pub uninterp spec fn png_info(data: Seq<u8>) -> (u32, u32, ColorMode, Option<Seq<u8>>);

/// What `png::Reader::output_buffer_size` answers once the header of `data`
/// has been read, on the machine that the library is built for.
pub uninterp spec fn png_frame_size(data: Seq<u8>) -> Option<usize>;

/// What `png::Reader::next_frame` leaves in a buffer that held `buf` when
/// it decodes the first frame of `data`, where it succeeds.
pub uninterp spec fn png_frame(data: Seq<u8>, buf: Seq<u8>) -> Option<Seq<u8>>;

/// `png::Decoder::new` on a cursor over `data`, then `Decoder::read_info`,
/// which reads the stream up to the image data. The call succeeds where the
/// decoder accepts the stream, and the reader it gives is one over `data`.
#[verifier::external_body]
fn read_info<'a>(data: &'a [u8]) -> (r: Result<PngStream<'a>, png::DecodingError>)
    ensures
        r is Ok <==> png_read_info(data@),
        r is Ok ==> r->Ok_0@ == data@,
{
    match png::Decoder::new(std::io::Cursor::new(data)).read_info() {
        Ok(inner) => Ok(PngStream { reader: PngReader { inner }, source: Ghost(data@) }),
        Err(e) => Err(e),
    }
}

/// `png::Reader::info`, of which the size, the colour type and the palette
/// are copied out: they are what the decoder found in the stream's header.
#[verifier::external_body]
fn header_info<'a>(stream: &PngStream<'a>) -> (info: ImageInfo)
    ensures
        info.summary() == png_info(stream@),
{
    let info = stream.reader.inner.info();
    let color_mode = match info.color_type {
        png::ColorType::Grayscale => ColorMode::Grayscale,
        png::ColorType::Rgb => ColorMode::Rgb,
        png::ColorType::Indexed => ColorMode::Indexed,
        png::ColorType::GrayscaleAlpha => ColorMode::GrayscaleAlpha,
        png::ColorType::Rgba => ColorMode::Rgba,
    };
    let palette = info.palette.as_ref().map(|table| table.to_vec());
    ImageInfo { width: info.width, height: info.height, color_mode, palette }
}

/// `png::Reader::output_buffer_size`: the number of bytes that one decoded
/// frame takes, or nothing where that number does not fit the machine's
/// address space.
#[verifier::external_body]
fn output_buffer_size<'a>(stream: &PngStream<'a>) -> (size: Option<usize>)
    ensures
        size == png_frame_size(stream@),
{
    stream.reader.inner.output_buffer_size()
}

/// `png::Reader::next_frame`, which decodes the first frame into the bytes
/// of `buf` and leaves the buffer's length as it was; a buffer that is too
/// short is answered with an error. The stream is used up, so each is asked
/// for its first frame only.
#[verifier::external_body]
fn next_frame<'a>(stream: PngStream<'a>, buf: &mut Vec<u8>) -> (r: Result<(), png::DecodingError>)
    ensures
        final(buf)@.len() == old(buf)@.len(),
        match png_frame(stream@, old(buf)@) {
            Some(pixels) => r is Ok && final(buf)@ == pixels,
            None => r is Err,
        },
{
    let mut stream = stream;
    match stream.reader.inner.next_frame(buf.as_mut_slice()) {
        Ok(_) => Ok(()),
        Err(e) => Err(e),
    }
}

/// A buffer of `n` zero bytes.
pub open spec fn blank_frame(n: nat) -> Seq<u8> {
    Seq::new(n, |i: int| 0u8)
}

/// What decoding the stream `data` gives: the header's metadata and the
/// pixels of the first frame, decoded into a blank buffer of the size that
/// the decoder asks for. A stream that the decoder does not accept, or whose
/// frame it cannot decode, is the error `Decode`; one whose frame it cannot
/// size is the error `SizeUnknown`.
pub open spec fn loaded(data: Seq<u8>) -> Result<
    ((u32, u32, ColorMode, Option<Seq<u8>>), Seq<u8>),
    ConvertError,
> {
    if !png_read_info(data) {
        Err(ConvertError::Decode)
    } else {
        match png_frame_size(data) {
            None => Err(ConvertError::SizeUnknown),
            Some(n) => match png_frame(data, blank_frame(n as nat)) {
                None => Err(ConvertError::Decode),
                Some(pixels) => Ok((png_info(data), pixels)),
            },
        }
    }
}

/// Decodes a PNG stream: the header's metadata and the pixels of one frame,
/// as `loaded` says.
pub fn load_png(data: &[u8]) -> (r: Result<(ImageInfo, Vec<u8>), ConvertError>)
    ensures
        match loaded(data@) {
            Ok(found) => r is Ok && r->Ok_0.0.summary() == found.0 && r->Ok_0.1@ == found.1,
            Err(e) => r == Err::<(ImageInfo, Vec<u8>), ConvertError>(e),
        },
{
    let stream = match decoded(read_info(data)) {
        Ok(stream) => stream,
        Err(e) => return Err(e),
    };
    let info = header_info(&stream);
    let mut buf = match frame_buffer(output_buffer_size(&stream)) {
        Ok(buf) => buf,
        Err(e) => return Err(e),
    };
    match decoded(next_frame(stream, &mut buf)) {
        Ok(()) => Ok((info, buf)),
        Err(e) => Err(e),
    }
}

/// What this library makes of an answer of the decoder: a value passes
/// through, and whatever the decoder gives as its error becomes `Decode`.
pub fn decoded<T>(answer: Result<T, png::DecodingError>) -> (r: Result<T, ConvertError>)
    ensures
        match answer {
            Ok(value) => r == Ok::<T, ConvertError>(value),
            Err(_) => r == Err::<T, ConvertError>(ConvertError::Decode),
        },
{
    match answer {
        Ok(value) => Ok(value),
        Err(_) => Err(ConvertError::Decode),
    }
}

/// The buffer to decode one frame into: as many zero bytes as the decoder
/// asked for. Where the decoder gave no size, the error is `SizeUnknown`.
pub fn frame_buffer(size: Option<usize>) -> (r: Result<Vec<u8>, ConvertError>)
    ensures
        match size {
            Some(n) => r is Ok && r->Ok_0@ == blank_frame(n as nat),
            None => r == Err::<Vec<u8>, ConvertError>(ConvertError::SizeUnknown),
        },
{
    match size {
        Some(n) => {
            let buf: Vec<u8> = vec![0u8; n];
            assert(buf@ =~= blank_frame(n as nat));
            Ok(buf)
        },
        None => Err(ConvertError::SizeUnknown),
    }
}

} // verus!
