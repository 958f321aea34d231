//! Decoding image files. The formats are the `imagine` crate's business; this
//! module decides which bytes are handed to it and in which order the formats
//! are tried.

use vstd::prelude::*;
use vstd::slice::slice_subrange;
use imagine::bmp::BmpInfoHeader;
use imagine::image::Palmap;
use imagine::pixel_formats::RGBA8888;
use imagine::png::png_get_header;
use crate::color::Rgba;
use crate::image::{ImageView, PalettedImage};

verus! {

/// What the header chunk of a PNG file declares, as far as decoding depends on
/// it. `color_type` is the format's own code.
#[derive(Clone, Copy, Debug, PartialEq, Eq, Structural)]
pub struct PngHeader {
    pub width: u32,
    pub height: u32,
    pub color_type: u8,
}

/// What the info header of a bitmap file declares, as far as decoding depends
/// on it. A negative `height` stands for rows stored top to bottom;
/// `compression` is the format's own code.
#[derive(Clone, Copy, Debug, PartialEq, Eq, Structural)]
pub struct BmpHeader {
    pub width: i32,
    pub height: i32,
    pub bits_per_pixel: u16,
    pub compression: u32,
}

/// The PNG color type of images with a palette.
pub const PNG_INDEXED_COLOR: u8 = 3;

/// The length of the file header that every bitmap file starts with; the info
/// header follows it.
pub const BMP_FILE_HEADER_LEN: usize = 14;

/// The most bytes a run-length encoded bitmap may have to be decoded: the
/// greatest `len` with `255 * len + 1` within 32 bits.
pub const BMP_RLE_MAX_LEN: usize = 16_843_008;

/// The first well-formed header chunk that `imagine::png::png_get_header`
/// finds in the bytes of a PNG file.
pub uninterp spec fn png_header(bytes: Seq<u8>) -> Option<PngHeader>;

/// The image that `imagine::image::Palmap::try_from_png_bytes` makes of the
/// bytes whenever it makes one.
pub uninterp spec fn png_image(bytes: Seq<u8>) -> ImageView;

/// What `imagine::bmp::BmpInfoHeader::try_from_bytes` reads at the start of the
/// bytes.
pub uninterp spec fn bmp_info_header(bytes: Seq<u8>) -> Option<BmpHeader>;

/// The image that `imagine::image::Palmap::try_from_bmp_bytes` makes of the
/// bytes whenever it makes one.
pub uninterp spec fn bmp_image(bytes: Seq<u8>) -> ImageView;

/// Sizes are counted in 64 bits on this target. The decoders add and multiply
/// the 32-bit numbers of a file as `usize`, and it is with 64 bits that none
/// of these sums and products can pass its end.
pub open spec fn wide_target() -> bool {
    usize::BITS == 64
}

/// Tests `wide_target`.
pub fn is_wide_target() -> (out: bool)
    ensures
        out == wide_target(),
{
    usize::BITS == 64
}

/// The absolute value of a declared width or height.
pub open spec fn magnitude(v: i32) -> int {
    if v < 0 {
        -(v as int)
    } else {
        v as int
    }
}

impl BmpHeader {
    /// The pixels are stored row by row, not run-length encoded.
    pub open spec fn is_plain(self) -> bool {
        self.compression == 0 || self.compression == 3 || self.compression == 6
    }

    /// The pixels are run-length encoded.
    pub open spec fn is_run_length(self) -> bool {
        self.compression == 1 || self.compression == 2
    }

    /// A file of `len` bytes with this header is handed to the decoder: the
    /// pixel count fits in 32 bits, and either the rows are stored plainly,
    /// with a width other than zero and 1, 2, 4 or 8 bits for each pixel, or
    /// they are run-length encoded, with a height other than zero and a file
    /// short enough for the column to stay within 32 bits: the decoder keeps
    /// the column in a 32-bit number and no byte of the data moves it by
    /// more than 255.
    pub open spec fn decodable(self, len: nat) -> bool {
        &&& magnitude(self.width) * magnitude(self.height) <= u32::MAX
        &&& {
            ||| {
                &&& self.is_plain()
                &&& self.width != 0
                &&& (self.bits_per_pixel == 1 || self.bits_per_pixel == 2 || self.bits_per_pixel
                    == 4 || self.bits_per_pixel == 8)
            }
            ||| {
                &&& self.is_run_length()
                &&& self.height != 0
                &&& 255 * len + 1 <= u32::MAX
            }
        }
    }

    /// Tests `decodable`.
    pub fn is_decodable(&self, len: usize) -> (out: bool)
        ensures
            out == self.decodable(len as nat),
    {
        let w: i64 = if self.width < 0 {
            -(self.width as i64)
        } else {
            self.width as i64
        };
        let h: i64 = if self.height < 0 {
            -(self.height as i64)
        } else {
            self.height as i64
        };
        assert(w * h <= 0x8000_0000 * 0x8000_0000) by (nonlinear_arith)
            requires
                0 <= w <= 0x8000_0000,
                0 <= h <= 0x8000_0000,
        ;
        let fits = w * h <= u32::MAX as i64;
        let plain = (self.compression == 0 || self.compression == 3 || self.compression == 6)
            && self.width != 0 && (self.bits_per_pixel == 1 || self.bits_per_pixel == 2
            || self.bits_per_pixel == 4 || self.bits_per_pixel == 8);
        let run_length = (self.compression == 1 || self.compression == 2) && self.height != 0
            && len <= BMP_RLE_MAX_LEN;
        fits && (plain || run_length)
    }
}

impl PngHeader {
    /// A file with this header is handed to the decoder: the image has a
    /// palette, and its pixel count fits in 32 bits.
    pub open spec fn decodable(self) -> bool {
        &&& self.color_type == PNG_INDEXED_COLOR
        &&& self.width * self.height <= u32::MAX
    }

    /// Tests `decodable`.
    pub fn is_decodable(&self) -> (out: bool)
        ensures
            out == self.decodable(),
    {
        assert(self.width * self.height <= 0xffff_ffff * 0xffff_ffff) by (nonlinear_arith)
            requires
                0 <= self.width <= 0xffff_ffff,
                0 <= self.height <= 0xffff_ffff,
        ;
        self.color_type == PNG_INDEXED_COLOR && self.width as u64 * self.height as u64
            <= u32::MAX as u64
    }
}

/// With this outcome of the search for a header, the PNG decoder is called:
/// there is a header, and it is `decodable`.
pub open spec fn png_header_admitted(header: Option<PngHeader>) -> bool {
    &&& wide_target()
    &&& header matches Some(found)
    &&& found.decodable()
}

/// With this outcome of reading the info header of a file of `len` bytes,
/// the BMP decoder is called: there is a header, and it is `decodable`.
pub open spec fn bmp_header_admitted(header: Option<BmpHeader>, len: nat) -> bool {
    &&& wide_target()
    &&& header matches Some(found)
    &&& found.decodable(len)
}

/// The bytes behind the file header of a bitmap file, where its info header
/// starts.
pub open spec fn bmp_info_bytes(bytes: Seq<u8>) -> Seq<u8> {
    bytes.subrange(BMP_FILE_HEADER_LEN as int, bytes.len() as int)
}

/// The bytes are handed to the PNG decoder: they hold a header that is
/// `decodable`.
pub open spec fn png_admitted(bytes: Seq<u8>) -> bool {
    png_header_admitted(png_header(bytes))
}

/// The bytes are handed to the BMP decoder: after the file header comes an
/// info header that is `decodable`.
pub open spec fn bmp_admitted(bytes: Seq<u8>) -> bool {
    &&& bytes.len() >= BMP_FILE_HEADER_LEN
    &&& bmp_header_admitted(bmp_info_header(bmp_info_bytes(bytes)), bytes.len())
}

/// `image` is the image that the PNG decoder makes of `bytes`: the decoder
/// is handed these bytes, and the image has the width and height that their
/// header declares and one index for each pixel.
pub open spec fn is_png_image_of(image: ImageView, bytes: Seq<u8>) -> bool {
    &&& png_admitted(bytes)
    &&& image == png_image(bytes)
    &&& png_header(bytes) matches Some(header)
    &&& image.width == header.width
    &&& image.height == header.height
    &&& image.indexes.len() == image.width * image.height
}

/// `image` is the image that the BMP decoder makes of `bytes`: the decoder
/// is handed these bytes, and the image has the width and height that their
/// info header declares, without their signs, and one index for each pixel.
pub open spec fn is_bmp_image_of(image: ImageView, bytes: Seq<u8>) -> bool {
    &&& bmp_admitted(bytes)
    &&& image == bmp_image(bytes)
    &&& bmp_info_header(bmp_info_bytes(bytes)) matches Some(header)
    &&& image.width == magnitude(header.width)
    &&& image.height == magnitude(header.height)
    &&& image.indexes.len() == image.width * image.height
}

/// `image` is what one of the two decoders makes of `bytes`.
pub open spec fn decoded_from(bytes: Seq<u8>, image: ImageView) -> bool {
    is_png_image_of(image, bytes) || is_bmp_image_of(image, bytes)
}

/// Decides from the outcome of the search for a header whether the PNG
/// decoder is called.
pub fn is_png_header_admitted(header: Option<PngHeader>) -> (out: bool)
    ensures
        out == png_header_admitted(header),
{
    match header {
        Some(found) => is_wide_target() && found.is_decodable(),
        None => false,
    }
}

/// Decides from the outcome of reading the info header of a file of `len`
/// bytes whether the BMP decoder is called.
pub fn is_bmp_header_admitted(header: Option<BmpHeader>, len: usize) -> (out: bool)
    ensures
        out == bmp_header_admitted(header, len as nat),
{
    match header {
        Some(found) => is_wide_target() && found.is_decodable(len),
        None => false,
    }
}

/// Calls `imagine::png::png_get_header` and keeps the width, height and color
/// type of the header it returns. The contract only gives that result its
/// name.
#[verifier::external_body]
fn read_png_header(bytes: &[u8]) -> (out: Option<PngHeader>)
    ensures
        out == png_header(bytes@),
{
    let header = png_get_header(bytes)?;
    Some(
        PngHeader {
            width: header.width,
            height: header.height,
            color_type: header.color_type as u8,
        },
    )
}

/// Calls `imagine::image::Palmap::try_from_png_bytes` and moves the fields of
/// what it returns into a `PalettedImage`. The decoder multiplies the header's
/// width and height as 32-bit numbers, and counts bytes in `usize`, hence the
/// `requires`. The contract claims that an image, when one comes back, is the
/// same for the same bytes, has the width and height of the header that
/// `png_get_header` finds, and one index for each pixel; it does not claim
/// that one comes back, which also depends on the memory at hand.
#[verifier::external_body]
fn read_png(bytes: &[u8]) -> (out: Option<PalettedImage>)
    requires
        png_admitted(bytes@),
    ensures
        out matches Some(image) ==> image@ == png_image(bytes@),
        out matches Some(image) ==> png_header(bytes@) matches Some(header) && image.width
            == header.width && image.height == header.height,
        out matches Some(image) ==> image.indexes.len() == image.width * image.height,
{
    let palmap = Palmap::<u8, RGBA8888>::try_from_png_bytes(bytes)?;
    Some(
        PalettedImage {
            width: palmap.width,
            height: palmap.height,
            indexes: palmap.indexes,
            palette: palmap.palette.iter().map(|c| Rgba { r: c.r, g: c.g, b: c.b, a: c.a }).collect(),
        },
    )
}

/// Calls `imagine::bmp::BmpInfoHeader::try_from_bytes` and keeps the width,
/// height, bits per pixel and compression code of the header it returns. The
/// contract only gives that result its name.
#[verifier::external_body]
fn read_bmp_info_header(bytes: &[u8]) -> (out: Option<BmpHeader>)
    ensures
        out == bmp_info_header(bytes@),
{
    let (info, _) = BmpInfoHeader::try_from_bytes(bytes).ok()?;
    Some(
        BmpHeader {
            width: info.width(),
            height: info.height(),
            bits_per_pixel: info.bits_per_pixel(),
            compression: u32::from(info.compression()),
        },
    )
}

/// Calls `imagine::image::Palmap::try_from_bmp_bytes`, drops its error, and
/// moves the fields of what it returns into a `PalettedImage`. The decoder
/// reads the info header behind the 14 bytes of the file header; it divides
/// by the bytes of a row, subtracts one from the height of run-length encoded
/// data, counts columns and pixels in 32 bits and bytes in `usize`, hence the
/// `requires`. The contract claims that an image, when one comes back, is the
/// same for the same bytes, has the width and height of that info header
/// without their signs, and one index for each pixel; it does not claim that
/// one comes back, which also depends on the memory at hand.
#[verifier::external_body]
fn read_bmp(bytes: &[u8]) -> (out: Option<PalettedImage>)
    requires
        bmp_admitted(bytes@),
    ensures
        out matches Some(image) ==> image@ == bmp_image(bytes@),
        out matches Some(image) ==> bmp_info_header(bmp_info_bytes(bytes@)) matches Some(header)
            && image.width == magnitude(header.width) && image.height == magnitude(
            header.height,
        ),
        out matches Some(image) ==> image.indexes.len() == image.width * image.height,
{
    let palmap = Palmap::<u8, RGBA8888>::try_from_bmp_bytes(bytes).ok()?;
    Some(
        PalettedImage {
            width: palmap.width,
            height: palmap.height,
            indexes: palmap.indexes,
            palette: palmap.palette.iter().map(|c| Rgba { r: c.r, g: c.g, b: c.b, a: c.a }).collect(),
        },
    )
}

/// Decodes a paletted PNG file. Bytes that are not `png_admitted` give
/// `None` without being decoded. For the others the decoder decides; an image
/// that comes back is the decoder's image of these bytes, with the width and
/// height of their header and one index for each pixel.
pub fn decode_png(bytes: &[u8]) -> (out: Option<PalettedImage>)
    ensures
        !png_admitted(bytes@) ==> out is None,
        out matches Some(image) ==> is_png_image_of(image@, bytes@),
{
    if is_png_header_admitted(read_png_header(bytes)) {
        read_png(bytes)
    } else {
        None
    }
}

/// Decodes a paletted BMP file. Bytes that are not `bmp_admitted` give
/// `None` without being decoded. For the others the decoder decides; an image
/// that comes back is the decoder's image of these bytes, with the width and
/// height of their info header and one index for each pixel.
pub fn decode_bmp(bytes: &[u8]) -> (out: Option<PalettedImage>)
    ensures
        !bmp_admitted(bytes@) ==> out is None,
        out matches Some(image) ==> is_bmp_image_of(image@, bytes@),
{
    if bytes.len() < BMP_FILE_HEADER_LEN {
        return None;
    }
    let info_bytes = slice_subrange(bytes, BMP_FILE_HEADER_LEN, bytes.len());
    if is_bmp_header_admitted(read_bmp_info_header(info_bytes), bytes.len()) {
        read_bmp(bytes)
    } else {
        None
    }
}

/// Goes on from what PNG decoding gave: an image is kept as it is, and the
/// bytes are not looked at again; without one the bytes are decoded as a BMP.
pub fn fall_back_to_bmp(
    from_png: Option<PalettedImage>,
    bytes: &[u8],
) -> (out: Option<PalettedImage>)
    ensures
        from_png is Some ==> out == from_png,
        from_png is None && !bmp_admitted(bytes@) ==> out is None,
        from_png is None ==> (out matches Some(image) ==> is_bmp_image_of(image@, bytes@)),
{
    match from_png {
        Some(image) => Some(image),
        None => decode_bmp(bytes),
    }
}

/// Decodes an image file: as a PNG first, and as a BMP if that gives nothing.
/// Bytes that neither decoder is handed give `None`. For the others the
/// decoders decide; an image that comes back is what one of them makes of
/// these bytes, with the width and height that the file declares and one
/// index for each pixel.
pub fn decode(bytes: &[u8]) -> (out: Option<PalettedImage>)
    ensures
        out matches Some(image) ==> decoded_from(bytes@, image@),
        out matches Some(image) ==> image.indexes.len() == image.width * image.height,
        !png_admitted(bytes@) && !bmp_admitted(bytes@) ==> out is None,
{
    fall_back_to_bmp(decode_png(bytes), bytes)
}

} // verus!
