//! From the bytes of an image file and an output mode to the text that is
//! written out.

use vstd::prelude::*;
use crate::decode::{bmp_admitted, bmp_image, decode, png_admitted, png_image};
use crate::emit::{mode3_output, mode4_output, palmap_output_mode3, palmap_output_mode4, text_of};
use crate::error::ConvertError;
use crate::image::{ImageView, PalettedImage};

verus! {

/// The extension of the file that the text for an image file is written to:
/// it takes the place of the image file's own extension.
pub const OUTPUT_EXTENSION: &'static str = "rs";

/// The two kinds of output, named after the video mode that displays them.
#[derive(Clone, Copy, Debug, PartialEq, Eq, Structural)]
pub enum OutputMode {
    /// Direct color: one color word for each pixel.
    Mode3,
    /// Indexed color: one palette index for each pixel, and the palette.
    Mode4,
}

/// The output mode that a mode number selects, if it selects one.
pub open spec fn mode_of(number: u8) -> Option<OutputMode> {
    if number == 3 {
        Some(OutputMode::Mode3)
    } else if number == 4 {
        Some(OutputMode::Mode4)
    } else {
        None
    }
}

/// What an image gives in an output mode.
pub open spec fn rendering(image: ImageView, mode: OutputMode) -> Result<Seq<char>, ConvertError> {
    match mode {
        OutputMode::Mode3 => mode3_output(image),
        OutputMode::Mode4 => mode4_output(image),
    }
}

/// Only the numbers 3 and 4 select a mode; 3 selects the direct-color
/// emitter and 4 the indexed-color emitter, for every image.
pub proof fn lemma_mode_dispatch(number: u8, image: ImageView)
    ensures
        mode_of(number) is Some <==> number == 3 || number == 4,
        number == 3 ==> mode_of(number) == Some(OutputMode::Mode3),
        number == 4 ==> mode_of(number) == Some(OutputMode::Mode4),
        rendering(image, OutputMode::Mode3) == mode3_output(image),
        rendering(image, OutputMode::Mode4) == mode4_output(image),
{
}

/// Reads a mode number: 3 and 4 select a mode, every other number is an
/// error.
pub fn parse_mode(number: u8) -> (out: Result<OutputMode, ConvertError>)
    ensures
        out == match mode_of(number) {
            Some(mode) => Ok::<OutputMode, ConvertError>(mode),
            None => Err(ConvertError::UnsupportedMode { mode: number }),
        },
{
    match number {
        3 => Ok(OutputMode::Mode3),
        4 => Ok(OutputMode::Mode4),
        _ => Err(ConvertError::UnsupportedMode { mode: number }),
    }
}

/// Emits an image in the given mode: mode 3 gives the `PIXELS` declaration
/// and nothing else, mode 4 the `INDEXES` declaration, an empty line and the
/// `PALETTE` declaration.
pub fn render(image: &PalettedImage, mode: OutputMode) -> (out: Result<String, ConvertError>)
    ensures
        text_of(out) == rendering(image@, mode),
{
    match mode {
        OutputMode::Mode3 => palmap_output_mode3(image),
        OutputMode::Mode4 => palmap_output_mode4(image),
    }
}

/// Emits what decoding gave, in the given mode: without an image there is
/// nothing to emit, and the bytes were unparseable.
pub fn emit_decoded(
    decoded: Option<PalettedImage>,
    mode: OutputMode,
) -> (out: Result<String, ConvertError>)
    ensures
        text_of(out) == match decoded {
            Some(image) => rendering(image@, mode),
            None => Err(ConvertError::UnparseableImage),
        },
{
    match decoded {
        Some(image) => render(&image, mode),
        None => Err(ConvertError::UnparseableImage),
    }
}

/// Converts the bytes of one image file. A mode number other than 3 and 4 is
/// refused whatever the bytes are, before anything is decoded. Otherwise the
/// bytes are decoded, as a PNG or else as a BMP, and the image is emitted in
/// the mode; bytes that neither decoder makes an image of are unparseable.
pub fn convert(bytes: &[u8], mode: u8) -> (out: Result<String, ConvertError>)
    ensures
        mode_of(mode) is None ==> text_of(out) == Err::<Seq<char>, ConvertError>(
            ConvertError::UnsupportedMode { mode },
        ),
        mode_of(mode) matches Some(selected) ==> {
            ||| text_of(out) == Err::<Seq<char>, ConvertError>(ConvertError::UnparseableImage)
            ||| png_admitted(bytes@) && text_of(out) == rendering(png_image(bytes@), selected)
            ||| bmp_admitted(bytes@) && text_of(out) == rendering(bmp_image(bytes@), selected)
        },
        mode_of(mode) is Some && !png_admitted(bytes@) && !bmp_admitted(bytes@) ==> text_of(out)
            == Err::<Seq<char>, ConvertError>(ConvertError::UnparseableImage),
{
    let selected = match parse_mode(mode) {
        Ok(selected) => selected,
        Err(e) => {
            return Err(e);
        },
    };
    emit_decoded(decode(bytes), selected)
}

} // verus!
