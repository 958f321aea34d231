//! The two emitters: direct color for video mode 3, indexed color for video
//! mode 4.

use vstd::prelude::*;
use crate::color::{quantized, GbaColor};
use crate::error::ConvertError;
use crate::image::{
    lemma_first_out_of_range_unique, lemma_out_of_range_exists, ImageView, PalettedImage,
};
use crate::text::{
    array_literal, color_items, decimal, declaration, hex_word, index_items, lacks,
    lemma_color_array_layout, lemma_hex_word_chars, lemma_joined_lacks, lemma_lacking_text_has_no_word,
    lemma_lacks_concat, joined, occurs_in, push_color_array, push_index_array,
};

verus! {

/// The text for video mode 3: one declaration, `PIXELS`, with the color word
/// of every pixel.
pub open spec fn mode3_text(image: ImageView) -> Seq<char> {
    declaration("PIXELS"@, "u16"@, color_items(image.direct_colors()))
}

/// The text for video mode 4: the declaration `INDEXES` with the index of
/// every pixel, an empty line, and the declaration `PALETTE` with the color
/// word of every palette entry.
pub open spec fn mode4_text(image: ImageView) -> Seq<char> {
    declaration("INDEXES"@, "u8"@, index_items(image.indexes)) + "\n"@ + declaration(
        "PALETTE"@,
        "u16"@,
        color_items(image.quantized_palette()),
    )
}

/// The error for an image in which some pixel's index is outside the
/// palette: it reports the first such pixel.
pub open spec fn index_error(image: ImageView) -> ConvertError {
    let position = image.first_out_of_range();
    ConvertError::IndexOutOfRange {
        position: position as usize,
        index: image.indexes[position],
        palette_len: image.palette.len() as usize,
    }
}

/// What the mode 3 emitter gives for an image.
pub open spec fn mode3_output(image: ImageView) -> Result<Seq<char>, ConvertError> {
    if image.indexes_in_range() {
        Ok(mode3_text(image))
    } else {
        Err(index_error(image))
    }
}

/// What the mode 4 emitter gives for an image.
pub open spec fn mode4_output(image: ImageView) -> Result<Seq<char>, ConvertError> {
    if image.indexes_in_range() {
        Ok(mode4_text(image))
    } else {
        Err(index_error(image))
    }
}

/// An emitter's result with the text as a sequence of characters.
pub open spec fn text_of(out: Result<String, ConvertError>) -> Result<Seq<char>, ConvertError> {
    match out {
        Ok(text) => Ok(text@),
        Err(e) => Err(e),
    }
}

/// The emitted lists are as long as what they are made from: mode 3 has one
/// color word for each pixel, mode 4 one index for each pixel and one color
/// word for each palette entry. In the text, where every color word takes
/// eight characters with its separator, the lists of color words have the
/// lengths that go with these numbers.
pub proof fn lemma_output_lengths(image: ImageView)
    ensures
        image.direct_colors().len() == image.indexes.len(),
        color_items(image.direct_colors()).len() == image.indexes.len(),
        index_items(image.indexes).len() == image.indexes.len(),
        image.quantized_palette().len() == image.palette.len(),
        color_items(image.quantized_palette()).len() == image.palette.len(),
        image.indexes.len() > 0 ==> array_literal(color_items(image.direct_colors())).len() == 8
            * image.indexes.len(),
        image.palette.len() > 0 ==> array_literal(color_items(image.quantized_palette())).len()
            == 8 * image.palette.len(),
{
    lemma_color_array_layout(image.direct_colors());
    lemma_color_array_layout(image.quantized_palette());
}

/// Every emitted color word is at most `0x7FFF`, and where text is emitted
/// every emitted index is below the palette's length.
pub proof fn lemma_emitted_values_in_range(image: ImageView)
    ensures
        forall|i: int|
            0 <= i < image.palette.len() ==> (#[trigger] image.quantized_palette()[i]).0 <= 0x7fff,
        forall|i: int|
            0 <= i < image.indexes.len() ==> (#[trigger] image.direct_colors()[i]).0 <= 0x7fff,
        mode3_output(image) is Ok ==> forall|i: int|
            0 <= i < image.indexes.len() ==> (#[trigger] image.indexes[i]) < image.palette.len(),
        mode4_output(image) is Ok ==> forall|i: int|
            0 <= i < image.indexes.len() ==> (#[trigger] image.indexes[i]) < image.palette.len(),
{
    assert forall|i: int| 0 <= i < image.palette.len() implies (
    #[trigger] image.quantized_palette()[i]).0 <= 0x7fff by {
        crate::color::lemma_quantized_fields(image.palette[i]);
    }
    assert forall|i: int| 0 <= i < image.indexes.len() implies (
    #[trigger] image.direct_colors()[i]).0 <= 0x7fff by {
        crate::color::lemma_quantized_fields(image.palette[image.indexes[i] as int]);
    }
}

/// Where an emitter refuses an image, the error points at the first pixel
/// whose index is outside the palette, and carries that index and the
/// palette's length.
pub proof fn lemma_index_error_points_at_first(image: ImageView)
    requires
        !image.indexes_in_range(),
        image.indexes.len() <= usize::MAX,
        image.palette.len() <= usize::MAX,
    ensures
        mode3_output(image) == Err::<Seq<char>, ConvertError>(index_error(image)),
        mode4_output(image) == Err::<Seq<char>, ConvertError>(index_error(image)),
        index_error(image) matches ConvertError::IndexOutOfRange { position, index, palette_len }
            && image.is_first_out_of_range(position as int) && index
            == image.indexes[position as int] && palette_len == image.palette.len() && index
            >= palette_len,
{
    lemma_out_of_range_exists(image);
}

/// What is emitted keeps the order of what it is made from. The `i`-th color
/// word of mode 3 is that of the `i`-th pixel, and stands at the `i`-th place
/// of the list in the text; the `i`-th index of mode 4 is the `i`-th pixel's.
pub proof fn lemma_pixel_order_kept(image: ImageView, i: int)
    requires
        0 <= i < image.indexes.len(),
    ensures
        image.direct_colors()[i].0 == quantized(image.palette[image.indexes[i] as int]),
        image.indexes[i] < image.palette.len() ==> image.direct_colors()[i]
            == image.quantized_palette()[image.indexes[i] as int],
        color_items(image.direct_colors())[i] == hex_word(
            quantized(image.palette[image.indexes[i] as int]),
        ),
        array_literal(color_items(image.direct_colors())).subrange(1 + 8 * i, 7 + 8 * i)
            == hex_word(quantized(image.palette[image.indexes[i] as int])),
        index_items(image.indexes)[i] == decimal(image.indexes[i] as nat),
{
    lemma_color_array_layout(image.direct_colors());
}

/// The emitted palette keeps the palette's order, nothing sorted and nothing
/// left out: its `i`-th color word is that of the `i`-th entry, and stands at
/// the `i`-th place of the list in the text.
pub proof fn lemma_palette_order_kept(image: ImageView, i: int)
    requires
        0 <= i < image.palette.len(),
    ensures
        image.quantized_palette()[i].0 == quantized(image.palette[i]),
        color_items(image.quantized_palette())[i] == hex_word(quantized(image.palette[i])),
        array_literal(color_items(image.quantized_palette())).subrange(1 + 8 * i, 7 + 8 * i)
            == hex_word(quantized(image.palette[i])),
{
    lemma_color_array_layout(image.quantized_palette());
}

/// The text for mode 3 is the `PIXELS` declaration alone: neither the word
/// `PALETTE` nor the word `INDEXES` stands anywhere in it.
pub proof fn lemma_mode3_has_no_palette_and_no_indexes(image: ImageView)
    ensures
        !occurs_in("PALETTE"@, mode3_text(image)),
        !occurs_in("INDEXES"@, mode3_text(image)),
{
    reveal_strlit("PALETTE");
    reveal_strlit("INDEXES");
    lemma_mode3_lacks(image, 'T');
    lemma_mode3_lacks(image, 'N');
    lemma_lacking_text_has_no_word(mode3_text(image), "PALETTE"@, 4);
    lemma_lacking_text_has_no_word(mode3_text(image), "INDEXES"@, 1);
}

/// The text for mode 3 holds no character beyond those of its fixed parts
/// and of color word literals; `T` and `N` are two that it lacks.
proof fn lemma_mode3_lacks(image: ImageView, c: char)
    requires
        c == 'T' || c == 'N',
    ensures
        lacks(mode3_text(image), c),
{
    reveal_strlit("pub const ");
    reveal_strlit("PIXELS");
    reveal_strlit(": &[");
    reveal_strlit("u16");
    reveal_strlit("] = &");
    reveal_strlit("[");
    reveal_strlit("]");
    reveal_strlit(";\n");
    let items = color_items(image.direct_colors());
    assert forall|i: int| 0 <= i < items.len() implies lacks(#[trigger] items[i], c) by {
        lemma_hex_word_chars(image.direct_colors()[i].0, c);
    }
    lemma_joined_lacks(items, c);
    let head = "pub const "@ + "PIXELS"@ + ": &["@ + "u16"@ + "] = &"@;
    assert(lacks(head, c));
    lemma_lacks_concat("["@, joined(items), c);
    lemma_lacks_concat("["@ + joined(items), "]"@, c);
    lemma_lacks_concat(head, array_literal(items), c);
    lemma_lacks_concat(head + array_literal(items), ";\n"@, c);
}

/// Whatever mode 4 emits is two declarations in a fixed order: `INDEXES`
/// first, then an empty line, then `PALETTE`. Whatever mode 3 emits is the
/// one declaration `PIXELS`.
pub proof fn lemma_declarations_of_each_mode(image: ImageView)
    ensures
        mode4_output(image) matches Ok(text) ==> text == declaration(
            "INDEXES"@,
            "u8"@,
            index_items(image.indexes),
        ) + "\n"@ + declaration("PALETTE"@, "u16"@, color_items(image.quantized_palette())),
        mode3_output(image) matches Ok(text) ==> text == declaration(
            "PIXELS"@,
            "u16"@,
            color_items(image.direct_colors()),
        ),
{
}

impl PalettedImage {
    /// The palette as color words: as many as the palette has entries, in the
    /// palette's order, each within 15 bits.
    pub fn quantized_palette(&self) -> (out: Vec<GbaColor>)
        ensures
            out@ == self@.quantized_palette(),
            out.len() == self.palette.len(),
            forall|i: int|
                0 <= i < out.len() ==> (#[trigger] out[i]).0 == quantized(self.palette[i])
                    && out[i].0 <= 0x7fff,
    {
        let mut out: Vec<GbaColor> = Vec::new();
        let mut i: usize = 0;
        while i < self.palette.len()
            invariant
                i <= self.palette.len(),
                out.len() == i,
                forall|j: int|
                    0 <= j < i ==> (#[trigger] out[j]).0 == quantized(self.palette[j]) && out[j].0
                        <= 0x7fff,
            decreases self.palette.len() - i,
        {
            out.push(GbaColor::from(self.palette[i]));
            i += 1;
        }
        assert(out@ =~= self@.quantized_palette());
        out
    }

    /// Tests that every pixel's index names a palette entry, and reports the
    /// first that does not.
    pub fn check_indexes(&self) -> (out: Result<(), ConvertError>)
        ensures
            out is Ok <==> self@.indexes_in_range(),
            out matches Err(e) ==> e == index_error(self@),
    {
        let mut i: usize = 0;
        while i < self.indexes.len()
            invariant
                i <= self.indexes.len(),
                forall|j: int| 0 <= j < i ==> (#[trigger] self.indexes[j]) < self.palette.len(),
            decreases self.indexes.len() - i,
        {
            let index = self.indexes[i];
            if index as usize >= self.palette.len() {
                proof {
                    assert(self@.is_first_out_of_range(i as int));
                    lemma_first_out_of_range_unique(self@, i as int, i as int);
                }
                return Err(
                    ConvertError::IndexOutOfRange {
                        position: i,
                        index,
                        palette_len: self.palette.len(),
                    },
                );
            }
            i += 1;
        }
        Ok(())
    }

    /// The color word of every pixel, in pixel order: as many words as there
    /// are pixels, each the word of the palette entry that the pixel names.
    /// Fails on the first pixel whose index is outside the palette.
    pub fn direct_colors(&self) -> (out: Result<Vec<GbaColor>, ConvertError>)
        ensures
            out is Ok <==> self@.indexes_in_range(),
            out matches Ok(colors) ==> {
                &&& colors@ == self@.direct_colors()
                &&& colors.len() == self.indexes.len()
                &&& forall|i: int|
                    0 <= i < colors.len() ==> (#[trigger] colors[i]).0 == quantized(
                        self.palette[self.indexes[i] as int],
                    ) && colors[i].0 <= 0x7fff
            },
            out matches Err(e) ==> e == index_error(self@),
    {
        let out_palette = self.quantized_palette();
        let mut out_pixels: Vec<GbaColor> = Vec::new();
        let mut i: usize = 0;
        while i < self.indexes.len()
            invariant
                i <= self.indexes.len(),
                out_pixels.len() == i,
                out_palette@ == self@.quantized_palette(),
                forall|j: int| 0 <= j < i ==> (#[trigger] self.indexes[j]) < self.palette.len(),
                forall|j: int|
                    0 <= j < i ==> (#[trigger] out_pixels[j]).0 == quantized(
                        self.palette[self.indexes[j] as int],
                    ) && out_pixels[j].0 <= 0x7fff,
            decreases self.indexes.len() - i,
        {
            let index = self.indexes[i];
            if index as usize >= out_palette.len() {
                proof {
                    assert(self@.is_first_out_of_range(i as int));
                    lemma_first_out_of_range_unique(self@, i as int, i as int);
                }
                return Err(
                    ConvertError::IndexOutOfRange {
                        position: i,
                        index,
                        palette_len: out_palette.len(),
                    },
                );
            }
            let color = out_palette[index as usize];
            proof {
                crate::color::lemma_quantized_fields(self.palette[index as int]);
            }
            out_pixels.push(color);
            i += 1;
        }
        assert(out_pixels@ =~= self@.direct_colors());
        Ok(out_pixels)
    }
}

/// Appends the start of a declaration, up to the list.
fn push_declaration_start(out: &mut String, name: &str, element: &str)
    ensures
        final(out)@ == old(out)@ + "pub const "@ + name@ + ": &["@ + element@ + "] = &"@,
{
    out.append("pub const ");
    out.append(name);
    out.append(": &[");
    out.append(element);
    out.append("] = &");
}

/// Output direct-color image data, suitable for video mode 3: the single
/// declaration `PIXELS`, with one color word for each pixel in pixel order.
/// An image in which a pixel's index is outside the palette gives no text but
/// the error for the first such pixel.
pub fn palmap_output_mode3(palmap: &PalettedImage) -> (out: Result<String, ConvertError>)
    ensures
        text_of(out) == mode3_output(palmap@),
        out is Ok <==> palmap@.indexes_in_range(),
{
    let out_pixels = match palmap.direct_colors() {
        Ok(colors) => colors,
        Err(e) => {
            return Err(e);
        },
    };
    let mut out = String::new();
    push_declaration_start(&mut out, "PIXELS", "u16");
    push_color_array(&mut out, &out_pixels);
    out.append(";\n");
    assert(out@ =~= mode3_text(palmap@));
    Ok(out)
}

/// Output 8-bit indexed-color image data, suitable for video mode 4: the
/// declaration `INDEXES` with every pixel's index in pixel order, an empty
/// line, then the declaration `PALETTE` with the color word of every palette
/// entry in palette order. An image in which a pixel's index is outside the
/// palette gives no text but the error for the first such pixel.
pub fn palmap_output_mode4(palmap: &PalettedImage) -> (out: Result<String, ConvertError>)
    ensures
        text_of(out) == mode4_output(palmap@),
        out is Ok <==> palmap@.indexes_in_range(),
{
    match palmap.check_indexes() {
        Ok(()) => {},
        Err(e) => {
            return Err(e);
        },
    }
    let out_palette = palmap.quantized_palette();
    let mut out = String::new();
    push_declaration_start(&mut out, "INDEXES", "u8");
    push_index_array(&mut out, &palmap.indexes);
    out.append(";\n");
    out.append("\n");
    push_declaration_start(&mut out, "PALETTE", "u16");
    push_color_array(&mut out, &out_palette);
    out.append(";\n");
    assert(out@ =~= mode4_text(palmap@));
    Ok(out)
}

} // verus!
