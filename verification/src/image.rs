//! Paletted images: a table of colors and, for each pixel, an index into it.

use vstd::prelude::*;
use crate::color::{quantized, GbaColor, Rgba};

verus! {

/// A paletted image. `indexes` holds one palette index for each pixel, row by
/// row from the top left; `width` and `height` are carried along and play no
/// part in what is emitted.
#[derive(Debug)]
pub struct PalettedImage {
    pub width: u32,
    pub height: u32,
    pub indexes: Vec<u8>,
    pub palette: Vec<Rgba>,
}

/// A paletted image as a mathematical value.
pub struct ImageView {
    pub width: u32,
    pub height: u32,
    pub indexes: Seq<u8>,
    pub palette: Seq<Rgba>,
}

impl View for PalettedImage {
    type V = ImageView;

    open spec fn view(&self) -> ImageView {
        ImageView {
            width: self.width,
            height: self.height,
            indexes: self.indexes@,
            palette: self.palette@,
        }
    }
}

impl ImageView {
    /// Every pixel names an entry of the palette.
    pub open spec fn indexes_in_range(self) -> bool {
        forall|i: int| 0 <= i < self.indexes.len() ==> (#[trigger] self.indexes[i]) < self.palette.len()
    }

    /// `position` is the first pixel whose index is outside the palette.
    pub open spec fn is_first_out_of_range(self, position: int) -> bool {
        &&& 0 <= position < self.indexes.len()
        &&& self.indexes[position] >= self.palette.len()
        &&& forall|j: int| 0 <= j < position ==> (#[trigger] self.indexes[j]) < self.palette.len()
    }

    /// The first pixel whose index is outside the palette, where there is one.
    pub open spec fn first_out_of_range(self) -> int {
        choose|position: int| self.is_first_out_of_range(position)
    }

    /// The palette as color words, entry by entry in the palette's order.
    pub open spec fn quantized_palette(self) -> Seq<GbaColor> {
        Seq::new(self.palette.len(), |i: int| GbaColor(quantized(self.palette[i])))
    }

    /// The image as one color word for each pixel, in pixel order: the word of
    /// the palette entry that the pixel's index names.
    pub open spec fn direct_colors(self) -> Seq<GbaColor> {
        Seq::new(
            self.indexes.len(),
            |i: int| GbaColor(quantized(self.palette[self.indexes[i] as int])),
        )
    }
}

/// At most one pixel is the first with an index outside the palette.
pub proof fn lemma_first_out_of_range_unique(image: ImageView, p: int, q: int)
    requires
        image.is_first_out_of_range(p),
        image.is_first_out_of_range(q),
    ensures
        p == q,
        image.first_out_of_range() == p,
{
    if p < q {
        assert(image.indexes[p] < image.palette.len());
    }
    if q < p {
        assert(image.indexes[q] < image.palette.len());
    }
    let c = image.first_out_of_range();
    assert(image.is_first_out_of_range(c));
    if c < p {
        assert(image.indexes[c] < image.palette.len());
    }
    if p < c {
        assert(image.indexes[p] < image.palette.len());
    }
}

/// An image has a pixel with an index outside the palette exactly when not
/// every pixel names an entry of the palette.
pub proof fn lemma_out_of_range_exists(image: ImageView)
    ensures
        image.indexes_in_range() <==> !exists|p: int| image.is_first_out_of_range(p),
        !image.indexes_in_range() ==> image.is_first_out_of_range(image.first_out_of_range()),
{
    if image.indexes_in_range() {
        assert forall|p: int| !image.is_first_out_of_range(p) by {
            if 0 <= p < image.indexes.len() {
                assert(image.indexes[p] < image.palette.len());
            }
        }
    } else {
        let bad = choose|i: int|
            0 <= i < image.indexes.len() && !((#[trigger] image.indexes[i]) < image.palette.len());
        lemma_first_before(image, bad);
    }
}

/// Where some pixel up to `bound` has an index outside the palette, one of
/// them is the first.
proof fn lemma_first_before(image: ImageView, bound: int)
    requires
        0 <= bound < image.indexes.len(),
        image.indexes[bound] >= image.palette.len(),
    ensures
        exists|p: int| image.is_first_out_of_range(p),
    decreases bound,
{
    if forall|j: int| 0 <= j < bound ==> (#[trigger] image.indexes[j]) < image.palette.len() {
        assert(image.is_first_out_of_range(bound));
    } else {
        let earlier = choose|j: int|
            0 <= j < bound && !((#[trigger] image.indexes[j]) < image.palette.len());
        lemma_first_before(image, earlier);
    }
}

} // verus!
