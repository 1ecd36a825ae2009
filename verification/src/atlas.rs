//! The piece atlas: one image that holds every sprite, decoded to the rows
//! of 8-bit RGBA samples that the GPU texture is filled from.

use vstd::prelude::*;

verus! {

/// `image::DynamicImage`, a decoded image of any pixel type. Nothing inside
/// it is visible here; its size and samples go by the names below.
#[verifier::external_type_specification]
#[verifier::external_body]
pub struct ExDynamicImage(image::DynamicImage);

/// `image::ImageError`, the reason a decoding failed. It is carried, never
/// read.
#[verifier::external_type_specification]
#[verifier::external_body]
pub struct ExImageError(image::ImageError);

// The width and height of a decoded image, in pixels.
pub uninterp spec fn image_dimensions(image: image::DynamicImage) -> (u32, u32);

// The sample buffer of a decoded image whose pixels are 8-bit RGBA, four
// samples per pixel, row after row from the top; `None` for an image of any
// other pixel type.
pub uninterp spec fn rgba8_samples(image: image::DynamicImage) -> Option<Seq<u8>>;

// What decoding an encoded image yields: nothing where it fails, else the
// image's width, its height, and its RGBA samples if its pixels are 8-bit
// RGBA.
pub uninterp spec fn decoded_image(encoded: Seq<u8>) -> Option<(u32, u32, Option<Seq<u8>>)>;

/// `samples` with its first `height` rows of `width` RGBA pixels in reverse
/// order; what lies beyond those rows stays.
pub open spec fn flipped_rows(samples: Seq<u8>, width: u32, height: u32) -> Seq<u8> {
    Seq::new(
        samples.len(),
        |i: int|
            if i < 4 * width * height {
                samples[(height - 1 - i / (4 * width)) * (4 * width) + i % (4 * width)]
            } else {
                samples[i]
            },
    )
}

/// `image::load_from_memory`: guesses the format of an encoded image and
/// decodes it. The contract only names the outcome: the call succeeds exactly
/// where `decoded_image` is `Some`, and the image it returns has the
/// dimensions and samples named there.
#[verifier::external_body]
fn load_from_memory(buffer: &[u8]) -> (loaded: Result<image::DynamicImage, image::ImageError>)
    ensures
        match loaded {
            Ok(image) => decoded_image(buffer@) == Some(
                (image_dimensions(image).0, image_dimensions(image).1, rgba8_samples(image)),
            ),
            Err(_) => decoded_image(buffer@) is None,
        },
{
    image::load_from_memory(buffer)
}

/// `image::imageops::flip_vertical_in_place`: swaps each pixel of the upper
/// half with the pixel of the same column in the mirrored row. The image
/// keeps its dimensions and its pixel type, and the rows of an 8-bit RGBA
/// image come out in reverse order.
#[verifier::external_body]
fn flip_vertical_in_place(image: &mut image::DynamicImage)
    ensures
        image_dimensions(*final(image)) == image_dimensions(*old(image)),
        rgba8_samples(*final(image)) == match rgba8_samples(*old(image)) {
            Some(samples) => Some(
                flipped_rows(
                    samples,
                    image_dimensions(*old(image)).0,
                    image_dimensions(*old(image)).1,
                ),
            ),
            None => None,
        },
{
    image::imageops::flip_vertical_in_place(image)
}

/// `image::GenericImageView::dimensions` of a `DynamicImage`: the width and
/// height of the image.
#[verifier::external_body]
fn dimensions(image: &image::DynamicImage) -> (size: (u32, u32))
    ensures
        size == image_dimensions(*image),
{
    image::GenericImageView::dimensions(image)
}

/// `image::DynamicImage::as_rgba8`: the 8-bit RGBA buffer of the image, if
/// that is its pixel type. The samples are handed out as a copy.
#[verifier::external_body]
fn as_rgba8(image: &image::DynamicImage) -> (samples: Option<Vec<u8>>)
    ensures
        match samples {
            Some(data) => rgba8_samples(*image) == Some(data@),
            None => rgba8_samples(*image) is None,
        },
{
    image.as_rgba8().map(image::RgbaImage::as_raw).cloned()
}

/// Why an atlas could not be made.
#[derive(Debug, Clone, Copy, PartialEq, Eq, Structural)]
pub enum AtlasError {
    /// The bytes are not an image that can be decoded.
    Undecodable,
    /// The image's pixels are not 8-bit RGBA.
    NotRgba8,
    /// A row of the image takes more bytes than a 32-bit count holds.
    TooWide,
    /// There are fewer samples than the image's size asks for.
    Truncated,
}

/// The atlas's pixels, bottom row first.
#[derive(Debug, Clone, PartialEq, Eq)]
pub struct Atlas {
    pub width: u32,
    pub height: u32,
    pub data: Vec<u8>,
}

/// The mathematical content of an [`Atlas`].
pub ghost struct AtlasModel {
    pub width: u32,
    pub height: u32,
    pub data: Seq<u8>,
}

impl View for Atlas {
    type V = AtlasModel;

    open spec fn view(&self) -> AtlasModel {
        AtlasModel { width: self.width, height: self.height, data: self.data@ }
    }
}

impl AtlasModel {
    /// A row's byte count fits 32 bits, and there are samples for every
    /// pixel.
    pub open spec fn well_formed(self) -> bool {
        &&& 4 * self.width <= u32::MAX
        &&& 4 * self.width * self.height <= self.data.len()
    }
}

impl Atlas {
    /// The atlas made of the given size and samples, or why there is none.
    pub open spec fn from_parts_spec(width: u32, height: u32, data: Seq<u8>) -> Result<
        AtlasModel,
        AtlasError,
    > {
        if 4 * width > u32::MAX {
            Err(AtlasError::TooWide)
        } else if data.len() < 4 * width * height {
            Err(AtlasError::Truncated)
        } else {
            Ok(AtlasModel { width, height, data })
        }
    }

    /// The atlas that comes of a decoding outcome: the image's rows in
    /// reverse order, so that the bottom row comes first.
    pub open spec fn of_decoded(decoded: Option<(u32, u32, Option<Seq<u8>>)>) -> Result<
        AtlasModel,
        AtlasError,
    > {
        match decoded {
            None => Err(AtlasError::Undecodable),
            Some((_, _, None)) => Err(AtlasError::NotRgba8),
            Some((width, height, Some(samples))) => Atlas::from_parts_spec(
                width,
                height,
                flipped_rows(samples, width, height),
            ),
        }
    }

    /// Makes an atlas of a size and the samples of its pixels.
    pub fn from_parts(width: u32, height: u32, data: Vec<u8>) -> (atlas: Result<Atlas, AtlasError>)
        ensures
            match Atlas::from_parts_spec(width, height, data@) {
                Ok(model) => atlas is Ok && atlas.unwrap()@ == model && model.well_formed(),
                Err(error) => atlas == Err::<Atlas, AtlasError>(error),
            },
    {
        if width > u32::MAX / 4 {
            return Err(AtlasError::TooWide);
        }
        let row: u64 = 4 * (width as u64);
        assert(row * height <= u32::MAX * u32::MAX) by (nonlinear_arith)
            requires
                row <= u32::MAX,
                height <= u32::MAX,
        ;
        let needed: u64 = row * (height as u64);
        if (data.len() as u64) < needed {
            return Err(AtlasError::Truncated);
        }
        Ok(Atlas { width, height, data })
    }

    /// Decodes an encoded image into the atlas, bottom row first.
    pub fn decode(encoded: &[u8]) -> (atlas: Result<Atlas, AtlasError>)
        ensures
            match Atlas::of_decoded(decoded_image(encoded@)) {
                Ok(model) => atlas is Ok && atlas.unwrap()@ == model && model.well_formed(),
                Err(error) => atlas == Err::<Atlas, AtlasError>(error),
            },
    {
        match load_from_memory(encoded) {
            Err(_) => Err(AtlasError::Undecodable),
            Ok(mut image) => {
                flip_vertical_in_place(&mut image);
                match as_rgba8(&image) {
                    None => Err(AtlasError::NotRgba8),
                    Some(data) => {
                        let size: (u32, u32) = dimensions(&image);
                        Atlas::from_parts(size.0, size.1, data)
                    },
                }
            },
        }
    }
}

/// Reversing the rows twice gives back the rows.
pub proof fn lemma_flipped_rows_twice(samples: Seq<u8>, width: u32, height: u32)
    requires
        4 * width * height <= samples.len(),
    ensures
        flipped_rows(flipped_rows(samples, width, height), width, height) == samples,
{
    let once = flipped_rows(samples, width, height);
    let twice = flipped_rows(once, width, height);
    let row = 4 * width;
    assert forall|i: int| 0 <= i < samples.len() implies twice[i] == samples[i] by {
        if i < row * height {
            lemma_mirrored_index(i, row, height as int);
            let y = i / row;
            let x = i % row;
            let j = (height - 1 - y) * row + x;
            vstd::arithmetic::div_mod::lemma_fundamental_div_mod(i, row);
            assert(y * row + x == i) by (nonlinear_arith)
                requires
                    i == row * y + x,
            ;
            assert(height - 1 - j / row == y);
            assert(once[j] == samples[(height - 1 - j / row) * row + j % row]);
            assert(twice[i] == once[j]);
        }
    }
    assert(twice =~= samples);
}

/// The sample that mirrors sample `i` lies within the image, in the same
/// column of the mirrored row.
pub proof fn lemma_mirrored_index(i: int, row: int, height: int)
    requires
        0 <= i < row * height,
        0 <= height,
    ensures
        0 < row,
        0 <= (height - 1 - i / row) * row + i % row < row * height,
        ((height - 1 - i / row) * row + i % row) / row == height - 1 - i / row,
        ((height - 1 - i / row) * row + i % row) % row == i % row,
{
    assert(0 < row) by (nonlinear_arith)
        requires
            0 <= i < row * height,
            0 <= height,
    ;
    let y = i / row;
    let x = i % row;
    vstd::arithmetic::div_mod::lemma_fundamental_div_mod(i, row);
    assert(0 <= y < height) by (nonlinear_arith)
        requires
            i == row * y + x,
            0 <= x < row,
            0 <= i < row * height,
    ;
    let m = height - 1 - y;
    assert(0 <= m * row + x < row * height) by (nonlinear_arith)
        requires
            0 <= m < height,
            0 <= x < row,
    ;
    vstd::arithmetic::div_mod::lemma_fundamental_div_mod_converse(m * row + x, row, m, x);
}

} // verus!
