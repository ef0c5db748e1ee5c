//! Decoding of the bundled PNG assets (glyph atlases and decorative
//! textures) through the `image` crate, and the vertical row flip they are
//! uploaded with.

use vstd::prelude::*;

use image::GenericImageView;

verus! {

#[verifier::external_type_specification]
#[verifier::external_body]
pub struct ExDynamicImage(image::DynamicImage);

#[verifier::external_type_specification]
#[verifier::external_body]
pub struct ExImageError(image::ImageError);

/// `image::load_from_memory`: guesses the format from the bytes and
/// decodes them. Nothing is claimed of the outcome: besides the bytes, it
/// depends on the format-detection hooks registered in the process.
#[verifier::external_body]
fn load_from_memory(bytes: &[u8]) -> Result<image::DynamicImage, image::ImageError> {
    image::load_from_memory(bytes)
}

/// `GenericImageView::dimensions` of a decoded image: its `(width,
/// height)`. Nothing is claimed of the values.
#[verifier::external_body]
fn dimensions(image: &image::DynamicImage) -> (u32, u32) {
    image.dimensions()
}

/// `DynamicImage::to_rgba8`: the image converted to 8-bit RGBA, taken
/// apart into its width, height and raw row-major buffer. Claimed: the
/// buffer holds at least the `4 * width * height` bytes of the pixels
/// (every `ImageBuffer` constructor checks this, and the buffer can't
/// shrink). Nothing is claimed of the pixel values.
#[verifier::external_body]
fn to_rgba8(image: &image::DynamicImage) -> (r: (u32, u32, Vec<u8>))
    ensures
        r.2@.len() >= 4 * r.0 * r.1,
{
    let rgba = image.to_rgba8();
    let (width, height) = rgba.dimensions();
    (width, height, rgba.into_raw())
}

/// The `Display` text of a decoding error. Nothing is claimed of the text.
#[verifier::external_body]
fn error_text(error: &image::ImageError) -> String {
    error.to_string()
}

/// `String::push_str`: appends `tail` to `s`.
#[verifier::external_body]
fn push_str(s: &mut String, tail: &str)
    ensures
        final(s)@ == old(s)@ + tail@,
{
    s.push_str(tail)
}

/// The text every decoding error message starts with.
pub open spec fn decode_error_prefix() -> Seq<char> {
    "failed to decode bundled PNG: "@
}

/// Whether `message` reports a failed decoding: the fixed prefix followed
/// by the decoder's own description of the error.
pub open spec fn is_decode_error(message: Seq<char>) -> bool {
    decode_error_prefix().is_prefix_of(message)
}

fn decode_error_message(error: &image::ImageError) -> (r: String)
    ensures
        is_decode_error(r@),
{
    let mut message = "failed to decode bundled PNG: ".to_owned();
    let text = error_text(error);
    push_str(&mut message, text.as_str());
    proof {
        let whole = message@;
        assert(whole.subrange(0, decode_error_prefix().len() as int) =~= decode_error_prefix());
    }
    message
}

/// The pixel size of a PNG, without keeping its pixels. A failure is
/// reported as a decoding error message.
pub fn image_dimensions(png_bytes: &[u8]) -> (r: Result<(u32, u32), String>)
    ensures
        r matches Err(message) ==> is_decode_error(message@),
{
    match load_from_memory(png_bytes) {
        Ok(image) => Ok(dimensions(&image)),
        Err(error) => Err(decode_error_message(&error)),
    }
}

/// Byte `k` of row `row` in a buffer of `row_len`-byte rows.
pub open spec fn row_byte(pixels: Seq<u8>, row_len: int, row: int, k: int) -> u8 {
    pixels[row * row_len + k]
}

/// `pixels` (at least `height` rows of `row_len` bytes) with its first
/// `height` rows in reverse order: row `r` of the result is row
/// `height - 1 - r` of `pixels`.
pub open spec fn is_vertical_flip(result: Seq<u8>, pixels: Seq<u8>, row_len: int, height: int) -> bool {
    &&& result.len() == row_len * height
    &&& forall|row: int, k: int|
        0 <= row < height && 0 <= k < row_len ==> #[trigger] row_byte(result, row_len, row, k)
            == row_byte(pixels, row_len, height - 1 - row, k)
}

proof fn lemma_row_index(row_len: int, height: int, row: int, k: int)
    requires
        0 <= row < height,
        0 <= k < row_len,
    ensures
        0 <= row * row_len + k < height * row_len,
        row * row_len + k < (row + 1) * row_len,
        (row + 1) * row_len <= height * row_len,
{
    assert(0 <= row * row_len + k < height * row_len) by (nonlinear_arith)
        requires
            0 <= row < height,
            0 <= k < row_len,
    ;
    assert(row * row_len + k < (row + 1) * row_len) by (nonlinear_arith)
        requires
            0 <= k < row_len,
    ;
    assert((row + 1) * row_len <= height * row_len) by (nonlinear_arith)
        requires
            0 <= row < height,
            0 <= k < row_len,
    ;
}

/// Flips an 8-bit RGBA image vertically: row `r` of the result is row
/// `height - 1 - r` of `pixels` (the whole behaviour of the `image`
/// crate's `flipv`/`flip_vertical`). Bytes of `pixels` past the image are
/// not copied.
pub fn flip_vertical(width: u32, height: u32, pixels: &Vec<u8>) -> (r: Vec<u8>)
    requires
        4 * width * height <= pixels@.len(),
    ensures
        is_vertical_flip(r@, pixels@, 4 * width, height as int),
{
    let mut flipped: Vec<u8> = Vec::new();
    if height == 0 {
        return flipped;
    }
    let total = pixels.len();
    proof {
        assert(4 * width <= 4 * width * height) by (nonlinear_arith)
            requires
                height >= 1,
        ;
        assert(height * (4 * width) == 4 * width * height) by (nonlinear_arith);
    }
    let row_len: usize = 4 * (width as usize);
    let ghost rl = row_len as int;
    let ghost h = height as int;
    let mut row: usize = 0;
    while row < height as usize
        invariant
            rl == 4 * width,
            h == height,
            row_len == rl,
            h * rl <= pixels@.len(),
            pixels@.len() == total,
            row <= h,
            flipped@.len() == row * rl,
            forall|r: int, k: int|
                0 <= r < row && 0 <= k < rl ==> #[trigger] row_byte(flipped@, rl, r, k)
                    == row_byte(pixels@, rl, h - 1 - r, k),
        decreases h - row,
    {
        let source_row: usize = height as usize - 1 - row;
        let mut k: usize = 0;
        while k < row_len
            invariant
                rl == 4 * width,
                h == height,
                row_len == rl,
                h * rl <= pixels@.len(),
            pixels@.len() == total,
                row < h,
                source_row == h - 1 - row,
                k <= rl,
                flipped@.len() == row * rl + k,
                forall|r: int, j: int|
                    0 <= r < row && 0 <= j < rl ==> #[trigger] row_byte(flipped@, rl, r, j)
                        == row_byte(pixels@, rl, h - 1 - r, j),
                forall|j: int|
                    0 <= j < k ==> #[trigger] flipped@[row * rl + j] == pixels@[source_row * rl
                        + j],
            decreases rl - k,
        {
            proof {
                lemma_row_index(rl, h, source_row as int, k as int);
                lemma_row_index(rl, h, row as int, k as int);
            }
            let byte = pixels[source_row * row_len + k];
            let ghost before = flipped@;
            flipped.push(byte);
            proof {
                assert forall|r: int, j: int|
                    0 <= r < row && 0 <= j < rl implies #[trigger] row_byte(flipped@, rl, r, j)
                    == row_byte(pixels@, rl, h - 1 - r, j) by {
                    lemma_row_index(rl, h, r, j);
                    assert((r + 1) * rl <= row * rl) by (nonlinear_arith)
                        requires
                            r < row,
                            0 <= rl,
                    ;
                    assert(row_byte(before, rl, r, j) == row_byte(pixels@, rl, h - 1 - r, j));
                }
            }
            k = k + 1;
        }
        proof {
            assert forall|r: int, j: int|
                0 <= r < row + 1 && 0 <= j < rl implies #[trigger] row_byte(flipped@, rl, r, j)
                == row_byte(pixels@, rl, h - 1 - r, j) by {
                if r == row {
                    assert(flipped@[row * rl + j] == pixels@[source_row * rl + j]);
                }
            }
            assert((row + 1) * rl == row * rl + rl) by (nonlinear_arith);
        }
        row = row + 1;
    }
    proof {
        assert(h * rl == rl * h) by (nonlinear_arith);
    }
    flipped
}

/// An 8-bit RGBA image ready for upload: `pixels` holds the rows in
/// upload order, `4 * width * height` bytes.
pub struct RgbaPixels {
    pub width: u32,
    pub height: u32,
    pub pixels: Vec<u8>,
}

/// Packages a decoded 8-bit RGBA image (`width` x `height`, its rows in
/// `pixels`) for upload: same size, rows flipped bottom-to-top.
pub fn flipped_for_upload(width: u32, height: u32, pixels: &Vec<u8>) -> (r: RgbaPixels)
    requires
        4 * width * height <= pixels@.len(),
    ensures
        r.width == width,
        r.height == height,
        is_vertical_flip(r.pixels@, pixels@, 4 * width, height as int),
        r.pixels@.len() == 4 * width * height,
{
    let flipped = flip_vertical(width, height, pixels);
    proof {
        assert(4 * width * height == (4 * width) * height) by (nonlinear_arith);
    }
    RgbaPixels { width, height, pixels: flipped }
}

/// Decodes a PNG into 8-bit RGBA with its rows flipped bottom-to-top (by
/// `flipped_for_upload`), so that texture coordinate `v = 0` lands on the
/// image's bottom row once uploaded (the atlas lookups index rows from the
/// bottom). A failure is reported as a decoding error message.
pub fn decode_png_flipped(png_bytes: &[u8]) -> (r: Result<RgbaPixels, String>)
    ensures
        r matches Ok(image) ==> image.pixels@.len() == 4 * image.width * image.height,
        r matches Err(message) ==> is_decode_error(message@),
{
    match load_from_memory(png_bytes) {
        Ok(image) => {
            let (width, height, pixels) = to_rgba8(&image);
            Ok(flipped_for_upload(width, height, &pixels))
        },
        Err(error) => Err(decode_error_message(&error)),
    }
}


/// In a vertical flip of an image at least one row high, the first row is
/// the image's last row and the last row is its first.
pub proof fn lemma_flip_swaps_first_and_last_rows(
    result: Seq<u8>,
    pixels: Seq<u8>,
    row_len: int,
    height: int,
)
    requires
        is_vertical_flip(result, pixels, row_len, height),
        height >= 1,
    ensures
        forall|k: int|
            0 <= k < row_len ==> #[trigger] row_byte(result, row_len, 0, k) == pixels[(height - 1)
                * row_len + k],
        forall|k: int|
            0 <= k < row_len ==> #[trigger] row_byte(result, row_len, height - 1, k)
                == pixels[k],
{
    assert forall|k: int| 0 <= k < row_len implies #[trigger] row_byte(result, row_len, 0, k)
        == pixels[(height - 1) * row_len + k] by {
        assert(row_byte(result, row_len, 0, k) == row_byte(pixels, row_len, height - 1, k));
    }
    assert forall|k: int| 0 <= k < row_len implies #[trigger] row_byte(
        result,
        row_len,
        height - 1,
        k,
    ) == pixels[k] by {
        assert(row_byte(result, row_len, height - 1, k) == row_byte(pixels, row_len, 0, k));
        assert(0 * row_len + k == k);
    }
}

} // verus!
