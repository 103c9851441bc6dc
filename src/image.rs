use vstd::prelude::*;
use vstd::arithmetic::div_mod::lemma_fundamental_div_mod_converse;
use crate::texture::TextureFormat;

verus! {

/// Channel layout of a decoded image, 8 bits per channel.
#[derive(Clone, Copy, Debug, PartialEq, Eq, Structural)]
pub enum ImageFormat {
    R,
    Ra,
    Rgb,
    Rgba,
}

#[derive(Debug)]
pub struct ImageError {
    pub message: String,
}

/// A decoded picture, flipped vertically as the driver's texture coordinates
/// expect: the first row of `pixels` is the bottom row of the picture as
/// displayed. `pixels` holds `width * height * channels(format)` bytes, rows
/// without padding.
pub struct Image {
    pub format: ImageFormat,
    pub width: usize,
    pub height: usize,
    pub pixels: Vec<u8>,
}

impl ImageFormat {
    pub open spec fn channels(self) -> nat {
        match self {
            ImageFormat::R => 1,
            ImageFormat::Ra => 2,
            ImageFormat::Rgb => 3,
            ImageFormat::Rgba => 4,
        }
    }

    pub open spec fn texture_format(self) -> Option<TextureFormat> {
        match self {
            ImageFormat::R => Some(TextureFormat::R),
            ImageFormat::Ra => None,
            ImageFormat::Rgb => Some(TextureFormat::Rgb),
            ImageFormat::Rgba => Some(TextureFormat::Rgba),
        }
    }

    /// The texture format that takes this layout as it is; grey with alpha
    /// has none.
    pub fn to_texture_format(&self) -> (r: Option<TextureFormat>)
        ensures
            r == self.texture_format(),
            r matches Some(t) ==> t.spec_bytes_per_pixel() == self.channels(),
    {
        match *self {
            ImageFormat::R => Some(TextureFormat::R),
            ImageFormat::Rgb => Some(TextureFormat::Rgb),
            ImageFormat::Rgba => Some(TextureFormat::Rgba),
            ImageFormat::Ra => None,
        }
    }

    pub fn channel_count(&self) -> (r: usize)
        ensures
            r == self.channels(),
    {
        match *self {
            ImageFormat::R => 1,
            ImageFormat::Ra => 2,
            ImageFormat::Rgb => 3,
            ImageFormat::Rgba => 4,
        }
    }
}

/// Where byte `i` of a picture flipped vertically comes from, with rows of
/// `row_len` bytes and `height` rows.
pub open spec fn flipped_index(i: int, row_len: nat, height: nat) -> int {
    (height - 1 - i / (row_len as int)) * row_len + i % (row_len as int)
}

/// `pixels` with its `height` rows of `row_len` bytes in reverse order.
pub open spec fn flip_rows(pixels: Seq<u8>, row_len: nat, height: nat) -> Seq<u8> {
    Seq::new(pixels.len(), |i: int| pixels[flipped_index(i, row_len, height)])
}

/// The image made of decoded pixels, top row first: none where the bytes do
/// not fill exactly `width` by `height` pixels of the format.
pub open spec fn image_of(format: ImageFormat, width: u32, height: u32, pixels: Seq<u8>) -> Option<
    (ImageFormat, usize, usize, Seq<u8>),
> {
    if pixels.len() == width * height * format.channels() {
        Some(
            (
                format,
                width as usize,
                height as usize,
                flip_rows(pixels, (width * format.channels()) as nat, height as nat),
            ),
        )
    } else {
        None
    }
}

/// What decoding an encoded picture gives: its layout, width, height and
/// pixels (top row first), or `None`.
pub uninterp spec fn decoded_image(data: Seq<u8>) -> Option<(ImageFormat, u32, u32, Seq<u8>)>;

/// Relies on `image::load_from_memory`, which recognises the encoding from
/// the bytes and decodes them: the result depends on the bytes alone. Its
/// 8-bit grey, grey-and-alpha, RGB and RGBA results are taken apart into
/// layout, size and raw pixels; any other layout, and any decode error, gives
/// `None`.
#[verifier::external_body]
fn decode_pixels(data: &[u8]) -> (r: Option<(ImageFormat, u32, u32, Vec<u8>)>)
    ensures
        match r {
            None => decoded_image(data@) is None,
            Some((f, w, h, p)) => decoded_image(data@) == Some((f, w, h, p@)),
        },
{
    match ::image::load_from_memory(data) {
        Ok(::image::DynamicImage::ImageLuma8(b)) => Some((ImageFormat::R, b.width(), b.height(), b.into_raw())),
        Ok(::image::DynamicImage::ImageLumaA8(b)) => Some((ImageFormat::Ra, b.width(), b.height(), b.into_raw())),
        Ok(::image::DynamicImage::ImageRgb8(b)) => Some((ImageFormat::Rgb, b.width(), b.height(), b.into_raw())),
        Ok(::image::DynamicImage::ImageRgba8(b)) => Some((ImageFormat::Rgba, b.width(), b.height(), b.into_raw())),
        _ => None,
    }
}

/// Copies `pixels` with its rows in reverse order.
fn flip_vertically(pixels: &Vec<u8>, row_len: usize, height: usize) -> (r: Vec<u8>)
    requires
        pixels@.len() == row_len * height,
    ensures
        r@ == flip_rows(pixels@, row_len as nat, height as nat),
{
    let len = pixels.len();
    let mut out: Vec<u8> = Vec::new();
    let mut row: usize = 0;
    while row < height
        invariant
            len == pixels@.len(),
            row <= height,
            pixels@.len() == row_len * height,
            out@.len() == row * row_len,
            forall|k: int|
                0 <= k < out@.len() ==> out@[k] == pixels@[flipped_index(
                    k,
                    row_len as nat,
                    height as nat,
                )],
        decreases height - row,
    {
        let mut j: usize = 0;
        while j < row_len
            invariant
                len == pixels@.len(),
                row < height,
                j <= row_len,
                pixels@.len() == row_len * height,
                out@.len() == row * row_len + j,
                forall|k: int|
                    0 <= k < out@.len() ==> out@[k] == pixels@[flipped_index(
                        k,
                        row_len as nat,
                        height as nat,
                    )],
            decreases row_len - j,
        {
            proof {
                assert((height - 1 - row) * row_len + j < row_len * height) by (nonlinear_arith)
                    requires
                        row < height,
                        j < row_len,
                ;
                lemma_fundamental_div_mod_converse(
                    (row * row_len + j) as int,
                    row_len as int,
                    row as int,
                    j as int,
                );
            }
            assert((height - 1 - row) * row_len <= (height - 1 - row) * row_len + j);
            let src = (height - 1 - row) * row_len + j;
            out.push(pixels[src]);
            j = j + 1;
        }
        proof {
            assert(row * row_len + row_len == (row + 1) * row_len) by (nonlinear_arith);
        }
        row = row + 1;
    }
    proof {
        assert(height * row_len == row_len * height) by (nonlinear_arith);
    }
    assert(out@ =~= flip_rows(pixels@, row_len as nat, height as nat));
    out
}

impl Image {
    /// The image made of decoded pixels (top row first, as a decoder gives
    /// them): flipped vertically, or the decode error where the bytes do not
    /// fill exactly `width` by `height` pixels of `format`.
    pub fn from_decoded(format: ImageFormat, width: u32, height: u32, pixels: Vec<u8>) -> (r:
        Result<Image, ImageError>)
        ensures
            match image_of(format, width, height, pixels@) {
                Some((f, w, h, p)) => r matches Ok(img) && img.format == f && img.width == w
                    && img.height == h && img.pixels@ == p,
                None => r matches Err(e) && e.message@ == "Failed to decode image"@,
            },
    {
        let len = pixels.len();
        let channels = format.channel_count();
        let total = match (width as usize).checked_mul(height as usize) {
            Some(n) => n.checked_mul(channels),
            None => None,
        };
        match total {
            Some(total) if total == len => {
                let row_len: usize = if height == 0 {
                    0
                } else {
                    proof {
                        assert(width * format.channels() <= width * height * format.channels())
                            by (nonlinear_arith)
                            requires
                                height >= 1,
                        ;
                    }
                    width as usize * channels
                };
                proof {
                    assert(pixels@.len() == row_len * height) by (nonlinear_arith)
                        requires
                            pixels@.len() == width * height * format.channels(),
                            height == 0 || row_len == width * format.channels(),
                    ;
                }
                let flipped = flip_vertically(&pixels, row_len, height as usize);
                assert(flipped@ =~= flip_rows(
                    pixels@,
                    (width * format.channels()) as nat,
                    height as nat,
                ));
                Ok(
                    Image {
                        format,
                        width: width as usize,
                        height: height as usize,
                        pixels: flipped,
                    },
                )
            },
            _ => {
                proof {
                    let c = format.channels() as int;
                    let wh = width * height;
                    assert(c >= 1);
                    if wh > usize::MAX {
                        assert(wh * c >= wh) by (nonlinear_arith)
                            requires
                                c >= 1,
                                wh >= 0,
                        ;
                    }
                }
                Err(ImageError { message: "Failed to decode image".to_owned() })
            },
        }
    }

    /// Decodes an encoded picture (PNG and the like) held in memory.
    pub fn from_memory(data: &[u8]) -> (r: Result<Image, ImageError>)
        ensures
            match decoded_image(data@) {
                None => r matches Err(e) && e.message@ == "Failed to decode image"@,
                Some((format, width, height, pixels)) => match image_of(
                    format,
                    width,
                    height,
                    pixels,
                ) {
                    Some((f, w, h, p)) => r matches Ok(img) && img.format == f && img.width == w
                        && img.height == h && img.pixels@ == p,
                    None => r matches Err(e) && e.message@ == "Failed to decode image"@,
                },
            },
    {
        match decode_pixels(data) {
            Some((format, width, height, pixels)) => Image::from_decoded(
                format,
                width,
                height,
                pixels,
            ),
            None => Err(ImageError { message: "Failed to decode image".to_owned() }),
        }
    }
}

/// Flipping reverses the rows: row `r` of the result is row `height - 1 - r`
/// of the source, so the top row of the result is the source's bottom row and
/// the other way round, and every byte of a row keeps its place in it.
pub proof fn lemma_flip_rows(pixels: Seq<u8>, row_len: nat, height: nat, r: nat, j: nat)
    requires
        pixels.len() == row_len * height,
        r < height,
        j < row_len,
    ensures
        flip_rows(pixels, row_len, height).len() == pixels.len(),
        r * row_len + j < pixels.len(),
        flip_rows(pixels, row_len, height)[(r * row_len + j) as int] == pixels[(height - 1 - r)
            * row_len + j],
{
    assert(r * row_len + j < row_len * height) by (nonlinear_arith)
        requires
            r < height,
            j < row_len,
    ;
    lemma_fundamental_div_mod_converse((r * row_len + j) as int, row_len as int, r as int, j as int);
}

} // verus!
