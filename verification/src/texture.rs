//! Textures: decoded RGBA images that materials sample.

use vstd::prelude::*;
use std::sync::Arc;
use crate::color::Color;

verus! {

/// A shared, decoded RGBA image of the `image` crate.
#[verifier::external_body]
pub struct Image {
    inner: Arc<image::RgbaImage>,
}

/// What `ImageBuffer::width` returns for an image.
pub uninterp spec fn image_width(image: Image) -> nat;

/// What `ImageBuffer::height` returns for an image.
pub uninterp spec fn image_height(image: Image) -> nat;

/// The samples that an image holds: four bytes (red, green, blue, alpha) for
/// each pixel, row after row from the top, each row from the left.
pub uninterp spec fn image_samples(image: Image) -> Seq<u8>;

/// Where the first sample of pixel `(x, y)` stands in an image `width` wide.
pub open spec fn sample_index(width: nat, x: nat, y: nat) -> int {
    ((y * width + x) * 4) as int
}

/// Four bytes for each pixel of a row, and then for each pixel of the image,
/// can be counted in `usize`, and `len` bytes are at least as many.
pub open spec fn raw_fits(width: nat, height: nat, len: nat) -> bool {
    4 * width <= usize::MAX && 4 * width * height <= usize::MAX && 4 * width * height <= len
}

/// `ImageBuffer::from_raw` on a byte vector: it makes an image exactly when
/// four bytes for each of `width * height` pixels can be counted in `usize`
/// and the vector holds at least as many. The image then has this width and
/// height, and its samples are the vector's bytes.
#[verifier::external_body]
fn image_from_raw(width: u32, height: u32, data: Vec<u8>) -> (made: Option<Image>)
    ensures
        made.is_some() == raw_fits(width as nat, height as nat, data@.len()),
        made matches Some(image) ==> image_width(image) == width && image_height(image) == height
            && image_samples(image) == data@,
{
    match image::RgbaImage::from_raw(width, height, data) {
        Some(buffer) => Some(Image { inner: Arc::new(buffer) }),
        None => None,
    }
}

/// `ImageBuffer::width`.
#[verifier::external_body]
fn width_of(image: &Image) -> (width: u32)
    ensures
        width == image_width(*image),
{
    image.inner.width()
}

/// `ImageBuffer::height`.
#[verifier::external_body]
fn height_of(image: &Image) -> (height: u32)
    ensures
        height == image_height(*image),
{
    image.inner.height()
}

/// Where the first sample of pixel `(x, y)` stands in an image.
pub open spec fn at_pixel(image: Image, x: u32, y: u32) -> int {
    sample_index(image_width(image), x as nat, y as nat)
}

/// `ImageBuffer::get_pixel` inside the image's bounds (outside them it
/// panics): the four samples of the pixel, as they stand in the image.
#[verifier::external_body]
fn pixel_of(image: &Image, x: u32, y: u32) -> (samples: [u8; 4])
    requires
        x < image_width(*image),
        y < image_height(*image),
    ensures
        samples[0] == image_samples(*image)[at_pixel(*image, x, y)],
        samples[1] == image_samples(*image)[at_pixel(*image, x, y) + 1],
        samples[2] == image_samples(*image)[at_pixel(*image, x, y) + 2],
        samples[3] == image_samples(*image)[at_pixel(*image, x, y) + 3],
{
    image.inner.get_pixel(x, y).0
}

/// `Arc::clone`: another handle to the same image.
#[verifier::external_body]
fn share(image: &Image) -> (other: Image)
    ensures
        other == *image,
{
    Image { inner: Arc::clone(&image.inner) }
}

/// An image with at least one pixel. Clones share the pixels.
pub struct Texture {
    image: Image,
}

impl Texture {
    #[verifier::type_invariant]
    spec fn populated(self) -> bool {
        image_width(self.image) > 0 && image_height(self.image) > 0
    }

    /// The number of pixels in a row.
    pub closed spec fn width(self) -> nat {
        image_width(self.image)
    }

    /// The number of rows.
    pub closed spec fn height(self) -> nat {
        image_height(self.image)
    }

    /// The samples, four to a pixel, in row-major order from the top left.
    pub closed spec fn samples(self) -> Seq<u8> {
        image_samples(self.image)
    }

    /// The colour of pixel `(x, y)`: its first three samples.
    pub open spec fn pixel(self, x: nat, y: nat) -> Color {
        let at = sample_index(self.width(), x, y);
        Color::rgb(self.samples()[at], self.samples()[at + 1], self.samples()[at + 2])
    }

    /// The colour at `(x, y)`, each coordinate held to the last row or
    /// column.
    pub open spec fn sample(self, x: nat, y: nat) -> Color {
        self.pixel(
            if x < self.width() {
                x
            } else {
                (self.width() - 1) as nat
            },
            if y < self.height() {
                y
            } else {
                (self.height() - 1) as nat
            },
        )
    }

    /// A texture of `width * height` pixels over RGBA bytes in row-major
    /// order; `None` when a dimension is zero or the bytes are too few.
    pub fn from_raw(width: u32, height: u32, data: Vec<u8>) -> (made: Option<Texture>)
        ensures
            made is Some <==> width > 0 && height > 0 && 4 * width * height <= data.len(),
            made matches Some(texture) ==> texture.width() == width && texture.height() == height
                && texture.samples() == data@,
    {
        if width == 0 || height == 0 {
            return None;
        }
        proof {
            if 4 * width * height <= data.len() {
                assert(4 * width <= 4 * width * height) by (nonlinear_arith)
                    requires
                        height >= 1,
                        width >= 0,
                ;
            }
        }
        match image_from_raw(width, height, data) {
            Some(image) => Some(Texture { image }),
            None => None,
        }
    }

    /// The number of pixels in a row; never zero.
    pub fn columns(&self) -> (width: u32)
        ensures
            width == self.width(),
            width > 0,
    {
        proof {
            use_type_invariant(self);
        }
        width_of(&self.image)
    }

    /// The number of rows; never zero.
    pub fn rows(&self) -> (height: u32)
        ensures
            height == self.height(),
            height > 0,
    {
        proof {
            use_type_invariant(self);
        }
        height_of(&self.image)
    }

    /// The colour of the pixel at `(x, y)`, a coordinate beyond the last
    /// column or row being held to it.
    pub fn get(&self, x: u32, y: u32) -> (color: Color)
        ensures
            color == self.sample(x as nat, y as nat),
    {
        let width: u32 = self.columns();
        let height: u32 = self.rows();
        let column: u32 = if x < width {
            x
        } else {
            width - 1
        };
        let row: u32 = if y < height {
            y
        } else {
            height - 1
        };
        let samples: [u8; 4] = pixel_of(&self.image, column, row);
        Color::new(samples[0], samples[1], samples[2])
    }
}

impl Clone for Texture {
    /// Another handle to the same pixels.
    fn clone(&self) -> (other: Self)
        ensures
            other == *self,
    {
        proof {
            use_type_invariant(self);
        }
        Texture { image: share(&self.image) }
    }
}

} // verus!
