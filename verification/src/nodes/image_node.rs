use vstd::prelude::*;

verus! {

/// An owned buffer of RGBA pixels with eight bits to the channel: an
/// `image::RgbaImage`. Verus is told nothing of what is inside; what the
/// buffer holds goes by the names `buffer_extent` and `buffer_samples`.
#[verifier::external_body]
#[derive(Debug)]
pub struct PixelBuffer {
    inner: image::RgbaImage,
}

/// Width and height of a buffer, in pixels.
pub uninterp spec fn buffer_extent(buffer: PixelBuffer) -> (u32, u32);

/// The samples of a buffer: four to the pixel, row by row.
pub uninterp spec fn buffer_samples(buffer: PixelBuffer) -> Seq<u8>;

/// `image::ImageBuffer::from_raw` for RGBA pixels in a `Vec<u8>`. It makes a
/// buffer exactly if the samples suffice for four channels of `width` times
/// `height` pixels; the buffer then has that width and height and holds all
/// the samples it was given.
#[verifier::external_body]
fn buffer_from_raw(width: u32, height: u32, samples: Vec<u8>) -> (buffer: Option<PixelBuffer>)
    ensures
        buffer is Some <==> 4 * width * height <= samples@.len(),
        buffer matches Some(made) ==> buffer_extent(made) == (width, height) && buffer_samples(made)
            == samples@,
{
    image::RgbaImage::from_raw(width, height, samples).map(|inner| PixelBuffer { inner })
}

/// `image::ImageBuffer::width`: the width the buffer was made with.
#[verifier::external_body]
fn buffer_width(buffer: &PixelBuffer) -> (width: u32)
    ensures
        width == buffer_extent(*buffer).0,
{
    buffer.inner.width()
}

/// `image::ImageBuffer::height`: the height the buffer was made with.
#[verifier::external_body]
fn buffer_height(buffer: &PixelBuffer) -> (height: u32)
    ensures
        height == buffer_extent(*buffer).1,
{
    buffer.inner.height()
}

/// `image::ImageBuffer::as_raw`: the samples the buffer holds.
#[verifier::external_body]
fn buffer_as_raw(buffer: &PixelBuffer) -> (samples: &Vec<u8>)
    ensures
        samples@ == buffer_samples(*buffer),
{
    buffer.inner.as_raw()
}

impl PixelBuffer {
    /// A buffer of `width` times `height` pixels over the given samples; none
    /// if the samples do not suffice.
    pub fn from_raw(width: u32, height: u32, samples: Vec<u8>) -> (buffer: Option<PixelBuffer>)
        ensures
            buffer is Some <==> 4 * width * height <= samples@.len(),
            buffer matches Some(made) ==> buffer_extent(made) == (width, height)
                && buffer_samples(made) == samples@,
    {
        buffer_from_raw(width, height, samples)
    }

    pub fn width(&self) -> (width: u32)
        ensures
            width == buffer_extent(*self).0,
    {
        buffer_width(self)
    }

    pub fn height(&self) -> (height: u32)
        ensures
            height == buffer_extent(*self).1,
    {
        buffer_height(self)
    }

    pub fn samples(&self) -> (samples: &Vec<u8>)
        ensures
            samples@ == buffer_samples(*self),
    {
        buffer_as_raw(self)
    }
}

/// A node in the scene graph which contains an image. The buffer is handed
/// out for reading only, so its dimensions are those it came with for as long
/// as the node lives.
#[derive(Debug)]
pub struct Image {
    buffer: PixelBuffer,
}

impl Image {
    /// The buffer the node was made with.
    pub closed spec fn pixels(&self) -> PixelBuffer {
        self.buffer
    }

    pub fn new(buffer: PixelBuffer) -> (image: Image)
        ensures
            image.pixels() == buffer,
    {
        Image { buffer: buffer }
    }

    pub fn buffer(&self) -> (buffer: &PixelBuffer)
        ensures
            *buffer == self.pixels(),
    {
        &self.buffer
    }

    /// Width and height of the image, in pixels.
    pub fn dimensions(&self) -> (dimensions: (u32, u32))
        ensures
            dimensions == buffer_extent(self.pixels()),
    {
        (self.buffer.width(), self.buffer.height())
    }
}

} // verus!
