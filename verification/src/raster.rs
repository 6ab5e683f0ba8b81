//! The pixel buffer of the `image` crate, as far as this library uses it.

use vstd::prelude::*;

verus! {

/// An RGB image of the `image` crate with eight bits per sample.
#[verifier::external_body]
pub struct Canvas {
    img: image::RgbImage,
}

/// The width of a canvas in pixels.
pub uninterp spec fn canvas_width(canvas: Canvas) -> nat;

/// The height of a canvas in pixels.
pub uninterp spec fn canvas_height(canvas: Canvas) -> nat;

/// The samples of a canvas: row after row from the top, in each row pixel
/// after pixel from the left, for each pixel its red, green and blue value.
pub uninterp spec fn canvas_samples(canvas: Canvas) -> Seq<u8>;

/// A canvas has three samples for each of its pixels, and sides that fit
/// the 32 bits the `image` crate keeps them in.
pub open spec fn canvas_wf(canvas: Canvas) -> bool {
    &&& canvas_width(canvas) <= u32::MAX
    &&& canvas_height(canvas) <= u32::MAX
    &&& canvas_samples(canvas).len() == 3 * (canvas_width(canvas) * canvas_height(canvas))
}

/// The three samples of the pixel with the row-major number `p`.
pub open spec fn triple(samples: Seq<u8>, p: int) -> (u8, u8, u8) {
    (samples[3 * p], samples[3 * p + 1], samples[3 * p + 2])
}

/// `ImageBuffer::new`: an image of the given size with every sample zero.
/// It panics where three samples per pixel are more than a vector holds;
/// `requires` leaves that out.
#[verifier::external_body]
pub(crate) fn blank_canvas(width: u32, height: u32) -> (canvas: Canvas)
    requires
        3 * (width * height) <= isize::MAX,
    ensures
        canvas_width(canvas) == width,
        canvas_height(canvas) == height,
        canvas_samples(canvas) == Seq::new((3 * (width * height)) as nat, |i: int| 0u8),
{
    Canvas { img: image::RgbImage::new(width, height) }
}

/// `ImageBuffer::put_pixel`: the three samples of the pixel at `(x, y)`
/// become `r`, `g`, `b` and nothing else changes. It panics outside the
/// image; `requires` leaves that out.
#[verifier::external_body]
pub(crate) fn put_pixel(canvas: &mut Canvas, x: u32, y: u32, r: u8, g: u8, b: u8)
    requires
        x < canvas_width(*old(canvas)),
        y < canvas_height(*old(canvas)),
    ensures
        canvas_width(*final(canvas)) == canvas_width(*old(canvas)),
        canvas_height(*final(canvas)) == canvas_height(*old(canvas)),
        canvas_samples(*final(canvas)) == canvas_samples(*old(canvas)).update(
            3 * (y * canvas_width(*old(canvas)) + x),
            r,
        ).update(3 * (y * canvas_width(*old(canvas)) + x) + 1, g).update(
            3 * (y * canvas_width(*old(canvas)) + x) + 2,
            b,
        ),
{
    canvas.img.put_pixel(x, y, image::Rgb([r, g, b]))
}

/// `ImageBuffer::into_raw`: the samples of the image as a vector.
#[verifier::external_body]
pub(crate) fn into_samples(canvas: Canvas) -> (samples: Vec<u8>)
    ensures
        samples@ == canvas_samples(canvas),
{
    canvas.img.into_raw()
}

} // verus!
