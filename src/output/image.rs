use vstd::prelude::*;

verus! {

/// An 8-bit RGB pixel buffer of the `image` crate, which the contracts below describe
/// through [`rgb_pixels`] and [`rgb_dimensions`].
#[verifier::external_body]
pub struct RgbBuffer {
    pub image: image::RgbImage,
}

/// The colour stored at each pixel of an 8-bit RGB buffer, keyed by `(x, y)`.
pub uninterp spec fn rgb_pixels(buffer: RgbBuffer) -> Map<(u32, u32), [u8; 3]>;

/// The width and height of an 8-bit RGB buffer.
pub uninterp spec fn rgb_dimensions(buffer: RgbBuffer) -> (u32, u32);

/// Every pixel of a `w` by `h` buffer, all of them black.
pub open spec fn black_pixels(w: u32, h: u32) -> Map<(u32, u32), [u8; 3]> {
    Map::new(|p: (u32, u32)| p.0 < w && p.1 < h, |p: (u32, u32)| [0u8, 0u8, 0u8])
}

/// Relies on `ImageBuffer::new`: a buffer of the given size with every subpixel zero.
/// It panics when `3 * w * h` overflows `usize`, and the vector it allocates holds at
/// most `isize::MAX` bytes.
#[verifier::external_body]
fn new_rgb_buffer(w: u32, h: u32) -> (r: RgbBuffer)
    requires
        3 * (w as int) * (h as int) <= isize::MAX,
    ensures
        rgb_dimensions(r) == (w, h),
        rgb_pixels(r) == black_pixels(w, h),
{
    RgbBuffer { image: image::RgbImage::new(w, h) }
}

/// Relies on `ImageBuffer::put_pixel`: it replaces the one pixel at `(x, y)` and panics
/// outside the buffer.
#[verifier::external_body]
fn put_rgb(buffer: &mut RgbBuffer, x: u32, y: u32, rgb: [u8; 3])
    requires
        x < rgb_dimensions(*old(buffer)).0,
        y < rgb_dimensions(*old(buffer)).1,
    ensures
        rgb_dimensions(*final(buffer)) == rgb_dimensions(*old(buffer)),
        rgb_pixels(*final(buffer)) == rgb_pixels(*old(buffer)).insert((x, y), rgb),
{
    buffer.image.put_pixel(x, y, image::Rgb(rgb))
}

/// Relies on `ImageBuffer::get_pixel`: the pixel at `(x, y)`; it panics outside the
/// buffer.
#[verifier::external_body]
fn get_rgb(buffer: &RgbBuffer, x: u32, y: u32) -> (r: [u8; 3])
    requires
        x < rgb_dimensions(*buffer).0,
        y < rgb_dimensions(*buffer).1,
    ensures
        r == rgb_pixels(*buffer)[(x, y)],
{
    buffer.image.get_pixel(x, y).0
}

/// An 8-bit RGB image that a render writes into, one pixel at a time.
///
/// Its pixel buffer is allocated by [`Image::init`]; writing or reading a pixel
/// before that is a usage error, which the contracts rule out.
pub struct Image {
    w: u32,
    h: u32,
    buffer: Option<RgbBuffer>,
}

impl Image {
    /// The buffer, when allocated, has the size the image was made with, and each of
    /// its pixels lies within that size.
    pub closed spec fn wf(&self) -> bool {
        match self.buffer {
            Some(b) => rgb_dimensions(b) == (self.w, self.h) && forall|p: (u32, u32)| #[trigger]
                rgb_pixels(b).contains_key(p) <==> (p.0 < self.w && p.1 < self.h),
            None => true,
        }
    }

    pub closed spec fn spec_width(&self) -> u32 {
        self.w
    }

    pub closed spec fn spec_height(&self) -> u32 {
        self.h
    }

    /// Whether the pixel buffer has been allocated.
    pub closed spec fn spec_initialized(&self) -> bool {
        self.buffer is Some
    }

    /// The colour of each pixel, once the buffer is allocated.
    pub closed spec fn pixels(&self) -> Map<(u32, u32), [u8; 3]> {
        rgb_pixels(self.buffer->Some_0)
    }

    /// An image of `w` by `h` pixels whose buffer is not allocated yet.
    pub fn new(w: u32, h: u32) -> (r: Image)
        ensures
            r.wf(),
            r.spec_width() == w,
            r.spec_height() == h,
            !r.spec_initialized(),
    {
        Image { w, h, buffer: None }
    }

    pub fn width(&self) -> (r: u32)
        ensures
            r == self.spec_width(),
    {
        self.w
    }

    pub fn height(&self) -> (r: u32)
        ensures
            r == self.spec_height(),
    {
        self.h
    }

    pub fn is_initialized(&self) -> (r: bool)
        ensures
            r == self.spec_initialized(),
    {
        self.buffer.is_some()
    }

    /// Allocates the pixel buffer, every pixel black; a buffer already there is
    /// replaced.
    pub fn init(&mut self)
        requires
            3 * (old(self).spec_width() as int) * (old(self).spec_height() as int) <= isize::MAX,
        ensures
            final(self).wf(),
            final(self).spec_width() == old(self).spec_width(),
            final(self).spec_height() == old(self).spec_height(),
            final(self).spec_initialized(),
            final(self).pixels() == black_pixels(old(self).spec_width(), old(self).spec_height()),
    {
        self.buffer = Some(new_rgb_buffer(self.w, self.h));
    }

    /// Sets the pixel in column `x` and row `y` (row 0 at the top) to `rgb`.
    pub fn put_pixel(&mut self, x: u32, y: u32, rgb: [u8; 3])
        requires
            old(self).wf(),
            old(self).spec_initialized(),
            x < old(self).spec_width(),
            y < old(self).spec_height(),
        ensures
            final(self).wf(),
            final(self).spec_width() == old(self).spec_width(),
            final(self).spec_height() == old(self).spec_height(),
            final(self).spec_initialized(),
            final(self).pixels() == old(self).pixels().insert((x, y), rgb),
    {
        match self.buffer.as_mut() {
            Some(buffer) => put_rgb(buffer, x, y, rgb),
            None => {},
        }
    }

    /// Sets every pixel to the colour `shade` gives for it, column by column from the
    /// left, each column from the top; each pixel is written once.
    pub fn fill<F: Fn(u32, u32) -> [u8; 3]>(&mut self, shade: &F)
        requires
            old(self).wf(),
            old(self).spec_initialized(),
            forall|x: u32, y: u32|
                x < old(self).spec_width() && y < old(self).spec_height() ==> #[trigger] shade.requires(
                    (x, y),
                ),
        ensures
            final(self).wf(),
            final(self).spec_width() == old(self).spec_width(),
            final(self).spec_height() == old(self).spec_height(),
            final(self).spec_initialized(),
            final(self).pixels().dom() == old(self).pixels().dom(),
            forall|x: u32, y: u32|
                x < final(self).spec_width() && y < final(self).spec_height() ==> shade.ensures(
                    (x, y),
                    #[trigger] final(self).pixels()[(x, y)],
                ),
    {
        let w = self.w;
        let h = self.h;
        let ghost dom = self.pixels().dom();
        let mut x: u32 = 0;
        while x < w
            invariant
                self.wf(),
                self.spec_initialized(),
                self.spec_width() == w,
                self.spec_height() == h,
                self.pixels().dom() == dom,
                x <= w,
                forall|i: u32, j: u32|
                    i < w && j < h ==> #[trigger] shade.requires((i, j)),
                forall|i: u32, j: u32|
                    i < x && j < h ==> shade.ensures((i, j), #[trigger] self.pixels()[(i, j)]),
            decreases w - x,
        {
            let mut y: u32 = 0;
            while y < h
                invariant
                    self.wf(),
                    self.spec_initialized(),
                    self.spec_width() == w,
                    self.spec_height() == h,
                    self.pixels().dom() == dom,
                    x < w,
                    y <= h,
                    forall|i: u32, j: u32|
                        i < w && j < h ==> #[trigger] shade.requires((i, j)),
                    forall|i: u32, j: u32|
                        (i < x && j < h) || (i == x && j < y) ==> shade.ensures(
                            (i, j),
                            #[trigger] self.pixels()[(i, j)],
                        ),
                decreases h - y,
            {
                let rgb = shade(x, y);
                self.put_pixel(x, y, rgb);
                y = y + 1;
            }
            x = x + 1;
        }
    }

    /// The colour of the pixel in column `x` and row `y`.
    pub fn pixel(&self, x: u32, y: u32) -> (r: [u8; 3])
        requires
            self.wf(),
            self.spec_initialized(),
            x < self.spec_width(),
            y < self.spec_height(),
        ensures
            r == self.pixels()[(x, y)],
    {
        match &self.buffer {
            Some(buffer) => get_rgb(buffer, x, y),
            None => [0u8, 0u8, 0u8],
        }
    }

    /// The allocated pixel buffer, for encoding it into a file.
    pub fn buffer(&self) -> (r: Option<&RgbBuffer>)
        ensures
            r is Some <==> self.spec_initialized(),
            self.wf() && r is Some ==> rgb_dimensions(*r->Some_0) == (
                self.spec_width(),
                self.spec_height(),
            ) && rgb_pixels(*r->Some_0) == self.pixels(),
    {
        self.buffer.as_ref()
    }
}

} // verus!
