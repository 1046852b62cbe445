//! The shared-memory pixel buffer: `width * height` ARGB words in row-major
//! order, four bytes each, no padding between rows.

use crate::crosshair::{crosshair_pixel, crosshair_word};
use crate::decoded::{image_height, image_is_float, image_rgba, image_width, is_float, rgba_at};
use crate::pixel::{lemma_word_bytes_roundtrip, pack_rgba, rgba_word, word_bytes, word_of_bytes};
use image::DynamicImage;
use vstd::prelude::*;

verus! {

/// What a pixel buffer holds.
pub struct Pixels {
    pub width: u32,
    pub height: u32,
    pub bytes: Seq<u8>,
}

/// Whether a buffer of these dimensions can be described to the compositor,
/// which takes size, stride, width and height as signed 32-bit numbers.
pub open spec fn valid_dimensions(width: u32, height: u32) -> bool {
    &&& width * 4 <= i32::MAX
    &&& height <= i32::MAX
    &&& width * height * 4 <= i32::MAX
}

impl Pixels {
    /// Bytes in one row.
    pub open spec fn stride(self) -> int {
        self.width * 4
    }

    /// Bytes in the whole buffer.
    pub open spec fn size(self) -> int {
        self.width * self.height * 4
    }

    /// The dimensions fit the protocol and the bytes fill them exactly.
    pub open spec fn wf(self) -> bool {
        &&& valid_dimensions(self.width, self.height)
        &&& self.bytes.len() == self.size()
    }

    /// The word stored for the pixel with row-major index `i`.
    pub open spec fn word(self, i: int) -> u32 {
        word_of_bytes(
            self.bytes[4 * i],
            self.bytes[4 * i + 1],
            self.bytes[4 * i + 2],
            self.bytes[4 * i + 3],
        )
    }

    /// The word stored for the pixel in column `x` of row `y`.
    pub open spec fn pixel(self, x: int, y: int) -> u32 {
        self.word(y * self.width + x)
    }

    /// Every pixel holds the word that `f` gives for its column and row.
    pub open spec fn painted(self, f: spec_fn(int, int) -> u32) -> bool {
        forall|x: int, y: int|
            0 <= x < self.width && 0 <= y < self.height ==> #[trigger] self.pixel(x, y) == f(x, y)
    }
}

/// Why no buffer was produced.
#[derive(Clone, Copy, Debug, PartialEq, Eq, Structural)]
pub enum BufferError {
    /// Size, stride, width or height does not fit a signed 32-bit number.
    TooLarge,
    /// The image holds floating-point samples. It has to be converted to
    /// eight-bit RGBA before it is drawn.
    FloatSamples,
}

/// The error that a buffer from an image of these properties meets, if any.
pub open spec fn image_error(float: bool, width: u32, height: u32) -> Option<BufferError> {
    if float {
        Some(BufferError::FloatSamples)
    } else if !valid_dimensions(width, height) {
        Some(BufferError::TooLarge)
    } else {
        None
    }
}

/// A pixel buffer ready to be written to shared memory.
pub struct PixelBuffer {
    width: u32,
    height: u32,
    data: Vec<u8>,
}

impl View for PixelBuffer {
    type V = Pixels;

    closed spec fn view(&self) -> Pixels {
        Pixels { width: self.width, height: self.height, bytes: self.data@ }
    }
}

/// Row-major indices order pixels by row, then by column.
pub proof fn lemma_row_major(width: int, x: int, y: int, p: int, q: int)
    requires
        0 <= x < width,
        0 <= p < width,
        0 <= y,
        0 <= q,
    ensures
        0 <= y * width + x,
        (q < y || (q == y && p < x)) <==> q * width + p < y * width + x,
        (q == y && p == x) <==> q * width + p == y * width + x,
        y * width + x < (y + 1) * width,
        (y + 1) * width == y * width + width,
{
    assert(0 <= y * width) by (nonlinear_arith)
        requires
            0 <= y,
            0 < width,
    ;
    assert((y + 1) * width == y * width + width) by (nonlinear_arith);
    if q < y {
        assert((q + 1) * width <= y * width) by (nonlinear_arith)
            requires
                q + 1 <= y,
                0 < width,
        ;
        assert((q + 1) * width == q * width + width) by (nonlinear_arith);
    } else if y < q {
        assert((y + 1) * width <= q * width) by (nonlinear_arith)
            requires
                y + 1 <= q,
                0 < width,
        ;
    }
}

/// A buffer's size bounds every row-major index of a pixel in it.
pub proof fn lemma_pixel_in_bounds(width: int, height: int, x: int, y: int)
    requires
        0 <= x < width,
        0 <= y < height,
    ensures
        0 <= y * width + x < width * height,
{
    lemma_row_major(width, x, y, 0, 0);
    assert((y + 1) * width <= height * width) by (nonlinear_arith)
        requires
            y + 1 <= height,
            0 < width,
    ;
    assert(height * width == width * height) by (nonlinear_arith);
}

/// Tests `valid_dimensions`.
pub fn dimensions_fit(width: u32, height: u32) -> (fit: bool)
    ensures
        fit == valid_dimensions(width, height),
{
    if width > 0x1fff_ffff || height > 0x7fff_ffff {
        return false;
    }
    assert(width * height <= 0x1fff_ffff * 0x7fff_ffff) by (nonlinear_arith)
        requires
            width <= 0x1fff_ffff,
            height <= 0x7fff_ffff,
    ;
    assert(width * height * 4 == (width * height) * 4);
    let pixels: u64 = width as u64 * height as u64;
    pixels * 4 <= 0x7fff_ffff
}

/// Appends the four bytes of `word`, least significant first.
fn push_word(data: &mut Vec<u8>, word: u32)
    ensures
        final(data)@ == old(data)@ + word_bytes(word),
{
    data.push((word & 0xff) as u8);
    data.push(((word >> 8) & 0xff) as u8);
    data.push(((word >> 16) & 0xff) as u8);
    data.push(((word >> 24) & 0xff) as u8);
    assert(data@ =~= old(data)@ + word_bytes(word));
}

/// Where the pixels of a buffer come from.
enum Source<'a> {
    /// Drawn by formula.
    Crosshair,
    /// Copied from a decoded image.
    Image(&'a DynamicImage),
}

impl Source<'_> {
    /// The word that the source gives for column `x` of row `y`.
    spec fn word(self, width: int, height: int, x: int, y: int) -> u32 {
        match self {
            Source::Crosshair => crosshair_word(width, height, x, y),
            Source::Image(image) => rgba_word(image_rgba(*image)[(x, y)]),
        }
    }

    /// The source has a pixel for every position of a `width` by `height` buffer.
    spec fn covers(self, width: u32, height: u32) -> bool {
        match self {
            Source::Crosshair => true,
            Source::Image(image) => {
                &&& !image_is_float(*image)
                &&& width == image_width(*image)
                &&& height == image_height(*image)
            },
        }
    }

    fn word_at(&self, width: u32, height: u32, x: u32, y: u32) -> (word: u32)
        requires
            self.covers(width, height),
            x < width,
            y < height,
        ensures
            word == self.word(width as int, height as int, x as int, y as int),
    {
        match self {
            Source::Crosshair => crosshair_pixel(width, height, x, y),
            Source::Image(image) => pack_rgba(rgba_at(image, x, y)),
        }
    }
}

impl PixelBuffer {
    #[verifier::type_invariant]
    spec fn inv(self) -> bool {
        self@.wf()
    }

    /// Bytes in one row, as the protocol wants them.
    pub fn stride(&self) -> (stride: i32)
        ensures
            stride == self@.stride(),
            self@.wf(),
    {
        proof {
            use_type_invariant(self);
        }
        (self.width * 4) as i32
    }

    /// Bytes in the whole buffer, as the protocol wants them.
    pub fn size(&self) -> (size: i32)
        ensures
            size == self@.size(),
            size == self@.bytes.len(),
            self@.wf(),
    {
        proof {
            use_type_invariant(self);
            assert(self.width * self.height * 4 == (self.width * 4) * self.height)
                by (nonlinear_arith);
        }
        let stride: u64 = self.width as u64 * 4;
        (stride * self.height as u64) as i32
    }

    /// Width in pixels.
    pub fn width(&self) -> (width: u32)
        ensures
            width == self@.width,
    {
        self.width
    }

    /// Height in pixels.
    pub fn height(&self) -> (height: u32)
        ensures
            height == self@.height,
    {
        self.height
    }

    /// The bytes to place in shared memory.
    pub fn bytes(&self) -> (bytes: &Vec<u8>)
        ensures
            bytes@ == self@.bytes,
    {
        &self.data
    }

    /// Fills a buffer row by row from `source`.
    fn paint(width: u32, height: u32, source: &Source) -> (buffer: PixelBuffer)
        requires
            valid_dimensions(width, height),
            source.covers(width, height),
        ensures
            buffer@.wf(),
            buffer@.width == width,
            buffer@.height == height,
            buffer@.painted(|x: int, y: int| source.word(width as int, height as int, x, y)),
    {
        let ghost f = |x: int, y: int| source.word(width as int, height as int, x, y);
        let mut data: Vec<u8> = Vec::new();
        let mut y: u32 = 0;
        while y < height
            invariant
                y <= height,
                source.covers(width, height),
                f == |x: int, y: int| source.word(width as int, height as int, x, y),
                data@.len() == 4 * (y * width),
                forall|p: int, q: int|
                    0 <= p < width && 0 <= q < y ==> #[trigger] (Pixels {
                        width,
                        height,
                        bytes: data@,
                    }).pixel(p, q) == f(p, q),
            decreases height - y,
        {
            let mut x: u32 = 0;
            while x < width
                invariant
                    x <= width,
                    y < height,
                    source.covers(width, height),
                    f == |x: int, y: int| source.word(width as int, height as int, x, y),
                    data@.len() == 4 * (y * width + x),
                    forall|p: int, q: int|
                        0 <= p < width && (0 <= q < y || (q == y && p < x)) ==> #[trigger] (Pixels {
                            width,
                            height,
                            bytes: data@,
                        }).pixel(p, q) == f(p, q),
                decreases width - x,
            {
                let word = source.word_at(width, height, x, y);
                let ghost before = data@;
                push_word(&mut data, word);
                proof {
                    let now = Pixels { width, height, bytes: data@ };
                    let was = Pixels { width, height, bytes: before };
                    lemma_word_bytes_roundtrip(word);
                    assert forall|p: int, q: int|
                        0 <= p < width && (0 <= q < y || (q == y && p < x + 1)) implies #[trigger] now.pixel(
                        p,
                        q,
                    ) == f(p, q) by {
                        lemma_row_major(width as int, x as int, y as int, p, q);
                        if q == y && p == x {
                            assert(now.pixel(p, q) == word);
                        } else {
                            assert(was.pixel(p, q) == f(p, q));
                            assert(now.pixel(p, q) == was.pixel(p, q));
                        }
                    }
                }
                x = x + 1;
            }
            assert((y + 1) * width == y * width + width) by (nonlinear_arith);
            y = y + 1;
        }
        proof {
            assert(width * height == height * width) by (nonlinear_arith);
        }
        PixelBuffer { width, height, data }
    }

    /// The procedurally drawn crosshair of the given dimensions.
    ///
    /// Fails exactly when the dimensions do not fit the protocol. On success
    /// the buffer holds `width * height * 4` bytes and every pixel is the
    /// crosshair's word for its position.
    pub fn crosshair(width: u32, height: u32) -> (made: Result<PixelBuffer, BufferError>)
        ensures
            made is Ok <==> valid_dimensions(width, height),
            made is Err ==> made == Err::<PixelBuffer, BufferError>(BufferError::TooLarge),
            made matches Ok(buffer) ==> {
                &&& buffer@.wf()
                &&& buffer@.width == width
                &&& buffer@.height == height
                &&& buffer@.bytes.len() == width * height * 4
                &&& buffer@.painted(
                    |x: int, y: int| crosshair_word(width as int, height as int, x, y),
                )
            },
    {
        if !dimensions_fit(width, height) {
            return Err(BufferError::TooLarge);
        }
        let buffer = PixelBuffer::paint(width, height, &Source::Crosshair);
        assert(buffer@.painted(|x: int, y: int| crosshair_word(width as int, height as int, x, y)))
            by {
            assert forall|x: int, y: int| 0 <= x < width && 0 <= y < height implies #[trigger] buffer@.pixel(x, y)
                == crosshair_word(width as int, height as int, x, y) by {
                assert(buffer@.pixel(x, y) == Source::Crosshair.word(
                    width as int,
                    height as int,
                    x,
                    y,
                ));
            }
        }
        Ok(buffer)
    }

    /// The pixels of a decoded image, converted to ARGB words.
    ///
    /// The buffer has the image's own dimensions. Fails exactly when the
    /// image holds floating-point samples or its dimensions do not fit the
    /// protocol, with the error that `image_error` gives. On success the
    /// buffer holds `width * height * 4` bytes and every pixel is the ARGB
    /// word of the image's pixel at the same position.
    pub fn from_image(image: &DynamicImage) -> (made: Result<PixelBuffer, BufferError>)
        ensures
            made is Ok <==> !image_is_float(*image) && valid_dimensions(
                image_width(*image),
                image_height(*image),
            ),
            made matches Err(error) ==> image_error(
                image_is_float(*image),
                image_width(*image),
                image_height(*image),
            ) == Some(error),
            made matches Ok(buffer) ==> {
                &&& buffer@.wf()
                &&& buffer@.width == image_width(*image)
                &&& buffer@.height == image_height(*image)
                &&& buffer@.bytes.len() == image_width(*image) * image_height(*image) * 4
                &&& buffer@.painted(|x: int, y: int| rgba_word(image_rgba(*image)[(x, y)]))
            },
    {
        if is_float(image) {
            return Err(BufferError::FloatSamples);
        }
        let width = image.width();
        let height = image.height();
        if !dimensions_fit(width, height) {
            return Err(BufferError::TooLarge);
        }
        let source = Source::Image(image);
        let buffer = PixelBuffer::paint(width, height, &source);
        assert(buffer@.painted(|x: int, y: int| rgba_word(image_rgba(*image)[(x, y)]))) by {
            assert forall|x: int, y: int| 0 <= x < width && 0 <= y < height implies #[trigger] buffer@.pixel(x, y)
                == rgba_word(image_rgba(*image)[(x, y)]) by {
                assert(buffer@.pixel(x, y) == source.word(width as int, height as int, x, y));
            }
        }
        Ok(buffer)
    }
}

} // verus!
