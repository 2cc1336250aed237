//! Geometry of a shared framebuffer: its checked dimensions, its size in
//! bytes and pages, and the window-dump message that exports its pages.
use crate::castable::{encode_words, lemma_words_round_trip, words_bytes, Castable};
use crate::protocol::{
    lemma_window_limits, spec_length_ok, WindowDumpHeader, MAX_GRANT_REFS_COUNT,
    MAX_WINDOW_HEIGHT, MAX_WINDOW_WIDTH, MSG_WINDOW_DUMP, WINDOW_DUMP_TYPE_GRANT_REFS, XC_PAGE_SIZE,
};
use crate::stream::append_slice;
use vstd::prelude::*;

verus! {

/// Why dimensions were rejected.
#[derive(Debug, Clone, Copy, PartialEq, Eq, Structural)]
pub enum DimensionError {
    /// Width or height above the maximum
    TooLarge { width: u32, height: u32 },
    /// Width or height zero
    Zero { width: u32, height: u32 },
}

/// Size in bytes of a `width` by `height` buffer of 4-byte pixels.
pub open spec fn spec_buffer_size(width: u32, height: u32) -> nat {
    (width * height * 4) as nat
}

/// Number of pages of a `width` by `height` buffer.
pub open spec fn spec_grefs(width: u32, height: u32) -> nat {
    ((spec_buffer_size(width, height) + XC_PAGE_SIZE - 1) / XC_PAGE_SIZE as int) as nat
}

/// Whether a `width` by `height` buffer may be allocated.
pub open spec fn valid_dimensions(width: u32, height: u32) -> bool {
    0 < width <= MAX_WINDOW_WIDTH && 0 < height <= MAX_WINDOW_HEIGHT
}

/// Dimensions of a window buffer, within the protocol's limits.
#[derive(Debug, Clone, Copy, PartialEq, Eq, Structural)]
pub struct WindowDimensions {
    width: u32,
    height: u32,
}

/// The largest buffer fits in `u32`, a page below its maximum.
proof fn lemma_size_bounds(width: u32, height: u32)
    requires
        valid_dimensions(width, height),
    ensures
        width * height * 4 <= MAX_WINDOW_WIDTH * MAX_WINDOW_HEIGHT * 4,
        MAX_WINDOW_WIDTH * MAX_WINDOW_HEIGHT * 4 + XC_PAGE_SIZE < u32::MAX,
{
    lemma_window_limits();
    assert(width * height <= MAX_WINDOW_WIDTH * MAX_WINDOW_HEIGHT) by (nonlinear_arith)
        requires
            0 < width <= MAX_WINDOW_WIDTH,
            0 < height <= MAX_WINDOW_HEIGHT,
    ;
}

impl WindowDimensions {
    /// The width, in pixels.
    pub closed spec fn spec_width(&self) -> u32 {
        self.width
    }

    /// The height, in pixels.
    pub closed spec fn spec_height(&self) -> u32 {
        self.height
    }

    /// Dimensions are within the limits.
    pub open spec fn wf(&self) -> bool {
        valid_dimensions(self.spec_width(), self.spec_height())
    }

    /// Checks the dimensions: too large ones are rejected first, then zero
    /// ones.
    pub fn new(width: u32, height: u32) -> (r: Result<Self, DimensionError>)
        ensures
            match r {
                Ok(d) => valid_dimensions(width, height) && d.spec_width() == width
                    && d.spec_height() == height && d.wf(),
                Err(DimensionError::TooLarge { width: w, height: h }) => (width > MAX_WINDOW_WIDTH
                    || height > MAX_WINDOW_HEIGHT) && w == width && h == height,
                Err(DimensionError::Zero { width: w, height: h }) => width <= MAX_WINDOW_WIDTH
                    && height <= MAX_WINDOW_HEIGHT && (width == 0 || height == 0) && w == width
                    && h == height,
            },
    {
        if width > MAX_WINDOW_WIDTH || height > MAX_WINDOW_HEIGHT {
            return Err(DimensionError::TooLarge { width, height });
        }
        if width == 0 || height == 0 {
            return Err(DimensionError::Zero { width, height });
        }
        Ok(WindowDimensions { width, height })
    }

    /// Size of the buffer in bytes: four per pixel.
    pub fn buffer_size(&self) -> (r: usize)
        requires
            self.wf(),
        ensures
            r == spec_buffer_size(self.spec_width(), self.spec_height()),
            r == self.spec_width() * self.spec_height() * 4,
    {
        proof {
            lemma_size_bounds(self.width, self.height);
        }
        (self.width * self.height * 4) as usize
    }

    /// Number of pages, and so of grant references, of the buffer.
    pub fn grefs(&self) -> (r: u32)
        requires
            self.wf(),
        ensures
            r == spec_grefs(self.spec_width(), self.spec_height()),
            r <= MAX_GRANT_REFS_COUNT,
    {
        proof {
            lemma_size_bounds(self.width, self.height);
            lemma_window_limits();
        }
        let size = self.width * self.height * 4;
        (size + XC_PAGE_SIZE - 1) / XC_PAGE_SIZE
    }

    /// The width, in pixels.
    pub fn width(&self) -> (r: u32)
        ensures
            r == self.spec_width(),
    {
        self.width
    }

    /// The height, in pixels.
    pub fn height(&self) -> (r: u32)
        ensures
            r == self.spec_height(),
    {
        self.height
    }

    /// Whether `len` bytes of pixels may be written at byte `offset`: both
    /// are whole pixels and the range lies in the buffer.
    pub fn can_write(&self, offset: usize, len: usize) -> (r: bool)
        requires
            self.wf(),
        ensures
            r == (offset % 4 == 0 && len % 4 == 0 && offset + len <= spec_buffer_size(
                self.spec_width(),
                self.spec_height(),
            )),
    {
        let size = self.buffer_size();
        offset % 4 == 0 && len % 4 == 0 && len <= size && offset <= size - len
    }

    /// The header of the window dump of a buffer of these dimensions.
    pub open spec fn spec_dump_header(&self) -> WindowDumpHeader {
        WindowDumpHeader {
            ty: WINDOW_DUMP_TYPE_GRANT_REFS,
            width: self.spec_width(),
            height: self.spec_height(),
            bpp: 24,
        }
    }

    /// The body of the window-dump message that exports a buffer of these
    /// dimensions: the dump header, then the grant references.
    pub fn window_dump(&self, grants: &[u32]) -> (r: Vec<u8>)
        requires
            self.wf(),
            grants@.len() == spec_grefs(self.spec_width(), self.spec_height()),
        ensures
            r@ == self.spec_dump_header().spec_bytes() + words_bytes(grants@),
            r@.len() == 16 + 4 * grants@.len(),
            spec_length_ok(MSG_WINDOW_DUMP, r@.len()),
    {
        let header = WindowDumpHeader {
            ty: WINDOW_DUMP_TYPE_GRANT_REFS,
            width: self.width,
            height: self.height,
            bpp: 24,
        };
        let mut msg = header.as_bytes();
        let ids = encode_words(grants);
        append_slice(&mut msg, ids.as_slice());
        proof {
            header.lemma_round_trip();
            lemma_words_round_trip(grants@);
            lemma_size_bounds(self.width, self.height);
            lemma_window_limits();
        }
        msg
    }
}

} // verus!
