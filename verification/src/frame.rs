//! Painted frames: how many bytes the engine's pixel buffer holds.
//!
//! The engine paints into a BGRA buffer of four bytes per pixel and reports
//! the frame's width and height as signed integers. Before the buffer is
//! looked at, the two numbers are checked and the length is computed from
//! them, so that the slice handed to an observer is exactly the frame.

use vstd::prelude::*;

verus! {

/// Bytes per pixel of a painted frame.
pub const BYTES_PER_PIXEL: u64 = 4;

/// The number of bytes in a frame of `width` by `height` pixels.
pub open spec fn frame_bytes(width: int, height: int) -> int {
    width * height * 4
}

/// Whether a slice can cover a frame of this size: neither side is negative,
/// and the bytes can be addressed.
pub open spec fn frame_fits(width: int, height: int) -> bool {
    0 <= width && 0 <= height && frame_bytes(width, height) <= isize::MAX
}

/// A frame whose size has been checked.
#[derive(Debug, Clone, Copy, PartialEq, Eq, Structural)]
pub struct Frame {
    /// The length of the pixel buffer in bytes. Where it is zero there is
    /// nothing to read, and the buffer must be left alone.
    pub len: usize,
    pub width: u32,
    pub height: u32,
}

/// Checks the size that the engine reports for a frame and gives the length
/// of its pixel buffer. A frame with a negative side, or too large to
/// address, is no frame.
pub fn on_frame(width: i32, height: i32) -> (frame: Option<Frame>)
    ensures
        frame is Some <==> frame_fits(width as int, height as int),
        frame matches Some(f) ==> f.len == frame_bytes(width as int, height as int) && f.width
            == width && f.height == height,
        frame matches Some(f) ==> (f.len == 0 <==> width == 0 || height == 0),
{
    proof {
        lemma_empty_frame(width as int, height as int);
    }
    if width < 0 || height < 0 {
        return None;
    }
    let w: u64 = width as u64;
    let h: u64 = height as u64;
    assert(w * h <= 0x7fff_ffff * 0x7fff_ffff) by (nonlinear_arith)
        requires
            w <= 0x7fff_ffff,
            h <= 0x7fff_ffff,
    ;
    let bytes: u64 = w * h * BYTES_PER_PIXEL;
    assert(bytes == frame_bytes(width as int, height as int));
    if bytes > isize::MAX as u64 {
        return None;
    }
    Some(Frame { len: bytes as usize, width: width as u32, height: height as u32 })
}

/// A frame has no bytes exactly when one of its sides is zero.
pub proof fn lemma_empty_frame(width: int, height: int)
    ensures
        frame_bytes(width, height) == 0 <==> width == 0 || height == 0,
{
    assert(width * height * 4 == 0 <==> width == 0 || height == 0) by (nonlinear_arith);
}

} // verus!
