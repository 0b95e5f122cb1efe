//! Frame-plane helpers for the synthetic show producers: the fixed
//! 1280 x 720 I420 geometry, index math between the chroma grid and the
//! luma plane, and constant fills.

use vstd::prelude::*;

verus! {

/// The luma plane width in pixels.
pub const WIDTH: usize = 1280;

/// The luma plane height in pixels.
pub const HEIGHT: usize = 720;

/// Frames per second when a producer does not choose its own rate.
pub const DEFAULT_FRAME_RATE: u32 = 30;

/// The chroma plane width: half the luma width.
pub const UV_WIDTH: usize = 640;

/// The chroma plane height: half the luma height.
pub const UV_HEIGHT: usize = 360;

/// A show draws each frame into the three I420 planes it is handed.
pub trait Show {
    fn frame(self, frame: usize, y: &mut Vec<u8>, u: &mut Vec<u8>, v: &mut Vec<u8>) -> Self;
}

/// The index of a chroma-grid cell inside a chroma plane.
pub fn uv_index(x: usize, y: usize) -> (r: usize)
    requires
        x < UV_WIDTH,
        y < UV_HEIGHT,
    ensures
        r == y * 640 + x,
        r < 640 * 360,
{
    (UV_WIDTH * y) + x
}

/// The four luma-plane indexes covered by one chroma-grid cell.
pub fn y_indexes(x: usize, y: usize) -> (r: [usize; 4])
    requires
        x < UV_WIDTH,
        y < UV_HEIGHT,
    ensures
        r@.len() == 4,
        r@[0] == (2 * y) * 1280 + 2 * x,
        r@[1] == (2 * y) * 1280 + 2 * x + 1,
        r@[2] == (2 * y + 1) * 1280 + 2 * x,
        r@[3] == (2 * y + 1) * 1280 + 2 * x + 1,
        forall|i: int| 0 <= i < 4 ==> r@[i] < 1280 * 720,
{
    let scaled_x = x * 2;
    let scaled_y = y * 2;
    let row1 = (WIDTH * scaled_y) + scaled_x;
    let row2 = (WIDTH * (scaled_y + 1)) + scaled_x;
    [row1, row1 + 1, row2, row2 + 1]
}

/// Overwrites every byte of a plane with one value.
pub fn set_constant(val: u8, buf: &mut Vec<u8>)
    ensures
        final(buf)@.len() == old(buf)@.len(),
        forall|i: int| 0 <= i < final(buf)@.len() ==> final(buf)@[i] == val,
{
    let mut i: usize = 0;
    let n = buf.len();
    while i < n
        invariant
            n == buf@.len(),
            i <= n,
            forall|j: int| 0 <= j < i ==> buf@[j] == val,
        decreases n - i,
    {
        buf[i] = val;
        i = i + 1;
    }
}

} // verus!
