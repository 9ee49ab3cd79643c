//! The pixel grid of the rendered frame and the layout of its RGBA buffer.
use vstd::prelude::*;

verus! {

/// Width of the frame in pixels.
pub const IMAGE_WIDTH: u32 = 400;

/// Height of the frame in pixels: the width divided by the aspect ratio 16/9.
pub const IMAGE_HEIGHT: u32 = 225;

/// Channels per pixel in the output buffer (red, green, blue, alpha).
pub const CHANNELS: u32 = 4;

/// Width of a frame bordered by `outline` pixels on each side.
pub open spec fn framed_width(outline: u32) -> int {
    IMAGE_WIDTH + 2 * outline
}

/// Height of a frame bordered by `outline` pixels on each side.
pub open spec fn framed_height(outline: u32) -> int {
    IMAGE_HEIGHT + 2 * outline
}

/// Number of buffer slots of a frame bordered by `outline` pixels.
pub open spec fn frame_len(outline: u32) -> int {
    CHANNELS * framed_width(outline) * framed_height(outline)
}

/// Offset in the buffer of the first channel of pixel `(x, y)`.
///
/// Rows are stored top to bottom while `y` counts from the bottom, so row
/// `y` lands at storage row `height - 1 - y`.
pub open spec fn pixel_offset(x: int, y: int, outline: u32) -> int {
    CHANNELS * ((framed_height(outline) - 1 - y) * framed_width(outline) + x)
}

/// Buffer index of the first channel of pixel `px = [x, y]`, where `y`
/// counts rows from the bottom of the frame and the frame is bordered by
/// `outline` pixels on each side.
pub fn pixel_idx(px: &[u32; 2], outline: u32) -> (r: usize)
    requires
        px[0] < framed_width(outline),
        px[1] < framed_height(outline),
        frame_len(outline) <= u32::MAX,
    ensures
        r == pixel_offset(px[0] as int, px[1] as int, outline),
        r + CHANNELS <= frame_len(outline),
{
    proof {
        let w = framed_width(outline);
        let h = framed_height(outline);
        assert(w * h >= w) by (nonlinear_arith)
            requires w >= 0, h >= 1;
        assert(w * h >= h) by (nonlinear_arith)
            requires w >= 1, h >= 0;
        assert(CHANNELS * (w * h) == frame_len(outline)) by (nonlinear_arith)
            requires w == framed_width(outline), h == framed_height(outline);
    }
    let width: u32 = IMAGE_WIDTH + outline * 2;
    let height: u32 = IMAGE_HEIGHT + outline * 2;
    let x = px[0];
    let y = px[1];
    let row: u32 = height - 1 - y;
    proof {
        let w = width as int;
        let h = height as int;
        assert(row * w + x < h * w) by (nonlinear_arith)
            requires row < h, x < w, 0 <= row, 0 <= x;
        assert(CHANNELS * (row * w + x) + CHANNELS <= CHANNELS * (h * w)) by (nonlinear_arith)
            requires row * w + x < h * w;
        assert(CHANNELS * (h * w) == frame_len(outline)) by (nonlinear_arith)
            requires w == framed_width(outline), h == framed_height(outline);
        assert(row * w <= row * w + x);
    }
    let idx: u32 = CHANNELS * (row * width + x);
    idx as usize
}

/// Position in row-major order of column `x` of row `y` of the frame.
pub open spec fn grid_index(x: int, y: int) -> int {
    y * IMAGE_WIDTH + x
}

proof fn lemma_grid_index_before(x: int, y: int, i: int, j: int)
    requires
        0 <= x < IMAGE_WIDTH,
        0 <= i,
        0 <= y,
        y < j || (y == j && x < i),
    ensures
        grid_index(x, y) < grid_index(i, j),
{
    if y < j {
        assert(y * IMAGE_WIDTH + IMAGE_WIDTH <= j * IMAGE_WIDTH) by (nonlinear_arith)
            requires y < j;
    }
}

/// Every pixel of the frame, row by row from the bottom row up and left to
/// right within a row: pixel `[x, y]` stands at position `y * width + x`.
pub fn get_pixels_to_trace() -> (r: Vec<[u32; 2]>)
    ensures
        r@.len() == IMAGE_WIDTH * IMAGE_HEIGHT,
        forall|x: int, y: int|
            0 <= x < IMAGE_WIDTH && 0 <= y < IMAGE_HEIGHT ==> {
                &&& #[trigger] r@[grid_index(x, y)][0] == x
                &&& r@[grid_index(x, y)][1] == y
            },
{
    let mut pixels: Vec<[u32; 2]> = Vec::new();
    let mut j: u32 = 0;
    while j < IMAGE_HEIGHT
        invariant
            j <= IMAGE_HEIGHT,
            pixels@.len() == grid_index(0, j as int),
            forall|x: int, y: int|
                0 <= x < IMAGE_WIDTH && 0 <= y < j ==> {
                    &&& #[trigger] pixels@[grid_index(x, y)][0] == x
                    &&& pixels@[grid_index(x, y)][1] == y
                },
        decreases IMAGE_HEIGHT - j,
    {
        let mut i: u32 = 0;
        while i < IMAGE_WIDTH
            invariant
                j < IMAGE_HEIGHT,
                i <= IMAGE_WIDTH,
                pixels@.len() == grid_index(i as int, j as int),
                forall|x: int, y: int|
                    0 <= x < IMAGE_WIDTH && 0 <= y && (y < j || (y == j && x < i)) ==> {
                        &&& #[trigger] pixels@[grid_index(x, y)][0] == x
                        &&& pixels@[grid_index(x, y)][1] == y
                    },
            decreases IMAGE_WIDTH - i,
        {
            proof {
                assert(grid_index(i as int, j as int) < IMAGE_WIDTH * IMAGE_HEIGHT) by (nonlinear_arith)
                    requires i < IMAGE_WIDTH, j < IMAGE_HEIGHT;
            }
            let ghost before = pixels@;
            pixels.push([i, j]);
            proof {
                assert forall|x: int, y: int|
                    0 <= x < IMAGE_WIDTH && 0 <= y && (y < j || (y == j && x < i + 1)) implies {
                        &&& #[trigger] pixels@[grid_index(x, y)][0] == x
                        &&& pixels@[grid_index(x, y)][1] == y
                    } by {
                    if y < j || (y == j && x < i) {
                        lemma_grid_index_before(x, y, i as int, j as int);
                        assert(pixels@[grid_index(x, y)] == before[grid_index(x, y)]);
                    } else {
                        assert(grid_index(x, y) == before.len());
                    }
                }
            }
            i = i + 1;
        }
        proof {
            assert(grid_index(IMAGE_WIDTH as int, j as int) == grid_index(0, j + 1));
        }
        j = j + 1;
    }
    pixels
}

/// Stores the four channels `rgba` of one pixel at `idx .. idx + 4` of the
/// frame buffer `img`, leaving every other slot as it was.
pub fn set_pixel<T: Copy>(img: &mut Vec<T>, idx: usize, rgba: [T; 4])
    requires
        idx + CHANNELS <= old(img)@.len(),
    ensures
        final(img)@.len() == old(img)@.len(),
        forall|k: int|
            0 <= k < old(img)@.len() ==> #[trigger] final(img)@[k] == if idx <= k < idx + CHANNELS {
                rgba[k - idx]
            } else {
                old(img)@[k]
            },
{
    let ghost start = img@;
    assert(img@.len() == img.len());
    img.set(idx, rgba[0]);
    img.set(idx + 1, rgba[1]);
    img.set(idx + 2, rgba[2]);
    img.set(idx + 3, rgba[3]);
    assert forall|k: int| 0 <= k < start.len() implies #[trigger] img@[k] == if idx <= k < idx + CHANNELS {
        rgba[k - idx]
    } else {
        start[k]
    } by {
        if k == idx || k == idx + 1 || k == idx + 2 || k == idx + 3 {
        }
    }
}

} // verus!
