//! Painting the world into a frame of RGBA bytes.
//!
//! A frame holds `HEIGHT` rows of `WIDTH` pixels, the top row first, each
//! pixel as four bytes: the pixel in column `col` and row `row` starts at byte
//! `(col + row * WIDTH) * 4`.

use crate::geometry::Rect;
use crate::world::{World, HEIGHT, WIDTH};
use vstd::prelude::*;

verus! {

/// The number of bytes in a frame.
pub const FRAME_BYTES: usize = 307200;

/// The colour of the bottom paddle.
pub const BOTTOM_PADDLE_COLOR: [u8; 4] = [0xff, 0, 0, 0xff];

/// The colour of the top paddle.
pub const TOP_PADDLE_COLOR: [u8; 4] = [0, 0xff, 0, 0xff];

/// The colour of the ball.
pub const BALL_COLOR: [u8; 4] = [0xff, 0xff, 0xff, 0xff];

/// The column of the pixel that byte `k` of a frame belongs to.
pub open spec fn column_of(k: int) -> int {
    (k / 4) % 320
}

/// The row of the pixel that byte `k` of a frame belongs to.
pub open spec fn row_of(k: int) -> int {
    (k / 4) / 320
}

/// Which of its pixel's four bytes byte `k` of a frame is.
pub open spec fn channel_of(k: int) -> int {
    k % 4
}

/// The frame `before` with every pixel of `rect` set to `color`. Pixels of
/// the box that lie outside the frame are simply not there to be set.
pub open spec fn painted(before: Seq<u8>, rect: Rect, color: Seq<u8>) -> Seq<u8> {
    Seq::new(
        before.len(),
        |k: int|
            if rect.covers(column_of(k), row_of(k)) {
                color[channel_of(k)]
            } else {
                before[k]
            },
    )
}

/// `v` limited to the range from 0 to `limit`.
spec fn spec_clip(v: int, limit: int) -> int {
    if v < 0 {
        0
    } else if v > limit {
        limit
    } else {
        v
    }
}

/// `v` limited to the range from 0 to `limit`.
fn clip(v: i64, limit: u32) -> (c: usize)
    ensures
        c == spec_clip(v as int, limit as int),
{
    if v < 0 {
        0
    } else if v > limit as i64 {
        limit as usize
    } else {
        v as usize
    }
}

/// Sets every byte of the frame to zero.
fn clear(frame: &mut [u8])
    ensures
        final(frame)@.len() == old(frame)@.len(),
        forall|k: int| 0 <= k < final(frame)@.len() ==> #[trigger] final(frame)@[k] == 0,
{
    let n: usize = frame.len();
    let mut k: usize = 0;
    while k < n
        invariant
            n == frame@.len(),
            k <= n,
            forall|m: int| 0 <= m < k ==> #[trigger] frame@[m] == 0,
        decreases n - k,
    {
        frame[k] = 0;
        k = k + 1;
    }
}

impl World {
    /// Fills the part of `rect` that lies inside the frame with `color`, and
    /// leaves every other byte of the frame as it is.
    pub fn draw_rect(&self, frame: &mut [u8], rect: Rect, color: [u8; 4])
        requires
            old(frame)@.len() == FRAME_BYTES,
        ensures
            final(frame)@ == painted(old(frame)@, rect, color@),
    {
        let first_row: usize = clip(rect.y as i64, HEIGHT);
        let end_row: usize = clip(rect.y as i64 + rect.height as i64, HEIGHT);
        let first_col: usize = clip(rect.x as i64, WIDTH);
        let end_col: usize = clip(rect.x as i64 + rect.width as i64, WIDTH);
        let mut i: usize = first_row;
        while i < end_row
            invariant
                first_row <= i,
                first_row == spec_clip(rect.y as int, 240),
                end_row == spec_clip(rect.y + rect.height, 240),
                first_col == spec_clip(rect.x as int, 320),
                end_col == spec_clip(rect.x + rect.width, 320),
                frame@.len() == FRAME_BYTES,
                forall|k: int|
                    0 <= k < FRAME_BYTES ==> #[trigger] frame@[k] == if row_of(k) < i
                        && rect.covers(column_of(k), row_of(k)) {
                        color@[channel_of(k)]
                    } else {
                        old(frame)@[k]
                    },
            decreases end_row - i,
        {
            let mut j: usize = first_col;
            while j < end_col
                invariant
                    first_row <= i < end_row,
                    first_col <= j,
                    first_row == spec_clip(rect.y as int, 240),
                    end_row == spec_clip(rect.y + rect.height, 240),
                    first_col == spec_clip(rect.x as int, 320),
                    end_col == spec_clip(rect.x + rect.width, 320),
                    frame@.len() == FRAME_BYTES,
                    forall|k: int|
                        0 <= k < FRAME_BYTES ==> #[trigger] frame@[k] == if (row_of(k) < i || (
                        row_of(k) == i && column_of(k) < j)) && rect.covers(
                            column_of(k),
                            row_of(k),
                        ) {
                            color@[channel_of(k)]
                        } else {
                            old(frame)@[k]
                        },
                decreases end_col - j,
            {
                let index: usize = (j + i * 320) * 4;
                frame[index] = color[0];
                frame[index + 1] = color[1];
                frame[index + 2] = color[2];
                frame[index + 3] = color[3];
                j = j + 1;
            }
            i = i + 1;
        }
        assert(frame@ =~= painted(old(frame)@, rect, color@));
    }

    /// The colour of the pixel in column `col` and row `row`: that of the
    /// ball where the ball is, else that of the top paddle, else that of the
    /// bottom paddle, else four zero bytes.
    pub open spec fn color_at(self, col: int, row: int) -> Seq<u8> {
        if self.ball.rect.covers(col, row) {
            BALL_COLOR@
        } else if self.p2.rect.covers(col, row) {
            TOP_PADDLE_COLOR@
        } else if self.p1.rect.covers(col, row) {
            BOTTOM_PADDLE_COLOR@
        } else {
            seq![0u8, 0u8, 0u8, 0u8]
        }
    }

    /// The picture of the world: a whole frame, every pixel in the colour
    /// that [`Self::color_at`] gives it.
    pub open spec fn spec_frame(self) -> Seq<u8> {
        Seq::new(
            FRAME_BYTES as nat,
            |k: int| self.color_at(column_of(k), row_of(k))[channel_of(k)],
        )
    }

    /// Paints the world over the whole frame: clears it to zero bytes, then
    /// fills the bottom paddle, the top paddle and the ball, in this order,
    /// so that the later covers the earlier where they meet.
    pub fn draw(&self, frame: &mut [u8])
        requires
            old(frame)@.len() == FRAME_BYTES,
        ensures
            final(frame)@ == self.spec_frame(),
    {
        clear(frame);
        self.draw_rect(frame, self.p1.rect, BOTTOM_PADDLE_COLOR);
        self.draw_rect(frame, self.p2.rect, TOP_PADDLE_COLOR);
        self.draw_rect(frame, self.ball.rect, BALL_COLOR);
        assert(frame@ =~= self.spec_frame());
    }
}

/// The four bytes of the pixel in column `col` and row `row` start at byte
/// `(col + row * WIDTH) * 4`, inside the frame, and no other pixel has them.
pub proof fn lemma_pixel_offset(col: int, row: int, channel: int)
    requires
        0 <= col < WIDTH,
        0 <= row < HEIGHT,
        0 <= channel < 4,
    ensures
        0 <= (col + row * WIDTH) * 4 + channel < FRAME_BYTES,
        column_of((col + row * WIDTH) * 4 + channel) == col,
        row_of((col + row * WIDTH) * 4 + channel) == row,
        channel_of((col + row * WIDTH) * 4 + channel) == channel,
{
}

/// Every byte of a frame belongs to one pixel of the field.
pub proof fn lemma_byte_has_pixel(k: int)
    requires
        0 <= k < FRAME_BYTES,
    ensures
        0 <= column_of(k) < WIDTH,
        0 <= row_of(k) < HEIGHT,
        0 <= channel_of(k) < 4,
        k == (column_of(k) + row_of(k) * WIDTH) * 4 + channel_of(k),
{
}

/// Painting a box sets the pixels of the frame that the box covers to the
/// colour, and leaves every other pixel as it was.
pub proof fn lemma_painted_pixel(
    before: Seq<u8>,
    rect: Rect,
    color: Seq<u8>,
    col: int,
    row: int,
    channel: int,
)
    requires
        before.len() == FRAME_BYTES,
        0 <= col < WIDTH,
        0 <= row < HEIGHT,
        0 <= channel < 4,
    ensures
        painted(before, rect, color).len() == FRAME_BYTES,
        painted(before, rect, color)[(col + row * WIDTH) * 4 + channel] == if rect.covers(
            col,
            row,
        ) {
            color[channel]
        } else {
            before[(col + row * WIDTH) * 4 + channel]
        },
{
    lemma_pixel_offset(col, row, channel);
}

/// In the picture of a world each pixel has the colour of the topmost thing
/// that covers it: the ball, else the top paddle, else the bottom paddle,
/// else none, which leaves it at zero.
pub proof fn lemma_frame_pixel(world: World, col: int, row: int, channel: int)
    requires
        0 <= col < WIDTH,
        0 <= row < HEIGHT,
        0 <= channel < 4,
    ensures
        world.spec_frame().len() == FRAME_BYTES,
        world.spec_frame()[(col + row * WIDTH) * 4 + channel] == world.color_at(col, row)[channel],
        !world.ball.rect.covers(col, row) && !world.p1.rect.covers(col, row)
            && !world.p2.rect.covers(col, row) ==> world.spec_frame()[(col + row * WIDTH) * 4
            + channel] == 0,
{
    lemma_pixel_offset(col, row, channel);
}

} // verus!
