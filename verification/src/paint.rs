//! The painter: one frame of a bar, in two colours, into a buffer of four
//! bytes a pixel, row after row.

use vstd::prelude::*;
use vstd::arithmetic::div_mod::lemma_fundamental_div_mod_converse;
use crate::level::{Level, FULL};
use crate::surface::BarSurface;

verus! {

/// How many of `extent` pixels the share `share` of them is, rounded down to
/// a whole pixel.
pub open spec fn fill(extent: int, share: int) -> int {
    (extent * share) / (FULL as int)
}

/// How many of `height` rows stay unfilled at the top where `share` of the
/// bar is unfilled: that share of the rows, rounded down to a whole row, but
/// never the last row.
pub open spec fn unfilled_rows(height: int, share: int) -> int {
    if height <= 0 {
        0
    } else if fill(height, share) > height - 1 {
        height - 1
    } else {
        fill(height, share)
    }
}

/// The colour of the pixel in column `x` of row `y`. The filled colour is
/// the foreground and the filled share is the level, unless the bar is
/// reversed: then it is the background and what is missing from a full
/// charge. A horizontal bar is filled from the left, a vertical bar from the
/// bottom.
pub open spec fn pixel(
    width: int,
    height: int,
    horizontal: bool,
    reverse: bool,
    level: int,
    fg: Seq<u8>,
    bg: Seq<u8>,
    x: int,
    y: int,
) -> Seq<u8> {
    let share = if reverse {
        FULL - level
    } else {
        level
    };
    let filled = if reverse {
        bg
    } else {
        fg
    };
    let unfilled = if reverse {
        fg
    } else {
        bg
    };
    if horizontal {
        if x < fill(width, share) {
            filled
        } else {
            unfilled
        }
    } else {
        if y < unfilled_rows(height, FULL - share) {
            unfilled
        } else {
            filled
        }
    }
}

/// The painted buffer, byte by byte.
pub open spec fn painted(
    width: int,
    height: int,
    horizontal: bool,
    reverse: bool,
    level: int,
    fg: Seq<u8>,
    bg: Seq<u8>,
) -> Seq<u8> {
    Seq::new(
        (4 * width * height) as nat,
        |i: int| pixel(width, height, horizontal, reverse, level, fg, bg, (i / 4) % width, (i / 4) / width)[i % 4],
    )
}

/// A share of an extent is no more than the extent.
pub proof fn lemma_fill(extent: int, share: int)
    requires
        0 <= extent,
        0 <= share <= FULL,
    ensures
        0 <= fill(extent, share) <= extent,
        share == 0 ==> fill(extent, share) == 0,
        share == FULL ==> fill(extent, share) == extent,
{
    let full = FULL as int;
    assert(0 <= extent * share <= extent * full) by (nonlinear_arith)
        requires
            0 <= extent,
            0 <= share <= full,
    ;
    assert(0 <= (extent * share) / full <= extent) by (nonlinear_arith)
        requires
            0 <= extent * share <= extent * full,
            full > 0,
    ;
    if share == 0 {
        assert(extent * share == 0) by (nonlinear_arith)
            requires
                share == 0,
        ;
    }
    if share == full {
        lemma_fundamental_div_mod_converse(extent * share, full, extent, 0);
    }
}

/// Reversing a bar mirrors it along its axis, wherever the filled and the
/// unfilled part, each rounded down by itself, add up to the whole bar.
pub proof fn lemma_reverse_mirrors(
    width: int,
    height: int,
    horizontal: bool,
    level: int,
    fg: Seq<u8>,
    bg: Seq<u8>,
    x: int,
    y: int,
)
    requires
        horizontal ==> fill(width, level) + fill(width, FULL - level) == width,
        !horizontal ==> unfilled_rows(height, level) + unfilled_rows(height, FULL - level)
            == height,
    ensures
        pixel(width, height, horizontal, true, level, fg, bg, x, y) == pixel(
            width,
            height,
            horizontal,
            false,
            level,
            fg,
            bg,
            if horizontal {
                width - 1 - x
            } else {
                x
            },
            if horizontal {
                y
            } else {
                height - 1 - y
            },
        ),
{
}

/// How many of `extent` pixels the share `share` of them is.
fn fill_of(extent: usize, share: Level) -> (n: usize)
    ensures
        n == fill(extent as int, share@),
        n <= extent,
{
    let parts: u32 = share.millionths();
    proof {
        lemma_fill(extent as int, share@);
        assert(extent * parts <= 0xffff_ffff_ffff_ffff * 1_000_000) by (nonlinear_arith)
            requires
                0 <= extent <= 0xffff_ffff_ffff_ffff,
                0 <= parts <= 1_000_000,
        ;
    }
    ((extent as u128) * (parts as u128) / (FULL as u128)) as usize
}

/// Paints one frame into `canvas`, a buffer of `width` by `height` pixels of
/// four bytes, row after row with nothing between the rows.
pub fn paint(
    canvas: &mut [u8],
    width: usize,
    height: usize,
    horizontal: bool,
    reverse: bool,
    level: Level,
    fg: [u8; 4],
    bg: [u8; 4],
)
    requires
        old(canvas)@.len() == 4 * width * height,
    ensures
        final(canvas)@ == painted(
            width as int,
            height as int,
            horizontal,
            reverse,
            level@,
            fg@,
            bg@,
        ),
{
    let ghost want = painted(width as int, height as int, horizontal, reverse, level@, fg@, bg@);
    let n: usize = canvas.len();
    let share = if reverse {
        level.complement()
    } else {
        level
    };
    let filled = if reverse {
        bg
    } else {
        fg
    };
    let unfilled = if reverse {
        fg
    } else {
        bg
    };
    let columns = fill_of(width, share);
    let rows = if height == 0 {
        0
    } else {
        let rows = fill_of(height, share.complement());
        if rows > height - 1 {
            height - 1
        } else {
            rows
        }
    };
    assert(columns == fill(width as int, share@));
    assert(rows == unfilled_rows(height as int, FULL - share@));
    let mut y: usize = 0;
    assert(4 * (0 * width) == 0 && 0 <= 4 * width * height) by (nonlinear_arith)
        requires
            0 <= width,
            0 <= height,
    ;
    while y < height
        invariant
            y <= height,
            0 <= 4 * (y * width) <= 4 * width * height,
            canvas@.len() == n,
            n == 4 * width * height,
            want.len() == 4 * width * height,
            want == painted(width as int, height as int, horizontal, reverse, level@, fg@, bg@),
            columns == fill(width as int, share@),
            rows == unfilled_rows(height as int, FULL - share@),
            share@ == (if reverse { FULL - level@ } else { level@ }),
            filled@ == (if reverse { bg@ } else { fg@ }),
            unfilled@ == (if reverse { fg@ } else { bg@ }),
            forall|i: int| 0 <= i < 4 * (y * width) ==> canvas@[i] == want[i],
        decreases height - y,
    {
        let mut x: usize = 0;
        while x < width
            invariant
                y < height,
                x <= width,
                0 <= 4 * (y * width + x) <= 4 * width * height,
                canvas@.len() == n,
            n == 4 * width * height,
                want.len() == 4 * width * height,
                want == painted(width as int, height as int, horizontal, reverse, level@, fg@, bg@),
                columns == fill(width as int, share@),
                rows == unfilled_rows(height as int, FULL - share@),
                share@ == (if reverse { FULL - level@ } else { level@ }),
                filled@ == (if reverse { bg@ } else { fg@ }),
                unfilled@ == (if reverse { fg@ } else { bg@ }),
                forall|i: int| 0 <= i < 4 * (y * width + x) ==> canvas@[i] == want[i],
            decreases width - x,
        {
            let color = if horizontal {
                if x < columns {
                    filled
                } else {
                    unfilled
                }
            } else {
                if y < rows {
                    unfilled
                } else {
                    filled
                }
            };
            proof {
                assert(0 <= y * width && y * width + x < width * height) by (nonlinear_arith)
                    requires
                        0 <= y < height,
                        0 <= x < width,
                ;
                assert(4 * (y * width + x) + 3 < 4 * width * height) by (nonlinear_arith)
                    requires
                        y * width + x < width * height,
                ;
                assert(4 * (y * width + x) + 3 < n);
            }
            let at: usize = 4 * (y * width + x);
            canvas[at] = color[0];
            canvas[at + 1] = color[1];
            canvas[at + 2] = color[2];
            canvas[at + 3] = color[3];
            proof {
                let p = y * width + x;
                lemma_fundamental_div_mod_converse(p, width as int, y as int, x as int);
                assert(color@ == pixel(
                    width as int,
                    height as int,
                    horizontal,
                    reverse,
                    level@,
                    fg@,
                    bg@,
                    x as int,
                    y as int,
                ));
                assert forall|i: int| 0 <= i < 4 * (p + 1) implies canvas@[i] == want[i] by {
                    if i >= 4 * p {
                        assert(i / 4 == p);
                        assert(want[i] == color@[i % 4]);
                    }
                }
                assert(4 * (p + 1) <= 4 * width * height) by (nonlinear_arith)
                    requires
                        p < width * height,
                ;
            }
            x = x + 1;
        }
        assert(4 * (y * width + width) == 4 * ((y + 1) * width)) by (nonlinear_arith);
        y = y + 1;
    }
    assert(4 * (height * width) == 4 * width * height) by (nonlinear_arith);
    assert(canvas@ =~= want);
}

impl BarSurface {
    /// Paints the frame of the geometry last applied, for a bar on this
    /// surface's edge and in its direction. Where there is nothing to paint,
    /// or `canvas` is not the buffer of that frame, nothing is written and
    /// the answer is `false`.
    pub fn draw(&self, canvas: &mut [u8], level: Level, fg: [u8; 4], bg: [u8; 4]) -> (done: bool)
        ensures
            done == (self.frame() is Some && old(canvas)@.len() == self.frame()->0.bytes),
            done ==> final(canvas)@ == painted(
                self.frame()->0.width as int,
                self.frame()->0.height as int,
                self.side.horizontal(),
                self.reverse,
                level@,
                fg@,
                bg@,
            ),
            !done ==> final(canvas)@ == old(canvas)@,
    {
        match self.frame_size() {
            Some(frame) => {
                if canvas.len() != frame.bytes {
                    return false;
                }
                paint(
                    canvas,
                    frame.width as usize,
                    frame.height as usize,
                    self.side.is_horizontal(),
                    self.reverse,
                    level,
                    fg,
                    bg,
                );
                true
            },
            None => false,
        }
    }
}

} // verus!
