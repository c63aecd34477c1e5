//! The diffusion step: the per-frame, bottom-up heat-propagation rule.
//!
//! Source rows are visited from the bottom of the grid upward, excluding the
//! top two rows as sources; each cell propagates its heat one or two rows up
//! and sideways by the frame's shared wind plus a per-cell jitter, cooling by
//! one step with a fixed probability. Propagation that would land outside
//! the grid's columns is dropped, not wrapped or clamped. The pass works on
//! a single buffer, so writes made early in a frame are seen by reads later
//! in the same frame: that aliasing is the classic algorithm's look and is
//! deliberate.
//!
//! The pass's contract pins the result exactly: the new buffer is the
//! deterministic fold of the per-cell propagation rule over the visited
//! cells, for some sequence of per-cell draws (decay flag, jitter, row
//! jump). From that follow the frame facts stated alongside it: the step
//! never writes the seed row, never raises any cell above the hottest
//! value already present, and leaves an all-zero buffer all zero.

use vstd::prelude::*;
use vstd::arithmetic::div_mod::lemma_fundamental_div_mod_converse;
use crate::rng::rand_below;

verus! {

/// Every cell's value is at most `b`.
pub open spec fn cells_bounded(s: Seq<u8>, b: u8) -> bool {
    forall|i: int| 0 <= i < s.len() ==> #[trigger] s[i] <= b
}

/// How many of ten cells, on average, cool by one step as they propagate.
pub const DECAY_CHANCE_IN_TEN: u64 = 3;

/// How many of ten propagations, on average, jump two rows up instead of
/// one.
pub const LONG_JUMP_CHANCE_IN_TEN: u64 = 3;

/// Saturating one-step cooling: `max(0, v - 1)` when the decay flag is set,
/// `v` unchanged otherwise. The result never exceeds the source value and
/// never wraps below zero.
pub open spec fn decayed(v: u8, decay: bool) -> u8 {
    if decay {
        if v > 0 {
            (v - 1) as u8
        } else {
            0
        }
    } else {
        v
    }
}

pub fn apply_decay(v: u8, decay: bool) -> (r: u8)
    ensures
        r == decayed(v, decay),
        r <= v,
        decay && v > 0 ==> r < v,
        !decay ==> r == v,
{
    if decay {
        if v > 0 {
            v - 1
        } else {
            0
        }
    } else {
        v
    }
}

/// The random draws one visited cell consumes: its decay flag, its jitter
/// in `{-1, 0, 1}`, and whether its propagation jumps two rows instead of
/// one.
pub open spec fn valid_draws(draws: Seq<(bool, int, bool)>) -> bool {
    forall|k: int| 0 <= k < draws.len() ==> -1 <= (#[trigger] draws[k]).1 <= 1
}

/// How many cells one pass visits: every cell of the source rows
/// `2 ..= height - 1`.
pub open spec fn diffuse_draw_count(width: int, height: int) -> int {
    if height >= 2 {
        (height - 2) * width
    } else {
        0
    }
}

/// The source row of the `k`-th visited cell: rows are visited from the
/// bottom upward, each row left to right.
pub open spec fn visit_y(width: int, height: int, k: int) -> int {
    height - 1 - k / width
}

/// The source column of the `k`-th visited cell.
pub open spec fn visit_x(width: int, k: int) -> int {
    k % width
}

/// One cell's propagation under its draws: the decayed source value is
/// written one or two rows up at the drifted column, or dropped entirely
/// when the column leaves the grid.
pub open spec fn cell_step(
    buf: Seq<u8>,
    width: int,
    height: int,
    wind: int,
    y: int,
    x: int,
    d: (bool, int, bool),
) -> Seq<u8> {
    let dst_x = x + d.1 + wind;
    if 0 <= dst_x < width {
        let dst_y = if d.2 {
            y - 2
        } else {
            y - 1
        };
        buf.update(dst_y * width + dst_x, decayed(buf[y * width + x], d.0))
    } else {
        buf
    }
}

/// The buffer after the first `k` visited cells have propagated, in
/// visitation order, each reading the buffer as the cells before it left
/// it (the single-buffer aliasing of the classic algorithm).
pub open spec fn diffuse_upto(
    buf: Seq<u8>,
    width: int,
    height: int,
    wind: int,
    draws: Seq<(bool, int, bool)>,
    k: int,
) -> Seq<u8>
    decreases k,
{
    if k <= 0 {
        buf
    } else {
        cell_step(
            diffuse_upto(buf, width, height, wind, draws, k - 1),
            width,
            height,
            wind,
            visit_y(width, height, k - 1),
            visit_x(width, k - 1),
            draws[k - 1],
        )
    }
}

/// The whole pass under the given draws: a deterministic function of the
/// starting buffer, the wind, and one draw per visited cell.
pub open spec fn diffuse_spec(
    buf: Seq<u8>,
    width: int,
    height: int,
    wind: int,
    draws: Seq<(bool, int, bool)>,
) -> Seq<u8> {
    diffuse_upto(buf, width, height, wind, draws, draws.len() as int)
}

/// `diffuse_upto(_, _, _, _, draws, k)` reads only the first `k` draws.
proof fn lemma_diffuse_upto_agree(
    buf: Seq<u8>,
    width: int,
    height: int,
    wind: int,
    d1: Seq<(bool, int, bool)>,
    d2: Seq<(bool, int, bool)>,
    k: int,
)
    requires
        k <= d1.len(),
        k <= d2.len(),
        forall|j: int| 0 <= j < k ==> d1[j] == d2[j],
    ensures
        diffuse_upto(buf, width, height, wind, d1, k) == diffuse_upto(
            buf,
            width,
            height,
            wind,
            d2,
            k,
        ),
    decreases k,
{
    if k > 0 {
        lemma_diffuse_upto_agree(buf, width, height, wind, d1, d2, k - 1);
    }
}

/// One full diffusion pass over the grid, in place, using the frame's
/// shared wind value. Randomness decides each cell's decay flag, jitter and
/// destination row; the contract pins the result as the pass's fold over
/// some such draws, and states the frame facts every outcome shares.
#[verifier::loop_isolation(false)]
#[verifier::rlimit(30)]
pub fn diffuse(buffer: &mut Vec<u8>, width: usize, height: usize, wind: i64)
    requires
        old(buffer)@.len() == width * height,
        width >= 1,
        -2 <= wind <= 2,
    ensures
        final(buffer)@.len() == old(buffer)@.len(),
        // no cell ends hotter than the hottest cell that was present
        forall|b: u8| #[trigger]
            cells_bounded(old(buffer)@, b) ==> cells_bounded(final(buffer)@, b),
        // the seed row is never a destination
        forall|x: int|
            0 <= x < width && height >= 1 ==> #[trigger] final(buffer)@[(height - 1) * width + x]
                == old(buffer)@[(height - 1) * width + x],
        // an all-zero buffer stays all zero
        cells_bounded(old(buffer)@, 0) ==> (forall|i: int|
            0 <= i < final(buffer)@.len() ==> final(buffer)@[i] == 0),
        // with no source rows there is nothing to propagate
        height <= 2 ==> final(buffer)@ == old(buffer)@,
        // the result is exactly the pass's fold over some per-cell draws
        exists|draws: Seq<(bool, int, bool)>|
            valid_draws(draws) && draws.len() == diffuse_draw_count(width as int, height as int)
                && final(buffer)@ == #[trigger] diffuse_spec(
                old(buffer)@,
                width as int,
                height as int,
                wind as int,
                draws,
            ),
{
    let ghost old_buf = buffer@;
    proof {
        assert((height - 1) * width + width == (height as int) * (width as int))
            by (nonlinear_arith);
    }
    // reading the length as a machine word shows the solver that every
    // row-times-width product below fits in usize
    let blen = buffer.len();
    proof {
        assert(buffer@.len() == blen);
    }
    let ghost mut draws: Seq<(bool, int, bool)> = Seq::empty();
    let mut y: usize = height;
    while y > 2
        invariant
            y <= height,
            y >= 2 || y == height,
            valid_draws(draws),
            draws.len() == (height - y) * width,
            buffer@ == diffuse_upto(old_buf, width as int, height as int, wind as int, draws, draws.len() as int),
            buffer@.len() == old_buf.len(),
            forall|b: u8| #[trigger] cells_bounded(old_buf, b) ==> cells_bounded(buffer@, b),
            forall|x: int|
                0 <= x < width && height >= 1 ==> #[trigger] buffer@[(height - 1) * width + x]
                    == old_buf[(height - 1) * width + x],
            y == height ==> buffer@ == old_buf,
        decreases y,
    {
        y = y - 1;
        // a source row exists, so the grid has at least three rows and the
        // column count fits a signed machine word
        proof {
            assert(width * 3 <= width * height) by (nonlinear_arith)
                requires
                    height >= 3,
                    width >= 1,
            ;
        }
        let mut x: usize = 0;
        while x < width
            invariant
                x <= width,
                2 <= y <= height - 1,
                valid_draws(draws),
                draws.len() == (height - 1 - y) * width + x,
                buffer@ == diffuse_upto(old_buf, width as int, height as int, wind as int, draws, draws.len() as int),
                buffer@.len() == old_buf.len(),
                forall|b: u8| #[trigger] cells_bounded(old_buf, b) ==> cells_bounded(buffer@, b),
                forall|xx: int|
                    0 <= xx < width && height >= 1 ==> #[trigger] buffer@[(height - 1) * width
                        + xx] == old_buf[(height - 1) * width + xx],
            decreases width - x,
        {
            proof {
                assert(y * width + x < (height as int) * (width as int) && (y - 2) * width <= (
                height - 3) * width && (height - 1) * width <= (height as int) * (width as int))
                    by (nonlinear_arith)
                    requires
                        2 <= y <= height - 1,
                        0 <= x < width,
                        width >= 1,
                ;
            }
            let src = y * width + x;
            let decay_flag = rand_below(10) < DECAY_CHANCE_IN_TEN;
            let jitter = (rand_below(3) as i64) - 1;
            let long_jump = rand_below(10) < LONG_JUMP_CHANCE_IN_TEN;
            let x_offset = jitter + wind;
            let dst_x = (x as i64) + x_offset;
            let ghost d = (decay_flag, jitter as int, long_jump);
            let ghost prev = buffer@;
            if dst_x >= 0 && dst_x < (width as i64) {
                let dst_y = if long_jump {
                    y - 2
                } else {
                    y - 1
                };
                proof {
                    assert(dst_y * width + dst_x < (height - 1) * width) by (nonlinear_arith)
                        requires
                            0 <= dst_y <= height - 2,
                            0 <= dst_x < width,
                            width >= 1,
                    ;
                }
                let dst = dst_y * width + (dst_x as usize);
                let value = apply_decay(buffer[src], decay_flag);
                let ghost srcv = buffer@[src as int];
                buffer.set(dst, value);
                proof {
                    assert forall|b: u8| #[trigger] cells_bounded(old_buf, b) implies cells_bounded(
                        buffer@,
                        b,
                    ) by {
                        assert(cells_bounded(prev, b));
                        assert(srcv <= b);
                        assert forall|i: int| 0 <= i < buffer@.len() implies #[trigger] buffer@[i]
                            <= b by {
                            if i == dst {
                                assert(buffer@[i] == value);
                            } else {
                                assert(buffer@[i] == prev[i]);
                            }
                        }
                    }
                    assert forall|xx: int| 0 <= xx < width && height >= 1 implies #[trigger]
                    buffer@[(height - 1) * width + xx] == old_buf[(height - 1) * width + xx] by {
                        assert((height - 1) * width + xx != dst);
                        assert(buffer@[(height - 1) * width + xx] == prev[(height - 1) * width
                            + xx]);
                    }
                }
            }
            proof {
                lemma_fundamental_div_mod_converse(
                    draws.len() as int,
                    width as int,
                    height - 1 - y,
                    x as int,
                );
                assert(visit_y(width as int, height as int, draws.len() as int) == y);
                assert(visit_x(width as int, draws.len() as int) == x);
                let draws2 = draws.push(d);
                lemma_diffuse_upto_agree(
                    old_buf,
                    width as int,
                    height as int,
                    wind as int,
                    draws2,
                    draws,
                    draws.len() as int,
                );
                assert(draws2[draws.len() as int] == d);
                assert(buffer@ == cell_step(
                    prev,
                    width as int,
                    height as int,
                    wind as int,
                    y as int,
                    x as int,
                    d,
                ));
                assert(buffer@ == diffuse_upto(
                    old_buf,
                    width as int,
                    height as int,
                    wind as int,
                    draws2,
                    draws2.len() as int,
                ));
                draws = draws2;
            }
            x = x + 1;
        }
        proof {
            assert((height - 1 - y) * width + width == (height - y) * width)
                by (nonlinear_arith);
        }
    }
    proof {
        if cells_bounded(old_buf, 0) {
            assert(cells_bounded(buffer@, 0));
            assert forall|i: int| 0 <= i < buffer@.len() implies buffer@[i] == 0 by {
                assert(buffer@[i] <= 0);
            }
        }
        if height <= 2 {
            assert(buffer@ == old_buf);
        }
        assert(valid_draws(draws) && draws.len() == diffuse_draw_count(
            width as int,
            height as int,
        ) && buffer@ == diffuse_spec(old_buf, width as int, height as int, wind as int, draws));
    }
}

} // verus!
