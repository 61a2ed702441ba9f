//! Differential drawing: the draw commands one frame needs, given the
//! frame drawn before it. A pixel whose color did not change is never
//! drawn again; on the first frame of a session every pixel is drawn.

use vstd::prelude::*;
use crate::frame::{Frame, Pixel};

verus! {

/// One terminal draw command: paint the cell at screen column `x`,
/// screen row `y` with `color` as the true-color foreground of a solid
/// block glyph.
#[derive(Clone, Copy, Debug, PartialEq, Eq, Structural)]
pub struct DrawOp {
    pub x: u16,
    pub y: u16,
    pub color: Pixel,
}

/// Whether row-major position `i` must be drawn: always when there is
/// no previous frame, and only on a color change otherwise.
pub open spec fn must_draw(prev: Option<Seq<Pixel>>, next: Seq<Pixel>, i: int) -> bool {
    match prev {
        Option::None => true,
        Option::Some(p) => p[i] != next[i],
    }
}

/// The draw command for row-major position `i` of a frame of width `w`
/// whose top-left pixel sits at screen cell `(ox, oy)`.
pub open spec fn op_at(next: Seq<Pixel>, w: int, ox: int, oy: int, i: int) -> DrawOp {
    DrawOp { x: (ox + i % w) as u16, y: (oy + i / w) as u16, color: next[i] }
}

/// The draw commands for the first `n` row-major positions, in order.
pub open spec fn draw_seq_upto(
    prev: Option<Seq<Pixel>>,
    next: Seq<Pixel>,
    w: int,
    ox: int,
    oy: int,
    n: int,
) -> Seq<DrawOp>
    decreases n,
{
    if n <= 0 {
        Seq::empty()
    } else if must_draw(prev, next, n - 1) {
        draw_seq_upto(prev, next, w, ox, oy, n - 1).push(op_at(next, w, ox, oy, n - 1))
    } else {
        draw_seq_upto(prev, next, w, ox, oy, n - 1)
    }
}

/// All draw commands for one frame: one per position that must be
/// drawn, in row-major order.
pub open spec fn draw_seq(
    prev: Option<Seq<Pixel>>,
    next: Seq<Pixel>,
    w: int,
    ox: int,
    oy: int,
) -> Seq<DrawOp> {
    draw_seq_upto(prev, next, w, ox, oy, next.len() as int)
}

/// How many of the first `n` row-major positions must be drawn.
pub open spec fn changed_count(prev: Option<Seq<Pixel>>, next: Seq<Pixel>, n: int) -> int
    decreases n,
{
    if n <= 0 {
        0
    } else if must_draw(prev, next, n - 1) {
        changed_count(prev, next, n - 1) + 1
    } else {
        changed_count(prev, next, n - 1)
    }
}

/// The set of row-major positions among the first `n` that must be
/// drawn: with a previous frame, exactly the differing positions.
pub open spec fn changed_positions(prev: Option<Seq<Pixel>>, next: Seq<Pixel>, n: int) -> Set<
    int,
> {
    Set::new(|i: int| 0 <= i < n && must_draw(prev, next, i))
}

/// Law: the recursive count of drawn positions is the size of the set
/// of positions that must be drawn.
pub proof fn lemma_count_is_changed_set_size(prev: Option<Seq<Pixel>>, next: Seq<Pixel>, n: int)
    requires
        0 <= n,
    ensures
        changed_positions(prev, next, n).finite(),
        changed_positions(prev, next, n).len() == changed_count(prev, next, n),
    decreases n,
{
    if n == 0 {
        assert(changed_positions(prev, next, 0) =~= Set::<int>::empty());
    } else {
        lemma_count_is_changed_set_size(prev, next, n - 1);
        let s = changed_positions(prev, next, n - 1);
        if must_draw(prev, next, n - 1) {
            assert(changed_positions(prev, next, n) =~= s.insert(n - 1));
            vstd::set::axiom_set_insert_len(s, n - 1);
            assert(!s.contains(n - 1));
        } else {
            assert(changed_positions(prev, next, n) =~= s);
        }
    }
}

/// The grid of an optional previous frame.
pub open spec fn prev_grid(prev: Option<&Frame>) -> Option<Seq<Pixel>> {
    match prev {
        Option::None => Option::None,
        Option::Some(p) => Option::Some(p.grid()),
    }
}

/// A plan holds exactly one draw command per position that must be
/// drawn.
proof fn lemma_draw_count_upto(
    prev: Option<Seq<Pixel>>,
    next: Seq<Pixel>,
    w: int,
    ox: int,
    oy: int,
    n: int,
)
    ensures
        draw_seq_upto(prev, next, w, ox, oy, n).len() == changed_count(prev, next, n),
    decreases n,
{
    if n > 0 {
        lemma_draw_count_upto(prev, next, w, ox, oy, n - 1);
    }
}

/// Law (partial diffing): rendering after a previous frame plans
/// exactly as many draw commands as there are pixel positions whose
/// color differs between the two frames.
pub proof fn lemma_partial_diff(prev: Seq<Pixel>, next: Seq<Pixel>, w: int, ox: int, oy: int)
    ensures
        draw_seq(Option::Some(prev), next, w, ox, oy).len() == changed_count(
            Option::Some(prev),
            next,
            next.len() as int,
        ),
        draw_seq(Option::Some(prev), next, w, ox, oy).len() == changed_positions(
            Option::Some(prev),
            next,
            next.len() as int,
        ).len(),
{
    lemma_draw_count_upto(Option::Some(prev), next, w, ox, oy, next.len() as int);
    lemma_count_is_changed_set_size(Option::Some(prev), next, next.len() as int);
}

/// Law (no-op diffing): a frame whose pixel data is identical to the
/// previous frame's plans zero draw commands.
pub proof fn lemma_identical_no_ops(next: Seq<Pixel>, w: int, ox: int, oy: int)
    ensures
        draw_seq(Option::Some(next), next, w, ox, oy).len() == 0,
{
    lemma_count_identical_zero(next, next.len() as int);
    lemma_draw_count_upto(Option::Some(next), next, w, ox, oy, next.len() as int);
}

proof fn lemma_count_identical_zero(next: Seq<Pixel>, n: int)
    ensures
        changed_count(Option::Some(next), next, n) == 0,
    decreases n,
{
    if n > 0 {
        lemma_count_identical_zero(next, n - 1);
    }
}

/// Law (full redraw on the first frame): with no previous frame every
/// pixel position is planned, whatever the frame's content.
pub proof fn lemma_full_redraw(next: Seq<Pixel>, w: int, ox: int, oy: int)
    ensures
        draw_seq(Option::None, next, w, ox, oy).len() == next.len(),
{
    lemma_count_none_full(next, next.len() as int);
    lemma_draw_count_upto(Option::None, next, w, ox, oy, next.len() as int);
}

proof fn lemma_count_none_full(next: Seq<Pixel>, n: int)
    requires
        0 <= n,
    ensures
        changed_count(Option::None, next, n) == n,
    decreases n,
{
    if n > 0 {
        lemma_count_none_full(next, n - 1);
    }
}

/// Law (centering): the first command of a full redraw paints the
/// frame's top-left pixel at the configured origin itself.
pub proof fn lemma_first_op_at_origin(next: Seq<Pixel>, w: int, ox: int, oy: int)
    requires
        next.len() > 0,
        0 < w,
        0 <= ox <= u16::MAX,
        0 <= oy <= u16::MAX,
    ensures
        draw_seq(Option::None, next, w, ox, oy)[0] == (DrawOp {
            x: ox as u16,
            y: oy as u16,
            color: next[0],
        }),
{
    lemma_first_op_upto(next, w, ox, oy, next.len() as int);
}

proof fn lemma_first_op_upto(next: Seq<Pixel>, w: int, ox: int, oy: int, n: int)
    requires
        0 < n,
        0 < w,
        0 <= ox <= u16::MAX,
        0 <= oy <= u16::MAX,
    ensures
        draw_seq_upto(Option::None, next, w, ox, oy, n)[0] == (DrawOp {
            x: ox as u16,
            y: oy as u16,
            color: next[0],
        }),
    decreases n,
{
    assert(0int % w == 0 && 0int / w == 0);
    let s = draw_seq_upto(Option::None, next, w, ox, oy, n - 1);
    assert(draw_seq_upto(Option::None, next, w, ox, oy, n) == s.push(op_at(next, w, ox, oy, n - 1)));
    if n == 1 {
        assert(s == Seq::<DrawOp>::empty());
        assert(s.push(op_at(next, w, ox, oy, 0))[0] == op_at(next, w, ox, oy, 0));
    } else {
        lemma_first_op_upto(next, w, ox, oy, n - 1);
        lemma_draw_count_upto(Option::None, next, w, ox, oy, n - 1);
        lemma_count_none_full(next, n - 1);
        assert(s.len() == n - 1);
        assert(s.push(op_at(next, w, ox, oy, n - 1))[0] == s[0]);
    }
}

/// Computes the draw commands for `next` against the optional previous
/// frame `prev`, placing the frame's top-left pixel at screen cell
/// `(origin_x, origin_y)`.
pub fn diff_ops(prev: Option<&Frame>, next: &Frame, origin_x: u16, origin_y: u16) -> (ops: Vec<
    DrawOp,
>)
    requires
        next.wf(),
        prev matches Some(p) ==> p.wf() && p.spec_width() == next.spec_width()
            && p.spec_height() == next.spec_height(),
        origin_x + next.spec_width() <= 65535,
        origin_y + next.spec_height() <= 65535,
    ensures
        ops@ == draw_seq(
            prev_grid(prev),
            next.grid(),
            next.spec_width() as int,
            origin_x as int,
            origin_y as int,
        ),
        forall|j: int|
            0 <= j < ops@.len() ==> ops@[j].x < u16::MAX && ops@[j].y < u16::MAX,
{
    proof {
        assert((next.spec_width() * next.spec_height()) as int <= 65535 * 65535)
            by (nonlinear_arith)
            requires next.spec_width() <= 65535 && next.spec_height() <= 65535;
    }
    let w: usize = next.width() as usize;
    let count: usize = w * (next.height() as usize);
    let mut ops: Vec<DrawOp> = Vec::new();
    let mut i: usize = 0;
    while i < count
        invariant
            next.wf(),
            prev matches Some(p) ==> p.wf() && p.spec_width() == next.spec_width()
                && p.spec_height() == next.spec_height(),
            origin_x + next.spec_width() <= 65535,
            origin_y + next.spec_height() <= 65535,
            w == next.spec_width(),
            count == next.grid().len(),
            i <= count,
            ops@ == draw_seq_upto(
                prev_grid(prev),
                next.grid(),
                w as int,
                origin_x as int,
                origin_y as int,
                i as int,
            ),
            forall|j: int|
                0 <= j < ops@.len() ==> ops@[j].x < u16::MAX && ops@[j].y < u16::MAX,
        decreases count - i,
    {
        proof {
            assert(0 < w) by {
                assert(i < next.spec_width() * next.spec_height());
                if w == 0 {
                    assert(next.spec_width() * next.spec_height() == 0) by (nonlinear_arith)
                        requires next.spec_width() == 0;
                }
            }
            assert(i % w < w && i / w < next.spec_height()) by (nonlinear_arith)
                requires 0 < w && i < w * next.spec_height();
        }
        let x: u16 = (i % w) as u16;
        let y: u16 = (i / w) as u16;
        let color = next.pixel_at(i);
        let changed: bool = match prev {
            Option::None => true,
            Option::Some(p) => p.pixel_at(i) != color,
        };
        if changed {
            ops.push(DrawOp { x: origin_x + x, y: origin_y + y, color });
        }
        i = i + 1;
    }
    ops
}

} // verus!
