//! The slice builder: walks the normalized series in order, assigns
//! each positive entry its start and end angle, applies the anti-seam
//! correction and the full-circle clamp, and emits one path
//! descriptor per slice together with an order-aligned label anchor
//! for every series entry (suppressed for zero entries).
//!
//! Angle bookkeeping keeps two values apart: the mathematical boundary
//! (`start_angle`/`end_angle`, used for the next slice and for label
//! midpoints) and the drawn start (`drawn_start_angle`, pulled back by
//! the seam correction), so the correction never compounds across
//! slices. Slice boundaries are taken between successive rounded
//! cumulative magnitudes, so the rounding of one slice never leaks
//! into the next and the partition of the circle stays exact.

use vstd::prelude::*;
use vstd::arithmetic::div_mod::{
    lemma_div_is_ordered,
    lemma_div_multiples_vanish,
    lemma_div_nonincreasing,
    lemma_div_of0,
    lemma_div_pos_is_pos,
};
use vstd::arithmetic::mul::{
    lemma_mul_inequality,
    lemma_mul_is_distributive_add_other_way,
    lemma_mul_nonnegative,
};
use crate::config::{
    CLAMP_SPAN, COLOR_BASE, COLOR_STEP, FULL_TURN, HALF_TURN, MAX_MAGNITUDE, MAX_OFFSET,
    MAX_SERIES_LEN, MAX_SUM, SEAM_PULL,
};
use crate::normalize::{int_seq, lemma_seq_sum_take_le, lemma_seq_sum_take_step, seq_sum, seq_sum_from};

verus! {

/// One drawing instruction of a slice path. Points are polar: a
/// radius and an angle in fixed-point degrees about the chart center;
/// a renderer projects them to cartesian coordinates.
#[derive(Clone, Copy, PartialEq, Eq, Structural, Debug)]
pub enum PathCmd {
    /// Move the pen to the point at `radius`, `angle`.
    MoveTo { radius: i64, angle: i64 },
    /// Elliptical arc of the given radius ending at the point at
    /// `radius`, `angle`; `large_arc` and `sweep` are the standard
    /// arc flags.
    ArcTo { radius: i64, large_arc: bool, sweep: bool, angle: i64 },
    /// Straight line to the point at `radius`, `angle`.
    LineTo { radius: i64, angle: i64 },
    /// Straight line back to the chart center.
    LineToCenter,
    /// Close the path.
    ClosePath,
}

/// One label anchor, order-aligned with the series: `suppressed` set
/// means the entry is zero and no label is to be drawn (its angle is
/// then a meaningless sentinel zero). The anchor sits at `mid_angle`
/// on the label radius of the chart.
#[derive(Clone, Copy, PartialEq, Eq, Structural, Debug)]
pub struct LabelAnchor {
    /// Whether the entry is zero and its label is not to be drawn.
    pub suppressed: bool,
    /// The angular midpoint of the entry's slice.
    pub mid_angle: i64,
}

/// One drawable slice, emitted for each positive normalized entry.
#[derive(PartialEq, Debug)]
pub struct SliceDescriptor {
    /// Position among the emitted slices (zero entries are skipped).
    pub index: usize,
    /// The mathematical start boundary of the slice.
    pub start_angle: i64,
    /// The end boundary, after the full-circle clamp.
    pub end_angle: i64,
    /// The end boundary before the full-circle clamp; differs from
    /// `end_angle` only when a near-full slice was clamped.
    pub end_angle_raw: i64,
    /// The drawn start: the start boundary pulled back by the
    /// anti-seam correction (never for the first slice).
    pub drawn_start_angle: i64,
    /// Whether the arc spans more than half a turn.
    pub large_arc: bool,
    /// The colour channel value of the slice's shade.
    pub color_value: i64,
    /// The drawing instructions of the slice.
    pub path: Vec<PathCmd>,
}

/// The mathematical content of a `SliceDescriptor`.
pub ghost struct SliceG {
    pub index: int,
    pub start: int,
    pub end: int,
    pub end_raw: int,
    pub drawn_start: int,
    pub large_arc: bool,
    pub mid: int,
    pub color: int,
    pub path: Seq<PathCmd>,
}

impl View for SliceDescriptor {
    type V = SliceG;

    open spec fn view(&self) -> SliceG {
        SliceG {
            index: self.index as int,
            start: self.start_angle as int,
            end: self.end_angle as int,
            end_raw: self.end_angle_raw as int,
            drawn_start: self.drawn_start_angle as int,
            large_arc: self.large_arc,
            mid: self.start_angle as int + (self.end_angle - self.start_angle) / 2,
            color: self.color_value as int,
            path: self.path@,
        }
    }
}

/// The fixed inputs of one angle walk.
pub ghost struct WalkCfg {
    /// The resolved total: the magnitude standing for the full circle.
    pub total: int,
    /// The outer radius of the slices.
    pub radius: int,
    /// The inner radius of ring segments (zero for solid wedges).
    pub inner: int,
    /// Whether slices are ring segments instead of wedges.
    pub donut: bool,
}

/// The result of an angle walk: the emitted slices and one anchor per
/// series entry.
pub ghost struct WalkG {
    pub slices: Seq<SliceG>,
    pub anchors: Seq<LabelAnchor>,
}

/// The rounded angular extent of a cumulated magnitude `p` against
/// the resolved total `t`: the fraction `p / t` of a full turn.
pub open spec fn cum_angle(p: int, t: int) -> int {
    (p * FULL_TURN) / t
}

/// The drawn start of a slice: every slice after the first starts
/// `SEAM_PULL` early (floored at angle zero) so anti-aliasing cannot
/// open a hairline seam between neighbours.
pub open spec fn seam_start(cur: int, idx: int) -> int {
    if idx == 0 {
        cur
    } else if cur - SEAM_PULL < 0 {
        0
    } else {
        cur - SEAM_PULL
    }
}

/// The colour channel value of slice `idx`: a ramp starting at
/// `COLOR_BASE` whose decrement `COLOR_STEP / k` slows with each
/// slice. A pure function of the index, so colours are reproducible.
pub open spec fn color_at(idx: int) -> int
    decreases idx,
{
    if idx <= 0 {
        COLOR_BASE as int
    } else {
        color_at(idx - 1) - (COLOR_STEP as int) / idx
    }
}

/// The drawing instructions of one slice: the outer arc from the end
/// boundary back to the drawn start, then either a line to the center
/// (wedge) or a line to the inner circle and the inner arc forward
/// (ring segment), and a close.
pub open spec fn path_cmds(donut: bool, radius: int, inner: int, drawn: int, end: int, large: bool) -> Seq<PathCmd> {
    if donut {
        seq![
            PathCmd::MoveTo { radius: radius as i64, angle: end as i64 },
            PathCmd::ArcTo { radius: radius as i64, large_arc: large, sweep: false, angle: drawn as i64 },
            PathCmd::LineTo { radius: inner as i64, angle: drawn as i64 },
            PathCmd::ArcTo { radius: inner as i64, large_arc: large, sweep: true, angle: end as i64 },
            PathCmd::ClosePath,
        ]
    } else {
        seq![
            PathCmd::MoveTo { radius: radius as i64, angle: end as i64 },
            PathCmd::ArcTo { radius: radius as i64, large_arc: large, sweep: false, angle: drawn as i64 },
            PathCmd::LineToCenter,
            PathCmd::ClosePath,
        ]
    }
}

/// One slice of the walk: entry `v` starting at angle `cur` with
/// cumulated magnitude `p` before it, as slice number `idx`. The end
/// boundary is taken between the rounded cumulative extents of `p`
/// and `p + v`; the drawn start applies the seam correction; a span
/// that would reach a full circle is clamped to `CLAMP_SPAN`.
pub open spec fn slice_step(v: int, cur: int, p: int, idx: int, c: WalkCfg) -> SliceG {
    let span = cum_angle(p + v, c.total) - cum_angle(p, c.total);
    let end_raw = cur + span;
    let drawn = seam_start(cur, idx);
    let end = if end_raw - drawn >= CLAMP_SPAN {
        drawn + CLAMP_SPAN
    } else {
        end_raw
    };
    let large = end - cur > HALF_TURN;
    SliceG {
        index: idx,
        start: cur,
        end: end,
        end_raw: end_raw,
        drawn_start: drawn,
        large_arc: large,
        mid: cur + (end - cur) / 2,
        color: color_at(idx),
        path: path_cmds(c.donut, c.radius, c.inner, drawn, end, large),
    }
}

/// The angle walk over the normalized series from position `i` on:
/// state is the current boundary angle `cur`, the cumulated magnitude
/// `p` and the next slice number `idx`. A non-positive entry emits no
/// slice, only a suppressed anchor, and advances nothing; a positive
/// entry emits its slice and an anchor at the slice's angular
/// midpoint, and the next slice starts at this one's (clamped) end.
pub open spec fn walk(s: Seq<int>, i: int, cur: int, p: int, idx: int, c: WalkCfg) -> WalkG
    decreases s.len() - i,
{
    if i < 0 || i >= s.len() {
        WalkG { slices: Seq::empty(), anchors: Seq::empty() }
    } else if s[i] <= 0 {
        let rest = walk(s, i + 1, cur, p, idx, c);
        WalkG {
            slices: rest.slices,
            anchors: seq![LabelAnchor { suppressed: true, mid_angle: 0 }] + rest.anchors,
        }
    } else {
        let g = slice_step(s[i], cur, p, idx, c);
        let rest = walk(s, i + 1, g.end, p + s[i], idx + 1, c);
        WalkG {
            slices: seq![g] + rest.slices,
            anchors: seq![LabelAnchor { suppressed: false, mid_angle: g.mid as i64 }]
                + rest.anchors,
        }
    }
}

/// The number of positive entries of `s` in positions `[i, j)`.
pub open spec fn count_pos(s: Seq<int>, i: int, j: int) -> int
    decreases j - i,
{
    if i < 0 || j <= i || j > s.len() {
        0
    } else {
        (if s[i] > 0 {
            1int
        } else {
            0int
        }) + count_pos(s, i + 1, j)
    }
}

/// Order preservation and zero-entry suppression, over the whole walk:
/// there is exactly one anchor per series entry, in series order; an
/// anchor is suppressed exactly when its entry is not positive; there
/// is exactly one slice per positive entry; slices are numbered
/// consecutively; and the anchor of a positive entry carries the
/// angular midpoint of precisely its own slice.
pub proof fn lemma_walk_shape(s: Seq<int>, i: int, cur: int, p: int, idx: int, c: WalkCfg)
    requires
        0 <= i <= s.len(),
    ensures
        walk(s, i, cur, p, idx, c).anchors.len() == s.len() - i,
        forall|j: int|
            i <= j < s.len() ==> (walk(s, i, cur, p, idx, c).anchors[j - i].suppressed <==> #[trigger] s[j] <= 0),
        walk(s, i, cur, p, idx, c).slices.len() == count_pos(s, i, s.len() as int),
        forall|k: int|
            0 <= k < walk(s, i, cur, p, idx, c).slices.len() ==> #[trigger] walk(
                s,
                i,
                cur,
                p,
                idx,
                c,
            ).slices[k].index == idx + k,
        forall|j: int|
            i <= j < s.len() && #[trigger] s[j] > 0 ==> {
                let w = walk(s, i, cur, p, idx, c);
                let k = count_pos(s, i, j);
                &&& 0 <= k < w.slices.len()
                &&& w.anchors[j - i].mid_angle == w.slices[k].mid as i64
            },
    decreases s.len() - i,
{
    if i == s.len() {
    } else if s[i] <= 0 {
        lemma_walk_shape(s, i + 1, cur, p, idx, c);
        let w = walk(s, i, cur, p, idx, c);
        let rest = walk(s, i + 1, cur, p, idx, c);
        assert forall|j: int| i <= j < s.len() && #[trigger] s[j] > 0 implies {
            let k = count_pos(s, i, j);
            &&& 0 <= k < w.slices.len()
            &&& w.anchors[j - i].mid_angle == w.slices[k].mid as i64
        } by {
            assert(j > i);
            assert(count_pos(s, i, j) == count_pos(s, i + 1, j));
            assert(w.anchors[j - i] == rest.anchors[j - i - 1]);
        }
    } else {
        let g = slice_step(s[i], cur, p, idx, c);
        lemma_walk_shape(s, i + 1, g.end, p + s[i], idx + 1, c);
        let w = walk(s, i, cur, p, idx, c);
        let rest = walk(s, i + 1, g.end, p + s[i], idx + 1, c);
        assert forall|j: int| i <= j < s.len() && #[trigger] s[j] > 0 implies {
            let k = count_pos(s, i, j);
            &&& 0 <= k < w.slices.len()
            &&& w.anchors[j - i].mid_angle == w.slices[k].mid as i64
        } by {
            if j == i {
                assert(count_pos(s, i, j) == 0);
                assert(w.slices[0] == g);
            } else {
                assert(count_pos(s, i, j) == 1 + count_pos(s, i + 1, j));
                assert(w.anchors[j - i] == rest.anchors[j - i - 1]);
                assert(w.slices[1 + count_pos(s, i + 1, j)] == rest.slices[count_pos(s, i + 1, j)]);
            }
        }
    }
}

/// The sum of the angular spans of the emitted slices, measured
/// between each slice's mathematical boundaries (clamped end).
pub open spec fn sum_spans(gs: Seq<SliceG>) -> int
    decreases gs.len(),
{
    if gs.len() == 0 {
        0
    } else {
        (gs[0].end - gs[0].start) + sum_spans(gs.drop_first())
    }
}

/// The same sum, taken before the full-circle clamp.
pub open spec fn sum_spans_raw(gs: Seq<SliceG>) -> int
    decreases gs.len(),
{
    if gs.len() == 0 {
        0
    } else {
        (gs[0].end_raw - gs[0].start) + sum_spans_raw(gs.drop_first())
    }
}

/// The unclamped spans of a walk telescope: their sum is exactly the
/// rounded angular extent of the magnitudes the walk consumed.
pub proof fn lemma_walk_spans(s: Seq<int>, i: int, cur: int, p: int, idx: int, c: WalkCfg)
    requires
        0 <= i <= s.len(),
        forall|j: int| 0 <= j < s.len() ==> #[trigger] s[j] >= 0,
        c.total > 0,
    ensures
        sum_spans_raw(walk(s, i, cur, p, idx, c).slices) == cum_angle(
            p + seq_sum_from(s, i),
            c.total,
        ) - cum_angle(p, c.total),
    decreases s.len() - i,
{
    if i == s.len() {
    } else if s[i] <= 0 {
        lemma_walk_spans(s, i + 1, cur, p, idx, c);
    } else {
        let g = slice_step(s[i], cur, p, idx, c);
        lemma_walk_spans(s, i + 1, g.end, p + s[i], idx + 1, c);
        let w = walk(s, i, cur, p, idx, c);
        let rest = walk(s, i + 1, g.end, p + s[i], idx + 1, c);
        assert(w.slices.drop_first() =~= rest.slices);
    }
}

/// When no slice of a walk was clamped, the drawn spans equal the
/// raw spans.
pub proof fn lemma_spans_unclamped(gs: Seq<SliceG>)
    requires
        forall|k: int| 0 <= k < gs.len() ==> #[trigger] gs[k].end == gs[k].end_raw,
    ensures
        sum_spans(gs) == sum_spans_raw(gs),
    decreases gs.len(),
{
    if gs.len() > 0 {
        assert(gs[0].end == gs[0].end_raw);
        assert(forall|k: int|
            0 <= k < gs.drop_first().len() ==> #[trigger] gs.drop_first()[k].end == gs.drop_first()[k].end_raw);
        lemma_spans_unclamped(gs.drop_first());
    }
}

/// Partition property: when the resolved total is exactly the sum of
/// the normalized series (no ratio or total override stretches the
/// circle) and that sum is positive, the unclamped spans of the
/// emitted slices partition the circle exactly: they add up to one
/// full turn, without gap or overlap.
pub proof fn lemma_partition(s: Seq<int>, a0: int, c: WalkCfg)
    requires
        forall|j: int| 0 <= j < s.len() ==> #[trigger] s[j] >= 0,
        c.total == seq_sum(s),
        c.total > 0,
    ensures
        sum_spans_raw(walk(s, 0, a0, 0, 0, c).slices) == FULL_TURN,
{
    lemma_walk_spans(s, 0, a0, 0, 0, c);
    crate::normalize::lemma_seq_sum_from(s, 0);
    assert(s.take(0) =~= Seq::<int>::empty());
    assert(seq_sum_from(s, 0) == seq_sum(s));
    lemma_div_multiples_vanish(FULL_TURN as int, c.total);
    assert(seq_sum(s) * FULL_TURN == c.total * FULL_TURN);
    assert(cum_angle(seq_sum(s), c.total) == FULL_TURN) by {
        assert(c.total * FULL_TURN == FULL_TURN * c.total) by (nonlinear_arith);
    }
    lemma_div_of0(c.total);
    assert(cum_angle(0, c.total) == 0);
}

/// Partition property for the drawn boundaries: as long as no slice
/// ran into the full-circle clamp, the published spans themselves add
/// up to one full turn. (A single slice spanning the whole circle is
/// the named exception: its drawn span is clamped to `CLAMP_SPAN`.)
pub proof fn lemma_partition_drawn(s: Seq<int>, a0: int, c: WalkCfg)
    requires
        forall|j: int| 0 <= j < s.len() ==> #[trigger] s[j] >= 0,
        c.total == seq_sum(s),
        c.total > 0,
        forall|k: int|
            0 <= k < walk(s, 0, a0, 0, 0, c).slices.len() ==> #[trigger] walk(
                s,
                0,
                a0,
                0,
                0,
                c,
            ).slices[k].end == walk(s, 0, a0, 0, 0, c).slices[k].end_raw,
    ensures
        sum_spans(walk(s, 0, a0, 0, 0, c).slices) == FULL_TURN,
{
    lemma_partition(s, a0, c);
    lemma_spans_unclamped(walk(s, 0, a0, 0, 0, c).slices);
}

/// The views of a vector of slice descriptors, in order.
pub open spec fn views_of(v: Seq<SliceDescriptor>) -> Seq<SliceG> {
    v.map_values(|d: SliceDescriptor| d@)
}

/// The rounded angular extent of a cumulated magnitude `p` against
/// the total `t`, computed within machine integers.
fn cum_angle_exec(p: i64, t: i64) -> (r: i64)
    requires
        0 <= p <= t,
        0 < t,
    ensures
        r as int == cum_angle(p as int, t as int),
        0 <= r <= FULL_TURN,
{
    proof {
        lemma_mul_inequality(p as int, t as int, FULL_TURN as int);
        lemma_div_is_ordered(p as int * FULL_TURN, t as int * FULL_TURN, t as int);
        lemma_div_multiples_vanish(FULL_TURN as int, t as int);
        lemma_mul_nonnegative(p as int, FULL_TURN as int);
        lemma_div_pos_is_pos(p as int * FULL_TURN, t as int);
    }
    let prod: u128 = (p as u128) * (FULL_TURN as u128);
    let q: u128 = prod / (t as u128);
    q as i64
}

/// Walk the normalized series and emit the slice descriptors and the
/// order-aligned label anchors, exactly as the `walk` specification
/// states: one slice per positive entry, boundaries taken between
/// successive rounded cumulative magnitudes, seam correction on every
/// drawn start after the first, full-circle clamp on near-full spans,
/// and one anchor per series entry, suppressed for zero entries.
pub fn build_slices(
    normalized: &Vec<i64>,
    start_angle: i64,
    total: i64,
    radius: i64,
    inner: i64,
    donut: bool,
) -> (r: (Vec<SliceDescriptor>, Vec<LabelAnchor>))
    requires
        normalized@.len() <= MAX_SERIES_LEN,
        forall|j: int|
            0 <= j < normalized@.len() ==> 0 <= #[trigger] normalized@[j] <= MAX_MAGNITUDE,
        seq_sum(int_seq(normalized@)) <= total as int,
        seq_sum(int_seq(normalized@)) <= MAX_SUM,
        0 <= total,
        -MAX_OFFSET <= start_angle <= MAX_OFFSET,
    ensures
        ({
            let w = walk(
                int_seq(normalized@),
                0,
                start_angle as int,
                0,
                0,
                WalkCfg { total: total as int, radius: radius as int, inner: inner as int, donut },
            );
            &&& views_of(r.0@) == w.slices
            &&& r.1@ == w.anchors
        }),
{
    let ghost ns = int_seq(normalized@);
    let ghost c = WalkCfg {
        total: total as int,
        radius: radius as int,
        inner: inner as int,
        donut,
    };
    proof {
        assert forall|j: int| 0 <= j < ns.len() implies #[trigger] ns[j] >= 0 by {
            assert(ns[j] == normalized@[j] as int);
        }
    }
    let n = normalized.len();
    let mut slices: Vec<SliceDescriptor> = Vec::new();
    let mut anchors: Vec<LabelAnchor> = Vec::new();
    let mut cur: i64 = start_angle;
    let mut p: i64 = 0;
    let mut idx: usize = 0;
    let mut color: i64 = COLOR_BASE;
    let mut i: usize = 0;
    while i < n
        invariant
            n == normalized@.len(),
            ns == int_seq(normalized@),
            forall|j: int| 0 <= j < ns.len() ==> #[trigger] ns[j] >= 0,
            c == (WalkCfg {
                total: total as int,
                radius: radius as int,
                inner: inner as int,
                donut,
            }),
            n <= MAX_SERIES_LEN,
            forall|j: int|
                0 <= j < normalized@.len() ==> 0 <= #[trigger] normalized@[j] <= MAX_MAGNITUDE,
            seq_sum(ns) <= total as int,
            seq_sum(ns) <= MAX_SUM,
            0 <= total,
            -MAX_OFFSET <= start_angle <= MAX_OFFSET,
            i <= n,
            idx <= i,
            0 <= p,
            p as int == seq_sum(ns.take(i as int)),
            start_angle as int <= cur as int,
            cur as int <= start_angle as int + FULL_TURN,
            total > 0 ==> cur as int <= start_angle as int + cum_angle(p as int, total as int),
            total == 0 ==> cur == start_angle && p == 0,
            color as int == color_at(idx as int),
            COLOR_BASE - (idx as int) * COLOR_STEP <= color as int <= COLOR_BASE,
            anchors@.len() == i,
            walk(ns, 0, start_angle as int, 0, 0, c).slices == views_of(slices@) + walk(
                ns,
                i as int,
                cur as int,
                p as int,
                idx as int,
                c,
            ).slices,
            walk(ns, 0, start_angle as int, 0, 0, c).anchors == anchors@ + walk(
                ns,
                i as int,
                cur as int,
                p as int,
                idx as int,
                c,
            ).anchors,
        decreases n - i,
    {
        let ghost prev_slices = slices@;
        let ghost prev_anchors = anchors@;
        let v = normalized[i];
        proof {
            assert(ns[i as int] == v as int);
            lemma_seq_sum_take_step(ns, i as int);
            lemma_seq_sum_take_le(ns, i as int);
            lemma_seq_sum_take_le(ns, i as int + 1);
        }
        if v != 0 {
            let p2: i64 = p + v;
            let c1: i64 = cum_angle_exec(p, total);
            let c2: i64 = cum_angle_exec(p2, total);
            proof {
                lemma_mul_inequality(p as int, p2 as int, FULL_TURN as int);
                lemma_div_is_ordered(
                    p as int * FULL_TURN,
                    p2 as int * FULL_TURN,
                    total as int,
                );
            }
            let span: i64 = c2 - c1;
            let end_raw: i64 = cur + span;
            let drawn: i64 = if idx == 0 {
                cur
            } else {
                let pulled = cur - SEAM_PULL;
                if pulled < 0 {
                    0
                } else {
                    pulled
                }
            };
            let end: i64 = if end_raw - drawn >= CLAMP_SPAN {
                drawn + CLAMP_SPAN
            } else {
                end_raw
            };
            let large: bool = end - cur > HALF_TURN;
            let mid: i64 = cur + (((end - cur) as u64) / 2) as i64;
            let mut path: Vec<PathCmd> = Vec::new();
            path.push(PathCmd::MoveTo { radius, angle: end });
            path.push(PathCmd::ArcTo { radius, large_arc: large, sweep: false, angle: drawn });
            if donut {
                path.push(PathCmd::LineTo { radius: inner, angle: drawn });
                path.push(PathCmd::ArcTo { radius: inner, large_arc: large, sweep: true, angle: end });
            } else {
                path.push(PathCmd::LineToCenter);
            }
            path.push(PathCmd::ClosePath);
            let d = SliceDescriptor {
                index: idx,
                start_angle: cur,
                end_angle: end,
                end_angle_raw: end_raw,
                drawn_start_angle: drawn,
                large_arc: large,
                color_value: color,
                path,
            };
            proof {
                let g = slice_step(ns[i as int], cur as int, p as int, idx as int, c);
                assert(d.path@ =~= g.path);
                assert(d@ == g);
                let w_here = walk(ns, i as int, cur as int, p as int, idx as int, c);
                let w_next = walk(ns, i as int + 1, g.end, p as int + ns[i as int], idx as int + 1, c);
                assert(w_here.slices == seq![g] + w_next.slices);
                assert(w_here.anchors == seq![
                    LabelAnchor { suppressed: false, mid_angle: g.mid as i64 },
                ] + w_next.anchors);
                assert(views_of(prev_slices.push(d)) =~= views_of(prev_slices).push(d@));
                assert(views_of(prev_slices) + w_here.slices =~= views_of(prev_slices).push(d@)
                    + w_next.slices);
                assert(mid as int == g.mid);
                assert(prev_anchors + w_here.anchors =~= prev_anchors.push(
                    LabelAnchor { suppressed: false, mid_angle: mid },
                ) + w_next.anchors);
                // colour ramp bookkeeping
                lemma_div_nonincreasing(COLOR_STEP as int, idx as int + 1);
                lemma_div_pos_is_pos(COLOR_STEP as int, idx as int + 1);
                lemma_mul_is_distributive_add_other_way(COLOR_STEP as int, idx as int, 1);
                lemma_mul_inequality(idx as int + 1, MAX_SERIES_LEN as int, COLOR_STEP as int);
            }
            slices.push(d);
            anchors.push(LabelAnchor { suppressed: false, mid_angle: mid });
            let dec: i64 = ((COLOR_STEP as u64) / ((idx as u64) + 1)) as i64;
            color = color - dec;
            idx = idx + 1;
            cur = end;
            p = p2;
        } else {
            proof {
                let w_here = walk(ns, i as int, cur as int, p as int, idx as int, c);
                let w_next = walk(ns, i as int + 1, cur as int, p as int, idx as int, c);
                assert(w_here.slices == w_next.slices);
                assert(w_here.anchors == seq![LabelAnchor { suppressed: true, mid_angle: 0 }]
                    + w_next.anchors);
                assert(prev_anchors + w_here.anchors =~= prev_anchors.push(
                    LabelAnchor { suppressed: true, mid_angle: 0 },
                ) + w_next.anchors);
            }
            anchors.push(LabelAnchor { suppressed: true, mid_angle: 0 });
        }
        i += 1;
    }
    proof {
        assert(ns.take(n as int) =~= ns);
        assert(walk(ns, n as int, cur as int, p as int, idx as int, c).slices
            =~= Seq::<SliceG>::empty());
        assert(walk(ns, n as int, cur as int, p as int, idx as int, c).anchors
            =~= Seq::<LabelAnchor>::empty());
        assert(views_of(slices@) + Seq::<SliceG>::empty() =~= views_of(slices@));
        assert(anchors@ + Seq::<LabelAnchor>::empty() =~= anchors@);
    }
    (slices, anchors)
}

} // verus!
