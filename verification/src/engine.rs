//! The chart engine: one pure pass from a series and a configuration
//! to the full drawable geometry. An empty series is the one hard
//! error; every other degenerate configuration (zero total, donut
//! wider than the radius, over-wide ratios) is clamped or guarded
//! locally and degrades gracefully instead of failing.

use vstd::prelude::*;
use crate::config::{
    CHART_MARGIN, ChartError, FULL_TURN, HALF_SCALE, MAX_MAGNITUDE, PieChartProps, RATIO_MAX,
    RATIO_MIN, props_wf,
};
use crate::labels::{label_radius_for, label_radius_spec};
use crate::normalize::{
    clamp_zero, int_seq, lemma_seq_sum_nonneg, norm_seq, normalize_series, seq_sum, sum_series,
};
use crate::slices::{
    LabelAnchor, SliceDescriptor, WalkCfg, build_slices, count_pos, lemma_partition,
    lemma_spans_unclamped, lemma_walk_shape, sum_spans, sum_spans_raw, views_of, walk,
};
use crate::total::{resolve_total, total_spec};

verus! {

/// The full geometry of one chart: the resolved layout scalars, one
/// slice descriptor per positive entry and one label anchor per
/// series entry. All values are fixed-point.
#[derive(PartialEq, Debug)]
pub struct ChartGeometry {
    /// The x coordinate of the chart center.
    pub center_x: i64,
    /// The y coordinate of the chart center.
    pub center_y: i64,
    /// The outer radius of the slices.
    pub radius: i64,
    /// The inner radius of ring segments: `radius` less the donut
    /// width, floored at zero (a donut at least as wide as the radius
    /// collapses to a solid wedge); zero for a non-donut chart.
    pub inner_radius: i64,
    /// The radius label anchors sit on.
    pub label_radius: i64,
    /// The resolved total: the magnitude standing for the full circle.
    pub values_total: i64,
    /// The emitted slices, in series order, positive entries only.
    pub slices: Vec<SliceDescriptor>,
    /// One anchor per series entry, in series order.
    pub anchors: Vec<LabelAnchor>,
}

/// The x coordinate of the chart center: half the viewbox width.
pub open spec fn center_x_spec(p: PieChartProps) -> int {
    p.viewbox_width * HALF_SCALE
}

/// The y coordinate of the chart center: half the viewbox height.
pub open spec fn center_y_spec(p: PieChartProps) -> int {
    p.viewbox_height * HALF_SCALE
}

/// The outer radius: the smaller half-extent of the viewbox, less the
/// fixed margin and the configured padding, floored at zero.
pub open spec fn radius_spec(p: PieChartProps) -> int {
    let cmin = if center_x_spec(p) < center_y_spec(p) {
        center_x_spec(p)
    } else {
        center_y_spec(p)
    };
    clamp_zero(cmin - CHART_MARGIN - p.padding)
}

/// The inner radius of ring segments, floored at zero so a donut at
/// least as wide as the radius degrades to a solid wedge.
pub open spec fn inner_spec(p: PieChartProps) -> int {
    if p.donut {
        clamp_zero(radius_spec(p) - p.donut_width)
    } else {
        0
    }
}

/// The sum of the normalized series.
pub open spec fn nsum_spec(p: PieChartProps) -> int {
    seq_sum(norm_seq(p.series@))
}

/// The sum of the raw series.
pub open spec fn rsum_spec(p: PieChartProps) -> int {
    seq_sum(int_seq(p.series@))
}

/// The resolved total of the chart.
pub open spec fn chart_total(p: PieChartProps) -> int {
    total_spec(nsum_spec(p), rsum_spec(p), p.total, p.show_ratio)
}

/// The walk configuration of the chart.
pub open spec fn chart_cfg(p: PieChartProps) -> WalkCfg {
    WalkCfg {
        total: chart_total(p),
        radius: radius_spec(p),
        inner: inner_spec(p),
        donut: p.donut,
    }
}

/// The angle walk of the chart over its normalized series.
pub open spec fn chart_walk(p: PieChartProps) -> crate::slices::WalkG {
    walk(norm_seq(p.series@), 0, p.start_angle as int, 0, 0, chart_cfg(p))
}

/// What `compute_chart` promises of a successful result: every layout
/// scalar is the specified one, the slices are exactly the walk's
/// slices and the anchors exactly its anchors.
pub open spec fn geometry_matches(p: PieChartProps, g: ChartGeometry) -> bool {
    &&& g.center_x as int == center_x_spec(p)
    &&& g.center_y as int == center_y_spec(p)
    &&& g.radius as int == radius_spec(p)
    &&& g.inner_radius as int == inner_spec(p)
    &&& g.label_radius as int == label_radius_spec(
        p.label_position,
        radius_spec(p),
        p.label_offset as int,
    )
    &&& g.values_total as int == chart_total(p)
    &&& views_of(g.slices@) == chart_walk(p).slices
    &&& g.anchors@ == chart_walk(p).anchors
}

/// The outer radius of the chart, floored at zero.
fn resolved_radius(props: &PieChartProps) -> (r: i64)
    requires
        props_wf(*props),
    ensures
        r as int == radius_spec(*props),
        r >= 0,
{
    let cx: i64 = props.viewbox_width * HALF_SCALE;
    let cy: i64 = props.viewbox_height * HALF_SCALE;
    let cmin: i64 = if cx < cy {
        cx
    } else {
        cy
    };
    let r0 = cmin - CHART_MARGIN - props.padding;
    if r0 < 0 {
        0
    } else {
        r0
    }
}

/// Compute the full chart geometry: fails exactly on an empty series,
/// and otherwise resolves the layout scalars, normalizes the series,
/// resolves the total, and emits slices and anchors as the walk
/// specification states.
pub fn compute_chart(props: &PieChartProps) -> (r: Result<ChartGeometry, ChartError>)
    requires
        props_wf(*props),
    ensures
        (r is Err) <==> props.series@.len() == 0,
        r matches Err(e) ==> e == ChartError::EmptySeries,
        r matches Ok(g) ==> geometry_matches(*props, g) && g.radius >= 0 && g.inner_radius >= 0,
{
    if props.series.len() == 0 {
        return Err(ChartError::EmptySeries);
    }
    let cx: i64 = props.viewbox_width * HALF_SCALE;
    let cy: i64 = props.viewbox_height * HALF_SCALE;
    let radius: i64 = resolved_radius(props);
    let inner: i64 = if props.donut {
        let r0 = radius - props.donut_width;
        if r0 < 0 {
            0
        } else {
            r0
        }
    } else {
        0
    };
    let label_radius = label_radius_for(props.label_position, radius, props.label_offset);
    let normalized = normalize_series(&props.series);
    proof {
        assert forall|j: int| 0 <= j < normalized@.len() implies 0 <= #[trigger] normalized@[j]
            <= MAX_MAGNITUDE by {
            assert(normalized@[j] as int == norm_seq(props.series@)[j]);
            assert(-MAX_MAGNITUDE <= props.series@[j] <= MAX_MAGNITUDE);
        }
        assert forall|j: int| 0 <= j < int_seq(normalized@).len() implies #[trigger] int_seq(
            normalized@,
        )[j] >= 0 by {
            assert(int_seq(normalized@)[j] == normalized@[j] as int);
        }
        lemma_seq_sum_nonneg(int_seq(normalized@));
    }
    let nsum = sum_series(&normalized);
    let rsum = sum_series(&props.series);
    let values_total = resolve_total(nsum, rsum, props.total, props.show_ratio);
    let (slices, anchors) = build_slices(
        &normalized,
        props.start_angle,
        values_total,
        radius,
        inner,
        props.donut,
    );
    proof {
        assert(WalkCfg {
            total: values_total as int,
            radius: radius as int,
            inner: inner as int,
            donut: props.donut,
        } == chart_cfg(*props));
        assert(int_seq(normalized@) == norm_seq(props.series@));
    }
    Ok(
        ChartGeometry {
            center_x: cx,
            center_y: cy,
            radius,
            inner_radius: inner,
            label_radius,
            values_total,
            slices,
            anchors,
        },
    )
}

/// A degenerate-geometry condition: the engine clamps or guards each
/// of these and proceeds instead of failing, but a host can surface
/// them as misconfiguration diagnostics.
#[derive(Clone, Copy, PartialEq, Eq, Structural, Debug)]
pub enum ChartWarning {
    /// The resolved total is not positive (no positive entry): every
    /// span degenerates to zero and nothing visible is drawn.
    ZeroTotal,
    /// The donut is at least as wide as the radius: the inner radius
    /// clamps to zero and the ring collapses to a solid wedge.
    DonutTooWide,
    /// The requested show-ratio lies outside `[0.0001, 1.0]` and was
    /// clamped into it.
    RatioOutOfRange,
}

/// The degenerate conditions of a configuration, in a fixed order.
pub open spec fn warnings_spec(p: PieChartProps) -> Seq<ChartWarning> {
    (if chart_total(p) <= 0 {
        seq![ChartWarning::ZeroTotal]
    } else {
        Seq::empty()
    }) + (if p.donut && p.donut_width >= radius_spec(p) {
        seq![ChartWarning::DonutTooWide]
    } else {
        Seq::empty()
    }) + (if p.show_ratio matches Some(r) && !(RATIO_MIN <= r <= RATIO_MAX) {
        seq![ChartWarning::RatioOutOfRange]
    } else {
        Seq::empty()
    })
}

/// Diagnose the degenerate conditions of a configuration, exactly as
/// `warnings_spec` states. The engine proceeds regardless; this is
/// the optional signal a host can use to detect misconfiguration
/// without a hard failure.
pub fn diagnose_chart(props: &PieChartProps) -> (r: Vec<ChartWarning>)
    requires
        props_wf(*props),
    ensures
        r@ == warnings_spec(*props),
{
    let normalized = normalize_series(&props.series);
    proof {
        assert forall|j: int| 0 <= j < normalized@.len() implies 0 <= #[trigger] normalized@[j]
            <= MAX_MAGNITUDE by {
            assert(normalized@[j] as int == norm_seq(props.series@)[j]);
            assert(-MAX_MAGNITUDE <= props.series@[j] <= MAX_MAGNITUDE);
        }
        assert forall|j: int| 0 <= j < int_seq(normalized@).len() implies #[trigger] int_seq(
            normalized@,
        )[j] >= 0 by {
            assert(int_seq(normalized@)[j] == normalized@[j] as int);
        }
        lemma_seq_sum_nonneg(int_seq(normalized@));
        assert(int_seq(normalized@) == norm_seq(props.series@));
    }
    let nsum = sum_series(&normalized);
    let radius = resolved_radius(props);
    let mut r: Vec<ChartWarning> = Vec::new();
    if nsum == 0 {
        proof {
            crate::total::lemma_total_zero(0, rsum_spec(*props), props.total, props.show_ratio);
        }
        r.push(ChartWarning::ZeroTotal);
    } else {
        proof {
            crate::total::lemma_total_pos(
                nsum_spec(*props),
                rsum_spec(*props),
                props.total,
                props.show_ratio,
            );
        }
    }
    if props.donut && props.donut_width >= radius {
        r.push(ChartWarning::DonutTooWide);
    }
    match props.show_ratio {
        Some(ratio) => {
            if ratio < RATIO_MIN || ratio > RATIO_MAX {
                r.push(ChartWarning::RatioOutOfRange);
            }
        },
        None => {},
    }
    proof {
        assert(r@ =~= warnings_spec(*props));
    }
    r
}

/// Idempotence law: the geometry is a pure function of the inputs, so
/// any two results of the computation on identical inputs coincide —
/// every layout scalar, every slice (paths included) and every anchor.
pub proof fn lemma_chart_idempotent(p: PieChartProps, g1: ChartGeometry, g2: ChartGeometry)
    requires
        geometry_matches(p, g1),
        geometry_matches(p, g2),
    ensures
        g1.center_x == g2.center_x,
        g1.center_y == g2.center_y,
        g1.radius == g2.radius,
        g1.inner_radius == g2.inner_radius,
        g1.label_radius == g2.label_radius,
        g1.values_total == g2.values_total,
        views_of(g1.slices@) == views_of(g2.slices@),
        g1.anchors@ == g2.anchors@,
{
}

/// Order preservation and zero-entry suppression, at the chart level:
/// there is one anchor per series entry, in series order; an anchor
/// is suppressed exactly when its entry is not positive (in
/// particular, for every zero entry); there is exactly one slice per
/// positive entry, and slices are numbered consecutively from zero;
/// and the anchor of a positive entry carries the angular midpoint of
/// precisely its own slice.
pub proof fn lemma_chart_alignment(p: PieChartProps, g: ChartGeometry)
    requires
        geometry_matches(p, g),
    ensures
        g.anchors@.len() == p.series@.len(),
        forall|j: int|
            0 <= j < p.series@.len() ==> (g.anchors@[j].suppressed <==> #[trigger] p.series@[j]
                <= 0),
        g.slices@.len() == count_pos(norm_seq(p.series@), 0, p.series@.len() as int),
        forall|k: int| 0 <= k < g.slices@.len() ==> (#[trigger] g.slices@[k])@.index == k,
        forall|j: int|
            0 <= j < p.series@.len() && #[trigger] p.series@[j] > 0 ==> {
                let k = count_pos(norm_seq(p.series@), 0, j);
                &&& 0 <= k < g.slices@.len()
                &&& g.anchors@[j].mid_angle as int == g.slices@[k]@.mid
            },
{
    let ns = norm_seq(p.series@);
    let w = chart_walk(p);
    lemma_walk_shape(ns, 0, p.start_angle as int, 0, 0, chart_cfg(p));
    assert(views_of(g.slices@).len() == g.slices@.len());
    assert forall|j: int|
        0 <= j < p.series@.len() implies (g.anchors@[j].suppressed <==> #[trigger] p.series@[j]
        <= 0) by {
        assert(ns[j] == clamp_zero(p.series@[j] as int));
        assert(w.anchors[j].suppressed <==> ns[j] <= 0);
    }
    assert forall|k: int| 0 <= k < g.slices@.len() implies (#[trigger] g.slices@[k])@.index
        == k by {
        assert(views_of(g.slices@)[k] == g.slices@[k]@);
        assert(w.slices[k].index == k);
    }
    assert forall|j: int|
        0 <= j < p.series@.len() && #[trigger] p.series@[j] > 0 implies {
        let k = count_pos(ns, 0, j);
        &&& 0 <= k < g.slices@.len()
        &&& g.anchors@[j].mid_angle as int == g.slices@[k]@.mid
    } by {
        assert(ns[j] == clamp_zero(p.series@[j] as int));
        assert(ns[j] > 0);
        let k = count_pos(ns, 0, j);
        assert(0 <= k < w.slices.len());
        assert(w.anchors[j].mid_angle == w.slices[k].mid as i64);
        assert(views_of(g.slices@)[k] == g.slices@[k]@);
        assert(g.anchors@[j].mid_angle as int == w.slices[k].mid as i64 as int);
    }
}

/// Partition law, at the chart level: with no total or ratio override
/// (so the resolved total is exactly the normalized sum) and at least
/// one positive entry, the unclamped spans of the emitted slices add
/// up to exactly one full turn — the slices partition the circle
/// without gap or overlap.
pub proof fn lemma_chart_partition(p: PieChartProps, g: ChartGeometry)
    requires
        geometry_matches(p, g),
        p.total is None,
        p.show_ratio is None,
        nsum_spec(p) > 0,
    ensures
        sum_spans_raw(views_of(g.slices@)) == FULL_TURN,
{
    let ns = norm_seq(p.series@);
    assert forall|j: int| 0 <= j < ns.len() implies #[trigger] ns[j] >= 0 by {
        assert(ns[j] == clamp_zero(p.series@[j] as int));
    }
    assert(chart_total(p) == nsum_spec(p));
    lemma_partition(ns, p.start_angle as int, chart_cfg(p));
}

/// Partition law for the drawn boundaries: additionally, when no
/// slice ran into the full-circle clamp, the published spans
/// themselves add up to one full turn. (A single slice spanning the
/// whole circle is the named exception: its drawn span is clamped.)
pub proof fn lemma_chart_partition_drawn(p: PieChartProps, g: ChartGeometry)
    requires
        geometry_matches(p, g),
        p.total is None,
        p.show_ratio is None,
        nsum_spec(p) > 0,
        forall|k: int|
            0 <= k < g.slices@.len() ==> (#[trigger] g.slices@[k])@.end == g.slices@[k]@.end_raw,
    ensures
        sum_spans(views_of(g.slices@)) == FULL_TURN,
{
    lemma_chart_partition(p, g);
    assert forall|k: int|
        0 <= k < views_of(g.slices@).len() implies #[trigger] views_of(g.slices@)[k].end
        == views_of(g.slices@)[k].end_raw by {
        assert(views_of(g.slices@)[k] == g.slices@[k]@);
    }
    lemma_spans_unclamped(views_of(g.slices@));
}

/// Ratio monotonicity law, at the chart level: for two configurations
/// equal but for the show-ratio, the one with the larger ratio
/// resolves to a total no larger — raising the ratio towards `1.0`
/// never shrinks the share of the circle the series occupies.
/// (Strict decrease cannot hold in general: rounding can make two
/// close ratios resolve to the same total.)
pub proof fn lemma_chart_ratio_monotone(p1: PieChartProps, p2: PieChartProps, r1: i64, r2: i64)
    requires
        p1.series@ == p2.series@,
        p1.total == p2.total,
        p1.show_ratio == Some(r1),
        p2.show_ratio == Some(r2),
        r1 <= r2,
    ensures
        chart_total(p1) >= chart_total(p2),
{
    let ns = norm_seq(p1.series@);
    assert forall|j: int| 0 <= j < ns.len() implies #[trigger] ns[j] >= 0 by {
        assert(ns[j] == clamp_zero(p1.series@[j] as int));
    }
    crate::normalize::lemma_seq_sum_nonneg(ns);
    crate::total::lemma_ratio_monotone(nsum_spec(p1), rsum_spec(p1), p1.total, r1, r2);
    assert(nsum_spec(p1) == nsum_spec(p2));
    assert(rsum_spec(p1) == rsum_spec(p2));
}

} // verus!
