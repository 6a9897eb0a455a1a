//! Chart configuration: fixed-point scale, layout parameters and the
//! bounds under which all angle arithmetic stays inside machine integers.

use vstd::prelude::*;

verus! {

/// Fixed-point scale: every magnitude, angle and coordinate is an `i64`
/// counted in units of `1/SCALE`, so `SCALE` itself stands for `1.0`.
pub const SCALE: i64 = 10_000;

/// Half of `SCALE`: multiplying an unscaled length by it halves the
/// length and brings it to fixed-point in one exact step.
pub const HALF_SCALE: i64 = 5_000;

/// One full turn, `360` degrees, in angle units.
pub const FULL_TURN: i64 = 3_600_000;

/// Half a turn, `180` degrees; spans beyond it need the large-arc flag.
pub const HALF_TURN: i64 = 1_800_000;

/// The widest span a single drawn slice may take: `359.99` degrees.
/// A full `360` degree arc is ambiguous to arc-drawing primitives
/// (start and end coincide), so a near-full slice is clamped to this.
pub const CLAMP_SPAN: i64 = 3_599_900;

/// The anti-seam correction, `0.4` degrees: every slice after the first
/// is drawn starting slightly before its mathematical boundary so that
/// anti-aliasing cannot open a hairline gap between neighbours.
pub const SEAM_PULL: i64 = 4_000;

/// Outer margin, `30.0` units, kept between the circle and the viewbox.
pub const CHART_MARGIN: i64 = 300_000;

/// Colour channel value assigned to the first slice: `255.0`.
pub const COLOR_BASE: i64 = 2_550_000;

/// Base decrement of the colour ramp: `75.0`, divided by the slice
/// position so that the ramp slows down as slices accumulate.
pub const COLOR_STEP: i64 = 750_000;

/// Smallest accepted show-ratio, `0.0001`; smaller requests are clamped.
pub const RATIO_MIN: i64 = 1;

/// Largest accepted show-ratio, `1.0`; larger requests are clamped.
pub const RATIO_MAX: i64 = 10_000;

/// Largest accepted series length.
pub const MAX_SERIES_LEN: usize = 100_000;

/// Largest accepted magnitude of a single series entry (`10_000_000.0`
/// in real units). Together with `MAX_SERIES_LEN` this keeps every sum
/// below `10^16`, so products with `FULL_TURN` fit in 128-bit integers
/// and every published angle fits comfortably in an `i64`.
pub const MAX_MAGNITUDE: i64 = 100_000_000_000;

/// Largest accepted magnitude of a series sum or of an explicit total.
pub const MAX_SUM: i64 = 100_000_000_000 * 100_000;

/// Largest accepted magnitude for the start angle, padding, label offset
/// and donut width.
pub const MAX_OFFSET: i64 = 1_000_000_000_000;

/// Largest accepted viewbox width or height (in whole units, unscaled).
pub const MAX_VIEWBOX: i64 = 100_000_000;

/// A hint for the automatic positioning of labels in the pie chart.
#[derive(Clone, Copy, PartialEq, Eq, Structural, Debug)]
pub enum LabelPosition {
    /// Anchor labels inside the pie, halfway between center and rim.
    Inside,
    /// Anchor labels just outside the rim of the pie.
    Outside,
    /// Anchor labels at the center, for manual placement via the offset.
    Center,
}

/// The error the engine reports instead of producing geometry.
#[derive(Clone, Copy, PartialEq, Eq, Structural, Debug)]
pub enum ChartError {
    /// The series was empty: a chart needs at least one entry.
    EmptySeries,
}

/// The configuration snapshot for one chart computation, immutable for
/// its duration. Magnitude-like and coordinate-like fields are
/// fixed-point `i64` values in units of `1/SCALE`; the viewbox is in
/// whole units.
pub struct PieChartProps {
    /// The series of magnitudes, one entry per slice, order significant.
    pub series: Vec<i64>,
    /// Optional label texts, order-aligned with the series.
    pub labels: Option<Vec<String>>,
    /// Viewbox width in whole (unscaled) units.
    pub viewbox_width: i64,
    /// Viewbox height in whole (unscaled) units.
    pub viewbox_height: i64,
    /// Whether value labels are emitted when no explicit texts are given.
    pub show_labels: bool,
    /// Strategy choosing the radius on which label anchors sit.
    pub label_position: LabelPosition,
    /// Extra radial offset for label anchors.
    pub label_offset: i64,
    /// Angle at which the first slice starts.
    pub start_angle: i64,
    /// Optional explicit total the series is measured against.
    pub total: Option<i64>,
    /// Optional fraction of the circle the series should occupy.
    pub show_ratio: Option<i64>,
    /// Padding kept between chart and viewbox on every side.
    pub padding: i64,
    /// Whether slices are drawn as ring segments instead of wedges.
    pub donut: bool,
    /// Radial width of each ring segment when `donut` is set.
    pub donut_width: i64,
}

/// The bounds under which every computation of the engine is free of
/// overflow. They only reflect machine limits; no meaningful chart
/// comes near them.
pub open spec fn props_wf(p: PieChartProps) -> bool {
    &&& p.series@.len() <= MAX_SERIES_LEN
    &&& forall|j: int|
        0 <= j < p.series@.len() ==> -MAX_MAGNITUDE <= #[trigger] p.series@[j] <= MAX_MAGNITUDE
    &&& -MAX_VIEWBOX <= p.viewbox_width <= MAX_VIEWBOX
    &&& -MAX_VIEWBOX <= p.viewbox_height <= MAX_VIEWBOX
    &&& -MAX_OFFSET <= p.label_offset <= MAX_OFFSET
    &&& -MAX_OFFSET <= p.start_angle <= MAX_OFFSET
    &&& -MAX_OFFSET <= p.padding <= MAX_OFFSET
    &&& -MAX_OFFSET <= p.donut_width <= MAX_OFFSET
    &&& (p.total matches Some(t) ==> -MAX_SUM <= t <= MAX_SUM)
}

impl Default for PieChartProps {
    /// The documented defaults: a `600 x 400` viewbox, labels shown
    /// inside, no offsets, solid slices of width `40.0` when `donut`
    /// is turned on, and an empty series to be filled in.
    fn default() -> (r: Self)
        ensures
            r.series@ == Seq::<i64>::empty(),
            r.labels is None,
            r.viewbox_width == 600,
            r.viewbox_height == 400,
            r.show_labels == true,
            r.label_position == LabelPosition::Inside,
            r.label_offset == 0,
            r.start_angle == 0,
            r.total is None,
            r.show_ratio is None,
            r.padding == 0,
            r.donut == false,
            r.donut_width == 40 * SCALE,
            props_wf(r),
    {
        PieChartProps {
            series: Vec::new(),
            labels: None,
            viewbox_width: 600,
            viewbox_height: 400,
            show_labels: true,
            label_position: LabelPosition::Inside,
            label_offset: 0,
            start_angle: 0,
            total: None,
            show_ratio: None,
            padding: 0,
            donut: false,
            donut_width: 40 * SCALE,
        }
    }
}

} // verus!
