use pie_geometry::config::{ChartError, PieChartProps};
use pie_geometry::engine::{compute_chart, diagnose_chart, ChartWarning};
use pie_geometry::slices::PathCmd;

// All values are fixed-point with four decimal places: 10_000 is 1.0,
// and angles are degrees at the same scale (900_000 is 90 degrees).

fn props_with(series: Vec<i64>) -> PieChartProps {
    PieChartProps { series, ..Default::default() }
}

#[test]
fn four_equal_slices_span_quarters() {
    let g = compute_chart(&props_with(vec![10_000, 10_000, 10_000, 10_000])).unwrap();
    assert_eq!(g.slices.len(), 4);
    assert_eq!(g.values_total, 40_000);
    for (k, s) in g.slices.iter().enumerate() {
        assert_eq!(s.index, k);
        assert_eq!(s.start_angle, k as i64 * 900_000);
        assert_eq!(s.end_angle, (k as i64 + 1) * 900_000);
        assert_eq!(s.end_angle_raw, s.end_angle);
        assert!(!s.large_arc);
    }
}

#[test]
fn seam_correction_pulls_drawn_start_only() {
    let g = compute_chart(&props_with(vec![10_000, 10_000, 10_000, 10_000])).unwrap();
    // first slice is drawn from its true boundary, the rest 0.4 degrees early
    assert_eq!(g.slices[0].drawn_start_angle, 0);
    assert_eq!(g.slices[1].drawn_start_angle, 900_000 - 4_000);
    assert_eq!(g.slices[2].drawn_start_angle, 1_800_000 - 4_000);
    // bookkeeping boundaries are untouched: no compounding
    assert_eq!(g.slices[3].start_angle, 2_700_000);
}

#[test]
fn seam_correction_floors_at_zero() {
    // spans of 0.4 and 0.4 degrees put the second boundary at exactly
    // 0.4 degrees, so the pulled-back drawn start floors at zero
    let g = compute_chart(&props_with(vec![10_000, 10_000, 8_980_000])).unwrap();
    assert_eq!(g.slices[1].start_angle, 4_000);
    assert_eq!(g.slices[1].drawn_start_angle, 0);
}

#[test]
fn single_slice_clamps_short_of_full_circle() {
    let g = compute_chart(&props_with(vec![10_000])).unwrap();
    assert_eq!(g.slices.len(), 1);
    let s = &g.slices[0];
    assert_eq!(s.start_angle, 0);
    assert_eq!(s.end_angle_raw, 3_600_000);
    assert_eq!(s.end_angle, 3_599_900); // 359.99 degrees, not 360
    assert!(s.large_arc);
}

#[test]
fn negative_entries_are_clamped_and_suppressed() {
    let g = compute_chart(&props_with(vec![100_000, -50_000, 50_000])).unwrap();
    assert_eq!(g.slices.len(), 2);
    assert_eq!(g.anchors.len(), 3);
    assert!(!g.anchors[0].suppressed);
    assert!(g.anchors[1].suppressed);
    assert!(!g.anchors[2].suppressed);
    // proportions come from the normalized series [10, 0, 5]
    assert_eq!(g.values_total, 150_000);
    assert_eq!(g.slices[0].end_angle, 2_400_000); // 240 degrees
    assert_eq!(g.slices[1].index, 1);
}

#[test]
fn explicit_total_scales_the_circle() {
    let mut p = props_with(vec![30_000, 10_000]); // 3 and 1, total 40
    p.total = Some(400_000);
    let g = compute_chart(&p).unwrap();
    assert_eq!(g.values_total, 400_000);
    // first slice spans (3/40) * 360 = 27 degrees
    assert_eq!(g.slices[0].end_angle, 270_000);
}

#[test]
fn explicit_total_below_natural_sum_is_ignored() {
    let mut p = props_with(vec![30_000, 10_000]);
    p.total = Some(20_000); // smaller than the sum of 4.0
    let g = compute_chart(&p).unwrap();
    assert_eq!(g.values_total, 40_000);
    assert_eq!(g.slices[1].end_angle, 3_600_000);
}

#[test]
fn explicit_total_with_nonpositive_raw_sum_falls_back() {
    let mut p = props_with(vec![10_000, -20_000]);
    p.total = Some(400_000);
    let g = compute_chart(&p).unwrap();
    // raw sum is -1.0: scaling is meaningless, the natural sum is used
    assert_eq!(g.values_total, 10_000);
}

#[test]
fn show_ratio_half_leaves_half_the_circle_empty() {
    let mut p = props_with(vec![500_000, 500_000]); // 50 and 50
    p.show_ratio = Some(5_000); // 0.5
    let g = compute_chart(&p).unwrap();
    assert_eq!(g.values_total, 2_000_000); // 100 / 0.5 = 200
    assert_eq!(g.slices[0].end_angle, 900_000);
    assert_eq!(g.slices[1].end_angle, 1_800_000); // both together: 180 degrees
}

#[test]
fn show_ratio_is_clamped_into_range() {
    let mut p = props_with(vec![500_000, 500_000]);
    p.show_ratio = Some(20_000); // 2.0 clamps to 1.0
    let g = compute_chart(&p).unwrap();
    assert_eq!(g.values_total, 1_000_000);

    let mut p2 = props_with(vec![10_000]);
    p2.show_ratio = Some(0); // clamps to 0.0001
    let g2 = compute_chart(&p2).unwrap();
    assert_eq!(g2.values_total, 100_000_000); // 1.0 / 0.0001
}

#[test]
fn empty_series_is_a_configuration_error() {
    let r = compute_chart(&props_with(vec![]));
    assert_eq!(r, Err(ChartError::EmptySeries));
}

#[test]
fn spans_partition_the_circle() {
    let g = compute_chart(&props_with(vec![10_000, 20_000, 30_000, 15_000])).unwrap();
    let total: i64 = g.slices.iter().map(|s| s.end_angle - s.start_angle).sum();
    assert_eq!(total, 3_600_000); // exactly 360 degrees, no rounding drift
}

#[test]
fn spans_partition_the_circle_with_awkward_proportions() {
    // seven equal entries do not divide 360 degrees evenly; the
    // boundaries still close the circle exactly
    let g = compute_chart(&props_with(vec![10_000; 7])).unwrap();
    let total: i64 = g.slices.iter().map(|s| s.end_angle - s.start_angle).sum();
    assert_eq!(total, 3_600_000);
    assert_eq!(g.slices[6].end_angle, 3_600_000);
}

#[test]
fn identical_inputs_give_identical_geometry() {
    let mut p = props_with(vec![59_540, 17_200, 9_590, 7_600, 5_530, 550]);
    p.start_angle = -600_000;
    p.padding = 200_000;
    let g1 = compute_chart(&p).unwrap();
    let g2 = compute_chart(&p).unwrap();
    assert_eq!(g1, g2);
}

#[test]
fn default_layout_scalars() {
    let g = compute_chart(&props_with(vec![10_000])).unwrap();
    assert_eq!(g.center_x, 3_000_000); // 300.0
    assert_eq!(g.center_y, 2_000_000); // 200.0
    assert_eq!(g.radius, 1_700_000); // min(300, 200) - 30
    assert_eq!(g.label_radius, 850_000); // inside: radius / 2
    assert_eq!(g.inner_radius, 0); // not a donut
}

#[test]
fn padding_shrinks_the_radius() {
    let mut p = props_with(vec![10_000]);
    p.padding = 200_000; // 20.0
    let g = compute_chart(&p).unwrap();
    assert_eq!(g.radius, 1_500_000);
}

#[test]
fn oversized_padding_floors_radius_at_zero() {
    let mut p = props_with(vec![10_000]);
    p.padding = 3_000_000; // deeper than the viewbox
    let g = compute_chart(&p).unwrap();
    assert_eq!(g.radius, 0);
}

#[test]
fn wedge_path_arcs_back_and_closes_at_center() {
    let g = compute_chart(&props_with(vec![10_000, 30_000])).unwrap();
    let s = &g.slices[0]; // 90 degree slice
    assert_eq!(
        s.path,
        vec![
            PathCmd::MoveTo { radius: 1_700_000, angle: 900_000 },
            PathCmd::ArcTo { radius: 1_700_000, large_arc: false, sweep: false, angle: 0 },
            PathCmd::LineToCenter,
            PathCmd::ClosePath,
        ]
    );
}

#[test]
fn donut_path_has_inner_arc() {
    let mut p = props_with(vec![10_000, 30_000]);
    p.donut = true; // default donut width 40.0
    let g = compute_chart(&p).unwrap();
    assert_eq!(g.inner_radius, 1_300_000);
    let s = &g.slices[0];
    assert_eq!(
        s.path,
        vec![
            PathCmd::MoveTo { radius: 1_700_000, angle: 900_000 },
            PathCmd::ArcTo { radius: 1_700_000, large_arc: false, sweep: false, angle: 0 },
            PathCmd::LineTo { radius: 1_300_000, angle: 0 },
            PathCmd::ArcTo { radius: 1_300_000, large_arc: false, sweep: true, angle: 900_000 },
            PathCmd::ClosePath,
        ]
    );
}

#[test]
fn oversized_donut_clamps_inner_radius_to_zero() {
    let mut p = props_with(vec![10_000, 30_000]);
    p.donut = true;
    p.donut_width = 2_000_000; // wider than the 170.0 radius
    let g = compute_chart(&p).unwrap();
    assert_eq!(g.inner_radius, 0); // clamped, never negative
}

#[test]
fn large_arc_flag_follows_span() {
    let g = compute_chart(&props_with(vec![30_000, 10_000])).unwrap();
    assert!(g.slices[0].large_arc); // 270 degrees
    assert!(!g.slices[1].large_arc); // 90 degrees
}

#[test]
fn colour_ramp_decays_per_slice() {
    let g = compute_chart(&props_with(vec![10_000; 4])).unwrap();
    let colours: Vec<i64> = g.slices.iter().map(|s| s.color_value).collect();
    // 255.0, then minus 75/1, 75/2, 75/3
    assert_eq!(colours, vec![2_550_000, 1_800_000, 1_425_000, 1_175_000]);
}

#[test]
fn zero_entries_do_not_advance_colour_or_index() {
    let g = compute_chart(&props_with(vec![10_000, 0, 10_000])).unwrap();
    assert_eq!(g.slices.len(), 2);
    assert_eq!(g.slices[1].index, 1);
    assert_eq!(g.slices[1].color_value, 1_800_000);
}

#[test]
fn anchors_sit_at_slice_midpoints() {
    let g = compute_chart(&props_with(vec![10_000, 10_000])).unwrap();
    assert_eq!(g.anchors[0].mid_angle, 900_000); // middle of 0..180
    assert_eq!(g.anchors[1].mid_angle, 2_700_000); // middle of 180..360
}

#[test]
fn healthy_configuration_raises_no_warnings() {
    let p = props_with(vec![10_000, 20_000]);
    assert_eq!(diagnose_chart(&p), vec![]);
}

#[test]
fn zero_total_is_diagnosed_and_draws_nothing() {
    let p = props_with(vec![0, -10_000]);
    assert_eq!(diagnose_chart(&p), vec![ChartWarning::ZeroTotal]);
    let g = compute_chart(&p).unwrap();
    assert!(g.slices.is_empty());
    assert_eq!(g.anchors.len(), 2);
    assert!(g.anchors.iter().all(|a| a.suppressed));
}

#[test]
fn oversized_donut_is_diagnosed() {
    let mut p = props_with(vec![10_000]);
    p.donut = true;
    p.donut_width = 2_000_000;
    assert_eq!(diagnose_chart(&p), vec![ChartWarning::DonutTooWide]);
}

#[test]
fn out_of_range_ratio_is_diagnosed() {
    let mut p = props_with(vec![10_000]);
    p.show_ratio = Some(20_000);
    assert_eq!(diagnose_chart(&p), vec![ChartWarning::RatioOutOfRange]);
}

#[test]
fn warnings_accumulate_in_fixed_order() {
    let mut p = props_with(vec![0]);
    p.donut = true;
    p.donut_width = 2_000_000;
    p.show_ratio = Some(0);
    assert_eq!(
        diagnose_chart(&p),
        vec![
            ChartWarning::ZeroTotal,
            ChartWarning::DonutTooWide,
            ChartWarning::RatioOutOfRange,
        ]
    );
}

#[test]
fn negative_start_angle_shifts_the_walk() {
    let mut p = props_with(vec![10_000, 10_000]);
    p.start_angle = -600_000; // -60 degrees
    let g = compute_chart(&p).unwrap();
    assert_eq!(g.slices[0].start_angle, -600_000);
    assert_eq!(g.slices[0].drawn_start_angle, -600_000); // first slice: no pull
    assert_eq!(g.slices[0].end_angle, 1_200_000);
    assert_eq!(g.slices[1].drawn_start_angle, 1_196_000);
}
