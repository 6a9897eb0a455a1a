use pie_geometry::config::{LabelPosition, PieChartProps};
use pie_geometry::labels::{label_radius_for, resolve_labels, LabelText};
use pie_geometry::normalize::{normalize_series, sum_series};
use pie_geometry::total::resolve_total;

fn props_with(series: Vec<i64>) -> PieChartProps {
    PieChartProps { series, ..Default::default() }
}

#[test]
fn normalization_clamps_negatives_to_zero() {
    let n = normalize_series(&vec![-50_000, 0, 70_000]);
    assert_eq!(n, vec![0, 0, 70_000]);
}

#[test]
fn normalization_keeps_length_and_order() {
    let n = normalize_series(&vec![10_000, -1, 20_000, -99_999, 0]);
    assert_eq!(n, vec![10_000, 0, 20_000, 0, 0]);
}

#[test]
fn sums_are_exact() {
    assert_eq!(sum_series(&vec![10_000, -20_000, 15_000]), 5_000);
    assert_eq!(sum_series(&vec![]), 0);
}

#[test]
fn natural_total_is_the_sum() {
    assert_eq!(resolve_total(40_000, 40_000, None, None), 40_000);
}

#[test]
fn ratio_total_divides_the_sum() {
    // 100 / 0.5 = 200
    assert_eq!(resolve_total(1_000_000, 1_000_000, None, Some(5_000)), 2_000_000);
    // 100 / 0.25 = 400; a pending explicit total is overridden
    assert_eq!(resolve_total(1_000_000, 1_000_000, Some(7), Some(2_500)), 4_000_000);
}

#[test]
fn raising_the_ratio_never_raises_the_total() {
    let mut last = i64::MAX;
    for ratio in [1, 10, 2_500, 5_000, 9_999, 10_000, 20_000] {
        let t = resolve_total(100_000, 100_000, None, Some(ratio));
        assert!(t <= last);
        last = t;
    }
    // and concretely: 10 / 0.25, 10 / 0.5, 10 / 1.0
    assert_eq!(resolve_total(100_000, 100_000, None, Some(2_500)), 400_000);
    assert_eq!(resolve_total(100_000, 100_000, None, Some(5_000)), 200_000);
    assert_eq!(resolve_total(100_000, 100_000, None, Some(10_000)), 100_000);
}

#[test]
fn explicit_total_is_scaled_by_the_clamp_ratio() {
    // normalized 4.0, raw 4.0, requested 40.0 -> 40.0
    assert_eq!(resolve_total(40_000, 40_000, Some(400_000), None), 400_000);
    // normalized 10.0, raw 5.0 (negatives clamped): requested 40.0
    // scales by 10/5
    assert_eq!(resolve_total(100_000, 50_000, Some(400_000), None), 800_000);
}

#[test]
fn explicit_total_never_undercuts_the_sum() {
    assert_eq!(resolve_total(40_000, 40_000, Some(20_000), None), 40_000);
    assert_eq!(resolve_total(40_000, 40_000, Some(-70_000), None), 40_000);
    // non-positive raw sum: fall back to the natural sum
    assert_eq!(resolve_total(10_000, -10_000, Some(400_000), None), 10_000);
    assert_eq!(resolve_total(10_000, 0, Some(400_000), None), 10_000);
}

#[test]
fn label_radius_by_strategy() {
    assert_eq!(label_radius_for(LabelPosition::Inside, 1_700_000, 0), 850_000);
    assert_eq!(label_radius_for(LabelPosition::Inside, 1_700_000, 50_000), 900_000);
    assert_eq!(label_radius_for(LabelPosition::Outside, 1_700_000, 350_000), 2_050_000);
    assert_eq!(label_radius_for(LabelPosition::Center, 1_700_000, 120_000), 120_000);
}

#[test]
fn explicit_labels_pair_by_index() {
    let mut p = props_with(vec![10_000, 0, 20_000]);
    p.labels = Some(vec!["a".to_string(), "b".to_string(), "c".to_string()]);
    let texts = resolve_labels(&p).unwrap();
    assert_eq!(
        texts,
        vec![
            LabelText::Text("a".to_string()),
            LabelText::Text("b".to_string()),
            LabelText::Text("c".to_string()),
        ]
    );
}

#[test]
fn label_pairing_stops_at_the_shorter_list() {
    let mut p = props_with(vec![10_000, 20_000, 30_000]);
    p.labels = Some(vec!["a".to_string(), "b".to_string()]);
    let texts = resolve_labels(&p).unwrap();
    assert_eq!(texts.len(), 2);
}

#[test]
fn value_labels_carry_the_raw_magnitudes() {
    let p = props_with(vec![10_000, -5_000, 0]);
    let texts = resolve_labels(&p).unwrap();
    assert_eq!(
        texts,
        vec![
            LabelText::Value(10_000),
            LabelText::Value(-5_000),
            LabelText::Value(0),
        ]
    );
}

#[test]
fn no_labels_when_turned_off() {
    let mut p = props_with(vec![10_000, 20_000]);
    p.show_labels = false;
    assert_eq!(resolve_labels(&p), None);
}

#[test]
fn explicit_labels_win_over_the_switch() {
    let mut p = props_with(vec![10_000]);
    p.show_labels = false;
    p.labels = Some(vec!["kept".to_string()]);
    let texts = resolve_labels(&p).unwrap();
    assert_eq!(texts, vec![LabelText::Text("kept".to_string())]);
}
