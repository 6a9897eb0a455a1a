//! Pure geometry engine for pie and donut charts.
//!
//! Given an ordered series of magnitudes and a layout configuration, the
//! engine partitions a circle into proportional slices and produces, for
//! each non-zero entry, a drawable path description (a sequence of polar
//! move/arc/line instructions) together with an order-aligned list of label
//! anchors. All quantities are fixed-point numbers: magnitudes, angles in
//! degrees, and coordinates are all carried as `i64` values scaled by
//! ten thousand, so one unit is `1/10000` and `90.0` degrees is `900_000`.
//! A renderer turns the polar instructions into cartesian points and path
//! strings; that projection (trigonometry) is the only part left to the
//! host.

pub mod config;
pub mod normalize;
pub mod total;
pub mod slices;
pub mod labels;
pub mod engine;
