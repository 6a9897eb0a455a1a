//! Label placement and label text resolution. The anchors themselves
//! are produced by the slice walk; this module resolves the radius
//! the anchors sit on (by the configured placement strategy) and the
//! text attached to each series position: an explicit text when a
//! label list was supplied, otherwise the raw magnitude for the host
//! to format, and nothing at all when labels are turned off.

use vstd::prelude::*;
use crate::config::{LabelPosition, MAX_OFFSET, MAX_VIEWBOX, PieChartProps, SCALE};

verus! {

/// The radius label anchors sit on, by strategy: `Inside` is halfway
/// into the pie, `Outside` on the rim, `Center` at the middle; the
/// configured offset shifts each outward.
pub open spec fn label_radius_spec(position: LabelPosition, radius: int, label_offset: int) -> int {
    match position {
        LabelPosition::Inside => radius / 2 + label_offset,
        LabelPosition::Outside => radius + label_offset,
        LabelPosition::Center => label_offset,
    }
}

/// Resolve the label radius for the given placement strategy.
pub fn label_radius_for(position: LabelPosition, radius: i64, label_offset: i64) -> (r: i64)
    requires
        0 <= radius <= MAX_VIEWBOX * SCALE + MAX_OFFSET,
        -MAX_OFFSET <= label_offset <= MAX_OFFSET,
    ensures
        r as int == label_radius_spec(position, radius as int, label_offset as int),
{
    match position {
        LabelPosition::Inside => (((radius as u64) / 2) as i64) + label_offset,
        LabelPosition::Outside => radius + label_offset,
        LabelPosition::Center => label_offset,
    }
}

/// The text attached to one series position.
#[derive(PartialEq, Debug)]
pub enum LabelText {
    /// An explicit, user-supplied label text.
    Text(String),
    /// The raw magnitude of the entry, for the host to format (with
    /// its own interpolation function, or its default number form).
    Value(i64),
}

/// The mathematical content of a `LabelText`.
pub ghost enum LabelTextG {
    Text(Seq<char>),
    Value(int),
}

impl View for LabelText {
    type V = LabelTextG;

    open spec fn view(&self) -> LabelTextG {
        match self {
            LabelText::Text(s) => LabelTextG::Text(s@),
            LabelText::Value(v) => LabelTextG::Value(*v as int),
        }
    }
}

/// The views of a vector of label texts, in order.
pub open spec fn texts_of(v: Seq<LabelText>) -> Seq<LabelTextG> {
    v.map_values(|t: LabelText| t@)
}

/// The resolved label list of a chart. Explicit labels are paired
/// with series positions by index (exhausted when the shorter of the
/// two runs out); without them, and with labels turned on, every
/// entry labels itself with its raw magnitude; with labels turned
/// off, no label output is produced at all.
pub open spec fn labels_spec(p: PieChartProps) -> Option<Seq<LabelTextG>> {
    match p.labels {
        Some(ls) => Some(
            Seq::new(
                if ls@.len() < p.series@.len() {
                    ls@.len()
                } else {
                    p.series@.len()
                },
                |j: int| LabelTextG::Text(ls@[j]@),
            ),
        ),
        None => if p.show_labels {
            Some(Seq::new(p.series@.len(), |j: int| LabelTextG::Value(p.series@[j] as int)))
        } else {
            None
        },
    }
}

/// Resolve the label texts of the chart, exactly as `labels_spec`
/// states. Pure: the configuration is not touched.
pub fn resolve_labels(props: &PieChartProps) -> (r: Option<Vec<LabelText>>)
    ensures
        (r is Some) == (labels_spec(*props) is Some),
        r matches Some(v) ==> labels_spec(*props) matches Some(l) && texts_of(v@) == l,
{
    match &props.labels {
        Some(ls) => {
            let m = if ls.len() < props.series.len() {
                ls.len()
            } else {
                props.series.len()
            };
            let mut out: Vec<LabelText> = Vec::new();
            let mut j: usize = 0;
            while j < m
                invariant
                    m <= ls@.len(),
                    j <= m,
                    out@.len() == j,
                    forall|k: int|
                        0 <= k < j ==> #[trigger] out@[k]@ == LabelTextG::Text(ls@[k]@),
                decreases m - j,
            {
                out.push(LabelText::Text(ls[j].clone()));
                j += 1;
            }
            proof {
                let l = labels_spec(*props).unwrap();
                assert(texts_of(out@) =~= l);
            }
            Some(out)
        },
        None => {
            if props.show_labels {
                let m = props.series.len();
                let mut out: Vec<LabelText> = Vec::new();
                let mut j: usize = 0;
                while j < m
                    invariant
                        m == props.series@.len(),
                        j <= m,
                        out@.len() == j,
                        forall|k: int|
                            0 <= k < j ==> #[trigger] out@[k]@ == LabelTextG::Value(
                                props.series@[k] as int,
                            ),
                    decreases m - j,
                {
                    out.push(LabelText::Value(props.series[j]));
                    j += 1;
                }
                proof {
                    let l = labels_spec(*props).unwrap();
                    assert(texts_of(out@) =~= l);
                }
                Some(out)
            } else {
                None
            }
        },
    }
}

} // verus!
