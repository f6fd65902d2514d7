//! Metric kinds.

use vstd::prelude::*;

verus! {

/// The kinds of metric the engine records.
#[derive(Debug, Clone, Copy, PartialEq, Eq, Structural)]
pub enum MetricType {
    /// A monotonically increasing count.
    Counter,
    /// A value that goes up and down.
    Gauge,
    /// A distribution of observed values.
    Histogram,
    /// A duration measurement.
    Timer,
}

} // verus!
