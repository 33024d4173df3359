//! Temporality and aggregation selection per instrument kind.
use vstd::prelude::*;

verus! {

/// The kinds of metric instruments.
#[derive(Clone, Copy, Debug, PartialEq, Eq, Structural)]
pub enum InstrumentKind {
    Counter,
    UpDownCounter,
    Histogram,
    ObservableCounter,
    ObservableUpDownCounter,
    Gauge,
    ObservableGauge,
}

/// Whether a reported value covers the last interval or everything since start.
#[derive(Clone, Copy, Debug, PartialEq, Eq, Structural)]
pub enum Temporality {
    Cumulative,
    Delta,
}

/// The reduction applied to raw measurements before export.
#[derive(Clone, Copy, Debug, PartialEq, Eq, Structural)]
pub enum Aggregation {
    Drop,
    Sum,
    LastValue,
    ExplicitBucketHistogram,
}

/// Delta for every kind but the up/down counters, whose running sign-bearing
/// state is reported cumulatively.
pub open spec fn delta_temporality(kind: InstrumentKind) -> Temporality {
    match kind {
        InstrumentKind::UpDownCounter | InstrumentKind::ObservableUpDownCounter => {
            Temporality::Cumulative
        },
        _ => Temporality::Delta,
    }
}

/// Sum for counters, last value for gauges, buckets for histograms.
pub open spec fn default_aggregation(kind: InstrumentKind) -> Aggregation {
    match kind {
        InstrumentKind::Counter
        | InstrumentKind::UpDownCounter
        | InstrumentKind::ObservableCounter
        | InstrumentKind::ObservableUpDownCounter => Aggregation::Sum,
        InstrumentKind::Gauge | InstrumentKind::ObservableGauge => Aggregation::LastValue,
        InstrumentKind::Histogram => Aggregation::ExplicitBucketHistogram,
    }
}

/// Selector that reports delta temporality for all instruments except
/// `UpDownCounter` and `ObservableUpDownCounter`.
#[derive(Clone, Copy, Debug)]
pub struct DeltaTemporalitySelector;

impl DeltaTemporalitySelector {
    pub fn temporality(&self, kind: InstrumentKind) -> (r: Temporality)
        ensures
            r == delta_temporality(kind),
    {
        match kind {
            InstrumentKind::Counter
            | InstrumentKind::Histogram
            | InstrumentKind::ObservableCounter
            | InstrumentKind::Gauge
            | InstrumentKind::ObservableGauge => Temporality::Delta,
            InstrumentKind::UpDownCounter | InstrumentKind::ObservableUpDownCounter => {
                Temporality::Cumulative
            },
        }
    }
}

/// A total mapping from instrument kind to temporality, one entry per kind.
#[derive(Clone, Copy, Debug)]
pub struct TemporalitySelector {
    pub counter: Temporality,
    pub up_down_counter: Temporality,
    pub histogram: Temporality,
    pub observable_counter: Temporality,
    pub observable_up_down_counter: Temporality,
    pub gauge: Temporality,
    pub observable_gauge: Temporality,
}

impl TemporalitySelector {
    pub open spec fn select(&self, kind: InstrumentKind) -> Temporality {
        match kind {
            InstrumentKind::Counter => self.counter,
            InstrumentKind::UpDownCounter => self.up_down_counter,
            InstrumentKind::Histogram => self.histogram,
            InstrumentKind::ObservableCounter => self.observable_counter,
            InstrumentKind::ObservableUpDownCounter => self.observable_up_down_counter,
            InstrumentKind::Gauge => self.gauge,
            InstrumentKind::ObservableGauge => self.observable_gauge,
        }
    }

    pub fn temporality(&self, kind: InstrumentKind) -> (r: Temporality)
        ensures
            r == self.select(kind),
    {
        match kind {
            InstrumentKind::Counter => self.counter,
            InstrumentKind::UpDownCounter => self.up_down_counter,
            InstrumentKind::Histogram => self.histogram,
            InstrumentKind::ObservableCounter => self.observable_counter,
            InstrumentKind::ObservableUpDownCounter => self.observable_up_down_counter,
            InstrumentKind::Gauge => self.gauge,
            InstrumentKind::ObservableGauge => self.observable_gauge,
        }
    }

    /// The default policy: cumulative for every kind.
    pub fn cumulative() -> (r: TemporalitySelector)
        ensures
            forall|k: InstrumentKind| r.select(k) == Temporality::Cumulative,
    {
        TemporalitySelector {
            counter: Temporality::Cumulative,
            up_down_counter: Temporality::Cumulative,
            histogram: Temporality::Cumulative,
            observable_counter: Temporality::Cumulative,
            observable_up_down_counter: Temporality::Cumulative,
            gauge: Temporality::Cumulative,
            observable_gauge: Temporality::Cumulative,
        }
    }

    /// The table that `DeltaTemporalitySelector` describes.
    pub fn delta() -> (r: TemporalitySelector)
        ensures
            forall|k: InstrumentKind| r.select(k) == delta_temporality(k),
    {
        let d = DeltaTemporalitySelector;
        TemporalitySelector {
            counter: d.temporality(InstrumentKind::Counter),
            up_down_counter: d.temporality(InstrumentKind::UpDownCounter),
            histogram: d.temporality(InstrumentKind::Histogram),
            observable_counter: d.temporality(InstrumentKind::ObservableCounter),
            observable_up_down_counter: d.temporality(InstrumentKind::ObservableUpDownCounter),
            gauge: d.temporality(InstrumentKind::Gauge),
            observable_gauge: d.temporality(InstrumentKind::ObservableGauge),
        }
    }
}

/// A total mapping from instrument kind to aggregation, one entry per kind.
#[derive(Clone, Copy, Debug)]
pub struct AggregationSelector {
    pub counter: Aggregation,
    pub up_down_counter: Aggregation,
    pub histogram: Aggregation,
    pub observable_counter: Aggregation,
    pub observable_up_down_counter: Aggregation,
    pub gauge: Aggregation,
    pub observable_gauge: Aggregation,
}

impl AggregationSelector {
    pub open spec fn select(&self, kind: InstrumentKind) -> Aggregation {
        match kind {
            InstrumentKind::Counter => self.counter,
            InstrumentKind::UpDownCounter => self.up_down_counter,
            InstrumentKind::Histogram => self.histogram,
            InstrumentKind::ObservableCounter => self.observable_counter,
            InstrumentKind::ObservableUpDownCounter => self.observable_up_down_counter,
            InstrumentKind::Gauge => self.gauge,
            InstrumentKind::ObservableGauge => self.observable_gauge,
        }
    }

    pub fn aggregation(&self, kind: InstrumentKind) -> (r: Aggregation)
        ensures
            r == self.select(kind),
    {
        match kind {
            InstrumentKind::Counter => self.counter,
            InstrumentKind::UpDownCounter => self.up_down_counter,
            InstrumentKind::Histogram => self.histogram,
            InstrumentKind::ObservableCounter => self.observable_counter,
            InstrumentKind::ObservableUpDownCounter => self.observable_up_down_counter,
            InstrumentKind::Gauge => self.gauge,
            InstrumentKind::ObservableGauge => self.observable_gauge,
        }
    }

    /// The default policy: sum, last value or histogram buckets by kind.
    pub fn default_policy() -> (r: AggregationSelector)
        ensures
            forall|k: InstrumentKind| r.select(k) == default_aggregation(k),
    {
        AggregationSelector {
            counter: Aggregation::Sum,
            up_down_counter: Aggregation::Sum,
            histogram: Aggregation::ExplicitBucketHistogram,
            observable_counter: Aggregation::Sum,
            observable_up_down_counter: Aggregation::Sum,
            gauge: Aggregation::LastValue,
            observable_gauge: Aggregation::LastValue,
        }
    }
}

/// The delta policy is defined on every instrument kind, reports deltas for
/// counters and cumulative totals for up/down counters.
pub proof fn delta_policy_is_total(kind: InstrumentKind)
    ensures
        delta_temporality(kind) == Temporality::Delta || delta_temporality(kind)
            == Temporality::Cumulative,
        delta_temporality(InstrumentKind::Counter) == Temporality::Delta,
        delta_temporality(InstrumentKind::UpDownCounter) == Temporality::Cumulative,
{
}

} // verus!
