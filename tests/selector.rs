use otlp_pipeline::selector::{
    Aggregation, AggregationSelector, DeltaTemporalitySelector, InstrumentKind, Temporality,
    TemporalitySelector,
};

const KINDS: [InstrumentKind; 7] = [
    InstrumentKind::Counter,
    InstrumentKind::UpDownCounter,
    InstrumentKind::Histogram,
    InstrumentKind::ObservableCounter,
    InstrumentKind::ObservableUpDownCounter,
    InstrumentKind::Gauge,
    InstrumentKind::ObservableGauge,
];

#[test]
fn delta_selector_values() {
    let d = DeltaTemporalitySelector;
    let got: Vec<Temporality> = KINDS.iter().map(|k| d.temporality(*k)).collect();
    assert_eq!(
        got,
        vec![
            Temporality::Delta,
            Temporality::Cumulative,
            Temporality::Delta,
            Temporality::Delta,
            Temporality::Cumulative,
            Temporality::Delta,
            Temporality::Delta,
        ]
    );
    assert_eq!(d.temporality(InstrumentKind::Counter), Temporality::Delta);
    assert_eq!(d.temporality(InstrumentKind::UpDownCounter), Temporality::Cumulative);
}

#[test]
fn delta_table_matches_delta_selector() {
    let table = TemporalitySelector::delta();
    let d = DeltaTemporalitySelector;
    for k in KINDS {
        assert_eq!(table.temporality(k), d.temporality(k));
    }
}

#[test]
fn cumulative_table_is_cumulative_everywhere() {
    let table = TemporalitySelector::cumulative();
    for k in KINDS {
        assert_eq!(table.temporality(k), Temporality::Cumulative);
    }
}

#[test]
fn default_aggregations() {
    let a = AggregationSelector::default_policy();
    assert_eq!(a.aggregation(InstrumentKind::Counter), Aggregation::Sum);
    assert_eq!(a.aggregation(InstrumentKind::UpDownCounter), Aggregation::Sum);
    assert_eq!(a.aggregation(InstrumentKind::Gauge), Aggregation::LastValue);
    assert_eq!(a.aggregation(InstrumentKind::ObservableGauge), Aggregation::LastValue);
    assert_eq!(a.aggregation(InstrumentKind::Histogram), Aggregation::ExplicitBucketHistogram);
}

#[test]
fn custom_table_is_consulted() {
    let mut t = TemporalitySelector::cumulative();
    t.gauge = Temporality::Delta;
    assert_eq!(t.temporality(InstrumentKind::Gauge), Temporality::Delta);
    assert_eq!(t.temporality(InstrumentKind::Counter), Temporality::Cumulative);
}
