//! Metrics as the API returns them.

use crate::structs::metrics::metric_of;
use crate::structs::metrics::names_once;
use crate::structs::metrics::put_metric;
use vstd::prelude::*;

verus! {

/// The metrics of the last interval: a map from each metric's name to its
/// value, kept as a list in which no name occurs twice.
#[derive(Debug)]
pub struct MetricsSnapshot {
    interval: MetricsInterval,
    metrics: Vec<(String, u64)>,
}

impl MetricsSnapshot {
    /// The interval that the values were taken over.
    pub closed spec fn over(&self) -> MetricsInterval {
        self.interval
    }

    /// The metrics, each name with its value.
    pub closed spec fn entries(&self) -> Seq<(String, u64)> {
        self.metrics@
    }

    /// No name occurs twice among the metrics. Every snapshot is well formed.
    pub open spec fn well_formed(&self) -> bool {
        names_once(self.entries())
    }

    #[verifier::type_invariant]
    spec fn names_stand_once(&self) -> bool {
        names_once(self.metrics@)
    }

    /// A snapshot over `interval` that holds no metric yet.
    pub fn new(interval: MetricsInterval) -> (snapshot: MetricsSnapshot)
        ensures
            snapshot.well_formed(),
            snapshot.over() == interval,
            snapshot.entries().len() == 0,
    {
        MetricsSnapshot { interval, metrics: Vec::new() }
    }

    /// The snapshot with the metric `name` set to `value`, in place of the
    /// value that the name had, if it had one.
    pub fn with_metric(self, name: String, value: u64) -> (snapshot: MetricsSnapshot)
        ensures
            snapshot.well_formed(),
            snapshot.over() == self.over(),
            forall|other: Seq<char>|
                #[trigger] metric_of(snapshot.entries(), other) == if other == name@ {
                    Some(value)
                } else {
                    metric_of(self.entries(), other)
                },
    {
        proof {
            use_type_invariant(&self);
        }
        let MetricsSnapshot { interval, metrics } = self;
        MetricsSnapshot { interval, metrics: put_metric(metrics, name, value) }
    }

    /// The interval that the values were taken over.
    pub fn interval(&self) -> (interval: &MetricsInterval)
        ensures
            *interval == self.over(),
    {
        &self.interval
    }

    /// The metrics, each name with its value; no name occurs twice.
    pub fn metrics(&self) -> (metrics: &Vec<(String, u64)>)
        ensures
            metrics@ == self.entries(),
            self.well_formed(),
    {
        proof {
            use_type_invariant(self);
        }
        &self.metrics
    }
}

/// The interval at which the metrics are refreshed.
#[derive(Debug, Clone)]
pub struct MetricsInterval {
    pub time: u16,
    pub unit: String,
    pub last: u64,
}

impl MetricsInterval {
    /// The length of the interval, in `unit`.
    pub fn time(&self) -> (time: &u16)
        ensures
            *time == self.time,
    {
        &self.time
    }

    /// The unit of `time`.
    pub fn unit(&self) -> (unit: &String)
        ensures
            *unit == self.unit,
    {
        &self.unit
    }

    /// When the metrics were last refreshed, as a UNIX timestamp.
    pub fn last(&self) -> (last: &u64)
        ensures
            *last == self.last,
    {
        &self.last
    }
}

} // verus!
