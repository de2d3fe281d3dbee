//! Metrics: a snapshot of named values and the interval they were taken over.

use crate::text::str_eq;
use vstd::prelude::*;

verus! {

/// No name occurs twice in `entries`.
pub open spec fn names_once(entries: Seq<(String, u64)>) -> bool {
    forall|i: int, j: int| 0 <= i < j < entries.len() ==> entries[i].0@ != entries[j].0@
}

/// The value that `entries` give to `name`: that of the last entry with this
/// name, as if each entry had been put into a map in turn.
pub open spec fn metric_of(entries: Seq<(String, u64)>, name: Seq<char>) -> Option<u64>
    decreases entries.len(),
{
    if entries.len() == 0 {
        None
    } else if entries.last().0@ == name {
        Some(entries.last().1)
    } else {
        metric_of(entries.drop_last(), name)
    }
}

/// Entries without the name `name` give it no value.
pub proof fn lemma_metric_absent(entries: Seq<(String, u64)>, name: Seq<char>)
    requires
        forall|i: int| 0 <= i < entries.len() ==> (#[trigger] entries[i]).0@ != name,
    ensures
        metric_of(entries, name) is None,
    decreases entries.len(),
{
    if entries.len() > 0 {
        assert(entries[entries.len() - 1] == entries.last());
        assert forall|i: int| 0 <= i < entries.drop_last().len() implies (#[trigger] entries.drop_last()[i]).0@
            != name by {
            assert(entries.drop_last()[i] == entries[i]);
        }
        lemma_metric_absent(entries.drop_last(), name);
    }
}

/// Where no name occurs twice, each entry's name has the entry's value.
pub proof fn lemma_metric_is_the_entry(entries: Seq<(String, u64)>, i: int)
    requires
        names_once(entries),
        0 <= i < entries.len(),
    ensures
        metric_of(entries, entries[i].0@) == Some(entries[i].1),
    decreases entries.len(),
{
    if i < entries.len() - 1 {
        assert(entries.last() == entries[entries.len() - 1]);
        assert(entries.drop_last()[i] == entries[i]);
        assert forall|a: int, b: int| 0 <= a < b < entries.drop_last().len() implies entries.drop_last()[a].0@
            != entries.drop_last()[b].0@ by {
            assert(entries.drop_last()[a] == entries[a]);
            assert(entries.drop_last()[b] == entries[b]);
        }
        lemma_metric_is_the_entry(entries.drop_last(), i);
    }
}

/// Replacing an entry changes the value of no name but the one it had and
/// the one it gets.
proof fn lemma_replaced_entry_keeps_others(
    entries: Seq<(String, u64)>,
    i: int,
    entry: (String, u64),
    name: Seq<char>,
)
    requires
        0 <= i < entries.len(),
        entries[i].0@ != name,
        entry.0@ != name,
    ensures
        metric_of(entries.update(i, entry), name) == metric_of(entries, name),
    decreases entries.len(),
{
    let replaced = entries.update(i, entry);
    if i == entries.len() - 1 {
        assert(replaced.drop_last() == entries.drop_last());
    } else {
        assert(replaced.last() == entries.last());
        assert(replaced.drop_last() == entries.drop_last().update(i, entry));
        assert(entries.drop_last()[i] == entries[i]);
        lemma_replaced_entry_keeps_others(entries.drop_last(), i, entry, name);
    }
}

/// Puts the metric `name` with `value` into `metrics`, as a map would: in
/// place of the entry of that name where there is one, else as a new entry.
pub(crate) fn put_metric(metrics: Vec<(String, u64)>, name: String, value: u64) -> (put: Vec<(String, u64)>)
    requires
        names_once(metrics@),
    ensures
        names_once(put@),
        forall|other: Seq<char>|
            #[trigger] metric_of(put@, other) == if other == name@ {
                Some(value)
            } else {
                metric_of(metrics@, other)
            },
{
    let mut put = metrics;
    let mut i: usize = 0;
    while i < put.len()
        invariant
            i <= put.len(),
            put@ == metrics@,
            names_once(metrics@),
            forall|j: int| 0 <= j < i ==> (#[trigger] put@[j]).0@ != name@,
        decreases put.len() - i,
    {
        if str_eq(put[i].0.as_str(), name.as_str()) {
            let ghost entry = (name, value);
            put.set(i, (name, value));
            proof {
                assert forall|a: int, b: int| 0 <= a < b < put@.len() implies put@[a].0@ != put@[b].0@ by {
                    assert(metrics@[a].0@ != metrics@[b].0@);
                }
                lemma_metric_is_the_entry(put@, i as int);
                assert forall|other: Seq<char>| other != entry.0@ implies #[trigger] metric_of(put@, other)
                    == metric_of(metrics@, other) by {
                    lemma_replaced_entry_keeps_others(metrics@, i as int, entry, other);
                }
            }
            return put;
        }
        i = i + 1;
    }
    let ghost entry = (name, value);
    put.push((name, value));
    proof {
        assert(put@.drop_last() == metrics@);
        assert(put@.last() == entry);
        assert forall|a: int, b: int| 0 <= a < b < put@.len() implies put@[a].0@ != put@[b].0@ by {
            if b < metrics@.len() {
                assert(metrics@[a].0@ != metrics@[b].0@);
            }
        }
    }
    put
}

/// Looks the metric `name` up in `metrics`.
pub(crate) fn find_metric<'a>(metrics: &'a Vec<(String, u64)>, name: &str) -> (value: Option<&'a u64>)
    ensures
        value is Some == metric_of(metrics@, name@) is Some,
        value matches Some(found) ==> Some(*found) == metric_of(metrics@, name@),
{
    let mut i: usize = metrics.len();
    assert(metrics@.take(i as int) == metrics@);
    while i > 0
        invariant
            i <= metrics.len(),
            metric_of(metrics@, name@) == metric_of(metrics@.take(i as int), name@),
        decreases i,
    {
        proof {
            let front = metrics@.take(i as int);
            assert(front.last() == metrics@[i - 1]);
            assert(front.drop_last() == metrics@.take(i - 1));
        }
        i = i - 1;
        if str_eq(metrics[i].0.as_str(), name) {
            return Some(&metrics[i].1);
        }
    }
    assert(metrics@.take(0).len() == 0);
    None
}

/// The metrics of the last interval: a map from each metric's name to its
/// value, kept as a list in which no name occurs twice.
#[derive(Debug)]
pub struct MetricsSnapshot {
    interval: MetricsInterval,
    metrics: Vec<(String, u64)>,
}

impl MetricsSnapshot {
    /// The interval that the values were taken over.
    pub closed spec fn over(&self) -> MetricsInterval {
        self.interval
    }

    /// The metrics, each name with its value.
    pub closed spec fn entries(&self) -> Seq<(String, u64)> {
        self.metrics@
    }

    /// No name occurs twice among the metrics. Every snapshot is well formed.
    pub open spec fn well_formed(&self) -> bool {
        names_once(self.entries())
    }

    #[verifier::type_invariant]
    spec fn names_stand_once(&self) -> bool {
        names_once(self.metrics@)
    }

    /// A snapshot over `interval` that holds no metric yet.
    pub fn new(interval: MetricsInterval) -> (snapshot: MetricsSnapshot)
        ensures
            snapshot.well_formed(),
            snapshot.over() == interval,
            snapshot.entries().len() == 0,
    {
        MetricsSnapshot { interval, metrics: Vec::new() }
    }

    /// The snapshot with the metric `name` set to `value`, in place of the
    /// value that the name had, if it had one.
    pub fn with_metric(self, name: String, value: u64) -> (snapshot: MetricsSnapshot)
        ensures
            snapshot.well_formed(),
            snapshot.over() == self.over(),
            forall|other: Seq<char>|
                #[trigger] metric_of(snapshot.entries(), other) == if other == name@ {
                    Some(value)
                } else {
                    metric_of(self.entries(), other)
                },
    {
        proof {
            use_type_invariant(&self);
        }
        let MetricsSnapshot { interval, metrics } = self;
        MetricsSnapshot { interval, metrics: put_metric(metrics, name, value) }
    }

    /// Returns the interval that the values were taken over.
    pub fn interval(&self) -> (interval: &MetricsInterval)
        ensures
            *interval == self.over(),
    {
        &self.interval
    }

    /// Returns the metrics, each name with its value; no name occurs twice.
    pub fn metrics(&self) -> (metrics: &Vec<(String, u64)>)
        ensures
            metrics@ == self.entries(),
            self.well_formed(),
    {
        proof {
            use_type_invariant(self);
        }
        &self.metrics
    }

    /// Returns the value of the metric `name`, if the snapshot holds one.
    pub fn get_metric(&self, name: &str) -> (value: Option<&u64>)
        ensures
            self.well_formed(),
            value is Some == metric_of(self.entries(), name@) is Some,
            value matches Some(found) ==> Some(*found) == metric_of(self.entries(), name@),
    {
        proof {
            use_type_invariant(self);
        }
        find_metric(&self.metrics, name)
    }
}

/// The interval at which the metrics are refreshed.
#[derive(Debug)]
pub struct MetricsInterval {
    pub time: u16,
    pub unit: String,
    pub last: u64,
}

impl MetricsInterval {
    /// Returns the length of the interval, in its unit.
    pub fn time(&self) -> (time: &u16)
        ensures
            *time == self.time,
    {
        &self.time
    }

    /// Returns the unit of the interval's length.
    pub fn unit(&self) -> (unit: &String)
        ensures
            *unit == self.unit,
    {
        &self.unit
    }

    /// Returns when the metrics were last refreshed, as a UNIX timestamp.
    pub fn last(&self) -> (last: &u64)
        ensures
            *last == self.last,
    {
        &self.last
    }
}

} // verus!
