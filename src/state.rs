//! The metric state across ticks: idle until a first snapshot, then the last
//! snapshot computed; a tick whose sampling failed leaves it as it was.
use vstd::prelude::*;

use crate::limits::Limits;
use crate::metrics::{collect, metric_views, snapshot, DiskSample, NormalizedMetric, NormalizedMetricView};

verus! {

/// The samples of a tick as a sequence; `None` where sampling failed.
pub open spec fn samples_view(samples: Option<&Vec<(String, DiskSample)>>) -> Option<
    Seq<(String, DiskSample)>,
> {
    match samples {
        Some(s) => Some(s@),
        None => None,
    }
}

/// The snapshot published after a tick: the snapshot of its samples, or the
/// one published before where sampling failed.
pub open spec fn next_published(
    published: Option<Seq<NormalizedMetricView>>,
    samples: Option<Seq<(String, DiskSample)>>,
    limits: Limits,
) -> Option<Seq<NormalizedMetricView>> {
    match samples {
        Some(s) => Some(snapshot(s, limits.disks@, limits.virtual_machine)),
        None => published,
    }
}

/// The limit table, read-only once built, and the last published snapshot.
pub struct MetricState {
    limits: Limits,
    published: Option<Vec<NormalizedMetric>>,
}

impl MetricState {
    /// The limit table of the state.
    pub closed spec fn table(&self) -> Limits {
        self.limits
    }

    /// The last published snapshot; `None` while idle.
    pub closed spec fn published_view(&self) -> Option<Seq<NormalizedMetricView>> {
        match self.published {
            Some(v) => Some(metric_views(v@)),
            None => None,
        }
    }

    /// An idle state over a limit table.
    pub fn new(limits: Limits) -> (r: MetricState)
        ensures
            r.table() == limits,
            r.published_view() == None::<Seq<NormalizedMetricView>>,
    {
        MetricState { limits, published: None }
    }

    /// The limit table, read-only.
    pub fn limits(&self) -> (r: &Limits)
        ensures
            *r == self.table(),
    {
        &self.limits
    }

    /// The last published snapshot; `None` while idle.
    pub fn published(&self) -> (r: Option<&Vec<NormalizedMetric>>)
        ensures
            match r {
                Some(v) => self.published_view() == Some(metric_views(v@)),
                None => self.published_view() == None::<Seq<NormalizedMetricView>>,
            },
    {
        match &self.published {
            Some(v) => Some(v),
            None => None,
        }
    }

    /// Runs one tick on the samples of the interval, or on `None` where
    /// sampling failed; the limit table is left unchanged.
    pub fn tick(&mut self, samples: Option<&Vec<(String, DiskSample)>>)
        requires
            match samples {
                Some(s) => s@.len() <= u32::MAX,
                None => true,
            },
        ensures
            final(self).table() == old(self).table(),
            final(self).published_view() == next_published(
                old(self).published_view(),
                samples_view(samples),
                old(self).table(),
            ),
    {
        match samples {
            Some(s) => {
                let snapshot = collect(s, &self.limits.virtual_machine, &self.limits.disks);
                self.published = Some(snapshot);
            },
            None => {},
        }
    }
}

/// Two ticks on the same samples, over an unchanged limit table, publish the
/// same snapshot as one: the ratios do not depend on what was published
/// before.
pub proof fn lemma_tick_idempotent(
    published: Option<Seq<NormalizedMetricView>>,
    samples: Seq<(String, DiskSample)>,
    limits: Limits,
)
    ensures
        next_published(next_published(published, Some(samples), limits), Some(samples), limits)
            == next_published(published, Some(samples), limits),
{
}

} // verus!
