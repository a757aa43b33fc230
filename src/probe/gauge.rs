use vstd::prelude::*;

use crate::probe::Info;

verus! {

/// Whether `id` names a metric of this kind: no metric is a gauge, so no gauge
/// recorder can be made.
pub open spec fn is_gauge(id: usize) -> bool {
    false
}

/// The recorder of one gauge metric.
#[derive(Debug)]
pub struct Recorder {
    id: usize,
}

impl Recorder {
    pub closed spec fn id_spec(&self) -> usize {
        self.id
    }

    /// The recorder for the metric `info` describes, which must be of this kind.
    pub fn new(info: &Info) -> (r: Self)
        requires
            is_gauge(info.id),
        ensures
            r.id_spec() == info.id,
    {
        Recorder { id: info.id }
    }

    /// The metric this recorder emits for.
    pub fn id(&self) -> (r: usize)
        ensures
            r == self.id_spec(),
    {
        self.id
    }
}

} // verus!
