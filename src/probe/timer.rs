use vstd::prelude::*;

pub mod nominal;

use crate::probe::Info;

verus! {

/// Whether `id` names a metric of this kind.
pub open spec fn is_timer(id: usize) -> bool {
    match id {
        47usize | 48usize | 49usize | 56usize | 75usize | 76usize | 77usize | 83usize |
        85usize | 109usize | 110usize | 111usize | 112usize | 116usize | 161usize => true,
        _ => false,
    }
}


/// The recorder of one timer metric.
#[derive(Debug)]
pub struct Recorder {
    id: usize,
}

impl Recorder {
    pub closed spec fn id_spec(&self) -> usize {
        self.id
    }

    /// The recorder for the metric `info` describes, which must be of this kind.
    pub fn new(info: &Info) -> (r: Self)
        requires
            is_timer(info.id),
        ensures
            r.id_spec() == info.id,
    {
        Recorder { id: info.id }
    }

    /// The metric this recorder emits for.
    pub fn id(&self) -> (r: usize)
        ensures
            r == self.id_spec(),
    {
        self.id
    }
}

} // verus!
