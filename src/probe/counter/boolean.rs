use vstd::prelude::*;

use crate::probe::Info;

verus! {

/// Whether `id` names a metric of this kind.
pub open spec fn is_bool_counter(id: usize) -> bool {
    match id {
        23usize | 33usize | 96usize => true,
        _ => false,
    }
}


/// The recorder of one boolean counter metric.
#[derive(Debug)]
pub struct Recorder {
    id: usize,
}

impl Recorder {
    pub closed spec fn id_spec(&self) -> usize {
        self.id
    }

    /// The recorder for the metric `info` describes, which must be of this kind.
    pub fn new(info: &Info) -> (r: Self)
        requires
            is_bool_counter(info.id),
        ensures
            r.id_spec() == info.id,
    {
        Recorder { id: info.id }
    }

    /// The metric this recorder emits for.
    pub fn id(&self) -> (r: usize)
        ensures
            r == self.id_spec(),
    {
        self.id
    }
}

} // verus!
