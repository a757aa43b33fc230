use vstd::prelude::*;

use crate::probe::Info;

verus! {

/// Whether `id` names a metric of this kind.
pub open spec fn is_measure(id: usize) -> bool {
    match id {
        6usize | 22usize | 25usize | 26usize | 27usize | 28usize | 29usize | 30usize |
        31usize | 32usize | 59usize | 60usize | 63usize | 66usize | 88usize | 91usize |
        94usize | 100usize | 103usize | 104usize | 105usize | 122usize | 123usize |
        124usize | 126usize | 127usize | 129usize | 130usize | 136usize | 138usize |
        140usize | 142usize | 144usize | 148usize | 150usize | 152usize | 154usize |
        156usize => true,
        _ => false,
    }
}


/// The recorder of one measure metric.
#[derive(Debug)]
pub struct Recorder {
    id: usize,
}

impl Recorder {
    pub closed spec fn id_spec(&self) -> usize {
        self.id
    }

    /// The recorder for the metric `info` describes, which must be of this kind.
    pub fn new(info: &Info) -> (r: Self)
        requires
            is_measure(info.id),
        ensures
            r.id_spec() == info.id,
    {
        Recorder { id: info.id }
    }

    /// The metric this recorder emits for.
    pub fn id(&self) -> (r: usize)
        ensures
            r == self.id_spec(),
    {
        self.id
    }
}

} // verus!
