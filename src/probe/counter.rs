use vstd::prelude::*;

pub mod boolean;
pub mod nominal;

use crate::probe::Info;

verus! {

/// Whether `id` names a metric of this kind.
pub open spec fn is_counter(id: usize) -> bool {
    match id {
        0usize | 1usize | 2usize | 3usize | 5usize | 7usize | 9usize | 10usize | 11usize |
        14usize | 17usize | 19usize | 21usize | 24usize | 34usize | 36usize | 37usize |
        39usize | 41usize | 43usize | 46usize | 51usize | 52usize | 55usize | 57usize |
        58usize | 61usize | 62usize | 64usize | 65usize | 68usize | 69usize | 70usize |
        72usize | 74usize | 79usize | 80usize | 82usize | 84usize | 86usize | 87usize |
        89usize | 90usize | 92usize | 93usize | 97usize | 101usize | 102usize | 106usize |
        108usize | 114usize | 115usize | 118usize | 119usize | 120usize | 121usize |
        125usize | 128usize | 132usize | 134usize | 135usize | 137usize | 139usize |
        141usize | 143usize | 145usize | 146usize | 147usize | 149usize | 151usize |
        153usize | 155usize | 157usize | 158usize | 159usize | 160usize | 162usize => true,
        _ => false,
    }
}


/// The recorder of one counter metric.
#[derive(Debug)]
pub struct Recorder {
    id: usize,
}

impl Recorder {
    pub closed spec fn id_spec(&self) -> usize {
        self.id
    }

    /// The recorder for the metric `info` describes, which must be of this kind.
    pub fn new(info: &Info) -> (r: Self)
        requires
            is_counter(info.id),
        ensures
            r.id_spec() == info.id,
    {
        Recorder { id: info.id }
    }

    /// The metric this recorder emits for.
    pub fn id(&self) -> (r: usize)
        ensures
            r == self.id_spec(),
    {
        self.id
    }
}

} // verus!
