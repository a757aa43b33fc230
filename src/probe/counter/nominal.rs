use vstd::prelude::*;

use crate::probe::{Info, Variant};

verus! {

/// Whether `id` names a metric of this kind.
pub open spec fn is_nominal_counter(id: usize) -> bool {
    match id {
        4usize | 8usize | 12usize | 13usize | 15usize | 16usize | 18usize | 20usize |
        35usize | 38usize | 40usize | 42usize | 44usize | 45usize | 50usize | 53usize |
        54usize | 67usize | 71usize | 73usize | 78usize | 81usize | 95usize | 98usize |
        107usize | 113usize | 117usize | 131usize | 133usize => true,
        _ => false,
    }
}


/// The recorder of one nominal counter metric.
#[derive(Debug)]
pub struct Recorder {
    id: usize,
    variant: usize,
}

impl Recorder {
    pub closed spec fn id_spec(&self) -> usize {
        self.id
    }

    /// The recorder for the metric `info` describes, which must be of this kind.
    pub fn new(info: &Info, variant: &Variant) -> (r: Self)
        requires
            is_nominal_counter(info.id),
        ensures
            r.id_spec() == info.id,
            r.variant_spec() == variant.id,
    {
        Recorder { id: info.id, variant: variant.id }
    }

    /// The metric this recorder emits for.
    pub fn id(&self) -> (r: usize)
        ensures
            r == self.id_spec(),
    {
        self.id
    }

    pub closed spec fn variant_spec(&self) -> usize {
        self.variant
    }

    /// The variant of the metric this recorder emits for.
    pub fn variant(&self) -> (r: usize)
        ensures
            r == self.variant_spec(),
    {
        self.variant
    }
}

} // verus!
