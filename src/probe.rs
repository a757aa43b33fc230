use vstd::prelude::*;

pub mod counter;
pub mod gauge;
pub mod measure;
pub mod timer;

verus! {

/// What identifies a metric.
#[derive(Clone, Copy, Debug, PartialEq, Eq, Structural)]
pub struct Info {
    pub id: usize,
}

/// What identifies one variant of a nominal metric.
#[derive(Clone, Copy, Debug, PartialEq, Eq, Structural)]
pub struct Variant {
    pub id: usize,
}

/// Hands out the recorder of each metric, by kind; a metric must be registered
/// under its own kind.
#[derive(Debug)]
pub struct Registry {}

impl Registry {
    pub fn new() -> (r: Self) {
        Registry {  }
    }

    pub fn register_counter(&self, info: &Info) -> (r: counter::Recorder)
        requires
            counter::is_counter(info.id),
        ensures
            r.id_spec() == info.id,
    {
        counter::Recorder::new(info)
    }

    pub fn register_bool_counter(&self, info: &Info) -> (r: counter::boolean::Recorder)
        requires
            counter::boolean::is_bool_counter(info.id),
        ensures
            r.id_spec() == info.id,
    {
        counter::boolean::Recorder::new(info)
    }

    pub fn register_nominal_counter(&self, info: &Info, variant: &Variant) -> (r: counter::nominal::Recorder)
        requires
            counter::nominal::is_nominal_counter(info.id),
        ensures
            r.id_spec() == info.id,
            r.variant_spec() == variant.id,
    {
        counter::nominal::Recorder::new(info, variant)
    }

    pub fn register_measure(&self, info: &Info) -> (r: measure::Recorder)
        requires
            measure::is_measure(info.id),
        ensures
            r.id_spec() == info.id,
    {
        measure::Recorder::new(info)
    }

    pub fn register_gauge(&self, info: &Info) -> (r: gauge::Recorder)
        requires
            gauge::is_gauge(info.id),
        ensures
            r.id_spec() == info.id,
    {
        gauge::Recorder::new(info)
    }

    pub fn register_timer(&self, info: &Info) -> (r: timer::Recorder)
        requires
            timer::is_timer(info.id),
        ensures
            r.id_spec() == info.id,
    {
        timer::Recorder::new(info)
    }

    pub fn register_nominal_timer(&self, info: &Info, variant: &Variant) -> (r: timer::nominal::Recorder)
        requires
            timer::nominal::is_nominal_timer(info.id),
        ensures
            r.id_spec() == info.id,
            r.variant_spec() == variant.id,
    {
        timer::nominal::Recorder::new(info, variant)
    }
}

} // verus!
