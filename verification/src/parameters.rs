//! The queues of parameter changes handed to the plugin. This host sends no
//! parameter changes: both queues are always empty.

use vstd::prelude::*;
use crate::base::{kResultFalse, tresult};

verus! {

/// The queue of value changes of one parameter. It holds no points.
pub struct ParamValueQueue {}

impl ParamValueQueue {
    pub fn new() -> (q: Box<Self>) {
        Box::new(Self {  })
    }

    pub fn get_parameter_id(&self) -> (id: u32)
        ensures
            id == 0,
    {
        0
    }

    pub fn get_point_count(&self) -> (n: i32)
        ensures
            n == 0,
    {
        0
    }

    /// There is no point to hand out, whatever the index.
    pub fn get_point(&self, _index: i32) -> (status: tresult)
        ensures
            status == kResultFalse,
    {
        kResultFalse
    }

    /// No point is accepted.
    pub fn add_point(&self, _sample_offset: i32) -> (status: tresult)
        ensures
            status == kResultFalse,
    {
        kResultFalse
    }
}

/// The set of parameters that changed in a block. It reports no parameter,
/// and keeps one empty queue for a plugin that asks all the same.
pub struct ParameterChanges {
    param_value_queue: Box<ParamValueQueue>,
}

impl ParameterChanges {
    pub fn new() -> (c: Box<Self>) {
        Box::new(Self { param_value_queue: ParamValueQueue::new() })
    }

    pub fn get_parameter_count(&self) -> (n: i32)
        ensures
            n == 0,
    {
        0
    }

    /// The queue at an index: the one empty queue at index zero, none elsewhere.
    pub fn get_parameter_data(&self, index: i32) -> (q: Option<&ParamValueQueue>)
        ensures
            q is Some <==> index == 0,
    {
        if index != 0 {
            return None;
        }
        Some(&*self.param_value_queue)
    }

    /// The queue for a parameter that the plugin wants to report: always the
    /// one empty queue, at index zero.
    pub fn add_parameter_data(&self, _id: u32) -> (r: (i32, &ParamValueQueue))
        ensures
            r.0 == 0,
    {
        (0, &*self.param_value_queue)
    }
}

} // verus!
