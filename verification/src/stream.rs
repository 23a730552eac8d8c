//! The byte stream offered to the plugin for its state. It stores nothing:
//! every operation is refused.

use vstd::prelude::*;
use crate::base::{kResultFalse, tresult};

verus! {

/// A stream that refuses every read, write and seek.
pub struct ByteStream {}

impl ByteStream {
    pub fn new() -> (s: Box<Self>) {
        Box::new(Self {  })
    }

    pub fn read(&self, _num_bytes: i32) -> (status: tresult)
        ensures
            status == kResultFalse,
    {
        kResultFalse
    }

    pub fn write(&self, _num_bytes: i32) -> (status: tresult)
        ensures
            status == kResultFalse,
    {
        kResultFalse
    }

    pub fn seek(&self, _pos: i64, _mode: i32) -> (status: tresult)
        ensures
            status == kResultFalse,
    {
        kResultFalse
    }

    pub fn tell(&self) -> (status: tresult)
        ensures
            status == kResultFalse,
    {
        kResultFalse
    }
}

} // verus!
