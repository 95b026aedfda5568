//! Messages to be signed: a context tag and an arbitrary byte payload.
//!
//! Two messages with equal context and payload hash to the same curve
//! point, which signature stability depends on.

use vstd::prelude::*;
use vstd::slice::slice_to_vec;
use crate::codec::bytes_eq;

verus! {

/// A context tag plus an arbitrary byte payload.
#[derive(Debug)]
pub struct Message {
    pub context: Vec<u8>,
    pub payload: Vec<u8>,
}

impl Clone for Message {
    fn clone(&self) -> (r: Self)
        ensures
            r.context@ == self.context@,
            r.payload@ == self.payload@,
    {
        Message {
            context: slice_to_vec(self.context.as_slice()),
            payload: slice_to_vec(self.payload.as_slice()),
        }
    }
}

impl Message {
    pub fn new(context: &[u8], payload: &[u8]) -> (m: Message)
        ensures
            m.context@ == context@,
            m.payload@ == payload@,
    {
        Message { context: slice_to_vec(context), payload: slice_to_vec(payload) }
    }
}

impl PartialEq for Message {
    fn eq(&self, other: &Self) -> (r: bool) {
        bytes_eq(self.context.as_slice(), other.context.as_slice()) && bytes_eq(
            self.payload.as_slice(),
            other.payload.as_slice(),
        )
    }
}

impl Eq for Message {

}

impl vstd::std_specs::cmp::PartialEqSpecImpl for Message {
    open spec fn obeys_eq_spec() -> bool {
        true
    }

    open spec fn eq_spec(&self, other: &Self) -> bool {
        self.context@ == other.context@ && self.payload@ == other.payload@
    }
}

} // verus!
