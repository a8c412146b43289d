use vstd::prelude::*;
use crate::error::RandrError;

verus! {

/// What the fallback backend says when it starts.
pub const DUMMY_WARNING: &'static str =
    "WARNING: Using dummy gamma method! Display will not be affected by this gamma method.";

/// The fallback backend: it touches no hardware and holds no connection, so
/// none of its operations can send a request or fail.
#[derive(Debug, Clone, Copy, PartialEq, Eq, Structural)]
pub struct DummyMethod;

impl DummyMethod {
    /// A ready fallback backend.
    pub fn init() -> (m: DummyMethod) {
        DummyMethod
    }

    /// Starting registers nothing; the caller reports [`DUMMY_WARNING`].
    pub fn start(&mut self) -> (r: Result<(), RandrError>)
        ensures
            r is Ok,
            *final(self) == *old(self),
    {
        Ok(())
    }

    /// Accepts any requested temperature without effect; the caller only
    /// reports the value.
    pub fn set_temperature(&self, temp: i32) -> (r: Result<(), RandrError>)
        ensures
            r is Ok,
    {
        Ok(())
    }

    /// There is nothing to restore.
    pub fn restore(&self) -> (r: Result<(), RandrError>)
        ensures
            r is Ok,
    {
        Ok(())
    }
}

} // verus!
