//! A handle to a host-managed set of in-flight asynchronous operations.
//!
//! The four host calls that create, join, wait on and drop such a set are
//! plain pass-throughs to the embedder with no logic of their own, and stand
//! outside this library; what the library holds is the handle value itself,
//! which is never zero.

use vstd::prelude::*;

verus! {

/// A non-zero handle to a host-managed waitable set.
pub struct WaitableSet {
    handle: u32,
}

impl WaitableSet {
    /// The handle is never zero.
    pub closed spec fn wf(self) -> bool {
        self.handle != 0
    }

    /// The raw handle value.
    pub closed spec fn spec_handle(self) -> u32 {
        self.handle
    }

    /// Wrap a raw handle received from the host.
    pub fn from_raw(handle: u32) -> (r: Result<WaitableSet, crate::err::GenError>)
        ensures
            r is Ok <==> handle != 0,
            r matches Ok(w) ==> w.wf() && w.spec_handle() == handle,
    {
        if handle == 0 {
            Err(crate::err::GenError::BadInstruction)
        } else {
            Ok(WaitableSet { handle })
        }
    }

    /// The raw handle, for the host calls; never zero.
    pub fn as_raw(&self) -> (r: u32)
        requires
            self.wf(),
        ensures
            r == self.spec_handle(),
            r != 0,
    {
        self.handle
    }
}

} // verus!
