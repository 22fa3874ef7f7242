//! Scoped ownership of a single native resource handle.
//!
//! Every native resource a capture acquires — a device context, a
//! bitmap, an array reference, a display reference — is owned by
//! exactly one guard at a time. The guard exposes read-only access to
//! the handle while it is held and gives the handle up exactly once:
//! after `release` the handle can be neither read nor released again,
//! on any path. The adapter that performs the native calls invokes the
//! kind's destructor on the value `release` returns.
//!
//! Constructing a guard from a null handle is itself permitted, as
//! native acquisition calls can return one; `is_valid` lets the caller
//! check before use, and a guard never substitutes a different handle.

use vstd::prelude::*;

verus! {

/// The native resource kinds a capture acquires, each with its own
/// native destructor.
#[derive(Clone, Copy, Debug, PartialEq, Eq, Structural)]
pub enum ResourceKind {
    DeviceContext,
    Bitmap,
    ArrayRef,
    DisplayRef,
}

/// Single-owner wrapper around one native handle value.
pub struct ResourceGuard {
    handle: i64,
    kind: ResourceKind,
    held: bool,
}

impl ResourceGuard {
    /// The wrapped handle value.
    pub closed spec fn spec_handle(self) -> i64 {
        self.handle
    }

    pub closed spec fn spec_kind(self) -> ResourceKind {
        self.kind
    }

    /// The guard still owns the resource: it has not been released.
    pub closed spec fn spec_held(self) -> bool {
        self.held
    }

    /// Takes ownership of `handle`. The guard holds exactly the value
    /// it was given.
    pub fn new(handle: i64, kind: ResourceKind) -> (g: ResourceGuard)
        ensures
            g.spec_handle() == handle,
            g.spec_kind() == kind,
            g.spec_held(),
    {
        ResourceGuard { handle, kind, held: true }
    }

    /// Read-only access to the handle while the guard holds it.
    pub fn handle(&self) -> (h: i64)
        requires
            self.spec_held(),
        ensures
            h == self.spec_handle(),
    {
        self.handle
    }

    pub fn kind(&self) -> (k: ResourceKind)
        ensures
            k == self.spec_kind(),
    {
        self.kind
    }

    /// The held handle is non-null.
    pub fn is_valid(&self) -> (r: bool)
        requires
            self.spec_held(),
        ensures
            r == (self.spec_handle() != 0),
    {
        self.handle != 0
    }

    /// Gives the resource up, exactly once: the caller receives the
    /// handle for the native destructor, and the guard can never
    /// release — or expose — it again.
    pub fn release(&mut self) -> (h: i64)
        requires
            old(self).spec_held(),
        ensures
            h == old(self).spec_handle(),
            !final(self).spec_held(),
            final(self).spec_kind() == old(self).spec_kind(),
    {
        self.held = false;
        self.handle
    }
}

} // verus!
