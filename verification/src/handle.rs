use vstd::prelude::*;

verus! {

/// Who is responsible for releasing the platform object behind a handle.
#[derive(Clone, Copy, PartialEq, Eq, Structural, Debug)]
pub enum Ownership {
    /// The platform or the host application owns the object; this library
    /// must never release it.
    Borrowed,
    /// This library created the object and must release it before the
    /// object is replaced.
    Owned,
}

/// A raw, non-owning reference to a platform graphics object, identified by
/// the object's address.  An address of zero stands for "no object".
#[derive(Clone, Copy, PartialEq, Eq, Structural, Debug)]
pub struct Handle {
    pub addr: u64,
    pub ownership: Ownership,
}

impl Handle {
    pub open spec fn spec_is_null(self) -> bool {
        self.addr == 0
    }

    pub fn is_null(&self) -> (r: bool)
        ensures
            r == self.spec_is_null(),
    {
        self.addr == 0
    }

    /// A handle to an object owned by the platform or the host.
    pub fn borrowed(addr: u64) -> (h: Handle)
        ensures
            h == (Handle { addr, ownership: Ownership::Borrowed }),
    {
        Handle { addr, ownership: Ownership::Borrowed }
    }

    /// A handle to an object this library created and must release.
    pub fn owned(addr: u64) -> (h: Handle)
        ensures
            h == (Handle { addr, ownership: Ownership::Owned }),
    {
        Handle { addr, ownership: Ownership::Owned }
    }

    /// Two handles denote the same platform object exactly when their
    /// addresses agree; the ownership tag is bookkeeping of this library.
    pub open spec fn spec_same_object(self, other: Handle) -> bool {
        self.addr == other.addr
    }

    pub fn same_object(&self, other: &Handle) -> (r: bool)
        ensures
            r == self.spec_same_object(*other),
    {
        self.addr == other.addr
    }
}

} // verus!
