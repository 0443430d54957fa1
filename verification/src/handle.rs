//! Native handles with their kind in the type, and the ways to lend one.

use vstd::prelude::*;
use std::marker::PhantomData;
use std::rc::Rc;
use std::sync::Arc;

verus! {

/// A kind of native handle.
pub trait HandleSpecifier {
    /// What the native API hands out for this kind.
    type Raw: Copy;
}

/// A native handle of the kind `HS`.
pub struct Handle<HS: HandleSpecifier>(HS::Raw, PhantomData<HS>);

impl<HS: HandleSpecifier> Handle<HS> {
    pub closed spec fn spec_raw(&self) -> HS::Raw {
        self.0
    }

    /// The handle of a raw value that the caller answers for.
    pub fn new(raw: HS::Raw) -> (handle: Self)
        ensures
            handle.raw() == raw,
    {
        Handle(raw, PhantomData)
    }

    /// The raw value.
    #[verifier::when_used_as_spec(spec_raw)]
    pub fn raw(&self) -> (raw: HS::Raw)
        ensures
            raw == self.spec_raw(),
    {
        self.0
    }
}

/// Something that lends a handle: the handle itself, a reference to it, or
/// a shared owner of it.
pub trait HandleBorrow<HS: HandleSpecifier> {
    /// The handle that is lent.
    spec fn spec_borrow(&self) -> &Handle<HS>;

    /// Lends the handle.
    fn borrow(&self) -> (handle: &Handle<HS>)
        ensures
            handle == self.spec_borrow(),
    ;
}

impl<HS: HandleSpecifier> HandleBorrow<HS> for Handle<HS> {
    open spec fn spec_borrow(&self) -> &Handle<HS> {
        self
    }

    fn borrow(&self) -> &Handle<HS> {
        self
    }
}

impl<'hb, HS: HandleSpecifier, HB: HandleBorrow<HS>> HandleBorrow<HS> for &'hb HB {
    open spec fn spec_borrow(&self) -> &Handle<HS> {
        (**self).spec_borrow()
    }

    fn borrow(&self) -> &Handle<HS> {
        (**self).borrow()
    }
}

impl<'hb, HS: HandleSpecifier, HB: HandleBorrow<HS>> HandleBorrow<HS> for &'hb mut HB {
    open spec fn spec_borrow(&self) -> &Handle<HS> {
        (**self).spec_borrow()
    }

    fn borrow(&self) -> &Handle<HS> {
        (**self).borrow()
    }
}

impl<HS: HandleSpecifier, HB: HandleBorrow<HS>> HandleBorrow<HS> for Rc<HB> {
    open spec fn spec_borrow(&self) -> &Handle<HS> {
        (**self).spec_borrow()
    }

    fn borrow(&self) -> &Handle<HS> {
        (**self).borrow()
    }
}

impl<HS: HandleSpecifier, HB: HandleBorrow<HS>> HandleBorrow<HS> for Arc<HB> {
    open spec fn spec_borrow(&self) -> &Handle<HS> {
        (**self).spec_borrow()
    }

    fn borrow(&self) -> &Handle<HS> {
        (**self).borrow()
    }
}

/// Something that lends a handle for a change: the handle itself or a
/// mutable reference to it.
pub trait HandleBorrowMut<HS: HandleSpecifier>: HandleBorrow<HS> {
    /// Lends the handle for a change.
    fn borrow_mut(&mut self) -> (handle: &mut Handle<HS>)
        ensures
            *handle == *old(self).spec_borrow(),
            *final(self).spec_borrow() == *final(handle),
    ;
}

impl<HS: HandleSpecifier> HandleBorrowMut<HS> for Handle<HS> {
    fn borrow_mut(&mut self) -> &mut Handle<HS> {
        self
    }
}

impl<'hb, HS: HandleSpecifier, HB: HandleBorrowMut<HS>> HandleBorrowMut<HS> for &'hb mut HB {
    fn borrow_mut(&mut self) -> &mut Handle<HS> {
        (**self).borrow_mut()
    }
}

} // verus!
