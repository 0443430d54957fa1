//! A native context and the sharing group that it belongs to.

use vstd::prelude::*;
use std::sync::Arc;
use crate::api::Api;
use crate::error::Error;
use crate::sharing_group::SharingGroup;

verus! {

/// What a windowing system offers of one of its contexts.
pub trait ContextBackend: 'static {
    /// Whether the context is current on the calling thread.
    fn is_current(&self) -> bool;

    /// Makes the context current on the calling thread. Nothing has checked
    /// whether it is current already.
    fn make_current(&self) -> Result<(), Error>;
}

/// A native context together with a share of the sharing group that it
/// belongs to, and with it of the api that made the group. It cannot be
/// used as it is: [`make_current`](crate::make_current) puts it into the
/// slot of a thread.
pub struct Context {
    sharing_group_: Arc<SharingGroup>,
    backend_: Box<dyn ContextBackend>,
}

impl Context {
    pub closed spec fn spec_sharing_group(&self) -> &Arc<SharingGroup> {
        &self.sharing_group_
    }

    pub open spec fn spec_api(&self) -> &Arc<Api> {
        self.spec_sharing_group().api()
    }

    /// The context of that backend in that sharing group.
    pub fn new(sharing_group: Arc<SharingGroup>, backend: Box<dyn ContextBackend>) -> (context:
        Self)
        ensures
            *context.sharing_group() == sharing_group,
    {
        Context { sharing_group_: sharing_group, backend_: backend }
    }

    /// The sharing group: the contexts whose objects are the objects of
    /// this one.
    #[verifier::when_used_as_spec(spec_sharing_group)]
    pub fn sharing_group(&self) -> (sharing_group: &Arc<SharingGroup>)
        ensures
            sharing_group == self.spec_sharing_group(),
    {
        &self.sharing_group_
    }

    /// The api: that of the sharing group.
    #[verifier::when_used_as_spec(spec_api)]
    pub fn api(&self) -> (api: &Arc<Api>)
        ensures
            api == self.spec_api(),
    {
        self.sharing_group_.api()
    }

    /// The backend.
    pub fn backend(&self) -> (backend: &Box<dyn ContextBackend>)
        ensures
            backend == self.spec_backend(),
    {
        &self.backend_
    }

    /// The backend that the context was made of.
    pub closed spec fn spec_backend(&self) -> &Box<dyn ContextBackend> {
        &self.backend_
    }

    /// Whether the context is current on the calling thread: what its
    /// backend answers when it is asked.
    pub fn is_current(&self) -> (is_current: bool)
        ensures
            reports::<dyn ContextBackend>(&**self.spec_backend(), is_current),
    {
        ask::<dyn ContextBackend>(&**self.backend())
    }
}

/// Whether `is_current` is an answer that the backend gives when it is asked
/// whether its context is current.
pub open spec fn reports<B: ContextBackend + ?Sized>(backend: &B, is_current: bool) -> bool {
    call_ensures(B::is_current, (backend,), is_current)
}

/// Asks the backend whether its context is current.
fn ask<B: ContextBackend + ?Sized>(backend: &B) -> (is_current: bool)
    ensures
        reports::<B>(backend, is_current),
{
    backend.is_current()
}

} // verus!
