//! Groups of contexts that share their objects.

use vstd::prelude::*;
use std::sync::Arc;
use crate::api::Api;
use crate::context::{Context, ContextBackend};
use crate::error::Error;

verus! {

/// What a windowing system offers of a group of contexts that share their
/// objects. The group may be without a context; the backend then keeps one
/// of its own, so that the objects of the group live on. It may be shared
/// between threads, as the resources in async mode are that belong to the
/// group.
pub trait SharingGroupBackend: Send + Sync + 'static {
    /// Makes a new context in the group.
    fn create_context(&self) -> Result<Box<dyn ContextBackend>, Error>;
}

/// A group of contexts that share their objects, together with a share of
/// the api that made it. Every context has a share of its group, and so has
/// every resource in async mode: it can be turned into current mode under
/// any context of the group that it left current mode in, and under no
/// other.
pub struct SharingGroup {
    api_: Arc<Api>,
    backend_: Box<dyn SharingGroupBackend>,
}

impl SharingGroup {
    pub closed spec fn spec_api(&self) -> &Arc<Api> {
        &self.api_
    }

    /// The group of that backend, made by that api.
    pub fn new(api: Arc<Api>, backend: Box<dyn SharingGroupBackend>) -> (sharing_group: Self)
        ensures
            *sharing_group.api() == api,
    {
        SharingGroup { api_: api, backend_: backend }
    }

    /// The backend.
    pub fn backend(&self) -> (backend: &Box<dyn SharingGroupBackend>)
        ensures
            backend == self.spec_backend(),
    {
        &self.backend_
    }

    /// The api.
    #[verifier::when_used_as_spec(spec_api)]
    pub fn api(&self) -> (api: &Arc<Api>)
        ensures
            api == self.spec_api(),
    {
        &self.api_
    }

    /// The context that the group makes of what its backend has created.
    pub fn context_of(
        self: &Arc<Self>,
        created: Result<Box<dyn ContextBackend>, Error>,
    ) -> (context: Result<Context, Error>)
        ensures
            makes(*self, created, context),
    {
        match created {
            Ok(backend) => Ok(Context::new(self.clone(), backend)),
            Err(e) => Err(e),
        }
    }

    /// Makes a new context in the group: asks the backend for one and goes
    /// on as [`context_of`](Self::context_of) does with the answer.
    pub fn create_context(self: &Arc<Self>) -> (context: Result<Context, Error>)
        ensures
            exists|created: Result<Box<dyn ContextBackend>, Error>|
                #[trigger] creates::<dyn SharingGroupBackend>(&**self.spec_backend(), created)
                    && makes(*self, created, context),
    {
        let created = ask::<dyn SharingGroupBackend>(&**self.backend());
        self.context_of(created)
    }

    /// The backend that the group was made of.
    pub closed spec fn spec_backend(&self) -> &Box<dyn SharingGroupBackend> {
        &self.backend_
    }
}

/// Whether `context` is what the group makes of what its backend has
/// created: a context of the group, or the error of the backend.
pub open spec fn makes(
    sharing_group: Arc<SharingGroup>,
    created: Result<Box<dyn ContextBackend>, Error>,
    context: Result<Context, Error>,
) -> bool {
    &&& context is Ok <==> created is Ok
    &&& context matches Ok(c) ==> *c.sharing_group() == sharing_group
    &&& context matches Err(e) ==> created matches Err(f) && e == f
}

/// Whether `created` is an answer that the backend gives when it is asked
/// for a new context.
pub open spec fn creates<B: SharingGroupBackend + ?Sized>(
    backend: &B,
    created: Result<Box<dyn ContextBackend>, Error>,
) -> bool {
    call_ensures(B::create_context, (backend,), created)
}

/// Asks the backend for a new context.
fn ask<B: SharingGroupBackend + ?Sized>(backend: &B) -> (created: Result<
    Box<dyn ContextBackend>,
    Error,
>)
    ensures
        creates::<B>(backend, created),
{
    backend.create_context()
}

} // verus!
