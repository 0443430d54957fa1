//! Resources in async mode.
//!
//! A resource in async mode is a native handle and a share of the sharing
//! group that it belongs to, and with it of the api. It can be handed to
//! other threads, and nothing can be done with it but to turn it into
//! current mode again, on the thread that is to use it and under a context
//! of its group. Every conversion consumes the value it starts from, so
//! that a handle is never in both modes.

use vstd::prelude::*;
use std::sync::Arc;
use crate::api::Api;
use crate::context::Context;
use crate::gl::GLuint;
use crate::handle::{Handle, HandleSpecifier};
use crate::sharing_group::SharingGroup;

verus! {

/// What a resource in async mode stands for.
pub struct AsyncView {
    /// The native handle.
    pub gl_handle: GLuint,
    /// The sharing group whose contexts know the handle.
    pub sharing_group: Arc<SharingGroup>,
}

/// What a resource of `gl_handle` in current mode turns into when it leaves
/// a slot whose context belongs to `sharing_group`.
pub open spec fn as_async(gl_handle: GLuint, sharing_group: Arc<SharingGroup>) -> AsyncView {
    AsyncView { gl_handle, sharing_group }
}

/// Whether a resource in async mode can be turned into current mode under
/// `context`: the context belongs to the sharing group of the resource.
pub open spec fn shares(resource: AsyncView, context: Context) -> bool {
    *context.sharing_group() == resource.sharing_group
}

/// The handle of the resource in current mode that a resource in async mode
/// turns into.
pub open spec fn as_current(resource: AsyncView) -> GLuint {
    resource.gl_handle
}

/// A resource that goes from current mode to async mode and back has the
/// handle that it started with.
pub proof fn lemma_round_trip_keeps_handle(gl_handle: GLuint, sharing_group: Arc<SharingGroup>)
    ensures
        as_current(as_async(gl_handle, sharing_group)) == gl_handle,
{
}

/// A resource that has left current mode under a context can be turned
/// into current mode again under that context and under every other
/// context of its sharing group.
pub proof fn lemma_group_shares(gl_handle: GLuint, left: Context, other: Context)
    requires
        other.sharing_group() == left.sharing_group(),
    ensures
        shares(as_async(gl_handle, *left.sharing_group()), left),
        shares(as_async(gl_handle, *left.sharing_group()), other),
{
}

/// A handle of the kind `HS` in async mode. No context is at hand in async
/// mode, so there is no way to delete what the handle stands for but in
/// current mode. Its raw value is never 0.
pub struct AsyncHandle<HS: HandleSpecifier<Raw = GLuint>> {
    handle_: Handle<HS>,
    sharing_group_: Arc<SharingGroup>,
}

impl<HS: HandleSpecifier<Raw = GLuint>> View for AsyncHandle<HS> {
    type V = AsyncView;

    closed spec fn view(&self) -> AsyncView {
        AsyncView { gl_handle: self.handle_.raw(), sharing_group: self.sharing_group_ }
    }
}

impl<HS: HandleSpecifier<Raw = GLuint>> AsyncHandle<HS> {
    #[verifier::type_invariant]
    spec fn alive(&self) -> bool {
        self.handle_.raw() != 0
    }

    pub open spec fn spec_api(&self) -> &Arc<Api> {
        self@.sharing_group.api()
    }

    pub open spec fn spec_sharing_group(&self) -> &Arc<SharingGroup> {
        &self@.sharing_group
    }

    pub open spec fn spec_gl_handle(&self) -> GLuint {
        self@.gl_handle
    }

    /// The api: that of the sharing group.
    #[verifier::when_used_as_spec(spec_api)]
    pub fn api(&self) -> (api: &Arc<Api>)
        ensures
            api == self@.sharing_group.api(),
    {
        self.sharing_group_.api()
    }

    /// The sharing group.
    #[verifier::when_used_as_spec(spec_sharing_group)]
    pub fn sharing_group(&self) -> (sharing_group: &Arc<SharingGroup>)
        ensures
            *sharing_group == self@.sharing_group,
    {
        &self.sharing_group_
    }

    /// The native handle. Never 0.
    #[verifier::when_used_as_spec(spec_gl_handle)]
    pub fn gl_handle(&self) -> (gl_handle: GLuint)
        ensures
            gl_handle == self@.gl_handle,
            gl_handle != 0,
    {
        proof {
            use_type_invariant(self);
        }
        self.handle_.raw()
    }

    /// Takes the resource apart into its handle and its share of the
    /// sharing group. The caller answers for the handle from now on.
    pub fn split(self) -> (parts: (GLuint, Arc<SharingGroup>))
        ensures
            parts.0 == self@.gl_handle,
            parts.0 != 0,
            parts.1 == self@.sharing_group,
    {
        proof {
            use_type_invariant(&self);
        }
        (self.handle_.raw(), self.sharing_group_)
    }

    /// The resource of a handle that the caller answers for.
    pub fn from_gl_handle(gl_handle: GLuint, sharing_group: Arc<SharingGroup>) -> (resource: Self)
        requires
            gl_handle != 0,
        ensures
            resource@ == as_async(gl_handle, sharing_group),
    {
        AsyncHandle { handle_: Handle::new(gl_handle), sharing_group_: sharing_group }
    }
}

} // verus!
