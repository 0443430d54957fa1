//! Buffers of vertex indices.

use vstd::prelude::*;
use crate::array_buffer::ArrayBufferTarget;
use crate::buffer::{AsyncBuffer, BufferTarget, CurrentBuffer};
use crate::gl::{GLenum, GLuint, ELEMENT_ARRAY_BUFFER};
use crate::state_cache::StateCache;

verus! {

/// The target of buffers that hold vertex indices. The type stands for the
/// target in the type of a buffer; the library makes no value of it.
pub enum ElementArrayBufferTarget {
    ElementArrayBuffer,
}

impl BufferTarget for ElementArrayBufferTarget {
    open spec fn spec_enum_val() -> GLenum {
        ELEMENT_ARRAY_BUFFER
    }

    open spec fn spec_marked_bound(state_cache: StateCache) -> GLuint {
        state_cache.bound_element_array_buffer_gl_handle
    }

    open spec fn spec_mark_bound(state_cache: StateCache, gl_handle: GLuint) -> StateCache {
        StateCache { bound_element_array_buffer_gl_handle: gl_handle, ..state_cache }
    }

    proof fn marked_bound_after_mark_bound(state_cache: StateCache, gl_handle: GLuint) {
    }

    proof fn marked_bound_of_unbound() {
    }

    fn enum_val() -> GLenum {
        ELEMENT_ARRAY_BUFFER
    }

    fn marked_bound(state_cache: &StateCache) -> GLuint {
        state_cache.bound_element_array_buffer_gl_handle
    }

    fn mark_bound(state_cache: &mut StateCache, gl_handle: GLuint) {
        state_cache.bound_element_array_buffer_gl_handle = gl_handle;
    }
}

/// A buffer of vertex indices in async mode.
pub type AsyncElementArrayBuffer = AsyncBuffer<ElementArrayBufferTarget>;

/// A buffer of vertex indices in current mode.
pub type CurrentElementArrayBuffer = CurrentBuffer<ElementArrayBufferTarget>;

/// The two binding points do not meet: what is recorded for one target
/// leaves the record of the other as it is.
pub proof fn lemma_binding_points_are_apart(state_cache: StateCache, gl_handle: GLuint)
    ensures
        ElementArrayBufferTarget::spec_marked_bound(
            ArrayBufferTarget::spec_mark_bound(state_cache, gl_handle),
        ) == ElementArrayBufferTarget::spec_marked_bound(state_cache),
        ArrayBufferTarget::spec_marked_bound(
            ElementArrayBufferTarget::spec_mark_bound(state_cache, gl_handle),
        ) == ArrayBufferTarget::spec_marked_bound(state_cache),
{
}

} // verus!
