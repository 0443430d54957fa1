//! Buffers of vertex data.

use vstd::prelude::*;
use crate::buffer::{AsyncBuffer, BufferTarget, CurrentBuffer};
use crate::gl::{GLenum, GLuint, ARRAY_BUFFER};
use crate::state_cache::StateCache;

verus! {

/// The target of buffers that hold vertex data. The type stands for the
/// target in the type of a buffer; the library makes no value of it.
pub enum ArrayBufferTarget {
    ArrayBuffer,
}

impl BufferTarget for ArrayBufferTarget {
    open spec fn spec_enum_val() -> GLenum {
        ARRAY_BUFFER
    }

    open spec fn spec_marked_bound(state_cache: StateCache) -> GLuint {
        state_cache.bound_array_buffer_gl_handle
    }

    open spec fn spec_mark_bound(state_cache: StateCache, gl_handle: GLuint) -> StateCache {
        StateCache { bound_array_buffer_gl_handle: gl_handle, ..state_cache }
    }

    proof fn marked_bound_after_mark_bound(state_cache: StateCache, gl_handle: GLuint) {
    }

    proof fn marked_bound_of_unbound() {
    }

    fn enum_val() -> GLenum {
        ARRAY_BUFFER
    }

    fn marked_bound(state_cache: &StateCache) -> GLuint {
        state_cache.bound_array_buffer_gl_handle
    }

    fn mark_bound(state_cache: &mut StateCache, gl_handle: GLuint) {
        state_cache.bound_array_buffer_gl_handle = gl_handle;
    }
}

/// A buffer of vertex data in async mode.
pub type AsyncArrayBuffer = AsyncBuffer<ArrayBufferTarget>;

/// A buffer of vertex data in current mode.
pub type CurrentArrayBuffer = CurrentBuffer<ArrayBufferTarget>;

} // verus!
