//! The record of what is bound in the current context.

use vstd::prelude::*;
use crate::gl::GLuint;

verus! {

/// What the layer believes to be bound at each tracked binding point of the
/// current context. A handle of 0 means that nothing is bound.
///
/// The record is true as long as every bind goes through this layer.
#[derive(Clone, Copy, Debug, PartialEq, Eq, Structural)]
pub struct StateCache {
    /// The handle of the bound array buffer.
    pub bound_array_buffer_gl_handle: GLuint,
    /// The handle of the bound element array buffer.
    pub bound_element_array_buffer_gl_handle: GLuint,
}

impl StateCache {
    /// The cache in which nothing is bound.
    pub open spec fn unbound() -> StateCache {
        StateCache { bound_array_buffer_gl_handle: 0, bound_element_array_buffer_gl_handle: 0 }
    }

    /// A cache in which nothing is bound.
    pub fn new() -> (state_cache: Self)
        ensures
            state_cache == Self::unbound(),
    {
        StateCache { bound_array_buffer_gl_handle: 0, bound_element_array_buffer_gl_handle: 0 }
    }

    /// Forgets every binding. Due whenever another context may have become
    /// current underneath the cache.
    pub fn clear(&mut self)
        ensures
            *final(self) == Self::unbound(),
        no_unwind
    {
        self.bound_array_buffer_gl_handle = 0;
        self.bound_element_array_buffer_gl_handle = 0;
    }
}

} // verus!
