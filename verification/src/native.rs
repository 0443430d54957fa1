//! The calls that the layer asks the embedding program to perform.

use vstd::prelude::*;
use crate::gl::{GLenum, GLint, GLsizeiptr, GLuint, Proc};

verus! {

/// One effect on the native state. The layer returns these in the order in
/// which they are to be performed on the calling thread.
#[derive(Clone, Copy, Debug, PartialEq, Eq, Structural)]
pub enum NativeCall {
    /// Make the context that the thread's slot wraps current, through its
    /// [`ContextBackend`](crate::ContextBackend).
    MakeCurrent,
    /// Clear the thread's current context, through the
    /// [`ApiBackend`](crate::ApiBackend).
    ClearCurrentContext,
    /// `glBindBuffer(target, buffer)`.
    BindBuffer { target: GLenum, buffer: GLuint },
    /// `glBufferData(target, size, data, usage)`, with the data that were
    /// handed to the function that returned this call.
    BufferData { target: GLenum, size: GLsizeiptr, usage: GLenum },
    /// `glDeleteBuffers(1, &buffer)`.
    DeleteBuffers { buffer: GLuint },
    /// `glShaderSource(shader, 1, &source, &length)`, with the source that
    /// was handed to the function that returned this call.
    ShaderSource { shader: GLuint, length: GLint },
    /// `glCompileShader(shader)`.
    CompileShader { shader: GLuint },
    /// `glDeleteShader(shader)`.
    DeleteShader { shader: GLuint },
    /// `glAttachShader(program, shader)`.
    AttachShader { program: GLuint, shader: GLuint },
    /// `glLinkProgram(program)`.
    LinkProgram { program: GLuint },
    /// `glDeleteProgram(program)`.
    DeleteProgram { program: GLuint },
}

impl NativeCall {
    /// The native procedure that the call goes to, or `None` for a call
    /// that goes to a backend.
    pub open spec fn spec_procedure(self) -> Option<Proc> {
        match self {
            NativeCall::MakeCurrent => None,
            NativeCall::ClearCurrentContext => None,
            NativeCall::BindBuffer { .. } => Some(Proc::BindBuffer),
            NativeCall::BufferData { .. } => Some(Proc::BufferData),
            NativeCall::DeleteBuffers { .. } => Some(Proc::DeleteBuffers),
            NativeCall::ShaderSource { .. } => Some(Proc::ShaderSource),
            NativeCall::CompileShader { .. } => Some(Proc::CompileShader),
            NativeCall::DeleteShader { .. } => Some(Proc::DeleteShader),
            NativeCall::AttachShader { .. } => Some(Proc::AttachShader),
            NativeCall::LinkProgram { .. } => Some(Proc::LinkProgram),
            NativeCall::DeleteProgram { .. } => Some(Proc::DeleteProgram),
        }
    }

    /// The native procedure that the call goes to, or `None` for a call
    /// that goes to a backend.
    #[verifier::when_used_as_spec(spec_procedure)]
    pub fn procedure(self) -> (procedure: Option<Proc>)
        ensures
            procedure == self.spec_procedure(),
    {
        match self {
            NativeCall::MakeCurrent => None,
            NativeCall::ClearCurrentContext => None,
            NativeCall::BindBuffer { .. } => Some(Proc::BindBuffer),
            NativeCall::BufferData { .. } => Some(Proc::BufferData),
            NativeCall::DeleteBuffers { .. } => Some(Proc::DeleteBuffers),
            NativeCall::ShaderSource { .. } => Some(Proc::ShaderSource),
            NativeCall::CompileShader { .. } => Some(Proc::CompileShader),
            NativeCall::DeleteShader { .. } => Some(Proc::DeleteShader),
            NativeCall::AttachShader { .. } => Some(Proc::AttachShader),
            NativeCall::LinkProgram { .. } => Some(Proc::LinkProgram),
            NativeCall::DeleteProgram { .. } => Some(Proc::DeleteProgram),
        }
    }
}

impl NativeCall {
    /// What is bound to `target` in the current context once the call is
    /// performed, where `bound` was bound to it before. A bind to the target
    /// binds its buffer, and the deletion of the buffer that is bound leaves
    /// nothing bound; no other call of a buffer touches the binding.
    pub open spec fn bound_after(self, target: GLenum, bound: GLuint) -> GLuint {
        match self {
            NativeCall::BindBuffer { target: bind_target, buffer } => if bind_target == target {
                buffer
            } else {
                bound
            },
            NativeCall::DeleteBuffers { buffer } => if buffer == bound {
                0
            } else {
                bound
            },
            _ => bound,
        }
    }
}

/// What is bound to `target` in the current context once the calls are
/// performed in order, where `bound` was bound to it before.
pub open spec fn bound_after_all(
    calls: Seq<NativeCall>,
    target: GLenum,
    bound: GLuint,
) -> GLuint
    decreases calls.len(),
{
    if calls.len() == 0 {
        bound
    } else {
        bound_after_all(calls.drop_first(), target, calls.first().bound_after(target, bound))
    }
}

} // verus!
