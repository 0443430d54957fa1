//! Shaders of the vertex stage.

use vstd::prelude::*;
use crate::gl::{GLenum, VERTEX_SHADER};
use crate::shader::{Shader, ShaderFacade, ShaderHandle, ShaderHandleSpecifier, ShaderType};

verus! {

/// The vertex stage. The type stands for the stage in the type of a shader;
/// the library makes no value of it.
pub enum VertexShaderType {
    VertexShader,
}

impl ShaderType for VertexShaderType {
    open spec fn spec_enum_val() -> GLenum {
        VERTEX_SHADER
    }

    fn enum_val() -> GLenum {
        VERTEX_SHADER
    }
}

/// The kind of handle that vertex shaders have.
pub type VertexShaderHandleSpecifier = ShaderHandleSpecifier<VertexShaderType>;

/// The handle of a vertex shader.
pub type VertexShaderHandle = ShaderHandle<VertexShaderType>;

/// What can be done with the handle of a vertex shader, lent by `HB`.
pub type VertexShaderFacade<HB> = ShaderFacade<VertexShaderType, HB>;

/// A vertex shader that owns its handle.
pub type VertexShader = Shader<VertexShaderType>;

} // verus!
