//! Shaders of the fragment stage.

use vstd::prelude::*;
use crate::gl::{GLenum, FRAGMENT_SHADER};
use crate::shader::{Shader, ShaderFacade, ShaderHandle, ShaderHandleSpecifier, ShaderType};

verus! {

/// The fragment stage. The type stands for the stage in the type of a shader;
/// the library makes no value of it.
pub enum FragmentShaderType {
    FragmentShader,
}

impl ShaderType for FragmentShaderType {
    open spec fn spec_enum_val() -> GLenum {
        FRAGMENT_SHADER
    }

    fn enum_val() -> GLenum {
        FRAGMENT_SHADER
    }
}

/// The kind of handle that fragment shaders have.
pub type FragmentShaderHandleSpecifier = ShaderHandleSpecifier<FragmentShaderType>;

/// The handle of a fragment shader.
pub type FragmentShaderHandle = ShaderHandle<FragmentShaderType>;

/// What can be done with the handle of a fragment shader, lent by `HB`.
pub type FragmentShaderFacade<HB> = ShaderFacade<FragmentShaderType, HB>;

/// A fragment shader that owns its handle.
pub type FragmentShader = Shader<FragmentShaderType>;

} // verus!
