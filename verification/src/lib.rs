//! A safety layer over a stateful, thread-affine graphics API.
//!
//! The native interface works on implicit state: a context that is current
//! on the calling thread, and integer handles that have to be released by
//! hand. This crate keeps the books that make its use safe, and decides
//! which native calls are due and in which order:
//!
//! - [`Api`]: the table of the native procedures, of which a process has at
//!   most one at a time. The flag of the process, [`ApiExists`], guards it.
//! - [`SharingGroup`] and [`Context`]: every context belongs to a group of
//!   contexts that share their objects.
//! - [`CurrentContext`]: a thread has one slot, an `Option<CurrentContext>`.
//!   [`make_current`] puts a context into it and [`release`] gives up one
//!   reference; the context stays current until the last reference is
//!   released.
//! - [`StateCache`]: what is bound in the current context, by which a bind
//!   of what is bound already is elided.
//! - Resources in two modes: [`CurrentBuffer`], [`Shader`] and [`Program`]
//!   belong to one thread and hold a reference to its current context;
//!   [`AsyncBuffer`], [`AsyncShader`] and [`AsyncProgram`] can be handed to
//!   other threads and do nothing there until they are turned into current
//!   mode again, under a context of the sharing group that they belong to.
//!
//! The crate changes nothing in the native state itself. Every function
//! that has an effect on it returns the [`NativeCall`]s to perform, in
//! order; the embedding program performs them before it calls into the
//! crate again. What the native API returns, the handle of a new buffer
//! for one, is handed to the crate as an argument.

pub mod api;
pub mod array_buffer;
pub mod async_handle;
pub mod buffer;
pub mod context;
pub mod current_context;
pub mod element_array_buffer;
pub mod error;
pub mod fragment_shader;
pub mod gl;
pub mod handle;
pub mod native;
pub mod program;
pub mod shader;
pub mod sharing_group;
pub mod state_cache;
pub mod vertex_shader;

pub use api::Api;
pub use api::ApiBackend;
pub use api::ApiExists;
pub use api::MakeApiBackend;
pub use api::ScopedApiExistsGuard_;
pub use array_buffer::ArrayBufferTarget;
pub use array_buffer::AsyncArrayBuffer;
pub use async_handle::AsyncHandle;
pub use array_buffer::CurrentArrayBuffer;
pub use buffer::AsyncBuffer;
pub use buffer::BufferTarget;
pub use buffer::CurrentBuffer;
pub use context::Context;
pub use context::ContextBackend;
pub use current_context::activate;
pub use current_context::conclude_make_current;
pub use current_context::make_current;
pub use current_context::release;
pub use current_context::CurrentContext;
pub use current_context::CurrentRenderContext;
pub use element_array_buffer::AsyncElementArrayBuffer;
pub use element_array_buffer::CurrentElementArrayBuffer;
pub use element_array_buffer::ElementArrayBufferTarget;
pub use error::Error;
pub use error::UnknownError;
pub use fragment_shader::FragmentShader;
pub use fragment_shader::FragmentShaderFacade;
pub use fragment_shader::FragmentShaderHandle;
pub use fragment_shader::FragmentShaderType;
pub use gl::Gl;
pub use gl::GlError;
pub use handle::Handle;
pub use handle::HandleBorrow;
pub use handle::HandleBorrowMut;
pub use handle::HandleSpecifier;
pub use native::NativeCall;
pub use program::AsyncProgram;
pub use program::Program;
pub use program::ProgramFacade;
pub use program::ProgramHandle;
pub use program::ProgramHandleSpecifier;
pub use shader::AsyncShader;
pub use shader::Shader;
pub use shader::ShaderFacade;
pub use shader::ShaderHandle;
pub use shader::ShaderHandleSpecifier;
pub use shader::ShaderType;
pub use sharing_group::SharingGroup;
pub use sharing_group::SharingGroupBackend;
pub use state_cache::StateCache;
pub use vertex_shader::VertexShader;
pub use vertex_shader::VertexShaderFacade;
pub use vertex_shader::VertexShaderHandle;
pub use vertex_shader::VertexShaderType;
