//! Shaders.
//!
//! A [`ShaderFacade`] works on the handle of a shader that is lent to it,
//! under a context that others keep current. A [`Shader`] owns its handle
//! and holds a reference to the current context of the slot it was made in.

use vstd::prelude::*;
use std::marker::PhantomData;
use std::ops::Deref;
use std::rc::Rc;
use crate::async_handle::{as_async, as_current, shares, AsyncHandle};
use crate::current_context::{release, release_calls, released, slot_view, CurrentContext};
use crate::gl::{GLenum, GLint, GLuint};
use crate::handle::{Handle, HandleBorrow, HandleBorrowMut, HandleSpecifier};
use crate::native::NativeCall;

verus! {

/// A stage of drawing that a shader can be written for.
pub trait ShaderType {
    /// The value of the type.
    spec fn spec_enum_val() -> GLenum;

    /// The value of the type. It never changes.
    fn enum_val() -> (enum_val: GLenum)
        ensures
            enum_val == Self::spec_enum_val(),
    ;
}

/// The kind of handle that shaders of the type `T` have.
pub struct ShaderHandleSpecifier<T: ShaderType>(PhantomData<T>);

impl<T: ShaderType> HandleSpecifier for ShaderHandleSpecifier<T> {
    type Raw = GLuint;
}

/// The handle of a shader of the type `T`.
pub type ShaderHandle<T> = Handle<ShaderHandleSpecifier<T>>;

/// A shader of the type `T` that can be handed to other threads. Before
/// anything is done with it, it is turned into a [`Shader`] on the thread
/// that is to use it.
pub type AsyncShader<T> = AsyncHandle<ShaderHandleSpecifier<T>>;

impl<T: ShaderType> AsyncHandle<ShaderHandleSpecifier<T>> {
    /// Turns the shader into a shader of the slot's thread, which takes a
    /// reference to the current context.
    ///
    /// The current context is one whose objects the shader is among: a
    /// context of the sharing group that the shader belongs to.
    pub fn to_current(self, current_context: &mut CurrentContext) -> (shader: Shader<T>)
        requires
            shares(self@, *old(current_context)@.context),
            old(current_context)@.strong_count < usize::MAX,
        ensures
            shader.spec_gl_handle() == as_current(self@),
            final(current_context)@ == old(current_context)@.retained(),
    {
        let (gl_handle, _) = self.split();
        current_context.retain();
        Shader {
            shader_facade_: ShaderFacade::new(Handle::new(gl_handle)),
            current_context_: PhantomData,
        }
    }
}

/// The calls that give a shader its source and compile it.
pub open spec fn setup_calls(shader: GLuint, src_len: nat) -> Seq<NativeCall> {
    seq![
        NativeCall::ShaderSource { shader, length: src_len as GLint },
        NativeCall::CompileShader { shader },
    ]
}

/// What can be done with the handle of a shader of the type `T`, lent by
/// `HB`.
pub struct ShaderFacade<T: ShaderType, HB: HandleBorrow<ShaderHandleSpecifier<T>>> {
    handle_borrow_: HB,
    phantom_target_: PhantomData<T>,
}

impl<T: ShaderType, HB: HandleBorrow<ShaderHandleSpecifier<T>>> ShaderFacade<T, HB> {
    pub closed spec fn spec_gl_handle(&self) -> GLuint {
        self.handle_borrow_.spec_borrow().raw()
    }

    /// The facade of a handle that is lent.
    pub fn new(handle_borrow: HB) -> (facade: Self)
        ensures
            facade.gl_handle() == handle_borrow.spec_borrow().raw(),
    {
        ShaderFacade { handle_borrow_: handle_borrow, phantom_target_: PhantomData }
    }

    /// A facade of the same handle that borrows from this one.
    pub fn already_current_ref<'s>(&'s self) -> (facade: ShaderFacade<T, &'s ShaderHandle<T>>)
        ensures
            facade.gl_handle() == self.gl_handle(),
    {
        ShaderFacade { handle_borrow_: self.handle_borrow_.borrow(), phantom_target_: PhantomData }
    }

    /// The native handle.
    #[verifier::when_used_as_spec(spec_gl_handle)]
    pub fn gl_handle(&self) -> (gl_handle: GLuint)
        ensures
            gl_handle == self.spec_gl_handle(),
    {
        self.handle_borrow_.borrow().raw()
    }
}

impl<T: ShaderType, HB: HandleBorrowMut<ShaderHandleSpecifier<T>>> ShaderFacade<T, HB> {
    /// A facade of the same handle that borrows from this one for a change.
    pub fn already_current_mut<'s>(&'s mut self) -> (facade: ShaderFacade<
        T,
        &'s mut ShaderHandle<T>,
    >)
        ensures
            facade.gl_handle() == old(self).gl_handle(),
    {
        ShaderFacade {
            handle_borrow_: self.handle_borrow_.borrow_mut(),
            phantom_target_: PhantomData,
        }
    }

    /// Gives the shader its source and compiles it, under the context that
    /// `current_context` shows to be current. The source is handed over
    /// with its length in bytes, which the native API takes as a 32-bit
    /// number.
    pub fn setup_from_src(&mut self, current_context: &CurrentContext, src: &str) -> (calls: Vec<
        NativeCall,
    >)
        requires
            src.len() <= i32::MAX,
        ensures
            final(self).gl_handle() == old(self).gl_handle(),
            calls@ == setup_calls(old(self).gl_handle(), src.len() as nat),
    {
        let gl_handle = self.gl_handle();
        let mut calls: Vec<NativeCall> = Vec::new();
        calls.push(NativeCall::ShaderSource { shader: gl_handle, length: src.len() as GLint });
        calls.push(NativeCall::CompileShader { shader: gl_handle });
        calls
    }
}

/// A shader of the type `T` that owns its handle. It holds one reference to
/// the current context of the slot it was made in, and gives it back when it
/// is deleted. Like the current context it cannot be sent to another
/// thread. Its handle is never 0.
pub struct Shader<T: ShaderType> {
    shader_facade_: ShaderFacade<T, ShaderHandle<T>>,
    current_context_: PhantomData<Rc<CurrentContext>>,
}

impl<T: ShaderType> Deref for Shader<T> {
    type Target = ShaderFacade<T, ShaderHandle<T>>;

    fn deref(&self) -> (facade: &Self::Target)
        ensures
            facade.gl_handle() == self.spec_gl_handle(),
    {
        &self.shader_facade_
    }
}

impl<T: ShaderType> Shader<T> {
    #[verifier::type_invariant]
    spec fn alive(&self) -> bool {
        self.shader_facade_.gl_handle() != 0
    }

    /// The native handle.
    pub closed spec fn spec_gl_handle(&self) -> GLuint {
        self.shader_facade_.gl_handle()
    }

    /// The shader of the handle that the native API has created for the
    /// type `T`, set up from `src`, together with the calls that set it up;
    /// or `None` for the handle 0, which the native API gives to no shader.
    /// The shader takes a reference to the current context.
    pub fn new_from_src(current_context: &mut CurrentContext, created: GLuint, src: &str) -> (made:
        Option<(Self, Vec<NativeCall>)>)
        requires
            old(current_context)@.strong_count < usize::MAX,
            src.len() <= i32::MAX,
        ensures
            made is Some <==> created != 0,
            made matches Some((shader, calls)) ==> {
                &&& shader.spec_gl_handle() == created
                &&& calls@ == setup_calls(created, src.len() as nat)
                &&& final(current_context)@ == old(current_context)@.retained()
            },
            made is None ==> final(current_context)@ == old(current_context)@,
    {
        if created == 0 {
            return None;
        }
        let mut shader_facade: ShaderFacade<T, ShaderHandle<T>> = ShaderFacade::new(
            Handle::new(created),
        );
        let calls = shader_facade.setup_from_src(current_context, src);
        current_context.retain();
        Some((Shader { shader_facade_: shader_facade, current_context_: PhantomData }, calls))
    }

    /// Turns the shader into an async shader of the same handle and the
    /// sharing group of the current context. The reference that the shader held is
    /// released, which may end the current context as [`release`] says.
    ///
    /// The caller has made the native API finish all its work before: nothing
    /// that is under way refers to the handle any more.
    pub fn to_async(self, slot: &mut Option<CurrentContext>) -> (converted: (
        AsyncShader<T>,
        Vec<NativeCall>,
    ))
        requires
            *old(slot) is Some,
        ensures
            converted.0@ == as_async(
                self.spec_gl_handle(),
                *old(slot)->0@.context.sharing_group(),
            ),
            slot_view(*final(slot)) == released(slot_view(*old(slot))),
            converted.1@ == release_calls(slot_view(*old(slot))),
    {
        proof {
            use_type_invariant(&self);
        }
        let gl_handle = self.shader_facade_.gl_handle();
        let current_context = slot.take().unwrap();
        let sharing_group = current_context.context().sharing_group().clone();
        *slot = Some(current_context);
        let calls = release(slot);
        (AsyncHandle::from_gl_handle(gl_handle, sharing_group), calls)
    }

    /// Ends the shader. The native delete is due, and the reference that
    /// the shader held is released, which may end the current context as
    /// [`release`] says.
    pub fn delete(self, slot: &mut Option<CurrentContext>) -> (calls: Vec<NativeCall>)
        requires
            *old(slot) is Some,
        ensures
            slot_view(*final(slot)) == released(slot_view(*old(slot))),
            calls@ == seq![NativeCall::DeleteShader { shader: self.spec_gl_handle() }]
                + release_calls(slot_view(*old(slot))),
    {
        let mut calls: Vec<NativeCall> = Vec::new();
        calls.push(NativeCall::DeleteShader { shader: self.shader_facade_.gl_handle() });
        let mut release_calls = release(slot);
        calls.append(&mut release_calls);
        calls
    }
}

} // verus!
