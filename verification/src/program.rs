//! Programs: a vertex shader and a fragment shader, linked.

use vstd::prelude::*;
use std::marker::PhantomData;
use std::ops::Deref;
use std::rc::Rc;
use crate::async_handle::{as_async, as_current, shares, AsyncHandle};
use crate::current_context::{release, release_calls, released, slot_view, CurrentContext};
use crate::fragment_shader::FragmentShaderType;
use crate::gl::GLuint;
use crate::handle::{Handle, HandleBorrow, HandleBorrowMut, HandleSpecifier};
use crate::native::NativeCall;
use crate::shader::{setup_calls, ShaderFacade, ShaderHandle};
use crate::vertex_shader::VertexShaderType;

verus! {

/// The kind of handle that programs have.
pub struct ProgramHandleSpecifier;

impl HandleSpecifier for ProgramHandleSpecifier {
    type Raw = GLuint;
}

/// The handle of a program.
pub type ProgramHandle = Handle<ProgramHandleSpecifier>;

/// A program that can be handed to other threads. Before anything is done
/// with it, it is turned into a [`Program`] on the thread that is to use it.
pub type AsyncProgram = AsyncHandle<ProgramHandleSpecifier>;

impl AsyncHandle<ProgramHandleSpecifier> {
    /// Turns the program into a program of the slot's thread, which takes a
    /// reference to the current context.
    ///
    /// The current context is one whose objects the program is among: a
    /// context of the sharing group that the program belongs to.
    pub fn to_current(self, current_context: &mut CurrentContext) -> (program: Program)
        requires
            shares(self@, *old(current_context)@.context),
            old(current_context)@.strong_count < usize::MAX,
        ensures
            program.spec_gl_handle() == as_current(self@),
            final(current_context)@ == old(current_context)@.retained(),
    {
        let (gl_handle, _) = self.split();
        current_context.retain();
        Program {
            program_facade_: ProgramFacade::new(Handle::new(gl_handle)),
            current_context_: PhantomData,
        }
    }
}

/// The calls that delete what a handle stands for: none for the handle 0,
/// which stands for a shader that the native API failed to create.
pub open spec fn discard_calls(shader: GLuint) -> Seq<NativeCall> {
    if shader != 0 {
        seq![NativeCall::DeleteShader { shader }]
    } else {
        Seq::empty()
    }
}

/// Whether both shaders of a program are at hand: the native API has created
/// the two. This much the layer can tell of whether a program is set up;
/// whether the native API succeeds in linking it, it cannot.
pub open spec fn shaders_at_hand(vertex_shader: GLuint, fragment_shader: GLuint) -> bool {
    vertex_shader != 0 && fragment_shader != 0
}

/// The calls that set a program up from the sources of its two shaders.
///
/// With both shaders at hand, each is given its source and compiled, both
/// are attached, the program is linked, and the shaders are deleted, the
/// fragment shader first. Without the vertex shader nothing is set up.
/// Without the fragment shader the vertex shader is set up in vain. Either
/// way no shader is left behind.
pub open spec fn link_calls(
    program: GLuint,
    vertex_shader: GLuint,
    vertex_shader_src_len: nat,
    fragment_shader: GLuint,
    fragment_shader_src_len: nat,
) -> Seq<NativeCall> {
    if vertex_shader == 0 {
        discard_calls(fragment_shader)
    } else if fragment_shader == 0 {
        setup_calls(vertex_shader, vertex_shader_src_len) + seq![
            NativeCall::DeleteShader { shader: vertex_shader },
        ]
    } else {
        setup_calls(vertex_shader, vertex_shader_src_len) + setup_calls(
            fragment_shader,
            fragment_shader_src_len,
        ) + seq![
            NativeCall::AttachShader { program, shader: vertex_shader },
            NativeCall::AttachShader { program, shader: fragment_shader },
            NativeCall::LinkProgram { program },
            NativeCall::DeleteShader { shader: fragment_shader },
            NativeCall::DeleteShader { shader: vertex_shader },
        ]
    }
}

/// What can be done with the handle of a program, lent by `HB`.
pub struct ProgramFacade<HB: HandleBorrow<ProgramHandleSpecifier>> {
    handle_borrow_: HB,
}

impl<HB: HandleBorrow<ProgramHandleSpecifier>> ProgramFacade<HB> {
    pub closed spec fn spec_gl_handle(&self) -> GLuint {
        self.handle_borrow_.spec_borrow().raw()
    }

    /// The facade of a handle that is lent.
    pub fn new(handle_borrow: HB) -> (facade: Self)
        ensures
            facade.gl_handle() == handle_borrow.spec_borrow().raw(),
    {
        ProgramFacade { handle_borrow_: handle_borrow }
    }

    /// A facade of the same handle that borrows from this one.
    pub fn already_current_ref<'s>(&'s self) -> (facade: ProgramFacade<&'s ProgramHandle>)
        ensures
            facade.gl_handle() == self.gl_handle(),
    {
        ProgramFacade { handle_borrow_: self.handle_borrow_.borrow() }
    }

    /// The native handle.
    #[verifier::when_used_as_spec(spec_gl_handle)]
    pub fn gl_handle(&self) -> (gl_handle: GLuint)
        ensures
            gl_handle == self.spec_gl_handle(),
    {
        self.handle_borrow_.borrow().raw()
    }
}

impl<HB: HandleBorrowMut<ProgramHandleSpecifier>> ProgramFacade<HB> {
    /// A facade of the same handle that borrows from this one for a change.
    pub fn already_current_mut<'s>(&'s mut self) -> (facade: ProgramFacade<&'s mut ProgramHandle>)
        ensures
            facade.gl_handle() == old(self).gl_handle(),
    {
        ProgramFacade { handle_borrow_: self.handle_borrow_.borrow_mut() }
    }

    /// Sets the program up from the sources of a vertex shader and a
    /// fragment shader, under the context that `current_context` shows to
    /// be current, given the handles that the native API has created for
    /// the two shaders, 0 for one that it failed to create. Says whether
    /// both shaders were at hand, so that the call that links the program is
    /// among the calls, and returns the calls that [`link_calls`] describes.
    pub fn setup_from_vertex_and_fragment_shader_src(
        &mut self,
        current_context: &CurrentContext,
        vertex_shader: GLuint,
        vertex_shader_src: &str,
        fragment_shader: GLuint,
        fragment_shader_src: &str,
    ) -> (done: (bool, Vec<NativeCall>))
        requires
            vertex_shader_src.len() <= i32::MAX,
            fragment_shader_src.len() <= i32::MAX,
        ensures
            final(self).gl_handle() == old(self).gl_handle(),
            done.0 == shaders_at_hand(vertex_shader, fragment_shader),
            done.1@ == link_calls(
                old(self).gl_handle(),
                vertex_shader,
                vertex_shader_src.len() as nat,
                fragment_shader,
                fragment_shader_src.len() as nat,
            ),
    {
        let program = self.gl_handle();
        let mut calls: Vec<NativeCall> = Vec::new();
        if vertex_shader == 0 {
            if fragment_shader != 0 {
                calls.push(NativeCall::DeleteShader { shader: fragment_shader });
            }
            return (false, calls);
        }
        let mut vertex_shader_facade: ShaderFacade<
            VertexShaderType,
            ShaderHandle<VertexShaderType>,
        > = ShaderFacade::new(Handle::new(vertex_shader));
        let mut vertex_calls = vertex_shader_facade.setup_from_src(
            current_context,
            vertex_shader_src,
        );
        calls.append(&mut vertex_calls);
        if fragment_shader == 0 {
            calls.push(NativeCall::DeleteShader { shader: vertex_shader });
            return (false, calls);
        }
        let mut fragment_shader_facade: ShaderFacade<
            FragmentShaderType,
            ShaderHandle<FragmentShaderType>,
        > = ShaderFacade::new(Handle::new(fragment_shader));
        let mut fragment_calls = fragment_shader_facade.setup_from_src(
            current_context,
            fragment_shader_src,
        );
        calls.append(&mut fragment_calls);
        calls.push(NativeCall::AttachShader { program, shader: vertex_shader_facade.gl_handle() });
        calls.push(
            NativeCall::AttachShader { program, shader: fragment_shader_facade.gl_handle() },
        );
        calls.push(NativeCall::LinkProgram { program });
        calls.push(NativeCall::DeleteShader { shader: fragment_shader_facade.gl_handle() });
        calls.push(NativeCall::DeleteShader { shader: vertex_shader_facade.gl_handle() });
        (true, calls)
    }
}

/// The calls that make a program from the sources of its two shaders, given
/// the handles that the native API has created for the program and the
/// shaders. Without the program the shaders are deleted. With it the
/// program is set up as [`link_calls`] says, and deleted again if a shader
/// was missing.
pub open spec fn creation_calls(
    created: GLuint,
    vertex_shader: GLuint,
    vertex_shader_src_len: nat,
    fragment_shader: GLuint,
    fragment_shader_src_len: nat,
) -> Seq<NativeCall> {
    if created == 0 {
        discard_calls(vertex_shader) + discard_calls(fragment_shader)
    } else if shaders_at_hand(vertex_shader, fragment_shader) {
        link_calls(
            created,
            vertex_shader,
            vertex_shader_src_len,
            fragment_shader,
            fragment_shader_src_len,
        )
    } else {
        link_calls(
            created,
            vertex_shader,
            vertex_shader_src_len,
            fragment_shader,
            fragment_shader_src_len,
        ) + seq![NativeCall::DeleteProgram { program: created }]
    }
}

/// A program that owns its handle. It holds one reference to the current
/// context of the slot it was made in, and gives it back when it is
/// deleted. Like the current context it cannot be sent to another thread.
/// Its handle is never 0.
pub struct Program {
    program_facade_: ProgramFacade<ProgramHandle>,
    current_context_: PhantomData<Rc<CurrentContext>>,
}

impl Deref for Program {
    type Target = ProgramFacade<ProgramHandle>;

    fn deref(&self) -> (facade: &Self::Target)
        ensures
            facade.gl_handle() == self.spec_gl_handle(),
    {
        &self.program_facade_
    }
}

impl Program {
    #[verifier::type_invariant]
    spec fn alive(&self) -> bool {
        self.program_facade_.gl_handle() != 0
    }

    /// The native handle.
    pub closed spec fn spec_gl_handle(&self) -> GLuint {
        self.program_facade_.gl_handle()
    }

    /// The program of the handle `created`, set up from the sources of a
    /// vertex shader and a fragment shader, given the handles that the
    /// native API has created for the three, 0 for one that it failed to
    /// create. There is a program exactly if all three are at hand; it
    /// takes a reference to the current context. The calls are those that
    /// [`creation_calls`] describes.
    pub fn new_from_vertex_and_fragment_shader_src(
        current_context: &mut CurrentContext,
        created: GLuint,
        vertex_shader: GLuint,
        vertex_shader_src: &str,
        fragment_shader: GLuint,
        fragment_shader_src: &str,
    ) -> (made: (Option<Self>, Vec<NativeCall>))
        requires
            old(current_context)@.strong_count < usize::MAX,
            vertex_shader_src.len() <= i32::MAX,
            fragment_shader_src.len() <= i32::MAX,
        ensures
            made.0 is Some <==> created != 0 && shaders_at_hand(vertex_shader, fragment_shader),
            made.0 matches Some(program) ==> program.spec_gl_handle() == created,
            final(current_context)@ == if made.0 is Some {
                old(current_context)@.retained()
            } else {
                old(current_context)@
            },
            made.1@ == creation_calls(
                created,
                vertex_shader,
                vertex_shader_src.len() as nat,
                fragment_shader,
                fragment_shader_src.len() as nat,
            ),
    {
        if created == 0 {
            let mut calls: Vec<NativeCall> = Vec::new();
            if vertex_shader != 0 {
                calls.push(NativeCall::DeleteShader { shader: vertex_shader });
            }
            if fragment_shader != 0 {
                calls.push(NativeCall::DeleteShader { shader: fragment_shader });
            }
            return (None, calls);
        }
        let mut program_facade: ProgramFacade<ProgramHandle> = ProgramFacade::new(
            Handle::new(created),
        );
        let (set_up, mut calls) = program_facade.setup_from_vertex_and_fragment_shader_src(
            current_context,
            vertex_shader,
            vertex_shader_src,
            fragment_shader,
            fragment_shader_src,
        );
        if set_up {
            current_context.retain();
            (
                Some(Program { program_facade_: program_facade, current_context_: PhantomData }),
                calls,
            )
        } else {
            calls.push(NativeCall::DeleteProgram { program: created });
            (None, calls)
        }
    }

    /// Turns the program into an async program of the same handle and the
    /// sharing group of the current context. The reference that the program held is
    /// released, which may end the current context as [`release`] says.
    ///
    /// The caller has made the native API finish all its work before: nothing
    /// that is under way refers to the handle any more.
    pub fn to_async(self, slot: &mut Option<CurrentContext>) -> (converted: (
        AsyncProgram,
        Vec<NativeCall>,
    ))
        requires
            *old(slot) is Some,
        ensures
            converted.0@ == as_async(
                self.spec_gl_handle(),
                *old(slot)->0@.context.sharing_group(),
            ),
            slot_view(*final(slot)) == released(slot_view(*old(slot))),
            converted.1@ == release_calls(slot_view(*old(slot))),
    {
        proof {
            use_type_invariant(&self);
        }
        let gl_handle = self.program_facade_.gl_handle();
        let current_context = slot.take().unwrap();
        let sharing_group = current_context.context().sharing_group().clone();
        *slot = Some(current_context);
        let calls = release(slot);
        (AsyncHandle::from_gl_handle(gl_handle, sharing_group), calls)
    }

    /// Ends the program. The native delete is due, and the reference that
    /// the program held is released, which may end the current context as
    /// [`release`] says.
    pub fn delete(self, slot: &mut Option<CurrentContext>) -> (calls: Vec<NativeCall>)
        requires
            *old(slot) is Some,
        ensures
            slot_view(*final(slot)) == released(slot_view(*old(slot))),
            calls@ == seq![NativeCall::DeleteProgram { program: self.spec_gl_handle() }]
                + release_calls(slot_view(*old(slot))),
    {
        let mut calls: Vec<NativeCall> = Vec::new();
        calls.push(NativeCall::DeleteProgram { program: self.program_facade_.gl_handle() });
        let mut release_calls = release(slot);
        calls.append(&mut release_calls);
        calls
    }
}

} // verus!
