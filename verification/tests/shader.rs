use safegl::gl::{Proc, FRAGMENT_SHADER, VERTEX_SHADER};
use safegl::{
    make_current, release, Api, ApiBackend, ApiExists, AsyncProgram, AsyncShader, Context,
    ContextBackend, CurrentContext, Error, FragmentShader, FragmentShaderType, Handle,
    MakeApiBackend, NativeCall, Program, ProgramFacade, ProgramHandle, ShaderFacade, ShaderType,
    SharingGroup, SharingGroupBackend, VertexShader, VertexShaderFacade, VertexShaderHandle,
    VertexShaderType,
};
use std::rc::Rc;
use std::sync::Arc;

struct StubApiBackend;

impl ApiBackend for StubApiBackend {
    fn clear_current_context(&self) -> Result<(), Error> {
        Ok(())
    }
}

struct StubProvider;

impl MakeApiBackend for StubProvider {
    type Backend = StubApiBackend;

    fn get_proc_address(&mut self, _name: &str) -> usize {
        1
    }

    fn into_backend(self) -> StubApiBackend {
        StubApiBackend
    }
}

struct StubContextBackend;

impl ContextBackend for StubContextBackend {
    fn is_current(&self) -> bool {
        true
    }

    fn make_current(&self) -> Result<(), Error> {
        Ok(())
    }
}

struct StubGroupBackend;

impl SharingGroupBackend for StubGroupBackend {
    fn create_context(&self) -> Result<Box<dyn ContextBackend>, Error> {
        Ok(Box::new(StubContextBackend))
    }
}

/// A slot with a current context of the group that holds one reference.
fn active_slot_of(group: &Arc<SharingGroup>) -> Option<CurrentContext> {
    let context = Rc::new(Context::new(group.clone(), Box::new(StubContextBackend)));
    let mut slot: Option<CurrentContext> = None;
    make_current(&mut slot, context);
    slot
}

fn active_slot() -> Option<CurrentContext> {
    let mut api_exists = ApiExists::new();
    let api = Arc::new(Api::new(&mut api_exists, StubProvider).ok().unwrap());
    active_slot_of(&Arc::new(SharingGroup::new(api, Box::new(StubGroupBackend))))
}

const VERTEX_SRC: &str = "void main() { gl_Position = vec4(0.0); }";
const FRAGMENT_SRC: &str = "void main() {}";

fn setup(shader: u32, src: &str) -> Vec<NativeCall> {
    vec![
        NativeCall::ShaderSource { shader, length: src.len() as i32 },
        NativeCall::CompileShader { shader },
    ]
}

#[test]
fn shader_types_have_their_values() {
    assert_eq!(VertexShaderType::enum_val(), 0x8B31);
    assert_eq!(FragmentShaderType::enum_val(), 0x8B30);
    assert_eq!(VertexShaderType::enum_val(), VERTEX_SHADER);
    assert_eq!(FragmentShaderType::enum_val(), FRAGMENT_SHADER);
}

#[test]
fn facade_reads_the_handle_that_is_lent() {
    let handle: VertexShaderHandle = Handle::new(5);
    let by_reference: VertexShaderFacade<&VertexShaderHandle> = ShaderFacade::new(&handle);
    assert_eq!(by_reference.gl_handle(), 5);
    assert_eq!(by_reference.already_current_ref().gl_handle(), 5);
    let mut owning: VertexShaderFacade<VertexShaderHandle> = ShaderFacade::new(Handle::new(6));
    assert_eq!(owning.gl_handle(), 6);
    assert_eq!(owning.already_current_ref().gl_handle(), 6);
    assert_eq!(owning.already_current_mut().gl_handle(), 6);
    let shared: VertexShaderFacade<Rc<VertexShaderHandle>> =
        ShaderFacade::new(Rc::new(Handle::new(7)));
    assert_eq!(shared.gl_handle(), 7);
}

#[test]
fn setup_hands_over_the_source_and_compiles() {
    let slot = active_slot();
    let current_context = slot.as_ref().unwrap();
    let mut facade: VertexShaderFacade<VertexShaderHandle> = ShaderFacade::new(Handle::new(6));
    assert_eq!(
        facade.setup_from_src(current_context, VERTEX_SRC),
        vec![
            NativeCall::ShaderSource { shader: 6, length: 40 },
            NativeCall::CompileShader { shader: 6 },
        ]
    );
    assert_eq!(facade.gl_handle(), 6);
    assert_eq!(
        facade.already_current_mut().setup_from_src(current_context, ""),
        vec![
            NativeCall::ShaderSource { shader: 6, length: 0 },
            NativeCall::CompileShader { shader: 6 },
        ]
    );
}

#[test]
fn setup_counts_the_bytes_of_the_source() {
    let slot = active_slot();
    let current_context = slot.as_ref().unwrap();
    let mut facade: VertexShaderFacade<VertexShaderHandle> = ShaderFacade::new(Handle::new(2));
    // Two characters, five bytes.
    assert_eq!(
        facade.setup_from_src(current_context, "\u{e9}\u{20ac}"),
        vec![
            NativeCall::ShaderSource { shader: 2, length: 5 },
            NativeCall::CompileShader { shader: 2 },
        ]
    );
}

#[test]
fn shader_is_made_from_source_and_deleted() {
    let mut slot = active_slot();
    let (shader, calls) =
        FragmentShader::new_from_src(slot.as_mut().unwrap(), 9, FRAGMENT_SRC).unwrap();
    assert_eq!(calls, setup(9, FRAGMENT_SRC));
    assert_eq!(shader.gl_handle(), 9);
    assert_eq!(slot.as_ref().unwrap().strong_count(), 2);
    assert_eq!(shader.delete(&mut slot), vec![NativeCall::DeleteShader { shader: 9 }]);
    assert_eq!(slot.as_ref().unwrap().strong_count(), 1);
}

#[test]
fn shader_is_not_made_of_the_handle_zero() {
    let mut slot = active_slot();
    assert!(VertexShader::new_from_src(slot.as_mut().unwrap(), 0, VERTEX_SRC).is_none());
    assert_eq!(slot.as_ref().unwrap().strong_count(), 1);
}

#[test]
fn delete_of_the_last_shader_clears_the_current_context() {
    let mut slot = active_slot();
    let (shader, _) = VertexShader::new_from_src(slot.as_mut().unwrap(), 9, VERTEX_SRC).unwrap();
    assert_eq!(release(&mut slot), Vec::new());
    assert_eq!(
        shader.delete(&mut slot),
        vec![NativeCall::DeleteShader { shader: 9 }, NativeCall::ClearCurrentContext]
    );
    assert!(slot.is_none());
}

fn linked(program: u32, vertex_shader: u32, fragment_shader: u32) -> Vec<NativeCall> {
    let mut calls = setup(vertex_shader, VERTEX_SRC);
    calls.extend(setup(fragment_shader, FRAGMENT_SRC));
    calls.extend(vec![
        NativeCall::AttachShader { program, shader: vertex_shader },
        NativeCall::AttachShader { program, shader: fragment_shader },
        NativeCall::LinkProgram { program },
        NativeCall::DeleteShader { shader: fragment_shader },
        NativeCall::DeleteShader { shader: vertex_shader },
    ]);
    calls
}

#[test]
fn program_facade_links_two_shaders() {
    let slot = active_slot();
    let current_context = slot.as_ref().unwrap();
    let mut handle: ProgramHandle = Handle::new(3);
    let mut facade: ProgramFacade<&mut ProgramHandle> = ProgramFacade::new(&mut handle);
    assert_eq!(facade.gl_handle(), 3);
    assert_eq!(facade.already_current_ref().gl_handle(), 3);
    assert_eq!(facade.already_current_mut().gl_handle(), 3);
    let (done, calls) = facade.setup_from_vertex_and_fragment_shader_src(
        current_context,
        4,
        VERTEX_SRC,
        5,
        FRAGMENT_SRC,
    );
    assert!(done);
    assert_eq!(calls, linked(3, 4, 5));
    assert_eq!(calls.len(), 9);
    assert_eq!(facade.gl_handle(), 3);
}

#[test]
fn program_facade_without_a_vertex_shader_deletes_the_fragment_shader() {
    let slot = active_slot();
    let current_context = slot.as_ref().unwrap();
    let mut facade: ProgramFacade<ProgramHandle> = ProgramFacade::new(Handle::new(3));
    let (done, calls) = facade.setup_from_vertex_and_fragment_shader_src(
        current_context,
        0,
        VERTEX_SRC,
        5,
        FRAGMENT_SRC,
    );
    assert!(!done);
    assert_eq!(calls, vec![NativeCall::DeleteShader { shader: 5 }]);
    let (done, calls) = facade.setup_from_vertex_and_fragment_shader_src(
        current_context,
        0,
        VERTEX_SRC,
        0,
        FRAGMENT_SRC,
    );
    assert!(!done);
    assert_eq!(calls, Vec::new());
}

#[test]
fn program_facade_without_a_fragment_shader_deletes_the_vertex_shader() {
    let slot = active_slot();
    let current_context = slot.as_ref().unwrap();
    let mut facade: ProgramFacade<ProgramHandle> = ProgramFacade::new(Handle::new(3));
    let (done, calls) = facade.setup_from_vertex_and_fragment_shader_src(
        current_context,
        4,
        VERTEX_SRC,
        0,
        FRAGMENT_SRC,
    );
    assert!(!done);
    let mut expected = setup(4, VERTEX_SRC);
    expected.push(NativeCall::DeleteShader { shader: 4 });
    assert_eq!(calls, expected);
}

#[test]
fn program_is_made_linked_and_deleted() {
    let mut slot = active_slot();
    let (program, calls) = Program::new_from_vertex_and_fragment_shader_src(
        slot.as_mut().unwrap(),
        3,
        4,
        VERTEX_SRC,
        5,
        FRAGMENT_SRC,
    );
    let program = program.unwrap();
    assert_eq!(calls, linked(3, 4, 5));
    assert_eq!(program.gl_handle(), 3);
    assert_eq!(slot.as_ref().unwrap().strong_count(), 2);
    assert_eq!(program.delete(&mut slot), vec![NativeCall::DeleteProgram { program: 3 }]);
    assert_eq!(slot.as_ref().unwrap().strong_count(), 1);
    assert_eq!(release(&mut slot), vec![NativeCall::ClearCurrentContext]);
}

#[test]
fn program_that_cannot_be_linked_is_deleted() {
    let mut slot = active_slot();
    let (program, calls) = Program::new_from_vertex_and_fragment_shader_src(
        slot.as_mut().unwrap(),
        3,
        4,
        VERTEX_SRC,
        0,
        FRAGMENT_SRC,
    );
    assert!(program.is_none());
    let mut expected = setup(4, VERTEX_SRC);
    expected.push(NativeCall::DeleteShader { shader: 4 });
    expected.push(NativeCall::DeleteProgram { program: 3 });
    assert_eq!(calls, expected);
    assert_eq!(slot.as_ref().unwrap().strong_count(), 1);

    let (program, calls) = Program::new_from_vertex_and_fragment_shader_src(
        slot.as_mut().unwrap(),
        3,
        0,
        VERTEX_SRC,
        5,
        FRAGMENT_SRC,
    );
    assert!(program.is_none());
    assert_eq!(
        calls,
        vec![NativeCall::DeleteShader { shader: 5 }, NativeCall::DeleteProgram { program: 3 }]
    );
}

#[test]
fn without_a_program_the_shaders_are_deleted() {
    let mut slot = active_slot();
    let (program, calls) = Program::new_from_vertex_and_fragment_shader_src(
        slot.as_mut().unwrap(),
        0,
        4,
        VERTEX_SRC,
        5,
        FRAGMENT_SRC,
    );
    assert!(program.is_none());
    assert_eq!(
        calls,
        vec![NativeCall::DeleteShader { shader: 4 }, NativeCall::DeleteShader { shader: 5 }]
    );
    let (program, calls) = Program::new_from_vertex_and_fragment_shader_src(
        slot.as_mut().unwrap(),
        0,
        0,
        VERTEX_SRC,
        0,
        FRAGMENT_SRC,
    );
    assert!(program.is_none());
    assert_eq!(calls, Vec::new());
    assert_eq!(slot.as_ref().unwrap().strong_count(), 1);
}

#[test]
fn calls_name_their_procedures() {
    assert_eq!(NativeCall::MakeCurrent.procedure(), None);
    assert_eq!(NativeCall::ClearCurrentContext.procedure(), None);
    assert_eq!(NativeCall::BindBuffer { target: 1, buffer: 2 }.procedure(), Some(Proc::BindBuffer));
    assert_eq!(
        NativeCall::BufferData { target: 1, size: 2, usage: 3 }.procedure(),
        Some(Proc::BufferData)
    );
    assert_eq!(NativeCall::DeleteBuffers { buffer: 2 }.procedure(), Some(Proc::DeleteBuffers));
    assert_eq!(
        NativeCall::ShaderSource { shader: 1, length: 2 }.procedure(),
        Some(Proc::ShaderSource)
    );
    assert_eq!(NativeCall::CompileShader { shader: 1 }.procedure(), Some(Proc::CompileShader));
    assert_eq!(NativeCall::DeleteShader { shader: 1 }.procedure(), Some(Proc::DeleteShader));
    assert_eq!(
        NativeCall::AttachShader { program: 1, shader: 2 }.procedure(),
        Some(Proc::AttachShader)
    );
    assert_eq!(NativeCall::LinkProgram { program: 1 }.procedure(), Some(Proc::LinkProgram));
    assert_eq!(NativeCall::DeleteProgram { program: 1 }.procedure(), Some(Proc::DeleteProgram));
}

#[test]
fn shader_keeps_its_handle_through_async_mode() {
    let mut slot = active_slot();
    let group = slot.as_ref().unwrap().context().sharing_group().clone();
    let (shader, _) = VertexShader::new_from_src(slot.as_mut().unwrap(), 9, VERTEX_SRC).unwrap();
    let (shared, calls) = shader.to_async(&mut slot);
    assert_eq!(calls, Vec::new());
    assert_eq!(shared.gl_handle(), 9);
    assert!(Arc::ptr_eq(shared.sharing_group(), &group));
    assert!(Arc::ptr_eq(shared.api(), group.api()));
    assert_eq!(slot.as_ref().unwrap().strong_count(), 1);
    let back = shared.to_current(slot.as_mut().unwrap());
    assert_eq!(back.gl_handle(), 9);
    assert_eq!(slot.as_ref().unwrap().strong_count(), 2);
    assert_eq!(back.delete(&mut slot), vec![NativeCall::DeleteShader { shader: 9 }]);
}

#[test]
fn program_keeps_its_handle_through_async_mode() {
    let mut slot = active_slot();
    let group = slot.as_ref().unwrap().context().sharing_group().clone();
    let (program, _) = Program::new_from_vertex_and_fragment_shader_src(
        slot.as_mut().unwrap(),
        3,
        4,
        VERTEX_SRC,
        5,
        FRAGMENT_SRC,
    );
    assert_eq!(release(&mut slot), Vec::new());
    let (shared, calls) = program.unwrap().to_async(&mut slot);
    // The program held the last reference.
    assert_eq!(calls, vec![NativeCall::ClearCurrentContext]);
    assert!(slot.is_none());
    assert_eq!(shared.gl_handle(), 3);
    let (gl_handle, split_group) = shared.split();
    assert_eq!(gl_handle, 3);
    assert!(Arc::ptr_eq(&split_group, &group));
    // Another thread, with another context of the same group.
    let mut other_slot = active_slot_of(&group);
    let shared = AsyncProgram::from_gl_handle(gl_handle, split_group);
    let back = shared.to_current(other_slot.as_mut().unwrap());
    assert_eq!(back.gl_handle(), 3);
    assert_eq!(other_slot.as_ref().unwrap().strong_count(), 2);
    assert_eq!(back.delete(&mut other_slot), vec![NativeCall::DeleteProgram { program: 3 }]);
}

fn needs_send_and_sync<T: Send + Sync>() {}

#[test]
fn async_shaders_and_programs_can_cross_threads() {
    needs_send_and_sync::<AsyncShader<VertexShaderType>>();
    needs_send_and_sync::<AsyncShader<FragmentShaderType>>();
    needs_send_and_sync::<AsyncProgram>();
}

/// Implemented once for every type and once more for every type that is
/// `Send`: naming an item of it compiles only for a type that is not.
trait AmbiguousIfSend<Marker> {
    fn holds() -> bool {
        true
    }
}

impl<T: ?Sized> AmbiguousIfSend<()> for T {}

impl<T: ?Sized + Send> AmbiguousIfSend<u8> for T {}

#[test]
fn shaders_and_programs_stay_on_their_thread() {
    assert!(<VertexShader as AmbiguousIfSend<_>>::holds());
    assert!(<FragmentShader as AmbiguousIfSend<_>>::holds());
    assert!(<Program as AmbiguousIfSend<_>>::holds());
}
