use safegl::{
    make_current, Api, ApiBackend, ApiExists, ContextBackend, CurrentArrayBuffer, CurrentContext,
    Error, GlError, MakeApiBackend, NativeCall, SharingGroup, SharingGroupBackend, UnknownError,
};
use std::rc::Rc;
use std::sync::Arc;

struct StubApiBackend;

impl ApiBackend for StubApiBackend {
    fn clear_current_context(&self) -> Result<(), Error> {
        Ok(())
    }
}

struct StubProvider;

impl MakeApiBackend for StubProvider {
    type Backend = StubApiBackend;

    fn get_proc_address(&mut self, _name: &str) -> usize {
        1
    }

    fn into_backend(self) -> StubApiBackend {
        StubApiBackend
    }
}

struct StubContextBackend {
    current: bool,
}

impl ContextBackend for StubContextBackend {
    fn is_current(&self) -> bool {
        self.current
    }

    fn make_current(&self) -> Result<(), Error> {
        Ok(())
    }
}

struct OutOfContexts;

impl UnknownError for OutOfContexts {}

/// A group that makes contexts, or fails in the way it was told to.
enum StubGroup {
    Works,
    FailsUnknown,
    FailsWithCode(u32),
}

impl SharingGroupBackend for StubGroup {
    fn create_context(&self) -> Result<Box<dyn ContextBackend>, Error> {
        match self {
            StubGroup::Works => Ok(Box::new(StubContextBackend { current: true })),
            StubGroup::FailsUnknown => Err(Error::Unknown(Box::new(OutOfContexts))),
            StubGroup::FailsWithCode(code) => Err(Error::Gl(GlError(*code))),
        }
    }
}

fn stub_api() -> Arc<Api> {
    let mut api_exists = ApiExists::new();
    Arc::new(Api::new(&mut api_exists, StubProvider).ok().unwrap())
}

#[test]
fn group_keeps_its_api_and_backend() {
    let api = stub_api();
    let group = Arc::new(SharingGroup::new(api.clone(), Box::new(StubGroup::Works)));
    assert!(Arc::ptr_eq(group.api(), &api));
    assert!(group.backend().create_context().is_ok());
}

#[test]
fn contexts_of_a_group_share_the_group_and_its_api() {
    let api = stub_api();
    let group = Arc::new(SharingGroup::new(api.clone(), Box::new(StubGroup::Works)));
    let first = group.create_context().ok().unwrap();
    let second = group.create_context().ok().unwrap();
    assert!(Arc::ptr_eq(first.sharing_group(), &group));
    assert!(Arc::ptr_eq(second.sharing_group(), &group));
    assert!(Arc::ptr_eq(first.api(), &api));
    assert!(Arc::ptr_eq(second.api(), &api));
    assert!(first.backend().is_current());
}

#[test]
fn contexts_of_other_groups_share_the_api_only() {
    let api = stub_api();
    let group = Arc::new(SharingGroup::new(api.clone(), Box::new(StubGroup::Works)));
    let other = Arc::new(SharingGroup::new(api.clone(), Box::new(StubGroup::Works)));
    let first = group.create_context().ok().unwrap();
    let second = other.create_context().ok().unwrap();
    assert!(!Arc::ptr_eq(first.sharing_group(), second.sharing_group()));
    assert!(Arc::ptr_eq(first.api(), second.api()));
}

#[test]
fn buffer_comes_back_under_another_context_of_its_group() {
    let api = stub_api();
    let group = Arc::new(SharingGroup::new(api.clone(), Box::new(StubGroup::Works)));
    let first = Rc::new(group.create_context().ok().unwrap());
    let second = Rc::new(group.create_context().ok().unwrap());

    let mut slot: Option<CurrentContext> = None;
    make_current(&mut slot, first);
    let buffer = CurrentArrayBuffer::create(slot.as_mut().unwrap(), 5).unwrap();
    let (shared, calls) = buffer.to_async(&mut slot);
    assert_eq!(calls, Vec::new());
    assert!(Arc::ptr_eq(shared.sharing_group(), &group));

    // Another thread, on which another context of the group is current.
    let mut other_slot: Option<CurrentContext> = None;
    make_current(&mut other_slot, second.clone());
    let other_context = other_slot.as_mut().unwrap();
    assert!(Arc::ptr_eq(shared.sharing_group(), other_context.context().sharing_group()));
    let back = shared.to_current(other_context);
    assert_eq!(back.gl_handle(), 5);
    assert_eq!(
        back.delete(&mut other_slot),
        vec![NativeCall::DeleteBuffers { buffer: 5 }]
    );
}

#[test]
fn group_hands_on_the_error_of_its_backend() {
    let api = stub_api();
    let group = Arc::new(SharingGroup::new(api.clone(), Box::new(StubGroup::FailsUnknown)));
    assert!(matches!(group.create_context(), Err(Error::Unknown(_))));
    let failing = StubGroup::FailsWithCode(0x0505);
    let group = Arc::new(SharingGroup::new(api.clone(), Box::new(failing)));
    assert!(matches!(group.create_context(), Err(Error::Gl(GlError(0x0505)))));
}

#[test]
fn context_of_goes_by_what_the_backend_created() {
    let api = stub_api();
    let group = Arc::new(SharingGroup::new(api.clone(), Box::new(StubGroup::Works)));
    let made = group.context_of(Ok(Box::new(StubContextBackend { current: false })));
    let context = made.ok().unwrap();
    assert!(Arc::ptr_eq(context.sharing_group(), &group));
    assert!(Arc::ptr_eq(context.api(), &api));
    assert!(!context.backend().is_current());
    assert!(matches!(
        group.context_of(Err(Error::ApiAlreadyExists)),
        Err(Error::ApiAlreadyExists)
    ));
    assert!(matches!(
        group.context_of(Err(Error::Gl(GlError(0x0502)))),
        Err(Error::Gl(GlError(0x0502)))
    ));
    assert!(matches!(
        group.context_of(Err(Error::Unknown(Box::new(OutOfContexts)))),
        Err(Error::Unknown(_))
    ));
}
