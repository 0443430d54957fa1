use safegl::gl::{Proc, PROC_COUNT};
use safegl::{Api, ApiBackend, ApiExists, Error, Gl, MakeApiBackend, ScopedApiExistsGuard_};
use std::sync::{Arc, Mutex};

struct StubBackend {
    cleared: Arc<Mutex<usize>>,
}

impl ApiBackend for StubBackend {
    fn clear_current_context(&self) -> Result<(), Error> {
        *self.cleared.lock().unwrap() += 1;
        Ok(())
    }
}

/// A provider that records the names it is asked for and answers with
/// 1000 plus the number of names asked before.
struct StubProvider {
    asked: Vec<String>,
    cleared: Arc<Mutex<usize>>,
}

impl StubProvider {
    fn new() -> Self {
        StubProvider { asked: Vec::new(), cleared: Arc::new(Mutex::new(0)) }
    }
}

impl<'p> MakeApiBackend for &'p mut StubProvider {
    type Backend = StubBackend;

    fn get_proc_address(&mut self, name: &str) -> usize {
        self.asked.push(name.to_string());
        1000 + self.asked.len() - 1
    }

    fn into_backend(self) -> StubBackend {
        StubBackend { cleared: self.cleared.clone() }
    }
}

fn is_already_exists(result: &Result<Api, Error>) -> bool {
    matches!(result, Err(Error::ApiAlreadyExists))
}

#[test]
fn flag_starts_clear() {
    let api_exists = ApiExists::new();
    assert!(!api_exists.load());
}

#[test]
fn swap_returns_what_the_flag_held() {
    let mut api_exists = ApiExists::new();
    assert!(!api_exists.swap(true));
    assert!(api_exists.load());
    assert!(api_exists.swap(true));
    assert!(api_exists.swap(false));
    assert!(!api_exists.load());
}

#[test]
fn store_writes_the_flag() {
    let mut api_exists = ApiExists::new();
    api_exists.store(true);
    assert!(api_exists.load());
    api_exists.store(false);
    assert!(!api_exists.load());
}

#[test]
fn guard_takes_the_flag_once() {
    let mut api_exists = ApiExists::new();
    let first = ScopedApiExistsGuard_::new(&mut api_exists);
    assert!(first.is_ok());
    assert!(api_exists.load());
    let second = ScopedApiExistsGuard_::new(&mut api_exists);
    assert!(matches!(second, Err(Error::ApiAlreadyExists)));
    assert!(api_exists.load());
    first.ok().unwrap().release(&mut api_exists);
    assert!(!api_exists.load());
    let third = ScopedApiExistsGuard_::new(&mut api_exists);
    assert!(third.is_ok());
}

#[test]
fn second_api_is_refused_while_the_first_is_alive() {
    let mut api_exists = ApiExists::new();
    let mut first_provider = StubProvider::new();
    let first = Api::new(&mut api_exists, &mut first_provider);
    assert!(first.is_ok());
    let first = first.ok().unwrap();

    let mut second_provider = StubProvider::new();
    let second = Api::new(&mut api_exists, &mut second_provider);
    assert!(is_already_exists(&second));
    // The provider of the refused api was not asked for anything.
    assert!(second_provider.asked.is_empty());
    // The flag is still held by the first api.
    assert!(api_exists.load());

    // The first api works as before.
    assert_eq!(first.gl().address_of(Proc::GenBuffers), 1000);
    assert_eq!(first.gl().address_of(Proc::DeleteProgram), 1011);
    assert!(first.backend().clear_current_context().is_ok());
    assert_eq!(*first_provider.cleared.lock().unwrap(), 1);
}

#[test]
fn api_can_be_made_again_after_release() {
    let mut api_exists = ApiExists::new();
    let mut provider = StubProvider::new();
    let first = Api::new(&mut api_exists, &mut provider).ok().unwrap();
    let mut refused_provider = StubProvider::new();
    assert!(is_already_exists(&Api::new(&mut api_exists, &mut refused_provider)));
    first.release(&mut api_exists);
    assert!(!api_exists.load());
    let mut next_provider = StubProvider::new();
    let next = Api::new(&mut api_exists, &mut next_provider);
    assert!(next.is_ok());
    assert!(api_exists.load());
    let mut late_provider = StubProvider::new();
    assert!(is_already_exists(&Api::new(&mut api_exists, &mut late_provider)));
}

#[test]
fn many_requests_grant_one_api_at_a_time() {
    let mut api_exists = ApiExists::new();
    let mut alive: Vec<Api> = Vec::new();
    for round in 0..6 {
        let mut provider = StubProvider::new();
        let made = Api::new(&mut api_exists, &mut provider);
        if alive.is_empty() {
            assert!(made.is_ok(), "round {}", round);
            alive.push(made.ok().unwrap());
        } else {
            assert!(is_already_exists(&made), "round {}", round);
        }
        assert_eq!(alive.len(), 1);
        if round % 2 == 1 {
            alive.pop().unwrap().release(&mut api_exists);
        }
    }
}

#[test]
fn api_resolves_every_procedure_by_name_in_table_order() {
    let mut api_exists = ApiExists::new();
    let mut provider = StubProvider::new();
    let api = Api::new(&mut api_exists, &mut provider).ok().unwrap();
    let expected = vec![
        "glGenBuffers",
        "glBindBuffer",
        "glBufferData",
        "glDeleteBuffers",
        "glCreateShader",
        "glShaderSource",
        "glCompileShader",
        "glDeleteShader",
        "glCreateProgram",
        "glAttachShader",
        "glLinkProgram",
        "glDeleteProgram",
    ];
    assert_eq!(provider.asked, expected);
    assert_eq!(api.gl().address_of(Proc::GenBuffers), 1000);
    assert_eq!(api.gl().address_of(Proc::BindBuffer), 1001);
    assert_eq!(api.gl().address_of(Proc::BufferData), 1002);
    assert_eq!(api.gl().address_of(Proc::DeleteBuffers), 1003);
    assert_eq!(api.gl().address_of(Proc::CreateShader), 1004);
    assert_eq!(api.gl().address_of(Proc::ShaderSource), 1005);
    assert_eq!(api.gl().address_of(Proc::CompileShader), 1006);
    assert_eq!(api.gl().address_of(Proc::DeleteShader), 1007);
    assert_eq!(api.gl().address_of(Proc::CreateProgram), 1008);
    assert_eq!(api.gl().address_of(Proc::AttachShader), 1009);
    assert_eq!(api.gl().address_of(Proc::LinkProgram), 1010);
    assert_eq!(api.gl().address_of(Proc::DeleteProgram), 1011);
}

#[test]
fn table_from_addresses_needs_one_address_for_each_procedure() {
    assert!(Gl::from_addresses(Vec::new()).is_none());
    assert!(Gl::from_addresses(vec![1; PROC_COUNT - 1]).is_none());
    assert!(Gl::from_addresses(vec![1; PROC_COUNT + 1]).is_none());
    let addresses: Vec<usize> = (0..PROC_COUNT).map(|i| 10 * i + 7).collect();
    let gl = Gl::from_addresses(addresses).unwrap();
    assert_eq!(gl.address_of(Proc::GenBuffers), 7);
    assert_eq!(gl.address_of(Proc::BindBuffer), 17);
    assert_eq!(gl.address_of(Proc::DeleteProgram), 117);
}

#[test]
fn procedures_have_their_places_and_names() {
    assert_eq!(PROC_COUNT, 12);
    for index in 0..PROC_COUNT {
        let proc = Proc::at(index).unwrap();
        assert_eq!(proc.index(), index);
    }
    assert!(Proc::at(PROC_COUNT).is_none());
    assert!(Proc::at(usize::MAX).is_none());
    assert_eq!(Proc::at(0), Some(Proc::GenBuffers));
    assert_eq!(Proc::at(11), Some(Proc::DeleteProgram));
    assert_eq!(Proc::BindBuffer.name(), "glBindBuffer");
    assert_eq!(Proc::BufferData.name(), "glBufferData");
    assert_eq!(Proc::CompileShader.name(), "glCompileShader");
    assert_eq!(Proc::LinkProgram.name(), "glLinkProgram");
}

#[test]
fn table_is_loaded_through_the_provider() {
    let mut provider = StubProvider::new();
    let gl = Gl::load_with(&mut &mut provider);
    assert_eq!(provider.asked.len(), PROC_COUNT);
    assert_eq!(provider.asked[0], "glGenBuffers");
    assert_eq!(provider.asked[PROC_COUNT - 1], "glDeleteProgram");
    for index in 0..PROC_COUNT {
        assert_eq!(gl.address_of(Proc::at(index).unwrap()), 1000 + index);
    }
}
