//! The one api of a process.

use vstd::prelude::*;
use crate::error::Error;
use crate::gl::{Gl, Proc};

verus! {

/// The flag of a process that says whether an [`Api`] is alive in it. A
/// process keeps exactly one, and hands it to everything that makes or
/// releases an api.
pub struct ApiExists {
    exists_: bool,
}

impl View for ApiExists {
    type V = bool;

    closed spec fn view(&self) -> bool {
        self.exists_
    }
}

impl ApiExists {
    /// The flag of a process in which no api is alive.
    pub fn new() -> (api_exists: Self)
        ensures
            !api_exists@,
    {
        ApiExists { exists_: false }
    }

    /// Reads the flag.
    pub fn load(&self) -> (value: bool)
        ensures
            value == self@,
    {
        self.exists_
    }

    /// Writes the flag.
    pub fn store(&mut self, value: bool)
        ensures
            final(self)@ == value,
    {
        self.exists_ = value;
    }

    /// Writes the flag and returns what it held.
    pub fn swap(&mut self, value: bool) -> (previous: bool)
        ensures
            previous == old(self)@,
            final(self)@ == value,
    {
        let previous = self.exists_;
        self.exists_ = value;
        previous
    }
}

/// Whether a request for the flag is granted when the flag reads `exists`.
pub open spec fn grants(exists: bool) -> bool {
    !exists
}

/// Holds the flag of the process for as long as an api is alive: it sets the
/// flag when it is made, which fails if the flag is set already, and clears
/// it when it is released.
pub struct ScopedApiExistsGuard_(());

impl ScopedApiExistsGuard_ {
    /// Takes the flag. Succeeds exactly if the flag was clear; the flag is
    /// set afterwards either way.
    pub fn new(api_exists: &mut ApiExists) -> (guard: Result<Self, Error>)
        ensures
            guard is Ok <==> grants(old(api_exists)@),
            guard matches Err(e) ==> e is ApiAlreadyExists,
            final(api_exists)@,
    {
        if api_exists.swap(true) {
            Err(Error::ApiAlreadyExists)
        } else {
            Ok(ScopedApiExistsGuard_(()))
        }
    }

    /// Gives the flag back.
    pub fn release(self, api_exists: &mut ApiExists)
        ensures
            !final(api_exists)@,
    {
        api_exists.store(false);
    }
}

/// What is left of the provider of an api once the api is made. It may be
/// shared between contexts and threads.
pub trait ApiBackend: Send + Sync + 'static {
    /// Clears the current context of the calling thread. Nothing has checked
    /// whether a context is current.
    fn clear_current_context(&self) -> Result<(), Error>;
}

/// The provider of an api. A context is current on the calling thread for as
/// long as the provider lives.
pub trait MakeApiBackend: Sized {
    /// What is left of the provider.
    type Backend: ApiBackend;

    /// The address of the native procedure of that name.
    fn get_proc_address(&mut self, name: &str) -> usize;

    /// Turns the provider into the backend. No context needs to be current
    /// afterwards.
    fn into_backend(self) -> Self::Backend;
}

/// Whether `address` is an answer that a provider of the type `MAB` gives
/// when it is asked for the procedure of that name.
pub open spec fn resolves<MAB: MakeApiBackend>(name: Seq<char>, address: usize) -> bool {
    exists|provider: &mut MAB, asked: &str|
        asked@ == name && call_ensures(MAB::get_proc_address, (provider, asked), address)
}

/// The native API of a process: the table of its procedures and the backend
/// that is left of its provider. At most one is alive in a process at a time.
/// Every context holds a share of it.
pub struct Api {
    gl_: Gl,
    backend_: Box<dyn ApiBackend>,
    scoped_api_exists_guard_: ScopedApiExistsGuard_,
}

impl Api {
    pub closed spec fn spec_gl(&self) -> &Gl {
        &self.gl_
    }

    /// Makes the api of the process: takes the flag, resolves every native
    /// procedure through the provider, and turns the provider into the
    /// backend.
    ///
    /// Fails with [`Error::ApiAlreadyExists`] exactly if the flag was set,
    /// and then leaves it set and does not touch the provider.
    pub fn new<MAB: MakeApiBackend>(api_exists: &mut ApiExists, mab: MAB) -> (api: Result<
        Self,
        Error,
    >)
        ensures
            api is Ok <==> grants(old(api_exists)@),
            api matches Err(e) ==> e is ApiAlreadyExists,
            api matches Ok(a) ==> forall|proc: Proc|
                resolves::<MAB>(proc.spec_name(), #[trigger] a.gl().address_of(proc)),
            final(api_exists)@,
    {
        let scoped_api_exists_guard = match ScopedApiExistsGuard_::new(api_exists) {
            Ok(guard) => guard,
            Err(e) => {
                return Err(e);
            },
        };
        let mut mab = mab;
        let gl = Gl::load_with(&mut mab);
        let backend: Box<dyn ApiBackend> = Box::new(mab.into_backend());
        Ok(Api { gl_: gl, backend_: backend, scoped_api_exists_guard_: scoped_api_exists_guard })
    }

    /// The backend.
    pub fn backend(&self) -> (backend: &Box<dyn ApiBackend>)
        ensures
            backend == self.spec_backend(),
    {
        &self.backend_
    }

    /// The backend that is left of the provider of the api.
    pub closed spec fn spec_backend(&self) -> &Box<dyn ApiBackend> {
        &self.backend_
    }

    /// The table of the native procedures.
    #[verifier::when_used_as_spec(spec_gl)]
    pub fn gl(&self) -> (gl: &Gl)
        ensures
            gl == self.spec_gl(),
    {
        &self.gl_
    }

    /// Ends the api: drops the table and the backend and gives the flag back,
    /// so that the process can make an api again.
    pub fn release(self, api_exists: &mut ApiExists)
        ensures
            !final(api_exists)@,
    {
        let Api { gl_: _, backend_: _, scoped_api_exists_guard_: guard } = self;
        guard.release(api_exists);
    }
}

/// A step in the life of a process: an api is asked for, or the api that is
/// alive ends.
pub enum ApiStep {
    New,
    Release,
}

/// The flag of a process and the number of apis alive in it.
pub struct ApiCensus {
    pub exists: bool,
    pub alive: nat,
}

/// What a step makes of a process. A request sets the flag and makes an api
/// if it is granted. A release clears the flag and ends the api; without an
/// api nothing can be released.
pub open spec fn census_step(census: ApiCensus, step: ApiStep) -> ApiCensus {
    match step {
        ApiStep::New => ApiCensus {
            exists: true,
            alive: if grants(census.exists) {
                census.alive + 1
            } else {
                census.alive
            },
        },
        ApiStep::Release => if census.alive > 0 {
            ApiCensus { exists: false, alive: (census.alive - 1) as nat }
        } else {
            census
        },
    }
}

/// What the steps make of a process that starts without an api.
pub open spec fn census_after(steps: Seq<ApiStep>) -> ApiCensus
    decreases steps.len(),
{
    if steps.len() == 0 {
        ApiCensus { exists: false, alive: 0 }
    } else {
        census_step(census_after(steps.drop_last()), steps.last())
    }
}

/// Whatever a process has done, at most one api is alive in it, the flag is
/// set exactly while one is, and a request is granted exactly while none is:
/// the next one after the living api has ended.
pub proof fn lemma_at_most_one_api(steps: Seq<ApiStep>)
    ensures
        census_after(steps).alive <= 1,
        census_after(steps).exists <==> census_after(steps).alive == 1,
        grants(census_after(steps).exists) <==> census_after(steps).alive == 0,
    decreases steps.len(),
{
    if steps.len() > 0 {
        lemma_at_most_one_api(steps.drop_last());
    }
}

} // verus!
