//! The native API as the layer sees it: its types and constants, the
//! procedures that the layer issues, and the table of their addresses.

use vstd::prelude::*;
use crate::api::{resolves, MakeApiBackend};

verus! {

/// A handle of the native API. 0 is the handle of no object.
pub type GLuint = u32;

/// A named value of the native API.
pub type GLenum = u32;

/// A length or a count as the native API takes it.
pub type GLint = i32;

/// A size in bytes as the native API takes it.
pub type GLsizeiptr = isize;

/// The target of buffers that hold vertex data.
pub const ARRAY_BUFFER: GLenum = 0x8892;

/// The target of buffers that hold vertex indices.
pub const ELEMENT_ARRAY_BUFFER: GLenum = 0x8893;

/// The usage of data that are written once and drawn often.
pub const STATIC_DRAW: GLenum = 0x88E4;

/// The type of shaders of the fragment stage.
pub const FRAGMENT_SHADER: GLenum = 0x8B30;

/// The type of shaders of the vertex stage.
pub const VERTEX_SHADER: GLenum = 0x8B31;

/// An error code of the native API.
#[derive(Clone, Copy, Debug, PartialEq, Eq, Structural)]
pub struct GlError(pub GLenum);

/// A procedure of the native API that the layer issues.
#[derive(Clone, Copy, Debug, PartialEq, Eq, Structural)]
pub enum Proc {
    GenBuffers,
    BindBuffer,
    BufferData,
    DeleteBuffers,
    CreateShader,
    ShaderSource,
    CompileShader,
    DeleteShader,
    CreateProgram,
    AttachShader,
    LinkProgram,
    DeleteProgram,
}

/// How many procedures the table holds.
pub const PROC_COUNT: usize = 12;

impl Proc {
    /// The place of the procedure in the table.
    pub open spec fn spec_index(self) -> int {
        match self {
            Proc::GenBuffers => 0,
            Proc::BindBuffer => 1,
            Proc::BufferData => 2,
            Proc::DeleteBuffers => 3,
            Proc::CreateShader => 4,
            Proc::ShaderSource => 5,
            Proc::CompileShader => 6,
            Proc::DeleteShader => 7,
            Proc::CreateProgram => 8,
            Proc::AttachShader => 9,
            Proc::LinkProgram => 10,
            Proc::DeleteProgram => 11,
        }
    }

    /// The procedure at a place in the table.
    pub open spec fn spec_at(index: int) -> Option<Proc> {
        if index == 0 {
            Some(Proc::GenBuffers)
        } else if index == 1 {
            Some(Proc::BindBuffer)
        } else if index == 2 {
            Some(Proc::BufferData)
        } else if index == 3 {
            Some(Proc::DeleteBuffers)
        } else if index == 4 {
            Some(Proc::CreateShader)
        } else if index == 5 {
            Some(Proc::ShaderSource)
        } else if index == 6 {
            Some(Proc::CompileShader)
        } else if index == 7 {
            Some(Proc::DeleteShader)
        } else if index == 8 {
            Some(Proc::CreateProgram)
        } else if index == 9 {
            Some(Proc::AttachShader)
        } else if index == 10 {
            Some(Proc::LinkProgram)
        } else if index == 11 {
            Some(Proc::DeleteProgram)
        } else {
            None
        }
    }

    /// The name under which the procedure is resolved.
    pub open spec fn spec_name(self) -> Seq<char> {
        match self {
            Proc::GenBuffers => "glGenBuffers"@,
            Proc::BindBuffer => "glBindBuffer"@,
            Proc::BufferData => "glBufferData"@,
            Proc::DeleteBuffers => "glDeleteBuffers"@,
            Proc::CreateShader => "glCreateShader"@,
            Proc::ShaderSource => "glShaderSource"@,
            Proc::CompileShader => "glCompileShader"@,
            Proc::DeleteShader => "glDeleteShader"@,
            Proc::CreateProgram => "glCreateProgram"@,
            Proc::AttachShader => "glAttachShader"@,
            Proc::LinkProgram => "glLinkProgram"@,
            Proc::DeleteProgram => "glDeleteProgram"@,
        }
    }

    pub fn index(self) -> (index: usize)
        ensures
            index == self.spec_index(),
            index < PROC_COUNT,
    {
        match self {
            Proc::GenBuffers => 0,
            Proc::BindBuffer => 1,
            Proc::BufferData => 2,
            Proc::DeleteBuffers => 3,
            Proc::CreateShader => 4,
            Proc::ShaderSource => 5,
            Proc::CompileShader => 6,
            Proc::DeleteShader => 7,
            Proc::CreateProgram => 8,
            Proc::AttachShader => 9,
            Proc::LinkProgram => 10,
            Proc::DeleteProgram => 11,
        }
    }

    pub fn at(index: usize) -> (proc: Option<Proc>)
        ensures
            proc == Self::spec_at(index as int),
            proc is Some <==> index < PROC_COUNT,
            proc matches Some(p) ==> p.spec_index() == index,
    {
        if index == 0 {
            Some(Proc::GenBuffers)
        } else if index == 1 {
            Some(Proc::BindBuffer)
        } else if index == 2 {
            Some(Proc::BufferData)
        } else if index == 3 {
            Some(Proc::DeleteBuffers)
        } else if index == 4 {
            Some(Proc::CreateShader)
        } else if index == 5 {
            Some(Proc::ShaderSource)
        } else if index == 6 {
            Some(Proc::CompileShader)
        } else if index == 7 {
            Some(Proc::DeleteShader)
        } else if index == 8 {
            Some(Proc::CreateProgram)
        } else if index == 9 {
            Some(Proc::AttachShader)
        } else if index == 10 {
            Some(Proc::LinkProgram)
        } else if index == 11 {
            Some(Proc::DeleteProgram)
        } else {
            None
        }
    }

    pub fn name(self) -> (name: &'static str)
        ensures
            name@ == self.spec_name(),
    {
        match self {
            Proc::GenBuffers => "glGenBuffers",
            Proc::BindBuffer => "glBindBuffer",
            Proc::BufferData => "glBufferData",
            Proc::DeleteBuffers => "glDeleteBuffers",
            Proc::CreateShader => "glCreateShader",
            Proc::ShaderSource => "glShaderSource",
            Proc::CompileShader => "glCompileShader",
            Proc::DeleteShader => "glDeleteShader",
            Proc::CreateProgram => "glCreateProgram",
            Proc::AttachShader => "glAttachShader",
            Proc::LinkProgram => "glLinkProgram",
            Proc::DeleteProgram => "glDeleteProgram",
        }
    }
}

/// The addresses at which the native procedures were found, one for each
/// [`Proc`]. The table is filled once and never changes.
pub struct Gl {
    addresses_: Vec<usize>,
}

impl Gl {
    #[verifier::type_invariant]
    spec fn complete(&self) -> bool {
        self.addresses_@.len() == PROC_COUNT
    }

    /// The address recorded for a procedure.
    pub closed spec fn spec_address_of(&self, proc: Proc) -> usize {
        self.addresses_@[proc.spec_index()]
    }

    /// The table that holds `addresses[i]` for the procedure at place `i`.
    /// `None` unless there is exactly one address for each procedure.
    pub fn from_addresses(addresses: Vec<usize>) -> (gl: Option<Gl>)
        ensures
            gl is Some <==> addresses@.len() == PROC_COUNT,
            gl matches Some(g) ==> forall|p: Proc| #[trigger]
                g.spec_address_of(p) == addresses@[p.spec_index()],
    {
        if addresses.len() == PROC_COUNT {
            Some(Gl { addresses_: addresses })
        } else {
            None
        }
    }

    /// Resolves every procedure by its name through the provider, in the
    /// order of the table. The table holds for each procedure what the
    /// provider answered when it was asked for the name of that procedure.
    pub fn load_with<MAB: MakeApiBackend>(mab: &mut MAB) -> (gl: Gl)
        ensures
            forall|proc: Proc| resolves::<MAB>(proc.spec_name(), #[trigger] gl.address_of(proc)),
    {
        let mut addresses: Vec<usize> = Vec::new();
        let mut index: usize = 0;
        while index < PROC_COUNT
            invariant
                index <= PROC_COUNT,
                addresses@.len() == index,
                forall|proc: Proc|
                    proc.spec_index() < index ==> resolves::<MAB>(
                        proc.spec_name(),
                        #[trigger] addresses@[proc.spec_index()],
                    ),
            decreases PROC_COUNT - index,
        {
            match Proc::at(index) {
                Some(proc) => {
                    let address = mab.get_proc_address(proc.name());
                    addresses.push(address);
                },
                None => {},
            }
            index = index + 1;
        }
        Gl::from_addresses(addresses).unwrap()
    }

    #[verifier::when_used_as_spec(spec_address_of)]
    pub fn address_of(&self, proc: Proc) -> (address: usize)
        ensures
            address == self.spec_address_of(proc),
    {
        proof {
            use_type_invariant(self);
        }
        self.addresses_[proc.index()]
    }
}

} // verus!
