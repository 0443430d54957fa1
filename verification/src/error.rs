//! What can go wrong.

use vstd::prelude::*;
use crate::gl::GlError;

verus! {

/// A failure of a backend that fits no other variant of [`Error`].
pub trait UnknownError: 'static {}

/// The failures that the layer reports.
pub enum Error {
    /// An [`Api`](crate::Api) was asked for while another one is alive.
    ApiAlreadyExists,
    /// The native API reported an error code.
    Gl(GlError),
    /// A backend failed in a way of its own.
    Unknown(Box<dyn UnknownError>),
}

} // verus!
