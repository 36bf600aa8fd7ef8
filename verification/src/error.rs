//! Error taxonomy of the lifecycle. Every error here is fatal for a run:
//! none is retried, each surfaces to the top-level caller.

use vstd::prelude::*;

verus! {

/// A step of initialization that can fail.
#[derive(Clone, Copy, Debug, PartialEq, Eq, Structural)]
pub enum InitializationError {
    /// The windowing system itself could not be initialized.
    Glfw,
    /// The windowing system could not allocate a window.
    Window,
    /// The rendering backend refused to start.
    Bgfx,
    /// The native window handle matched no supported platform mapping.
    UnsupportedPlatform,
}

/// Top-level error of the library.
#[derive(Clone, Copy, Debug, PartialEq, Eq, Structural)]
pub enum Error {
    Initialization(InitializationError),
}

impl From<InitializationError> for Error {
    fn from(e: InitializationError) -> (r: Error) {
        Error::Initialization(e)
    }
}

impl vstd::std_specs::convert::FromSpecImpl<InitializationError> for Error {
    open spec fn obeys_from_spec() -> bool {
        true
    }

    open spec fn from_spec(e: InitializationError) -> Error {
        Error::Initialization(e)
    }
}

} // verus!
