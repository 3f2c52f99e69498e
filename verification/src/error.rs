//! The ways in which a platform fact cannot be given.

use vstd::prelude::*;

verus! {

/// Why no answer could be given. Nothing is retried or recovered from
/// inside the library: each failure reaches the caller as one of these.
#[derive(Clone, Copy, Debug, PartialEq, Eq, Structural)]
pub enum PlatformError {
    /// The build's CPU architecture is not one that has a triple name.
    UnsupportedArchitecture,
    /// The build's operating system is not one that has a triple name.
    UnsupportedOs,
    /// The operating system needs an environment suffix and the build has
    /// none that is known.
    UnsupportedEnvironment,
    /// The operating system could not report where the running executable is.
    ExecutableLocationUnavailable,
    /// The executable's path has no parent directory.
    InvalidExecutablePath,
    /// No resource directory layout is defined for the operating system.
    UnsupportedPlatformForResourceDir,
}

/// What a fallible answer says, with the text of a `String` in place of the
/// `String` itself.
pub open spec fn text_of(answer: Result<String, PlatformError>) -> Result<Seq<char>, PlatformError> {
    match answer {
        Ok(text) => Ok(text@),
        Err(error) => Err(error),
    }
}

} // verus!
