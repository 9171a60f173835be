//! The ways in which a build can fail.

use vstd::prelude::*;

verus! {

/// A failure of one stage of the build.
#[derive(Clone, Copy, Debug, PartialEq, Eq, Structural)]
pub enum BuildError {
    /// The compilation target does not name a known microcontroller.
    UnresolvedTarget,
    /// The external build of the vendored stack did not exit with status zero.
    NativeBuildFailed,
    /// The header could not be turned into declarations.
    BindingGenerationFailed,
    /// The generated declarations could not be stored.
    BindingWriteFailed,
    /// The generated declarations could not be brought into canonical style.
    PostFormatFailed,
}

impl BuildError {
    /// Whether the build has to stop on this failure. Only a failed
    /// formatting step leaves a usable build behind.
    pub open spec fn fatal(self) -> bool {
        self != BuildError::PostFormatFailed
    }

    /// The name under which the failure is reported.
    pub open spec fn name(self) -> Seq<char> {
        match self {
            BuildError::UnresolvedTarget => "UnresolvedTarget"@,
            BuildError::NativeBuildFailed => "NativeBuildFailed"@,
            BuildError::BindingGenerationFailed => "BindingGenerationFailed"@,
            BuildError::BindingWriteFailed => "BindingWriteFailed"@,
            BuildError::PostFormatFailed => "PostFormatFailed"@,
        }
    }

    /// Decides whether the build has to stop on this failure.
    pub fn is_fatal(&self) -> (r: bool)
        ensures
            r == self.fatal(),
    {
        match self {
            BuildError::PostFormatFailed => false,
            _ => true,
        }
    }

    /// Gives the name under which the failure is reported.
    pub fn describe(&self) -> (r: &'static str)
        ensures
            r@ == self.name(),
    {
        match self {
            BuildError::UnresolvedTarget => "UnresolvedTarget",
            BuildError::NativeBuildFailed => "NativeBuildFailed",
            BuildError::BindingGenerationFailed => "BindingGenerationFailed",
            BuildError::BindingWriteFailed => "BindingWriteFailed",
            BuildError::PostFormatFailed => "PostFormatFailed",
        }
    }
}

} // verus!
