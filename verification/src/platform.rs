//! The platform a build targets, as a value: the choices that depend on it
//! take it as an argument.
use vstd::prelude::*;

verus! {

/// Operating system of the running build.
#[derive(Clone, Copy, Debug, PartialEq, Eq, Structural)]
pub enum TargetOs {
    Windows,
    MacOs,
    Linux,
}

/// CPU architecture of the running build.
#[derive(Clone, Copy, Debug, PartialEq, Eq, Structural)]
pub enum TargetArch {
    X86_64,
    Aarch64,
}

} // verus!
