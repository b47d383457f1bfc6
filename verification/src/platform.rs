use vstd::prelude::*;

verus! {

/// The operating system a build runs on. Behaviour that depends on the
/// target operating system takes the platform as an explicit argument.
#[derive(Debug, Clone, Copy, PartialEq, Eq, Structural)]
pub enum Platform {
    Windows,
    MacOS,
    Linux,
    Android,
}

} // verus!
