//! Tool invocation subsystem for a desktop shell around command-line
//! tools: discovery of executables across platforms, shaping of a child
//! process environment, interpretation of captured subprocess output —
//! including a REPL's two-tier error/return disambiguation — and
//! classification of a cloud CLI's authentication state. Every decision
//! is made here, under contract; spawning processes, reading the live
//! environment and moving bytes are left to the caller.

pub mod auth;
pub mod environment;
pub mod http;
pub mod registry;
pub mod repl;
pub mod runner;
pub mod text;

use vstd::prelude::*;

verus! {

/// Raw capture of a finished subprocess: full stdout and stderr text and
/// whether the process reported success.
#[derive(Debug)]
pub struct CommandOutput {
    pub stdout: String,
    pub stderr: String,
    pub success: bool,
}

/// Host platform family, which decides candidate install paths and the
/// separator used inside a PATH value.
#[derive(Debug, Clone, Copy, PartialEq, Eq, Structural)]
pub enum Platform {
    Windows,
    Unix,
}

impl Platform {
    /// The character that separates entries of a PATH value on this platform.
    pub open spec fn spec_separator(self) -> char {
        match self {
            Platform::Windows => ';',
            Platform::Unix => ':',
        }
    }

    pub fn separator(self) -> (c: char)
        ensures
            c == self.spec_separator(),
    {
        match self {
            Platform::Windows => ';',
            Platform::Unix => ':',
        }
    }
}

} // verus!
