//! The failures of each stage of a run, all of them fatal to the run.
use vstd::prelude::*;
use crate::selector::UsageError;
use vstd::string::StringExecFns;

verus! {

/// Why the artifact could not be loaded.
#[derive(Clone, Copy, Debug, PartialEq, Eq, Structural)]
pub enum LoadError {
    /// Nothing is at the artifact's path.
    NotFound,
    /// The bytes are not a well-formed component.
    Malformed,
    /// Well-formed bytes that the compiler could not turn into code.
    CompileFailure,
    /// A native image that the engine could not take.
    DeserializeFailure,
}

/// Why the capability registry could not be built.
#[derive(Debug)]
pub enum LinkError {
    UnknownCapability(String),
}

/// Why the instance could not be built.
#[derive(Debug)]
pub enum InstantiateError {
    /// An import of the guest that the registry does not provide.
    UnresolvedImport(String),
    /// The guest's initialization trapped.
    StartTrap(String),
}

/// Why the exported operation could not be called.
#[derive(Debug)]
pub enum CallError {
    /// The guest does not export the operation.
    ExportNotFound,
    /// The operation's declared shape is not the agreed one.
    SignatureMismatch,
    /// The guest trapped during the call.
    Trap(String),
}

/// A failure of a run, by stage.
#[derive(Debug)]
pub enum RunError {
    Usage(UsageError),
    Load(LoadError),
    Link(LinkError),
    Instantiate(InstantiateError),
    Call(CallError),
}

/// The status a process ends with after a run fails.
pub const FAILURE_STATUS: i32 = 1;

impl RunError {
    /// The exit status of a run that ends with this error: never zero.
    pub fn exit_status(&self) -> (r: i32)
        ensures
            r == FAILURE_STATUS,
            r != 0,
    {
        FAILURE_STATUS
    }

    /// The name of the stage that failed.
    pub fn stage(&self) -> (r: String)
        ensures
            r@ == self.spec_stage(),
    {
        match self {
            RunError::Usage(_) => String::from_str("usage"),
            RunError::Load(_) => String::from_str("load"),
            RunError::Link(_) => String::from_str("link"),
            RunError::Instantiate(_) => String::from_str("instantiate"),
            RunError::Call(_) => String::from_str("call"),
        }
    }

    pub open spec fn spec_stage(&self) -> Seq<char> {
        match self {
            RunError::Usage(_) => "usage"@,
            RunError::Load(_) => "load"@,
            RunError::Link(_) => "link"@,
            RunError::Instantiate(_) => "instantiate"@,
            RunError::Call(_) => "call"@,
        }
    }
}

} // verus!
