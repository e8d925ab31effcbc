//! The run as a state machine: load, link, instantiate, call. Each step takes
//! the outcome of the engine's work as an event and names the next piece of
//! work as an action; every failure ends the run.
use vstd::prelude::*;
use vstd::string::StringExecFns;
use crate::artifact::{has_component_preamble, load_failure, spec_has_preamble, spec_load_failure};
use crate::errors::{CallError, InstantiateError, LinkError, LoadError, RunError, FAILURE_STATUS};
use crate::selector::{artifact_path, spec_artifact_path, LoadMode, RunConfig};
use crate::shape::{resolve_export, spec_resolve, ExportDecl};

verus! {

/// The record exchanged with the guest, as request and as response.
#[derive(Debug)]
pub struct Record {
    pub uri: String,
}

impl Record {
    pub fn new(uri: String) -> (r: Record)
        ensures
            r.uri == uri,
    {
        Record { uri }
    }

    /// A copy of the record.
    pub fn copy(&self) -> (r: Record)
        ensures
            r == *self,
    {
        Record { uri: self.uri.clone() }
    }
}

/// Where a run stands.
#[derive(Debug)]
pub enum Stage {
    /// Waiting for the artifact's bytes.
    Reading,
    /// Waiting for the engine to compile or deserialize the bytes; records
    /// whether they open as a component.
    Compiling { well_formed: bool },
    /// Waiting for the capability registry.
    Linking,
    /// Waiting for the instance and its export table.
    Instantiating,
    /// The instance is live and its operation resolved: it may be called.
    Ready,
    /// The run failed; nothing more is done.
    Failed(RunError),
}

/// The outcome of a piece of work, handed to the run.
#[derive(Debug)]
pub enum Event {
    /// The artifact's bytes, or `None` when nothing is at its path.
    Read(Option<Vec<u8>>),
    /// Whether the engine took the bytes.
    Compiled(bool),
    Linked(Result<(), LinkError>),
    /// The instance's exported operations, or why it could not be built.
    Instantiated(Result<Vec<ExportDecl>, InstantiateError>),
    /// What the guest's operation returned.
    Returned(Result<Record, CallError>),
}

/// The next piece of work of a run.
#[derive(Debug)]
pub enum Action {
    /// Read the artifact at this path.
    Read(String),
    /// Compile the bytes, or deserialize them as a native image, by mode.
    Compile(LoadMode, Vec<u8>),
    /// Build the capability registry.
    Link,
    /// Build the instance.
    Instantiate,
    /// Call the guest's operation with this request.
    Call(Record),
    /// Report this response.
    Report(Record),
    /// Report the run's error and end it.
    Fail,
    /// The event did not belong to the stage; nothing changed.
    Ignored,
}

/// One run of the host.
#[derive(Debug)]
pub struct Session {
    pub config: RunConfig,
    pub path: String,
    pub request: Record,
    pub stage: Stage,
    /// The last response the guest returned.
    pub response: Option<Record>,
}

/// The interface that holds the guest's operation.
pub open spec fn handler_interface() -> Seq<char> {
    "test:test/handler-interface"@
}

/// The guest's operation.
pub open spec fn handler_func() -> Seq<char> {
    "handleevent"@
}

pub open spec fn with_stage(s: Session, st: Stage) -> Session {
    Session { config: s.config, path: s.path, request: s.request, stage: st, response: s.response }
}

pub open spec fn failed(s: Session, e: RunError) -> (Session, Action) {
    (with_stage(s, Stage::Failed(e)), Action::Fail)
}

/// One step of a run.
pub open spec fn step(s: Session, e: Event) -> (Session, Action) {
    match e {
        Event::Read(r) => if s.stage is Reading {
            match r {
                None => failed(s, RunError::Load(LoadError::NotFound)),
                Some(b) => (
                    with_stage(s, Stage::Compiling { well_formed: spec_has_preamble(b@) }),
                    Action::Compile(s.config.mode, b),
                ),
            }
        } else {
            (s, Action::Ignored)
        },
        Event::Compiled(ok) => match s.stage {
            Stage::Compiling { well_formed } => if ok {
                (with_stage(s, Stage::Linking), Action::Link)
            } else {
                failed(s, RunError::Load(spec_load_failure(s.config.mode, well_formed)))
            },
            _ => (s, Action::Ignored),
        },
        Event::Linked(r) => if s.stage is Linking {
            match r {
                Ok(()) => (with_stage(s, Stage::Instantiating), Action::Instantiate),
                Err(le) => failed(s, RunError::Link(le)),
            }
        } else {
            (s, Action::Ignored)
        },
        Event::Instantiated(r) => if s.stage is Instantiating {
            match r {
                Err(ie) => failed(s, RunError::Instantiate(ie)),
                Ok(exports) => match spec_resolve(
                    exports@.map_values(|d: ExportDecl| d@),
                    handler_interface(),
                    handler_func(),
                ) {
                    Ok(()) => (with_stage(s, Stage::Ready), Action::Call(s.request)),
                    Err(ce) => failed(s, RunError::Call(ce)),
                },
            }
        } else {
            (s, Action::Ignored)
        },
        Event::Returned(r) => if s.stage is Ready {
            match r {
                Ok(resp) => (
                    Session { config: s.config, path: s.path, request: s.request, stage: s.stage, response: Some(resp) },
                    Action::Report(resp),
                ),
                Err(ce) => failed(s, RunError::Call(ce)),
            }
        } else {
            (s, Action::Ignored)
        },
    }
}

/// The first stage of a run, and its first action.
pub open spec fn spec_start(config: RunConfig, path: String, request: Record) -> (Session, Action) {
    (Session { config, path, request, stage: Stage::Reading, response: None }, Action::Read(path))
}

impl Session {
    /// Starts a run that loads the configured artifact from under `manifest`
    /// and sends `request` to the guest.
    pub fn start(config: RunConfig, manifest: &String, request: Record) -> (r: (Session, Action))
        ensures
            r == spec_start(config, r.0.path, request),
            r.0.path@ == spec_artifact_path(manifest@, config),
    {
        let path = artifact_path(manifest, config);
        let p = path.clone();
        (Session { config, path, request, stage: Stage::Reading, response: None }, Action::Read(p))
    }

    fn fail(&mut self, e: RunError) -> (a: Action)
        ensures
            (*final(self), a) == failed(*old(self), e),
    {
        self.stage = Stage::Failed(e);
        Action::Fail
    }

    /// Takes the outcome of the last action and returns the next one.
    pub fn advance(&mut self, e: Event) -> (a: Action)
        ensures
            (*final(self), a) == step(*old(self), e),
    {
        match e {
            Event::Read(r) => match self.stage {
                Stage::Reading => match r {
                    None => self.fail(RunError::Load(LoadError::NotFound)),
                    Some(b) => {
                        let well_formed = has_component_preamble(&b);
                        self.stage = Stage::Compiling { well_formed };
                        Action::Compile(self.config.mode, b)
                    },
                },
                _ => Action::Ignored,
            },
            Event::Compiled(ok) => match self.stage {
                Stage::Compiling { well_formed } => if ok {
                    self.stage = Stage::Linking;
                    Action::Link
                } else {
                    let le = load_failure(self.config.mode, well_formed);
                    self.fail(RunError::Load(le))
                },
                _ => Action::Ignored,
            },
            Event::Linked(r) => match self.stage {
                Stage::Linking => match r {
                    Ok(()) => {
                        self.stage = Stage::Instantiating;
                        Action::Instantiate
                    },
                    Err(le) => self.fail(RunError::Link(le)),
                },
                _ => Action::Ignored,
            },
            Event::Instantiated(r) => match self.stage {
                Stage::Instantiating => match r {
                    Err(ie) => self.fail(RunError::Instantiate(ie)),
                    Ok(exports) => {
                        let interface = String::from_str("test:test/handler-interface");
                        let func = String::from_str("handleevent");
                        match resolve_export(&exports, &interface, &func) {
                            Ok(()) => {
                                self.stage = Stage::Ready;
                                Action::Call(self.request.copy())
                            },
                            Err(ce) => self.fail(RunError::Call(ce)),
                        }
                    },
                },
                _ => Action::Ignored,
            },
            Event::Returned(r) => match self.stage {
                Stage::Ready => match r {
                    Ok(resp) => {
                        let out = resp.copy();
                        self.response = Some(resp);
                        Action::Report(out)
                    },
                    Err(ce) => self.fail(RunError::Call(ce)),
                },
                _ => Action::Ignored,
            },
        }
    }

    /// The request to send again to a live instance, if it is one.
    pub fn call_again(&self) -> (r: Option<Record>)
        ensures
            r == (if self.stage is Ready {
                Some(self.request)
            } else {
                None::<Record>
            }),
    {
        match self.stage {
            Stage::Ready => Some(self.request.copy()),
            _ => None,
        }
    }

    /// The status a process ends with after this run: zero unless it failed.
    pub fn exit_status(&self) -> (r: i32)
        ensures
            r == (if self.stage is Failed {
                FAILURE_STATUS
            } else {
                0
            }),
    {
        match self.stage {
            Stage::Failed(_) => FAILURE_STATUS,
            _ => 0,
        }
    }
}

} // verus!
