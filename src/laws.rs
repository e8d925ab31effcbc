//! What holds of every run, stated over the steps of the state machine.
use vstd::prelude::*;
use crate::errors::{CallError, LoadError, RunError};
use crate::lifecycle::{failed, handler_func, handler_interface, spec_start, step, with_stage, Action, Event, Record, Session, Stage};
use crate::selector::{LoadMode, RunConfig};
use crate::shape::{agreed_signature, is_first_match, lemma_first_match_unique, spec_resolve, ExportDecl, ExportView};

verus! {

/// A guest that returns the request it was given.
pub open spec fn passthrough(r: Record) -> Record {
    r
}

pub open spec fn export_views(exports: Vec<ExportDecl>) -> Seq<ExportView> {
    exports@.map_values(|d: ExportDecl| d@)
}

/// What a run shows from outside: the request it sends, where it stands,
/// and the response it holds.
pub open spec fn observed(s: Session) -> (Record, Stage, Option<Record>) {
    (s.request, s.stage, s.response)
}

/// A run whose artifact reads, compiles, links and instantiates, and whose
/// guest exports the agreed operation, calls the guest with its request; a
/// passthrough guest then hands back a response equal to that request.
pub proof fn lemma_passthrough_round_trip(
    config: RunConfig,
    path: String,
    request: Record,
    bytes: Vec<u8>,
    exports: Vec<ExportDecl>,
)
    requires
        spec_resolve(export_views(exports), handler_interface(), handler_func()) is Ok,
    ensures
        ({
            let s0 = spec_start(config, path, request).0;
            let s1 = step(s0, Event::Read(Some(bytes))).0;
            let s2 = step(s1, Event::Compiled(true)).0;
            let s3 = step(s2, Event::Linked(Ok(()))).0;
            let (s4, a4) = step(s3, Event::Instantiated(Ok(exports)));
            let (s5, a5) = step(s4, Event::Returned(Ok(passthrough(request))));
            &&& a4 == Action::Call(request)
            &&& a5 == Action::Report(request)
            &&& s5.response == Some(request)
            &&& s5.stage is Ready
        }),
{
}

/// Once the engine has taken the artifact, whether it was compiled from the
/// module form or deserialized from a native image changes nothing that the
/// run does after: the same outcomes give the same actions and the same
/// observed state.
pub proof fn lemma_load_mode_unobservable(
    path_a: String,
    path_b: String,
    config_a: RunConfig,
    config_b: RunConfig,
    request: Record,
    bytes_a: Vec<u8>,
    bytes_b: Vec<u8>,
    linked: Event,
    instantiated: Event,
    returned: Event,
)
    requires
        config_a.family == config_b.family,
        config_a.mode == LoadMode::Compile,
        config_b.mode == LoadMode::Precompiled,
    ensures
        ({
            let a2 = step(step(spec_start(config_a, path_a, request).0, Event::Read(Some(bytes_a))).0, Event::Compiled(true)).0;
            let b2 = step(step(spec_start(config_b, path_b, request).0, Event::Read(Some(bytes_b))).0, Event::Compiled(true)).0;
            let (a3, x3) = step(a2, linked);
            let (b3, y3) = step(b2, linked);
            let (a4, x4) = step(a3, instantiated);
            let (b4, y4) = step(b3, instantiated);
            let (a5, x5) = step(a4, returned);
            let (b5, y5) = step(b4, returned);
            &&& observed(a2) == observed(b2)
            &&& x3 == y3 && x4 == y4 && x5 == y5
            &&& observed(a5) == observed(b5)
        }),
{
}

/// Calling a live instance again with the same request, when the guest's
/// response depends on the request alone, gives the same response and leaves
/// the run's own state as it was.
pub proof fn lemma_repeat_call(s: Session, guest: spec_fn(Record) -> Record)
    requires
        s.stage is Ready,
    ensures
        ({
            let (s1, a1) = step(s, Event::Returned(Ok(guest(s.request))));
            let (s2, a2) = step(s1, Event::Returned(Ok(guest(s1.request))));
            &&& a1 == Action::Report(guest(s.request))
            &&& a2 == a1
            &&& s2 == s1
            &&& s1.stage is Ready
            &&& s1.config == s.config && s1.path == s.path && s1.request == s.request
        }),
{
}

/// A missing artifact fails the run with `NotFound`, at the load stage, and
/// nothing further is attempted.
pub proof fn lemma_missing_artifact(s: Session, later: Event)
    requires
        s.stage is Reading,
    ensures
        ({
            let (s1, a1) = step(s, Event::Read(None));
            &&& a1 == Action::Fail
            &&& s1.stage == Stage::Failed(RunError::Load(LoadError::NotFound))
            &&& step(s1, later) == (s1, Action::Ignored)
        }),
{
}

/// An operation that the guest exports under the agreed names but with
/// another shape fails the run with `SignatureMismatch`; the guest is never
/// called.
pub proof fn lemma_signature_mismatch(s: Session, exports: Vec<ExportDecl>, k: int)
    requires
        s.stage is Instantiating,
        is_first_match(export_views(exports), handler_interface(), handler_func(), k),
        export_views(exports)[k].2 != agreed_signature(),
    ensures
        step(s, Event::Instantiated(Ok(exports))) == failed(s, RunError::Call(CallError::SignatureMismatch)),
{
    let v = export_views(exports);
    let m = choose|m: int| is_first_match(v, handler_interface(), handler_func(), m);
    lemma_first_match_unique(v, handler_interface(), handler_func(), k, m);
}

/// A trap during the call is reported as the run's error; the instance is
/// not called again and the response the run held is kept.
pub proof fn lemma_trap_reported(s: Session, reason: String, later: Event)
    requires
        s.stage is Ready,
    ensures
        ({
            let (s1, a1) = step(s, Event::Returned(Err(CallError::Trap(reason))));
            &&& a1 == Action::Fail
            &&& s1 == with_stage(s, Stage::Failed(RunError::Call(CallError::Trap(reason))))
            &&& s1.response == s.response
            &&& step(s1, later) == (s1, Action::Ignored)
        }),
{
}

} // verus!
