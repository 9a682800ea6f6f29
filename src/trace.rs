use vstd::prelude::*;

use crate::abi::{AbiVersion, PluginError, Symbol};
use crate::lifecycle::{phase_wf, transition, Action, Event, Phase};

verus! {

/// The phase reached, and the actions issued one per event, when `events`
/// are handed in order to a fresh handle.
pub open spec fn run(events: Seq<Event>) -> (Phase, Seq<Action>)
    decreases events.len(),
{
    if events.len() == 0 {
        (Phase::Unloaded, Seq::empty())
    } else {
        let (p, t) = run(events.drop_last());
        let (q, a) = transition(p, events.last());
        (q, t.push(a))
    }
}

/// How often `a` occurs in the trace `t`.
pub open spec fn count(t: Seq<Action>, a: Action) -> nat
    decreases t.len(),
{
    if t.len() == 0 {
        0
    } else {
        count(t.drop_last(), a) + if t.last() == a {
            1nat
        } else {
            0nat
        }
    }
}

/// How many failures the trace `t` reports.
pub open spec fn failures(t: Seq<Action>) -> nat
    decreases t.len(),
{
    if t.len() == 0 {
        0
    } else {
        failures(t.drop_last()) + if t.last() is ReportFailure {
            1nat
        } else {
            0nat
        }
    }
}

/// How many calls of the get and set entry points the trace `t` holds.
pub open spec fn accessor_calls(t: Seq<Action>) -> nat
    decreases t.len(),
{
    if t.len() == 0 {
        0
    } else {
        accessor_calls(t.drop_last()) + if t.last() is CallGet || t.last() is CallSet {
            1nat
        } else {
            0nat
        }
    }
}

/// The last action of `t` that asked for something to be done.
pub open spec fn pending(t: Seq<Action>) -> Option<Action>
    decreases t.len(),
{
    if t.len() == 0 {
        None
    } else if t.last() is Ignore {
        pending(t.drop_last())
    } else {
        Some(t.last())
    }
}

proof fn lemma_push(t: Seq<Action>, a: Action)
    ensures
        forall|b: Action| #[trigger]
            count(t.push(a), b) == count(t, b) + if a == b {
                1nat
            } else {
                0nat
            },
        failures(t.push(a)) == failures(t) + if a is ReportFailure {
            1nat
        } else {
            0nat
        },
        accessor_calls(t.push(a)) == accessor_calls(t) + if a is CallGet || a is CallSet {
            1nat
        } else {
            0nat
        },
        pending(t.push(a)) == if a is Ignore {
            pending(t)
        } else {
            Some(a)
        },
{
    assert(t.push(a).drop_last() =~= t);
}

spec fn tally(t: Seq<Action>, o: nat, c: nat, r: nat, d: nat, u: nat, f: nat, x: nat) -> bool {
    &&& count(t, Action::OpenModule) == o
    &&& count(t, Action::CallConstruct) == c
    &&& count(t, Action::ReportReady) == r
    &&& count(t, Action::CallDestroy) == d
    &&& count(t, Action::UnloadModule) == u
    &&& failures(t) == f
    &&& count(t, Action::ReportDisposed) == x
}

spec fn constructs_before(e: PluginError) -> nat {
    if e is Construct {
        1
    } else {
        0
    }
}

/// What the trace of a run holds, phase by phase.
spec fn inv(p: Phase, t: Seq<Action>) -> bool {
    &&& phase_wf(p)
    &&& match p {
        Phase::Unloaded => tally(t, 0, 0, 0, 0, 0, 0, 0) && accessor_calls(t) == 0
            && pending(t) is None,
        Phase::Opening => tally(t, 1, 0, 0, 0, 0, 0, 0) && accessor_calls(t) == 0
            && pending(t) == Some(Action::OpenModule),
        Phase::LocatingProbe => tally(t, 1, 0, 0, 0, 0, 0, 0) && accessor_calls(t) == 0
            && pending(t) == Some(Action::Resolve { symbol: Symbol::GetApiVersion }),
        Phase::Probing => tally(t, 1, 0, 0, 0, 0, 0, 0) && accessor_calls(t) == 0
            && pending(t) == Some(Action::CallProbe),
        Phase::Resolving { version, next } => tally(t, 1, 0, 0, 0, 0, 0, 0)
            && accessor_calls(t) == 0
            && pending(t) == Some(Action::Resolve { symbol: version.spec_required()[next as int] }),
        Phase::Constructing { .. } => tally(t, 1, 1, 0, 0, 0, 0, 0) && accessor_calls(t) == 0
            && pending(t) == Some(Action::CallConstruct),
        Phase::Ready { .. } => tally(t, 1, 1, 1, 0, 0, 0, 0) && (pending(t) == Some(
            Action::ReportReady,
        ) || pending(t) == Some(Action::CallGet) || pending(t) matches Some(
            Action::CallSet { .. },
        )),
        Phase::Destroying => tally(t, 1, 1, 1, 1, 0, 0, 0) && pending(t) == Some(
            Action::CallDestroy,
        ),
        Phase::Unloading { error: None } => tally(t, 1, 1, 1, 1, 1, 0, 0) && pending(t) == Some(
            Action::UnloadModule,
        ),
        Phase::Unloading { error: Some(e) } => e !is Load && tally(
            t,
            1,
            constructs_before(e),
            0,
            0,
            1,
            0,
            0,
        ) && accessor_calls(t) == 0 && pending(t) == Some(Action::UnloadModule),
        Phase::Failed { error } => accessor_calls(t) == 0 && pending(t) == Some(
            Action::ReportFailure { error },
        ) && if error is Load {
            tally(t, 1, 0, 0, 0, 0, 1, 0)
        } else {
            tally(t, 1, constructs_before(error), 0, 0, 1, 1, 0)
        },
        Phase::Disposed => tally(t, 1, 1, 1, 1, 1, 0, 1) && pending(t) == Some(
            Action::ReportDisposed,
        ),
    }
}

proof fn lemma_inv_step(p: Phase, t: Seq<Action>, e: Event)
    requires
        inv(p, t),
    ensures
        inv(transition(p, e).0, t.push(transition(p, e).1)),
{
    lemma_push(t, transition(p, e).1);
    if let Phase::Probing = p {
        if let Event::VersionReported { version } = e {
            if let Some(v) = AbiVersion::spec_from_reported(version) {
                assert(v.spec_required().len() > 0);
            }
        }
    }
}

proof fn lemma_run_inv(events: Seq<Event>)
    ensures
        inv(run(events).0, run(events).1),
    decreases events.len(),
{
    if events.len() > 0 {
        lemma_run_inv(events.drop_last());
        let (p, t) = run(events.drop_last());
        lemma_inv_step(p, t, events.last());
    } else {
        assert(pending(Seq::<Action>::empty()) is None);
    }
}

/// Whatever events a handle has been given, the destroy entry point is called
/// at most once, only on an object that was constructed, and never once the
/// module is unloaded; the module is unloaded at most once, and only after
/// the object, if one was constructed, was destroyed; and a completed
/// disposal has destroyed the object exactly once.
pub proof fn lemma_destroy_once_before_unload(events: Seq<Event>, e: Event)
    ensures
        ({
            let (p, t) = run(events);
            let a = transition(p, e).1;
            &&& count(t, Action::CallDestroy) <= count(t, Action::ReportReady)
            &&& count(t, Action::ReportReady) <= 1
            &&& count(t, Action::UnloadModule) <= 1
            &&& a == Action::CallDestroy ==> count(t, Action::CallDestroy) == 0 && count(
                t,
                Action::UnloadModule,
            ) == 0 && count(t, Action::ReportReady) == 1
            &&& a == Action::UnloadModule ==> count(t, Action::UnloadModule) == 0 && count(
                t,
                Action::CallDestroy,
            ) == count(t, Action::ReportReady)
            &&& p is Disposed ==> count(t, Action::CallDestroy) == 1 && count(
                t,
                Action::UnloadModule,
            ) == 1
        }),
{
    lemma_run_inv(events);
}

/// A required entry point that the module does not export fails the
/// construction with an error that names it, once the module is unloaded;
/// a construction that failed so has never called the construct entry point.
pub proof fn lemma_missing_symbol_constructs_nothing(events: Seq<Event>, s: Symbol)
    ensures
        ({
            let (p, t) = run(events);
            &&& pending(t) == Some(Action::Resolve { symbol: s }) ==> transition(
                p,
                Event::SymbolMissing,
            ) == (
                Phase::Unloading { error: Some(PluginError::Symbol { name: s }) },
                Action::UnloadModule,
            )
            &&& p matches Phase::Failed { error: PluginError::Symbol { .. } } ==> count(
                t,
                Action::CallConstruct,
            ) == 0 && count(t, Action::ReportReady) == 0
        }),
{
    lemma_run_inv(events);
}

/// A construction that failed on an unknown version has called none of the
/// capability table's entry points.
pub proof fn lemma_unsupported_version_calls_nothing(events: Seq<Event>)
    ensures
        ({
            let (p, t) = run(events);
            p matches Phase::Failed { error: PluginError::UnsupportedVersion { .. } } ==> count(
                t,
                Action::CallConstruct,
            ) == 0 && count(t, Action::CallDestroy) == 0 && accessor_calls(t) == 0
        }),
{
    lemma_run_inv(events);
}

/// A construction failure is reported only once nothing is left loaded: a
/// failure to load is reported as the open fails, with no module to unload;
/// any other failure is reported only in answer to the module's unload,
/// which was asked for exactly once.
pub proof fn lemma_failure_leaves_nothing_loaded(events: Seq<Event>, e: Event)
    ensures
        ({
            let (p, t) = run(events);
            let a = transition(p, e).1;
            a matches Action::ReportFailure { error } ==> if error is Load {
                &&& e == Event::OpenFailed
                &&& pending(t) == Some(Action::OpenModule)
                &&& count(t, Action::UnloadModule) == 0
            } else {
                &&& e == Event::Unloaded
                &&& pending(t) == Some(Action::UnloadModule)
                &&& count(t, Action::UnloadModule) == 1
            }
        }),
{
    lemma_run_inv(events);
}

/// On a ready handle a write of `value` followed by a read is forwarded as a
/// call of the set entry point with `value` unchanged, then a call of the get
/// entry point, and the handle stays ready with the table it was given.
pub proof fn lemma_write_then_read_forwards(version: AbiVersion, value: i32)
    ensures
        ({
            let (p, a) = transition(Phase::Ready { version }, Event::Write { value });
            let (q, b) = transition(p, Event::Read);
            &&& a == Action::CallSet { value }
            &&& b == Action::CallGet
            &&& p == Phase::Ready { version }
            &&& q == Phase::Ready { version }
        }),
{
}

} // verus!
