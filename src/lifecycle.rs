use vstd::prelude::*;

use crate::abi::{AbiVersion, PluginError, Symbol};

verus! {

/// Where a plugin handle stands in its lifecycle.
///
/// Construction runs `Unloaded`, `Opening`, `LocatingProbe`, `Probing`,
/// `Resolving`, `Constructing` and ends in `Ready`, or in `Failed` (through
/// `Unloading` whenever the module had been loaded). Disposal runs `Ready`,
/// `Destroying`, `Unloading` and ends in `Disposed`.
#[derive(Clone, Copy, Debug, PartialEq, Eq, Structural)]
pub enum Phase {
    /// Nothing has been done yet.
    Unloaded,
    /// The module is being opened.
    Opening,
    /// The module is open; the version probe is being looked up.
    LocatingProbe,
    /// The version probe is being called.
    Probing,
    /// The table of `version` is being resolved; `next` indexes the entry
    /// point being looked up.
    Resolving { version: AbiVersion, next: usize },
    /// The whole table is resolved; the construct entry point is being called.
    Constructing { version: AbiVersion },
    /// The object exists; accessors are forwarded to it.
    Ready { version: AbiVersion },
    /// The object is being destroyed.
    Destroying,
    /// The module is being unloaded; `error` is the construction failure to
    /// report afterwards, or `None` on disposal.
    Unloading { error: Option<PluginError> },
    /// Construction failed; nothing is loaded and no object exists.
    Failed { error: PluginError },
    /// The object was destroyed and the module unloaded.
    Disposed,
}

/// What the caller reports back: the outcome of the last action, or a
/// request of its own.
#[derive(Clone, Copy, Debug, PartialEq, Eq, Structural)]
pub enum Event {
    /// Construction is requested.
    Begin,
    /// The module was loaded.
    Opened,
    /// The module could not be loaded.
    OpenFailed,
    /// The requested symbol was found.
    SymbolFound,
    /// The requested symbol is not exported.
    SymbolMissing,
    /// The version probe returned `version`.
    VersionReported { version: i32 },
    /// The construct entry point returned an object.
    Constructed,
    /// The construct entry point returned no object.
    ConstructFailed,
    /// The object's state is to be read.
    Read,
    /// The object's state is to be set to `value`.
    Write { value: i32 },
    /// The handle is being disposed of.
    Dispose,
    /// The destroy entry point returned.
    Destroyed,
    /// The module was unloaded.
    Unloaded,
}

/// What the caller is to do next.
#[derive(Clone, Copy, Debug, PartialEq, Eq, Structural)]
pub enum Action {
    /// Load the module.
    OpenModule,
    /// Look up `symbol` in the loaded module.
    Resolve { symbol: Symbol },
    /// Call the version probe.
    CallProbe,
    /// Call the construct entry point.
    CallConstruct,
    /// Call the get entry point on the object.
    CallGet,
    /// Call the set entry point on the object with `value`.
    CallSet { value: i32 },
    /// Call the destroy entry point on the object.
    CallDestroy,
    /// Unload the module.
    UnloadModule,
    /// Construction succeeded: hand the handle out.
    ReportReady,
    /// Construction failed with `error`: nothing is left loaded.
    ReportFailure { error: PluginError },
    /// Disposal is complete.
    ReportDisposed,
    /// The event does not apply in this phase; nothing is to be done.
    Ignore,
}

/// The phases that the handle can be in: a table being resolved is indexed
/// within its version's entry points.
pub open spec fn phase_wf(p: Phase) -> bool {
    match p {
        Phase::Resolving { version, next } => next < version.spec_required().len(),
        _ => true,
    }
}

/// Failure after the module was loaded: unload it first, report afterwards.
pub open spec fn abort(error: PluginError) -> (Phase, Action) {
    (Phase::Unloading { error: Some(error) }, Action::UnloadModule)
}

/// The lifecycle's transition: the next phase and the action to perform.
pub open spec fn transition(p: Phase, e: Event) -> (Phase, Action) {
    let ignore = (p, Action::Ignore);
    match p {
        Phase::Unloaded => match e {
            Event::Begin => (Phase::Opening, Action::OpenModule),
            _ => ignore,
        },
        Phase::Opening => match e {
            Event::Opened => (
                Phase::LocatingProbe,
                Action::Resolve { symbol: Symbol::GetApiVersion },
            ),
            Event::OpenFailed => (
                Phase::Failed { error: PluginError::Load },
                Action::ReportFailure { error: PluginError::Load },
            ),
            _ => ignore,
        },
        Phase::LocatingProbe => match e {
            Event::SymbolFound => (Phase::Probing, Action::CallProbe),
            Event::SymbolMissing => abort(PluginError::Symbol { name: Symbol::GetApiVersion }),
            _ => ignore,
        },
        Phase::Probing => match e {
            Event::VersionReported { version } => match AbiVersion::spec_from_reported(version) {
                Some(v) => (
                    Phase::Resolving { version: v, next: 0 },
                    Action::Resolve { symbol: v.spec_required()[0] },
                ),
                None => abort(PluginError::UnsupportedVersion { reported: version }),
            },
            _ => ignore,
        },
        Phase::Resolving { version, next } => match e {
            Event::SymbolFound => if next + 1 < version.spec_required().len() {
                (
                    Phase::Resolving { version, next: (next + 1) as usize },
                    Action::Resolve { symbol: version.spec_required()[next + 1] },
                )
            } else {
                (Phase::Constructing { version }, Action::CallConstruct)
            },
            Event::SymbolMissing => abort(
                PluginError::Symbol { name: version.spec_required()[next as int] },
            ),
            _ => ignore,
        },
        Phase::Constructing { version } => match e {
            Event::Constructed => (Phase::Ready { version }, Action::ReportReady),
            Event::ConstructFailed => abort(PluginError::Construct),
            _ => ignore,
        },
        Phase::Ready { version } => match e {
            Event::Read => (p, Action::CallGet),
            Event::Write { value } => (p, Action::CallSet { value }),
            Event::Dispose => (Phase::Destroying, Action::CallDestroy),
            _ => ignore,
        },
        Phase::Destroying => match e {
            Event::Destroyed => (Phase::Unloading { error: None }, Action::UnloadModule),
            _ => ignore,
        },
        Phase::Unloading { error } => match e {
            Event::Unloaded => match error {
                Some(err) => (Phase::Failed { error: err }, Action::ReportFailure { error: err }),
                None => (Phase::Disposed, Action::ReportDisposed),
            },
            _ => ignore,
        },
        Phase::Failed { .. } => ignore,
        Phase::Disposed => ignore,
    }
}

/// The decisions of one plugin handle: it is told what happened and answers
/// with what is to be done next. It is not duplicable: one handle runs one
/// lifecycle.
pub struct Lifecycle {
    phase: Phase,
}

impl Lifecycle {
    pub closed spec fn spec_phase(&self) -> Phase {
        self.phase
    }

    pub closed spec fn wf(&self) -> bool {
        phase_wf(self.phase)
    }

    /// A handle that has done nothing yet.
    pub fn new() -> (r: Lifecycle)
        ensures
            r.wf(),
            r.spec_phase() == Phase::Unloaded,
    {
        Lifecycle { phase: Phase::Unloaded }
    }

    /// The current phase.
    pub fn phase(&self) -> (r: Phase)
        ensures
            r == self.spec_phase(),
    {
        self.phase
    }

    /// Whether accessors may be forwarded to the object.
    pub fn is_ready(&self) -> (r: bool)
        ensures
            r == (self.spec_phase() is Ready),
    {
        match self.phase {
            Phase::Ready { .. } => true,
            _ => false,
        }
    }

    /// Takes in what happened and returns what is to be done next.
    pub fn step(&mut self, event: Event) -> (a: Action)
        requires
            old(self).wf(),
        ensures
            final(self).wf(),
            (final(self).spec_phase(), a) == transition(old(self).spec_phase(), event),
    {
        let (p, a) = match self.phase {
            Phase::Unloaded => match event {
                Event::Begin => (Phase::Opening, Action::OpenModule),
                _ => (self.phase, Action::Ignore),
            },
            Phase::Opening => match event {
                Event::Opened => (
                    Phase::LocatingProbe,
                    Action::Resolve { symbol: Symbol::GetApiVersion },
                ),
                Event::OpenFailed => (
                    Phase::Failed { error: PluginError::Load },
                    Action::ReportFailure { error: PluginError::Load },
                ),
                _ => (self.phase, Action::Ignore),
            },
            Phase::LocatingProbe => match event {
                Event::SymbolFound => (Phase::Probing, Action::CallProbe),
                Event::SymbolMissing => Self::abort(
                    PluginError::Symbol { name: Symbol::GetApiVersion },
                ),
                _ => (self.phase, Action::Ignore),
            },
            Phase::Probing => match event {
                Event::VersionReported { version } => match AbiVersion::from_reported(version) {
                    Ok(v) => (
                        Phase::Resolving { version: v, next: 0 },
                        Action::Resolve { symbol: v.required(0) },
                    ),
                    Err(error) => Self::abort(error),
                },
                _ => (self.phase, Action::Ignore),
            },
            Phase::Resolving { version, next } => match event {
                Event::SymbolFound => if next + 1 < version.required_len() {
                    (
                        Phase::Resolving { version, next: next + 1 },
                        Action::Resolve { symbol: version.required(next + 1) },
                    )
                } else {
                    (Phase::Constructing { version }, Action::CallConstruct)
                },
                Event::SymbolMissing => Self::abort(
                    PluginError::Symbol { name: version.required(next) },
                ),
                _ => (self.phase, Action::Ignore),
            },
            Phase::Constructing { version } => match event {
                Event::Constructed => (Phase::Ready { version }, Action::ReportReady),
                Event::ConstructFailed => Self::abort(PluginError::Construct),
                _ => (self.phase, Action::Ignore),
            },
            Phase::Ready { .. } => match event {
                Event::Read => (self.phase, Action::CallGet),
                Event::Write { value } => (self.phase, Action::CallSet { value }),
                Event::Dispose => (Phase::Destroying, Action::CallDestroy),
                _ => (self.phase, Action::Ignore),
            },
            Phase::Destroying => match event {
                Event::Destroyed => (Phase::Unloading { error: None }, Action::UnloadModule),
                _ => (self.phase, Action::Ignore),
            },
            Phase::Unloading { error } => match event {
                Event::Unloaded => match error {
                    Some(err) => (Phase::Failed { error: err }, Action::ReportFailure { error: err }),
                    None => (Phase::Disposed, Action::ReportDisposed),
                },
                _ => (self.phase, Action::Ignore),
            },
            Phase::Failed { .. } => (self.phase, Action::Ignore),
            Phase::Disposed => (self.phase, Action::Ignore),
        };
        self.phase = p;
        a
    }

    fn abort(error: PluginError) -> (r: (Phase, Action))
        ensures
            r == abort(error),
    {
        (Phase::Unloading { error: Some(error) }, Action::UnloadModule)
    }
}

} // verus!
