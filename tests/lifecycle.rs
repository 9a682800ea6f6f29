use plugin_loader::{AbiVersion, Action, Event, Lifecycle, Phase, PluginError, Symbol};

/// A module played by the test: it answers the loader's actions and records
/// what was done to it.
struct StubModule {
    loadable: bool,
    exports: Vec<Symbol>,
    version: i32,
    constructs: bool,
    mapped: bool,
    object_live: bool,
    value: i32,
    construct_calls: u32,
    destroy_calls: u32,
    destroyed_while_mapped: bool,
    entry_calls: u32,
    unloads: u32,
}

impl StubModule {
    fn version_zero() -> StubModule {
        StubModule {
            loadable: true,
            exports: vec![
                Symbol::GetApiVersion,
                Symbol::Init,
                Symbol::FreeObject,
                Symbol::GetInfo,
                Symbol::SetInfo,
            ],
            version: 0,
            constructs: true,
            mapped: false,
            object_live: false,
            value: 0,
            construct_calls: 0,
            destroy_calls: 0,
            destroyed_while_mapped: true,
            entry_calls: 0,
            unloads: 0,
        }
    }

    fn without(symbol: Symbol) -> StubModule {
        let mut m = StubModule::version_zero();
        m.exports.retain(|s| *s != symbol);
        m
    }

    /// Performs `action`; returns the event that reports its outcome, if the
    /// action expects one.
    fn perform(&mut self, action: Action) -> Option<Event> {
        match action {
            Action::OpenModule => {
                if self.loadable {
                    self.mapped = true;
                    Some(Event::Opened)
                } else {
                    Some(Event::OpenFailed)
                }
            }
            Action::Resolve { symbol } => {
                assert!(self.mapped);
                if self.exports.contains(&symbol) {
                    Some(Event::SymbolFound)
                } else {
                    Some(Event::SymbolMissing)
                }
            }
            Action::CallProbe => {
                assert!(self.mapped);
                Some(Event::VersionReported { version: self.version })
            }
            Action::CallConstruct => {
                assert!(self.mapped);
                self.construct_calls += 1;
                self.entry_calls += 1;
                if self.constructs {
                    self.object_live = true;
                    Some(Event::Constructed)
                } else {
                    Some(Event::ConstructFailed)
                }
            }
            Action::CallGet => {
                self.entry_calls += 1;
                None
            }
            Action::CallSet { value } => {
                self.entry_calls += 1;
                self.value = value;
                None
            }
            Action::CallDestroy => {
                self.entry_calls += 1;
                self.destroy_calls += 1;
                self.destroyed_while_mapped = self.destroyed_while_mapped && self.mapped;
                self.object_live = false;
                Some(Event::Destroyed)
            }
            Action::UnloadModule => {
                self.unloads += 1;
                self.mapped = false;
                Some(Event::Unloaded)
            }
            Action::ReportReady
            | Action::ReportFailure { .. }
            | Action::ReportDisposed
            | Action::Ignore => None,
        }
    }
}

/// Feeds `first` and every follow-up event to the handle; returns the last
/// action, the one that ends the exchange.
fn drive(lc: &mut Lifecycle, module: &mut StubModule, first: Event) -> Action {
    let mut action = lc.step(first);
    while let Some(event) = module.perform(action) {
        action = lc.step(event);
    }
    action
}

#[test]
fn version_zero_module_becomes_ready() {
    let mut lc = Lifecycle::new();
    let mut module = StubModule::version_zero();
    assert_eq!(drive(&mut lc, &mut module, Event::Begin), Action::ReportReady);
    assert_eq!(lc.phase(), Phase::Ready { version: AbiVersion::V0 });
    assert!(lc.is_ready());
    assert_eq!(module.construct_calls, 1);
    assert!(module.mapped);
    assert!(module.object_live);
}

#[test]
fn construction_issues_actions_in_order() {
    let mut lc = Lifecycle::new();
    assert_eq!(lc.step(Event::Begin), Action::OpenModule);
    assert_eq!(lc.phase(), Phase::Opening);
    assert_eq!(lc.step(Event::Opened), Action::Resolve { symbol: Symbol::GetApiVersion });
    assert_eq!(lc.step(Event::SymbolFound), Action::CallProbe);
    assert_eq!(
        lc.step(Event::VersionReported { version: 0 }),
        Action::Resolve { symbol: Symbol::FreeObject }
    );
    assert_eq!(lc.step(Event::SymbolFound), Action::Resolve { symbol: Symbol::GetInfo });
    assert_eq!(lc.step(Event::SymbolFound), Action::Resolve { symbol: Symbol::SetInfo });
    assert_eq!(lc.step(Event::SymbolFound), Action::Resolve { symbol: Symbol::Init });
    assert_eq!(lc.phase(), Phase::Resolving { version: AbiVersion::V0, next: 3 });
    assert_eq!(lc.step(Event::SymbolFound), Action::CallConstruct);
    assert_eq!(lc.phase(), Phase::Constructing { version: AbiVersion::V0 });
    assert_eq!(lc.step(Event::Constructed), Action::ReportReady);
}

#[test]
fn accessors_forward_values_unchanged() {
    let mut lc = Lifecycle::new();
    let mut module = StubModule::version_zero();
    drive(&mut lc, &mut module, Event::Begin);
    for v in [0, 42, -1, i32::MIN, i32::MAX] {
        assert_eq!(lc.step(Event::Write { value: v }), Action::CallSet { value: v });
        assert_eq!(lc.step(Event::Read), Action::CallGet);
    }
    drive(&mut lc, &mut module, Event::Write { value: 42 });
    assert_eq!(module.value, 42);
    assert_eq!(lc.phase(), Phase::Ready { version: AbiVersion::V0 });
}

#[test]
fn destroy_runs_once_and_before_unload() {
    let mut lc = Lifecycle::new();
    let mut module = StubModule::version_zero();
    drive(&mut lc, &mut module, Event::Begin);
    drive(&mut lc, &mut module, Event::Read);
    assert_eq!(drive(&mut lc, &mut module, Event::Dispose), Action::ReportDisposed);
    assert_eq!(lc.phase(), Phase::Disposed);
    assert_eq!(module.destroy_calls, 1);
    assert!(module.destroyed_while_mapped);
    assert_eq!(module.unloads, 1);
    assert!(!module.mapped);
    assert!(!module.object_live);
    assert_eq!(drive(&mut lc, &mut module, Event::Dispose), Action::Ignore);
    assert_eq!(module.destroy_calls, 1);
    assert_eq!(module.unloads, 1);
}

#[test]
fn disposal_order_is_destroy_then_unload() {
    let mut lc = Lifecycle::new();
    let mut module = StubModule::version_zero();
    drive(&mut lc, &mut module, Event::Begin);
    assert_eq!(lc.step(Event::Dispose), Action::CallDestroy);
    assert_eq!(lc.phase(), Phase::Destroying);
    assert_eq!(lc.step(Event::Unloaded), Action::Ignore);
    assert_eq!(lc.step(Event::Destroyed), Action::UnloadModule);
    assert_eq!(lc.phase(), Phase::Unloading { error: None });
    assert_eq!(lc.step(Event::Unloaded), Action::ReportDisposed);
}

#[test]
fn each_missing_symbol_fails_without_constructing() {
    for symbol in [
        Symbol::GetApiVersion,
        Symbol::Init,
        Symbol::FreeObject,
        Symbol::GetInfo,
        Symbol::SetInfo,
    ] {
        let mut lc = Lifecycle::new();
        let mut module = StubModule::without(symbol);
        let error = PluginError::Symbol { name: symbol };
        assert_eq!(
            drive(&mut lc, &mut module, Event::Begin),
            Action::ReportFailure { error }
        );
        assert_eq!(lc.phase(), Phase::Failed { error });
        assert_eq!(module.construct_calls, 0);
        assert_eq!(module.entry_calls, 0);
        assert_eq!(module.unloads, 1);
        assert!(!module.mapped);
    }
}

#[test]
fn unsupported_version_fails_without_entry_calls() {
    let mut lc = Lifecycle::new();
    let mut module = StubModule::version_zero();
    module.version = 7;
    let error = PluginError::UnsupportedVersion { reported: 7 };
    assert_eq!(drive(&mut lc, &mut module, Event::Begin), Action::ReportFailure { error });
    assert_eq!(lc.phase(), Phase::Failed { error });
    assert_eq!(module.entry_calls, 0);
    assert_eq!(module.unloads, 1);
    assert!(!module.mapped);
}

#[test]
fn probe_failure_unloads_before_reporting() {
    let mut lc = Lifecycle::new();
    lc.step(Event::Begin);
    lc.step(Event::Opened);
    lc.step(Event::SymbolFound);
    assert_eq!(lc.step(Event::VersionReported { version: -3 }), Action::UnloadModule);
    let error = PluginError::UnsupportedVersion { reported: -3 };
    assert_eq!(lc.phase(), Phase::Unloading { error: Some(error) });
    assert_eq!(lc.step(Event::Read), Action::Ignore);
    assert_eq!(lc.step(Event::Unloaded), Action::ReportFailure { error });
}

#[test]
fn load_failure_reports_without_unloading() {
    let mut lc = Lifecycle::new();
    let mut module = StubModule::version_zero();
    module.loadable = false;
    assert_eq!(
        drive(&mut lc, &mut module, Event::Begin),
        Action::ReportFailure { error: PluginError::Load }
    );
    assert_eq!(lc.phase(), Phase::Failed { error: PluginError::Load });
    assert_eq!(module.unloads, 0);
    assert_eq!(module.entry_calls, 0);
}

#[test]
fn construct_failure_unloads_module() {
    let mut lc = Lifecycle::new();
    let mut module = StubModule::version_zero();
    module.constructs = false;
    assert_eq!(
        drive(&mut lc, &mut module, Event::Begin),
        Action::ReportFailure { error: PluginError::Construct }
    );
    assert_eq!(module.construct_calls, 1);
    assert_eq!(module.destroy_calls, 0);
    assert_eq!(module.unloads, 1);
    assert!(!module.mapped);
}

#[test]
fn accessors_are_ignored_unless_ready() {
    let mut lc = Lifecycle::new();
    assert!(!lc.is_ready());
    assert_eq!(lc.step(Event::Read), Action::Ignore);
    assert_eq!(lc.step(Event::Write { value: 5 }), Action::Ignore);
    assert_eq!(lc.step(Event::Dispose), Action::Ignore);
    assert_eq!(lc.phase(), Phase::Unloaded);
    let mut module = StubModule::version_zero();
    drive(&mut lc, &mut module, Event::Begin);
    drive(&mut lc, &mut module, Event::Dispose);
    assert_eq!(lc.step(Event::Read), Action::Ignore);
    assert_eq!(lc.step(Event::Write { value: 5 }), Action::Ignore);
    assert_eq!(lc.step(Event::Begin), Action::Ignore);
    assert_eq!(lc.phase(), Phase::Disposed);
}

#[test]
fn failed_handle_stays_failed() {
    let mut lc = Lifecycle::new();
    let mut module = StubModule::without(Symbol::SetInfo);
    drive(&mut lc, &mut module, Event::Begin);
    assert_eq!(lc.step(Event::Begin), Action::Ignore);
    assert_eq!(lc.step(Event::Dispose), Action::Ignore);
    assert_eq!(lc.step(Event::Constructed), Action::Ignore);
    assert_eq!(lc.phase(), Phase::Failed { error: PluginError::Symbol { name: Symbol::SetInfo } });
}

#[test]
fn version_selection() {
    assert_eq!(AbiVersion::from_reported(0), Ok(AbiVersion::V0));
    assert_eq!(
        AbiVersion::from_reported(7),
        Err(PluginError::UnsupportedVersion { reported: 7 })
    );
    assert_eq!(
        AbiVersion::from_reported(i32::MIN),
        Err(PluginError::UnsupportedVersion { reported: i32::MIN })
    );
    let v = AbiVersion::V0;
    assert_eq!(v.required_len(), 4);
    assert_eq!(v.required(0), Symbol::FreeObject);
    assert_eq!(v.required(3), Symbol::Init);
}

#[test]
fn symbol_names_are_the_exported_names() {
    assert_eq!(Symbol::GetApiVersion.name(), "get_api_version");
    assert_eq!(Symbol::Init.name(), "init");
    assert_eq!(Symbol::FreeObject.name(), "free_object");
    assert_eq!(Symbol::GetInfo.name(), "get_info");
    assert_eq!(Symbol::SetInfo.name(), "set_info");
}
