//! The bootstrap as a state machine that an embedder drives: it asks for the
//! pending request, carries it out, and reports what came back. Nothing is
//! retried, and nothing is kept from one bootstrap to the next.

use crate::context::{context_tag, get_run_context, RunMode};
use crate::error::BootstrapError;
use crate::handoff::{build_handoff_argument, ENTRY_METHOD, ENTRY_TYPE};
use crate::model::{first_step, next_step, BootstrapView, HostState, Stage, StepView};
use crate::protocol::{
    Action, EntryAddress, Event, LibraryHandle, MetaHostHandle, RuntimeHostHandle,
    RuntimeInfoHandle, CREATION_SYMBOL, HOST_LIBRARY, RUNTIME_VERSION,
};
use vstd::prelude::*;
use vstd::string::*;

verus! {

/// What a stage holds, in executable form.
#[derive(Debug)]
enum Phase {
    ResolvingPayload { root: String, context: String },
    LoadingLibrary { payload: String, context: String },
    ResolvingSymbol { module: LibraryHandle, payload: String, context: String },
    CreatingMetaHost { entry: EntryAddress, payload: String, context: String },
    RequestingRuntime { meta_host: MetaHostHandle, payload: String, context: String },
    CheckingLoadability {
        meta_host: MetaHostHandle,
        runtime_info: RuntimeInfoHandle,
        payload: String,
        context: String,
    },
    QueryingRuntimeHost {
        meta_host: MetaHostHandle,
        runtime_info: RuntimeInfoHandle,
        payload: String,
        context: String,
    },
    StartingRuntime {
        meta_host: MetaHostHandle,
        runtime_info: RuntimeInfoHandle,
        runtime_host: RuntimeHostHandle,
        payload: String,
        context: String,
    },
    ReadingGlobalState {
        meta_host: MetaHostHandle,
        runtime_info: RuntimeInfoHandle,
        runtime_host: RuntimeHostHandle,
        payload: String,
        context: String,
    },
    InvokingEntryPoint {
        meta_host: MetaHostHandle,
        runtime_info: RuntimeInfoHandle,
        runtime_host: RuntimeHostHandle,
        payload: String,
        argument: String,
    },
}

impl View for Phase {
    type V = BootstrapView;

    closed spec fn view(&self) -> BootstrapView {
        match *self {
            Phase::ResolvingPayload { root, context } => BootstrapView::ResolvingPayload {
                root: root@,
                context: context@,
            },
            Phase::LoadingLibrary { payload, context } => BootstrapView::LoadingLibrary {
                payload: payload@,
                context: context@,
            },
            Phase::ResolvingSymbol { module, payload, context } => BootstrapView::ResolvingSymbol {
                module,
                payload: payload@,
                context: context@,
            },
            Phase::CreatingMetaHost { entry, payload, context } => BootstrapView::CreatingMetaHost {
                entry,
                payload: payload@,
                context: context@,
            },
            Phase::RequestingRuntime {
                meta_host,
                payload,
                context,
            } => BootstrapView::RequestingRuntime {
                meta_host,
                payload: payload@,
                context: context@,
            },
            Phase::CheckingLoadability {
                meta_host,
                runtime_info,
                payload,
                context,
            } => BootstrapView::CheckingLoadability {
                meta_host,
                runtime_info,
                payload: payload@,
                context: context@,
            },
            Phase::QueryingRuntimeHost {
                meta_host,
                runtime_info,
                payload,
                context,
            } => BootstrapView::QueryingRuntimeHost {
                meta_host,
                runtime_info,
                payload: payload@,
                context: context@,
            },
            Phase::StartingRuntime {
                meta_host,
                runtime_info,
                runtime_host,
                payload,
                context,
            } => BootstrapView::StartingRuntime {
                meta_host,
                runtime_info,
                runtime_host,
                payload: payload@,
                context: context@,
            },
            Phase::ReadingGlobalState {
                meta_host,
                runtime_info,
                runtime_host,
                payload,
                context,
            } => BootstrapView::ReadingGlobalState {
                meta_host,
                runtime_info,
                runtime_host,
                payload: payload@,
                context: context@,
            },
            Phase::InvokingEntryPoint {
                meta_host,
                runtime_info,
                runtime_host,
                payload,
                argument,
            } => BootstrapView::InvokingEntryPoint {
                meta_host,
                runtime_info,
                runtime_host,
                payload: payload@,
                argument: argument@,
            },
        }
    }
}

impl Phase {
    /// The interface handles that the stage holds, newest first.
    fn held(&self) -> (handles: Vec<usize>)
        ensures
            handles@ == self@.held(),
    {
        match self {
            Phase::RequestingRuntime { meta_host, .. } => vec![*meta_host],
            Phase::CheckingLoadability { meta_host, runtime_info, .. } => {
                vec![*runtime_info, *meta_host]
            },
            Phase::QueryingRuntimeHost { meta_host, runtime_info, .. } => {
                vec![*runtime_info, *meta_host]
            },
            Phase::StartingRuntime { meta_host, runtime_info, runtime_host, .. } => {
                vec![*runtime_host, *runtime_info, *meta_host]
            },
            Phase::ReadingGlobalState { meta_host, runtime_info, runtime_host, .. } => {
                vec![*runtime_host, *runtime_info, *meta_host]
            },
            Phase::InvokingEntryPoint { meta_host, runtime_info, runtime_host, .. } => {
                vec![*runtime_host, *runtime_info, *meta_host]
            },
            _ => Vec::new(),
        }
    }
}

/// A bootstrap under way. Only [`Bootstrap::begin`] makes one, so every
/// bootstrap starts without a handle and holds only handles that were reported
/// to it.
#[derive(Debug)]
pub struct Bootstrap {
    phase: Phase,
}

impl View for Bootstrap {
    type V = BootstrapView;

    closed spec fn view(&self) -> BootstrapView {
        self.phase@
    }
}

/// Where a bootstrap stands after a call: under way, or over.
///
/// A bootstrap that is over has an outcome, which for one that led to the
/// entry point is the entry point's return code, and it hands back the
/// interface handles that it held, newest first: they are the embedder's to
/// release, on success as on failure.
#[derive(Debug)]
pub enum Step {
    Continue(Bootstrap),
    Done { outcome: Result<u32, BootstrapError>, release: Vec<usize> },
}

impl View for Step {
    type V = StepView;

    open spec fn view(&self) -> StepView {
        match *self {
            Step::Continue(state) => StepView::Continue(state@),
            Step::Done { outcome: Ok(code), release } => StepView::Done {
                outcome: Ok(code),
                release: release@,
            },
            Step::Done { outcome: Err(error), release } => StepView::Done {
                outcome: Err(error@),
                release: release@,
            },
        }
    }
}

impl Bootstrap {
    #[verifier::type_invariant]
    spec fn handles_live(self) -> bool {
        self@.live()
    }

    /// Starts a bootstrap for the configured root path and the context tag.
    /// Without a root path it is over before anything is requested.
    pub fn begin(root: &Option<String>, context: &str) -> (step: Step)
        ensures
            step@ == first_step(root.deep_view(), context@),
    {
        match root {
            None => Step::Done {
                outcome: Err(BootstrapError::configuration()),
                release: Vec::new(),
            },
            Some(root) => Step::Continue(
                Bootstrap {
                    phase: Phase::ResolvingPayload {
                        root: root.clone(),
                        context: String::from_str(context),
                    },
                },
            ),
        }
    }

    /// The stage the bootstrap is in.
    pub fn stage(&self) -> (stage: Stage)
        ensures
            stage == self@.stage(),
    {
        match &self.phase {
            Phase::ResolvingPayload { .. } => Stage::ResolvingPayload,
            Phase::LoadingLibrary { .. } => Stage::LoadingLibrary,
            Phase::ResolvingSymbol { .. } => Stage::ResolvingSymbol,
            Phase::CreatingMetaHost { .. } => Stage::CreatingMetaHost,
            Phase::RequestingRuntime { .. } => Stage::RequestingRuntime,
            Phase::CheckingLoadability { .. } => Stage::CheckingLoadability,
            Phase::QueryingRuntimeHost { .. } => Stage::QueryingRuntimeHost,
            Phase::StartingRuntime { .. } => Stage::StartingRuntime,
            Phase::ReadingGlobalState { .. } => Stage::ReadingGlobalState,
            Phase::InvokingEntryPoint { .. } => Stage::InvokingEntryPoint,
        }
    }

    /// How far the runtime host controller has come.
    pub fn host_state(&self) -> (host: HostState)
        ensures
            host == self@.host_state(),
    {
        match &self.phase {
            Phase::StartingRuntime { .. } => HostState::InterfaceResolved,
            Phase::ReadingGlobalState { .. } => HostState::Started,
            Phase::InvokingEntryPoint { .. } => HostState::Started,
            _ => HostState::Uninitialized,
        }
    }

    /// Whether `event` is an answer to the pending request. Any other event
    /// would be passed over by [`Bootstrap::step`].
    pub fn expects(&self, event: &Event) -> (expected: bool)
        ensures
            expected == self@.answered_by(event@),
    {
        match (&self.phase, event) {
            (Phase::ResolvingPayload { .. }, Event::PayloadLocated { .. }) => true,
            (Phase::ResolvingPayload { .. }, Event::PayloadUnavailable { .. }) => true,
            (Phase::LoadingLibrary { .. }, Event::LibraryLoaded { .. }) => true,
            (Phase::ResolvingSymbol { .. }, Event::SymbolResolved { .. }) => true,
            (Phase::CreatingMetaHost { .. }, Event::MetaHostCreated { .. }) => true,
            (Phase::RequestingRuntime { .. }, Event::RuntimeObtained { .. }) => true,
            (Phase::CheckingLoadability { .. }, Event::LoadabilityChecked { .. }) => true,
            (Phase::QueryingRuntimeHost { .. }, Event::RuntimeHostObtained { .. }) => true,
            (Phase::StartingRuntime { .. }, Event::RuntimeStarted { .. }) => true,
            (Phase::ReadingGlobalState { .. }, Event::GlobalStateRead { .. }) => true,
            (Phase::InvokingEntryPoint { .. }, Event::EntryPointReturned { .. }) => true,
            _ => false,
        }
    }

    /// The request that is pending: what the embedder has to carry out next.
    /// A handle that it names was reported to this bootstrap and is not null.
    pub fn request(&self) -> (action: Action)
        ensures
            action@ == self@.request(),
            self@.live(),
    {
        proof {
            use_type_invariant(self);
        }
        match &self.phase {
            Phase::ResolvingPayload { root, .. } => Action::ResolvePayloadPath {
                root: root.clone(),
            },
            Phase::LoadingLibrary { .. } => Action::LoadLibrary {
                name: String::from_str(HOST_LIBRARY),
            },
            Phase::ResolvingSymbol { module, .. } => Action::ResolveSymbol {
                module: *module,
                name: String::from_str(CREATION_SYMBOL),
            },
            Phase::CreatingMetaHost { entry, .. } => Action::CreateMetaHost { entry: *entry },
            Phase::RequestingRuntime { meta_host, .. } => Action::GetRuntime {
                meta_host: *meta_host,
                version: String::from_str(RUNTIME_VERSION),
            },
            Phase::CheckingLoadability { runtime_info, .. } => Action::CheckLoadable {
                runtime_info: *runtime_info,
            },
            Phase::QueryingRuntimeHost { runtime_info, .. } => Action::GetRuntimeHost {
                runtime_info: *runtime_info,
            },
            Phase::StartingRuntime { runtime_host, .. } => Action::StartRuntime {
                runtime_host: *runtime_host,
            },
            Phase::ReadingGlobalState { .. } => Action::ReadGlobalState,
            Phase::InvokingEntryPoint { runtime_host, payload, argument, .. } => {
                Action::InvokeEntryPoint {
                    runtime_host: *runtime_host,
                    assembly_path: payload.clone(),
                    entry_type: String::from_str(ENTRY_TYPE),
                    entry_method: String::from_str(ENTRY_METHOD),
                    argument: argument.clone(),
                }
            },
        }
    }

    /// Takes the embedder's report `event` and says how the bootstrap goes on.
    /// An event that is no answer to the pending request is passed over: the
    /// bootstrap comes back as it was. A bootstrap that goes on holds no null
    /// handle.
    pub fn step(self, event: Event) -> (next: Step)
        ensures
            next@ == next_step(self@, event@),
            next matches Step::Continue(state) ==> state@.live(),
    {
        proof {
            use_type_invariant(&self);
        }
        let release = self.phase.held();
        match (self.phase, event) {
            (Phase::ResolvingPayload { root, context }, Event::PayloadLocated { path }) => {
                Step::Continue(
                    Bootstrap { phase: Phase::LoadingLibrary { payload: path, context } },
                )
            },
            (Phase::ResolvingPayload { root, context }, Event::PayloadUnavailable { message }) => {
                Step::Done { outcome: Err(BootstrapError::path_resolution(message)), release }
            },
            (Phase::LoadingLibrary { payload, context }, Event::LibraryLoaded { module }) => {
                if module == 0 {
                    Step::Done { outcome: Err(BootstrapError::library_load()), release }
                } else {
                    Step::Continue(
                        Bootstrap { phase: Phase::ResolvingSymbol { module, payload, context } },
                    )
                }
            },
            (
                Phase::ResolvingSymbol { module, payload, context },
                Event::SymbolResolved { entry },
            ) => {
                if entry == 0 {
                    Step::Done { outcome: Err(BootstrapError::symbol_resolution()), release }
                } else {
                    Step::Continue(
                        Bootstrap { phase: Phase::CreatingMetaHost { entry, payload, context } },
                    )
                }
            },
            (
                Phase::CreatingMetaHost { entry, payload, context },
                Event::MetaHostCreated { status, meta_host },
            ) => {
                if status != 0 {
                    Step::Done { outcome: Err(BootstrapError::host_creation(status)), release }
                } else if meta_host == 0 {
                    Step::Done { outcome: Err(BootstrapError::null_instance()), release }
                } else {
                    Step::Continue(
                        Bootstrap {
                            phase: Phase::RequestingRuntime { meta_host, payload, context },
                        },
                    )
                }
            },
            (
                Phase::RequestingRuntime { meta_host, payload, context },
                Event::RuntimeObtained { status, runtime_info },
            ) => {
                if status != 0 || runtime_info == 0 {
                    Step::Done { outcome: Err(BootstrapError::runtime_missing(status)), release }
                } else {
                    Step::Continue(
                        Bootstrap {
                            phase: Phase::CheckingLoadability {
                                meta_host,
                                runtime_info,
                                payload,
                                context,
                            },
                        },
                    )
                }
            },
            (
                Phase::CheckingLoadability { meta_host, runtime_info, payload, context },
                Event::LoadabilityChecked { status, loadable },
            ) => {
                if status != 0 || !loadable {
                    Step::Done { outcome: Err(BootstrapError::not_loadable(status)), release }
                } else {
                    Step::Continue(
                        Bootstrap {
                            phase: Phase::QueryingRuntimeHost {
                                meta_host,
                                runtime_info,
                                payload,
                                context,
                            },
                        },
                    )
                }
            },
            (
                Phase::QueryingRuntimeHost { meta_host, runtime_info, payload, context },
                Event::RuntimeHostObtained { status, runtime_host },
            ) => {
                if status != 0 || runtime_host == 0 {
                    Step::Done { outcome: Err(BootstrapError::interface_query(status)), release }
                } else {
                    Step::Continue(
                        Bootstrap {
                            phase: Phase::StartingRuntime {
                                meta_host,
                                runtime_info,
                                runtime_host,
                                payload,
                                context,
                            },
                        },
                    )
                }
            },
            (
                Phase::StartingRuntime { meta_host, runtime_info, runtime_host, payload, context },
                Event::RuntimeStarted { status },
            ) => {
                if status != 0 {
                    Step::Done { outcome: Err(BootstrapError::start_failed(status)), release }
                } else {
                    Step::Continue(
                        Bootstrap {
                            phase: Phase::ReadingGlobalState {
                                meta_host,
                                runtime_info,
                                runtime_host,
                                payload,
                                context,
                            },
                        },
                    )
                }
            },
            (
                Phase::ReadingGlobalState {
                    meta_host,
                    runtime_info,
                    runtime_host,
                    payload,
                    context,
                },
                Event::GlobalStateRead { global_state },
            ) => {
                let argument = build_handoff_argument(global_state, context.as_str());
                Step::Continue(
                    Bootstrap {
                        phase: Phase::InvokingEntryPoint {
                            meta_host,
                            runtime_info,
                            runtime_host,
                            payload,
                            argument,
                        },
                    },
                )
            },
            (
                Phase::InvokingEntryPoint { .. },
                Event::EntryPointReturned { status, return_code },
            ) => {
                if status != 0 {
                    Step::Done { outcome: Err(BootstrapError::invocation_failed(status)), release }
                } else {
                    Step::Done { outcome: Ok(return_code), release }
                }
            },
            (phase, _) => Step::Continue(Bootstrap { phase }),
        }
    }
}

/// Starts a bootstrap for the configured root path `mm_root`, with the context
/// tag of a hook-target build.
pub fn init_clr(mm_root: &Option<String>) -> (step: Step)
    ensures
        step@ == first_step(mm_root.deep_view(), context_tag(RunMode::HookTarget)),
{
    Bootstrap::begin(mm_root, get_run_context())
}

} // verus!
