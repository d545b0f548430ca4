//! The bootstrap as mathematics: ten stages in a fixed order, what each of
//! them holds and requests, and how an answer moves the bootstrap on or ends it.

use crate::error::{
    configuration_error, entry_point_invocation_failed, host_creation_failed,
    interface_query_failed, library_load_error, null_instance_error, path_resolution_error,
    runtime_not_found, runtime_not_loadable, runtime_start_failed, symbol_resolution_error,
    ErrorKind, ErrorView,
};
use crate::handoff::{handoff_argument, ENTRY_METHOD, ENTRY_TYPE};
use crate::protocol::{
    ActionView, EntryAddress, EventView, LibraryHandle, MetaHostHandle, RuntimeHostHandle,
    RuntimeInfoHandle, CREATION_SYMBOL, HOST_LIBRARY, RUNTIME_VERSION,
};
use vstd::prelude::*;

verus! {

/// The stages of a bootstrap, in the order in which they are passed.
#[derive(Clone, Copy, Debug, PartialEq, Eq, Structural)]
pub enum Stage {
    /// Waiting for the path of the managed payload assembly.
    ResolvingPayload,
    /// Waiting for the hosting library to be loaded.
    LoadingLibrary,
    /// Waiting for the creation entry point of the hosting library.
    ResolvingSymbol,
    /// Waiting for the runtime factory.
    CreatingMetaHost,
    /// Waiting for the runtime of the requested version.
    RequestingRuntime,
    /// Waiting for the answer whether the runtime can be loaded.
    CheckingLoadability,
    /// Waiting for the host control interface of the runtime.
    QueryingRuntimeHost,
    /// Waiting for the runtime host to start.
    StartingRuntime,
    /// Waiting for the native state handle.
    ReadingGlobalState,
    /// Waiting for the managed entry point to return.
    InvokingEntryPoint,
}

impl Stage {
    /// The position of the stage in the pipeline, from zero.
    pub open spec fn index(self) -> nat {
        match self {
            Stage::ResolvingPayload => 0,
            Stage::LoadingLibrary => 1,
            Stage::ResolvingSymbol => 2,
            Stage::CreatingMetaHost => 3,
            Stage::RequestingRuntime => 4,
            Stage::CheckingLoadability => 5,
            Stage::QueryingRuntimeHost => 6,
            Stage::StartingRuntime => 7,
            Stage::ReadingGlobalState => 8,
            Stage::InvokingEntryPoint => 9,
        }
    }
}

/// How far the runtime host controller has come.
#[derive(Clone, Copy, Debug, PartialEq, Eq, Structural)]
pub enum HostState {
    /// No runtime host handle exists yet.
    Uninitialized,
    /// The runtime host handle exists; the host has not been started.
    InterfaceResolved,
    /// The host has been started.
    Started,
}

impl HostState {
    /// The position of the state on the one-way path of the controller.
    pub open spec fn index(self) -> nat {
        match self {
            HostState::Uninitialized => 0,
            HostState::InterfaceResolved => 1,
            HostState::Started => 2,
        }
    }
}

/// The mathematical content of a [`crate::bootstrap::Bootstrap`]: the stage, and with it exactly
/// what that stage holds. No stage holds more than one handle of a kind.
pub enum BootstrapView {
    ResolvingPayload { root: Seq<char>, context: Seq<char> },
    LoadingLibrary { payload: Seq<char>, context: Seq<char> },
    ResolvingSymbol { module: LibraryHandle, payload: Seq<char>, context: Seq<char> },
    CreatingMetaHost { entry: EntryAddress, payload: Seq<char>, context: Seq<char> },
    RequestingRuntime { meta_host: MetaHostHandle, payload: Seq<char>, context: Seq<char> },
    CheckingLoadability {
        meta_host: MetaHostHandle,
        runtime_info: RuntimeInfoHandle,
        payload: Seq<char>,
        context: Seq<char>,
    },
    QueryingRuntimeHost {
        meta_host: MetaHostHandle,
        runtime_info: RuntimeInfoHandle,
        payload: Seq<char>,
        context: Seq<char>,
    },
    StartingRuntime {
        meta_host: MetaHostHandle,
        runtime_info: RuntimeInfoHandle,
        runtime_host: RuntimeHostHandle,
        payload: Seq<char>,
        context: Seq<char>,
    },
    ReadingGlobalState {
        meta_host: MetaHostHandle,
        runtime_info: RuntimeInfoHandle,
        runtime_host: RuntimeHostHandle,
        payload: Seq<char>,
        context: Seq<char>,
    },
    InvokingEntryPoint {
        meta_host: MetaHostHandle,
        runtime_info: RuntimeInfoHandle,
        runtime_host: RuntimeHostHandle,
        payload: Seq<char>,
        argument: Seq<char>,
    },
}

impl BootstrapView {
    /// The stage the bootstrap is in.
    pub open spec fn stage(self) -> Stage {
        match self {
            BootstrapView::ResolvingPayload { .. } => Stage::ResolvingPayload,
            BootstrapView::LoadingLibrary { .. } => Stage::LoadingLibrary,
            BootstrapView::ResolvingSymbol { .. } => Stage::ResolvingSymbol,
            BootstrapView::CreatingMetaHost { .. } => Stage::CreatingMetaHost,
            BootstrapView::RequestingRuntime { .. } => Stage::RequestingRuntime,
            BootstrapView::CheckingLoadability { .. } => Stage::CheckingLoadability,
            BootstrapView::QueryingRuntimeHost { .. } => Stage::QueryingRuntimeHost,
            BootstrapView::StartingRuntime { .. } => Stage::StartingRuntime,
            BootstrapView::ReadingGlobalState { .. } => Stage::ReadingGlobalState,
            BootstrapView::InvokingEntryPoint { .. } => Stage::InvokingEntryPoint,
        }
    }

    /// How far the runtime host controller has come in this stage.
    pub open spec fn host_state(self) -> HostState {
        match self {
            BootstrapView::StartingRuntime { .. } => HostState::InterfaceResolved,
            BootstrapView::ReadingGlobalState { .. } => HostState::Started,
            BootstrapView::InvokingEntryPoint { .. } => HostState::Started,
            _ => HostState::Uninitialized,
        }
    }

    /// The interface handles that the bootstrap has obtained and not yet
    /// handed back, newest first.
    pub open spec fn held(self) -> Seq<usize> {
        match self {
            BootstrapView::RequestingRuntime { meta_host, .. } => seq![meta_host],
            BootstrapView::CheckingLoadability { meta_host, runtime_info, .. } => seq![
                runtime_info,
                meta_host,
            ],
            BootstrapView::QueryingRuntimeHost { meta_host, runtime_info, .. } => seq![
                runtime_info,
                meta_host,
            ],
            BootstrapView::StartingRuntime { meta_host, runtime_info, runtime_host, .. } => seq![
                runtime_host,
                runtime_info,
                meta_host,
            ],
            BootstrapView::ReadingGlobalState {
                meta_host,
                runtime_info,
                runtime_host,
                ..
            } => seq![runtime_host, runtime_info, meta_host],
            BootstrapView::InvokingEntryPoint {
                meta_host,
                runtime_info,
                runtime_host,
                ..
            } => seq![runtime_host, runtime_info, meta_host],
            _ => Seq::empty(),
        }
    }

    /// No handle that the stage holds is null.
    pub open spec fn live(self) -> bool {
        match self {
            BootstrapView::ResolvingPayload { .. } => true,
            BootstrapView::LoadingLibrary { .. } => true,
            BootstrapView::ResolvingSymbol { module, .. } => module != 0,
            BootstrapView::CreatingMetaHost { entry, .. } => entry != 0,
            BootstrapView::RequestingRuntime { meta_host, .. } => meta_host != 0,
            BootstrapView::CheckingLoadability { meta_host, runtime_info, .. } => meta_host != 0
                && runtime_info != 0,
            BootstrapView::QueryingRuntimeHost { meta_host, runtime_info, .. } => meta_host != 0
                && runtime_info != 0,
            BootstrapView::StartingRuntime {
                meta_host,
                runtime_info,
                runtime_host,
                ..
            } => meta_host != 0 && runtime_info != 0 && runtime_host != 0,
            BootstrapView::ReadingGlobalState {
                meta_host,
                runtime_info,
                runtime_host,
                ..
            } => meta_host != 0 && runtime_info != 0 && runtime_host != 0,
            BootstrapView::InvokingEntryPoint {
                meta_host,
                runtime_info,
                runtime_host,
                ..
            } => meta_host != 0 && runtime_info != 0 && runtime_host != 0,
        }
    }

    /// The request that is pending in this stage.
    pub open spec fn request(self) -> ActionView {
        match self {
            BootstrapView::ResolvingPayload { root, .. } => ActionView::ResolvePayloadPath { root },
            BootstrapView::LoadingLibrary { .. } => ActionView::LoadLibrary { name: HOST_LIBRARY@ },
            BootstrapView::ResolvingSymbol { module, .. } => ActionView::ResolveSymbol {
                module,
                name: CREATION_SYMBOL@,
            },
            BootstrapView::CreatingMetaHost { entry, .. } => ActionView::CreateMetaHost { entry },
            BootstrapView::RequestingRuntime { meta_host, .. } => ActionView::GetRuntime {
                meta_host,
                version: RUNTIME_VERSION@,
            },
            BootstrapView::CheckingLoadability { runtime_info, .. } => ActionView::CheckLoadable {
                runtime_info,
            },
            BootstrapView::QueryingRuntimeHost { runtime_info, .. } => ActionView::GetRuntimeHost {
                runtime_info,
            },
            BootstrapView::StartingRuntime { runtime_host, .. } => ActionView::StartRuntime {
                runtime_host,
            },
            BootstrapView::ReadingGlobalState { .. } => ActionView::ReadGlobalState,
            BootstrapView::InvokingEntryPoint {
                runtime_host,
                payload,
                argument,
                ..
            } => ActionView::InvokeEntryPoint {
                runtime_host,
                assembly_path: payload,
                entry_type: ENTRY_TYPE@,
                entry_method: ENTRY_METHOD@,
                argument,
            },
        }
    }

    /// `event` is an answer to the request that is pending in this stage.
    pub open spec fn answered_by(self, event: EventView) -> bool {
        match self {
            BootstrapView::ResolvingPayload { .. } => event is PayloadLocated
                || event is PayloadUnavailable,
            BootstrapView::LoadingLibrary { .. } => event is LibraryLoaded,
            BootstrapView::ResolvingSymbol { .. } => event is SymbolResolved,
            BootstrapView::CreatingMetaHost { .. } => event is MetaHostCreated,
            BootstrapView::RequestingRuntime { .. } => event is RuntimeObtained,
            BootstrapView::CheckingLoadability { .. } => event is LoadabilityChecked,
            BootstrapView::QueryingRuntimeHost { .. } => event is RuntimeHostObtained,
            BootstrapView::StartingRuntime { .. } => event is RuntimeStarted,
            BootstrapView::ReadingGlobalState { .. } => event is GlobalStateRead,
            BootstrapView::InvokingEntryPoint { .. } => event is EntryPointReturned,
        }
    }
}

/// The stage in which `action` is requested.
pub open spec fn request_stage(action: ActionView) -> Stage {
    match action {
        ActionView::ResolvePayloadPath { .. } => Stage::ResolvingPayload,
        ActionView::LoadLibrary { .. } => Stage::LoadingLibrary,
        ActionView::ResolveSymbol { .. } => Stage::ResolvingSymbol,
        ActionView::CreateMetaHost { .. } => Stage::CreatingMetaHost,
        ActionView::GetRuntime { .. } => Stage::RequestingRuntime,
        ActionView::CheckLoadable { .. } => Stage::CheckingLoadability,
        ActionView::GetRuntimeHost { .. } => Stage::QueryingRuntimeHost,
        ActionView::StartRuntime { .. } => Stage::StartingRuntime,
        ActionView::ReadGlobalState => Stage::ReadingGlobalState,
        ActionView::InvokeEntryPoint { .. } => Stage::InvokingEntryPoint,
    }
}

/// The stage in which a failure of `kind` arises; a missing root path is found
/// before the first stage.
pub open spec fn failure_stage(kind: ErrorKind) -> Option<Stage> {
    match kind {
        ErrorKind::ConfigurationError => None,
        ErrorKind::PathResolutionError => Some(Stage::ResolvingPayload),
        ErrorKind::LibraryLoadError => Some(Stage::LoadingLibrary),
        ErrorKind::SymbolResolutionError => Some(Stage::ResolvingSymbol),
        ErrorKind::HostCreationFailed => Some(Stage::CreatingMetaHost),
        ErrorKind::NullInstanceError => Some(Stage::CreatingMetaHost),
        ErrorKind::RuntimeNotFound => Some(Stage::RequestingRuntime),
        ErrorKind::RuntimeNotLoadable => Some(Stage::CheckingLoadability),
        ErrorKind::InterfaceQueryFailed => Some(Stage::QueryingRuntimeHost),
        ErrorKind::RuntimeStartFailed => Some(Stage::StartingRuntime),
        ErrorKind::EntryPointInvocationFailed => Some(Stage::InvokingEntryPoint),
    }
}

/// The mathematical content of a [`crate::bootstrap::Step`].
pub enum StepView {
    Continue(BootstrapView),
    Done { outcome: Result<u32, ErrorView>, release: Seq<usize> },
}

/// A bootstrap in `state` is over with the failure `error`.
pub open spec fn failed(state: BootstrapView, error: ErrorView) -> StepView {
    StepView::Done { outcome: Err(error), release: state.held() }
}

/// How a bootstrap starts. Without a root path it is over at once, before
/// anything is requested; with one it waits for the payload path.
pub open spec fn first_step(root: Option<Seq<char>>, context: Seq<char>) -> StepView {
    match root {
        None => StepView::Done { outcome: Err(configuration_error()), release: Seq::empty() },
        Some(root) => StepView::Continue(BootstrapView::ResolvingPayload { root, context }),
    }
}

/// How a bootstrap in `state` goes on when `event` is reported.
///
/// An answer to the pending request is judged: on success the bootstrap enters
/// the next stage with what the answer brought, and after the last stage it is
/// done with the return code of the entry point; on failure it is done with the
/// error of that stage. A bootstrap that is done hands back the interface
/// handles it holds, for release. An event that is no answer to the pending
/// request changes nothing.
pub open spec fn next_step(state: BootstrapView, event: EventView) -> StepView {
    match (state, event) {
        (
            BootstrapView::ResolvingPayload { root, context },
            EventView::PayloadLocated { path },
        ) => StepView::Continue(BootstrapView::LoadingLibrary { payload: path, context }),
        (
            BootstrapView::ResolvingPayload { root, context },
            EventView::PayloadUnavailable { message },
        ) => failed(state, path_resolution_error(message)),
        (
            BootstrapView::LoadingLibrary { payload, context },
            EventView::LibraryLoaded { module },
        ) => if module == 0 {
            failed(state, library_load_error())
        } else {
            StepView::Continue(BootstrapView::ResolvingSymbol { module, payload, context })
        },
        (
            BootstrapView::ResolvingSymbol { module, payload, context },
            EventView::SymbolResolved { entry },
        ) => if entry == 0 {
            failed(state, symbol_resolution_error())
        } else {
            StepView::Continue(BootstrapView::CreatingMetaHost { entry, payload, context })
        },
        (
            BootstrapView::CreatingMetaHost { entry, payload, context },
            EventView::MetaHostCreated { status, meta_host },
        ) => if status != 0 {
            failed(state, host_creation_failed(status))
        } else if meta_host == 0 {
            failed(state, null_instance_error())
        } else {
            StepView::Continue(BootstrapView::RequestingRuntime { meta_host, payload, context })
        },
        (
            BootstrapView::RequestingRuntime { meta_host, payload, context },
            EventView::RuntimeObtained { status, runtime_info },
        ) => if status != 0 || runtime_info == 0 {
            failed(state, runtime_not_found(status))
        } else {
            StepView::Continue(
                BootstrapView::CheckingLoadability { meta_host, runtime_info, payload, context },
            )
        },
        (
            BootstrapView::CheckingLoadability { meta_host, runtime_info, payload, context },
            EventView::LoadabilityChecked { status, loadable },
        ) => if status != 0 || !loadable {
            failed(state, runtime_not_loadable(status))
        } else {
            StepView::Continue(
                BootstrapView::QueryingRuntimeHost { meta_host, runtime_info, payload, context },
            )
        },
        (
            BootstrapView::QueryingRuntimeHost { meta_host, runtime_info, payload, context },
            EventView::RuntimeHostObtained { status, runtime_host },
        ) => if status != 0 || runtime_host == 0 {
            failed(state, interface_query_failed(status))
        } else {
            StepView::Continue(
                BootstrapView::StartingRuntime {
                    meta_host,
                    runtime_info,
                    runtime_host,
                    payload,
                    context,
                },
            )
        },
        (
            BootstrapView::StartingRuntime {
                meta_host,
                runtime_info,
                runtime_host,
                payload,
                context,
            },
            EventView::RuntimeStarted { status },
        ) => if status != 0 {
            failed(state, runtime_start_failed(status))
        } else {
            StepView::Continue(
                BootstrapView::ReadingGlobalState {
                    meta_host,
                    runtime_info,
                    runtime_host,
                    payload,
                    context,
                },
            )
        },
        (
            BootstrapView::ReadingGlobalState {
                meta_host,
                runtime_info,
                runtime_host,
                payload,
                context,
            },
            EventView::GlobalStateRead { global_state },
        ) => StepView::Continue(
            BootstrapView::InvokingEntryPoint {
                meta_host,
                runtime_info,
                runtime_host,
                payload,
                argument: handoff_argument(global_state, context),
            },
        ),
        (
            BootstrapView::InvokingEntryPoint { .. },
            EventView::EntryPointReturned { status, return_code },
        ) => if status != 0 {
            failed(state, entry_point_invocation_failed(status))
        } else {
            StepView::Done { outcome: Ok(return_code), release: state.held() }
        },
        _ => StepView::Continue(state),
    }
}

} // verus!
