//! What the bootstrap asks its embedder to do, and what the embedder reports
//! back. Native handles travel as addresses; zero is the null handle.

use vstd::prelude::*;

verus! {

/// Address of a loaded library.
pub type LibraryHandle = usize;

/// Address of a resolved entry point.
pub type EntryAddress = usize;

/// Address of the runtime factory.
pub type MetaHostHandle = usize;

/// Address of one resolvable runtime.
pub type RuntimeInfoHandle = usize;

/// Address of the control surface of a runtime.
pub type RuntimeHostHandle = usize;

/// The numeric value of the shared native state; forwarded, never read through.
pub type GlobalStateHandle = u64;

/// The library that hosts the runtime factory.
pub const HOST_LIBRARY: &'static str = "mscoree.dll";

/// The entry point of the hosting library that creates the factory.
pub const CREATION_SYMBOL: &'static str = "CLRCreateInstance";

/// The one runtime version that is ever requested.
pub const RUNTIME_VERSION: &'static str = "v4.0.30319";

/// A request to the embedder. Each is answered by one [`Event`].
#[derive(Debug, PartialEq, Eq)]
pub enum Action {
    /// Resolve the path of the managed payload assembly under `root`.
    ResolvePayloadPath { root: String },
    /// Load the library `name` into the process.
    LoadLibrary { name: String },
    /// Resolve the entry point `name` of the loaded library `module`.
    ResolveSymbol { module: LibraryHandle, name: String },
    /// Call the creation entry point at `entry` for the runtime factory.
    CreateMetaHost { entry: EntryAddress },
    /// Ask the factory for the runtime of exactly `version`.
    GetRuntime { meta_host: MetaHostHandle, version: String },
    /// Ask whether the runtime can be loaded into this process.
    CheckLoadable { runtime_info: RuntimeInfoHandle },
    /// Ask the runtime for its host control interface.
    GetRuntimeHost { runtime_info: RuntimeInfoHandle },
    /// Start the runtime host.
    StartRuntime { runtime_host: RuntimeHostHandle },
    /// Read the current native state handle.
    ReadGlobalState,
    /// Invoke the managed entry point with these four texts, in this order.
    InvokeEntryPoint {
        runtime_host: RuntimeHostHandle,
        assembly_path: String,
        entry_type: String,
        entry_method: String,
        argument: String,
    },
}

/// The mathematical content of an [`Action`].
pub enum ActionView {
    ResolvePayloadPath { root: Seq<char> },
    LoadLibrary { name: Seq<char> },
    ResolveSymbol { module: LibraryHandle, name: Seq<char> },
    CreateMetaHost { entry: EntryAddress },
    GetRuntime { meta_host: MetaHostHandle, version: Seq<char> },
    CheckLoadable { runtime_info: RuntimeInfoHandle },
    GetRuntimeHost { runtime_info: RuntimeInfoHandle },
    StartRuntime { runtime_host: RuntimeHostHandle },
    ReadGlobalState,
    InvokeEntryPoint {
        runtime_host: RuntimeHostHandle,
        assembly_path: Seq<char>,
        entry_type: Seq<char>,
        entry_method: Seq<char>,
        argument: Seq<char>,
    },
}

impl View for Action {
    type V = ActionView;

    open spec fn view(&self) -> ActionView {
        match *self {
            Action::ResolvePayloadPath { root } => ActionView::ResolvePayloadPath { root: root@ },
            Action::LoadLibrary { name } => ActionView::LoadLibrary { name: name@ },
            Action::ResolveSymbol { module, name } => ActionView::ResolveSymbol {
                module,
                name: name@,
            },
            Action::CreateMetaHost { entry } => ActionView::CreateMetaHost { entry },
            Action::GetRuntime { meta_host, version } => ActionView::GetRuntime {
                meta_host,
                version: version@,
            },
            Action::CheckLoadable { runtime_info } => ActionView::CheckLoadable { runtime_info },
            Action::GetRuntimeHost { runtime_info } => ActionView::GetRuntimeHost { runtime_info },
            Action::StartRuntime { runtime_host } => ActionView::StartRuntime { runtime_host },
            Action::ReadGlobalState => ActionView::ReadGlobalState,
            Action::InvokeEntryPoint {
                runtime_host,
                assembly_path,
                entry_type,
                entry_method,
                argument,
            } => ActionView::InvokeEntryPoint {
                runtime_host,
                assembly_path: assembly_path@,
                entry_type: entry_type@,
                entry_method: entry_method@,
                argument: argument@,
            },
        }
    }
}

/// What the embedder reports after it has carried out a request. A `status` is
/// the native status code of the call; zero is success.
#[derive(Debug, PartialEq, Eq)]
pub enum Event {
    /// The payload assembly lies at `path`.
    PayloadLocated { path: String },
    /// The payload path could not be resolved; `message` says why.
    PayloadUnavailable { message: String },
    /// The library was loaded as `module`, or not at all where that is null.
    LibraryLoaded { module: LibraryHandle },
    /// The entry point lies at `entry`, or is missing where that is null.
    SymbolResolved { entry: EntryAddress },
    /// The creation entry point returned.
    MetaHostCreated { status: i32, meta_host: MetaHostHandle },
    /// The factory answered the request for the runtime.
    RuntimeObtained { status: i32, runtime_info: RuntimeInfoHandle },
    /// The runtime answered the loadability query.
    LoadabilityChecked { status: i32, loadable: bool },
    /// The runtime answered the interface query.
    RuntimeHostObtained { status: i32, runtime_host: RuntimeHostHandle },
    /// The start call returned.
    RuntimeStarted { status: i32 },
    /// The native state handle is `global_state`.
    GlobalStateRead { global_state: GlobalStateHandle },
    /// The entry point call returned; `return_code` is what the entry point gave.
    EntryPointReturned { status: i32, return_code: u32 },
}

/// The mathematical content of an [`Event`].
pub enum EventView {
    PayloadLocated { path: Seq<char> },
    PayloadUnavailable { message: Seq<char> },
    LibraryLoaded { module: LibraryHandle },
    SymbolResolved { entry: EntryAddress },
    MetaHostCreated { status: i32, meta_host: MetaHostHandle },
    RuntimeObtained { status: i32, runtime_info: RuntimeInfoHandle },
    LoadabilityChecked { status: i32, loadable: bool },
    RuntimeHostObtained { status: i32, runtime_host: RuntimeHostHandle },
    RuntimeStarted { status: i32 },
    GlobalStateRead { global_state: GlobalStateHandle },
    EntryPointReturned { status: i32, return_code: u32 },
}

impl View for Event {
    type V = EventView;

    open spec fn view(&self) -> EventView {
        match *self {
            Event::PayloadLocated { path } => EventView::PayloadLocated { path: path@ },
            Event::PayloadUnavailable { message } => EventView::PayloadUnavailable {
                message: message@,
            },
            Event::LibraryLoaded { module } => EventView::LibraryLoaded { module },
            Event::SymbolResolved { entry } => EventView::SymbolResolved { entry },
            Event::MetaHostCreated { status, meta_host } => EventView::MetaHostCreated {
                status,
                meta_host,
            },
            Event::RuntimeObtained { status, runtime_info } => EventView::RuntimeObtained {
                status,
                runtime_info,
            },
            Event::LoadabilityChecked { status, loadable } => EventView::LoadabilityChecked {
                status,
                loadable,
            },
            Event::RuntimeHostObtained { status, runtime_host } => EventView::RuntimeHostObtained {
                status,
                runtime_host,
            },
            Event::RuntimeStarted { status } => EventView::RuntimeStarted { status },
            Event::GlobalStateRead { global_state } => EventView::GlobalStateRead { global_state },
            Event::EntryPointReturned { status, return_code } => EventView::EntryPointReturned {
                status,
                return_code,
            },
        }
    }
}

} // verus!
