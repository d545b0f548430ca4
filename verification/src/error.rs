//! The failures a bootstrap can end in.

use crate::render::{
    hexadecimal, render_status_decimal, render_status_hex, signed_decimal, twos_complement,
};
use vstd::prelude::*;
use vstd::string::*;

verus! {

/// The kind of a bootstrap failure.
#[derive(Clone, Copy, Debug, PartialEq, Eq, Structural)]
pub enum ErrorKind {
    /// No root path was configured.
    ConfigurationError,
    /// The path of the managed payload assembly could not be resolved.
    PathResolutionError,
    /// The hosting library could not be loaded.
    LibraryLoadError,
    /// The hosting library lacks the creation entry point.
    SymbolResolutionError,
    /// The creation entry point reported a failure status.
    HostCreationFailed,
    /// The creation entry point reported success and gave no factory.
    NullInstanceError,
    /// The factory does not offer the requested runtime version.
    RuntimeNotFound,
    /// The runtime cannot be loaded into this process.
    RuntimeNotLoadable,
    /// The runtime does not offer the host control interface.
    InterfaceQueryFailed,
    /// The runtime host did not start.
    RuntimeStartFailed,
    /// The managed entry point could not be invoked.
    EntryPointInvocationFailed,
}

/// A bootstrap failure: its kind, a message for people, and the native status
/// code where a native call reported one.
#[derive(Debug, PartialEq, Eq)]
pub struct BootstrapError {
    pub kind: ErrorKind,
    pub message: String,
    pub code: Option<i32>,
}

/// The mathematical content of a [`BootstrapError`].
pub struct ErrorView {
    pub kind: ErrorKind,
    pub message: Seq<char>,
    pub code: Option<i32>,
}

impl View for BootstrapError {
    type V = ErrorView;

    open spec fn view(&self) -> ErrorView {
        ErrorView { kind: self.kind, message: self.message@, code: self.code }
    }
}

/// The failure of `kind` whose message is the fixed text `message`; it carries
/// `status` when that is a failure status, and no code when it is zero.
pub open spec fn fixed_failure(kind: ErrorKind, message: Seq<char>, status: i32) -> ErrorView {
    ErrorView { kind, message, code: if status == 0 { None } else { Some(status) } }
}

/// No root path was configured.
pub open spec fn configuration_error() -> ErrorView {
    fixed_failure(ErrorKind::ConfigurationError, "No MM Root has been set"@, 0)
}

/// The payload path collaborator failed with `message`, which is kept as it is.
pub open spec fn path_resolution_error(message: Seq<char>) -> ErrorView {
    fixed_failure(ErrorKind::PathResolutionError, message, 0)
}

/// The hosting library could not be loaded.
pub open spec fn library_load_error() -> ErrorView {
    fixed_failure(ErrorKind::LibraryLoadError, "failed to load mscoree.dll"@, 0)
}

/// The hosting library lacks the creation entry point.
pub open spec fn symbol_resolution_error() -> ErrorView {
    fixed_failure(ErrorKind::SymbolResolutionError, "failed to resolve CLRCreateInstance"@, 0)
}

/// The creation entry point reported `status`, which is not zero.
pub open spec fn host_creation_failed(status: i32) -> ErrorView {
    fixed_failure(ErrorKind::HostCreationFailed, "failed to create meta host"@, status)
}

/// The creation entry point reported success and gave a null factory.
pub open spec fn null_instance_error() -> ErrorView {
    fixed_failure(ErrorKind::NullInstanceError, "meta host instance is null"@, 0)
}

/// The factory answered the request for the runtime with `status` and, when
/// that is zero, with a null runtime.
pub open spec fn runtime_not_found(status: i32) -> ErrorView {
    fixed_failure(
        ErrorKind::RuntimeNotFound,
        if status == 0 {
            "runtime instance is null"@
        } else {
            "failed to create runtime"@
        },
        status,
    )
}

/// The loadability query answered with `status` and, when that is zero, with
/// "not loadable".
pub open spec fn runtime_not_loadable(status: i32) -> ErrorView {
    fixed_failure(
        ErrorKind::RuntimeNotLoadable,
        if status == 0 {
            "runtime is not loadable"@
        } else {
            "failed to check loadability"@
        },
        status,
    )
}

/// The interface query answered with `status` and, when that is zero, with a
/// null runtime host.
pub open spec fn interface_query_failed(status: i32) -> ErrorView {
    fixed_failure(
        ErrorKind::InterfaceQueryFailed,
        if status == 0 {
            "runtime host instance is null"@
        } else {
            "failed to query runtime host"@
        },
        status,
    )
}

/// The start call reported `status`; the message ends in `status` in base ten.
pub open spec fn runtime_start_failed(status: i32) -> ErrorView {
    ErrorView {
        kind: ErrorKind::RuntimeStartFailed,
        message: "failed to start clr, HRESULT: "@ + signed_decimal(status as int),
        code: Some(status),
    }
}

/// The entry point call reported `status`; the message ends in the 32 bits of
/// `status` in base sixteen.
pub open spec fn entry_point_invocation_failed(status: i32) -> ErrorView {
    ErrorView {
        kind: ErrorKind::EntryPointInvocationFailed,
        message: "failed to start clr, HRESULT: "@ + hexadecimal(twos_complement(status)),
        code: Some(status),
    }
}

impl BootstrapError {
    /// A failure of `kind` with the message `message`; it carries `status`
    /// unless that is zero.
    fn fixed(kind: ErrorKind, message: &str, status: i32) -> (error: BootstrapError)
        ensures
            error@ == fixed_failure(kind, message@, status),
    {
        BootstrapError {
            kind,
            message: String::from_str(message),
            code: if status == 0 {
                None
            } else {
                Some(status)
            },
        }
    }

    pub(crate) fn configuration() -> (error: BootstrapError)
        ensures
            error@ == configuration_error(),
    {
        BootstrapError::fixed(ErrorKind::ConfigurationError, "No MM Root has been set", 0)
    }

    pub(crate) fn path_resolution(message: String) -> (error: BootstrapError)
        ensures
            error@ == path_resolution_error(message@),
    {
        BootstrapError { kind: ErrorKind::PathResolutionError, message, code: None }
    }

    pub(crate) fn library_load() -> (error: BootstrapError)
        ensures
            error@ == library_load_error(),
    {
        BootstrapError::fixed(ErrorKind::LibraryLoadError, "failed to load mscoree.dll", 0)
    }

    pub(crate) fn symbol_resolution() -> (error: BootstrapError)
        ensures
            error@ == symbol_resolution_error(),
    {
        BootstrapError::fixed(
            ErrorKind::SymbolResolutionError,
            "failed to resolve CLRCreateInstance",
            0,
        )
    }

    pub(crate) fn host_creation(status: i32) -> (error: BootstrapError)
        ensures
            error@ == host_creation_failed(status),
    {
        BootstrapError::fixed(ErrorKind::HostCreationFailed, "failed to create meta host", status)
    }

    pub(crate) fn null_instance() -> (error: BootstrapError)
        ensures
            error@ == null_instance_error(),
    {
        BootstrapError::fixed(ErrorKind::NullInstanceError, "meta host instance is null", 0)
    }

    pub(crate) fn runtime_missing(status: i32) -> (error: BootstrapError)
        ensures
            error@ == runtime_not_found(status),
    {
        if status == 0 {
            BootstrapError::fixed(ErrorKind::RuntimeNotFound, "runtime instance is null", status)
        } else {
            BootstrapError::fixed(ErrorKind::RuntimeNotFound, "failed to create runtime", status)
        }
    }

    pub(crate) fn not_loadable(status: i32) -> (error: BootstrapError)
        ensures
            error@ == runtime_not_loadable(status),
    {
        if status == 0 {
            BootstrapError::fixed(ErrorKind::RuntimeNotLoadable, "runtime is not loadable", status)
        } else {
            BootstrapError::fixed(
                ErrorKind::RuntimeNotLoadable,
                "failed to check loadability",
                status,
            )
        }
    }

    pub(crate) fn interface_query(status: i32) -> (error: BootstrapError)
        ensures
            error@ == interface_query_failed(status),
    {
        if status == 0 {
            BootstrapError::fixed(
                ErrorKind::InterfaceQueryFailed,
                "runtime host instance is null",
                status,
            )
        } else {
            BootstrapError::fixed(
                ErrorKind::InterfaceQueryFailed,
                "failed to query runtime host",
                status,
            )
        }
    }

    pub(crate) fn start_failed(status: i32) -> (error: BootstrapError)
        ensures
            error@ == runtime_start_failed(status),
    {
        let mut message = String::from_str("failed to start clr, HRESULT: ");
        let code = render_status_decimal(status);
        message.append(code.as_str());
        BootstrapError { kind: ErrorKind::RuntimeStartFailed, message, code: Some(status) }
    }

    pub(crate) fn invocation_failed(status: i32) -> (error: BootstrapError)
        ensures
            error@ == entry_point_invocation_failed(status),
    {
        let mut message = String::from_str("failed to start clr, HRESULT: ");
        let code = render_status_hex(status);
        message.append(code.as_str());
        BootstrapError { kind: ErrorKind::EntryPointInvocationFailed, message, code: Some(status) }
    }
}

} // verus!
