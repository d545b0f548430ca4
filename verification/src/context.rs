//! The execution-context tag that selects the managed-side initialisation path.

use vstd::prelude::*;

verus! {

/// Which managed-side initialisation path a build asks for.
#[derive(Clone, Copy, Debug, PartialEq, Eq, Structural)]
pub enum RunMode {
    /// The managed side is driven by a test harness.
    Harness,
    /// The managed side is driven by the rendering hook.
    HookTarget,
}

/// The characters of the tag that belongs to `mode`.
pub open spec fn context_tag(mode: RunMode) -> Seq<char> {
    match mode {
        RunMode::Harness => "mm_native"@,
        RunMode::HookTarget => "d3d9"@,
    }
}

/// The tag for `mode`.
pub fn run_context_for(mode: RunMode) -> (tag: &'static str)
    ensures
        tag@ == context_tag(mode),
{
    match mode {
        RunMode::Harness => "mm_native",
        RunMode::HookTarget => "d3d9",
    }
}

/// The tag of a hook-target build, the mode this library is built for.
pub fn get_run_context() -> (tag: &'static str)
    ensures
        tag@ == context_tag(RunMode::HookTarget),
{
    run_context_for(RunMode::HookTarget)
}

} // verus!
