use clr_bootstrap::bootstrap::{init_clr, Bootstrap, Step};
use clr_bootstrap::model::{HostState, Stage};
use clr_bootstrap::protocol::{Action, Event};

fn under_way(step: Step) -> Bootstrap {
    match step {
        Step::Continue(state) => state,
        Step::Done { outcome, .. } => panic!("the bootstrap ended early: {:?}", outcome),
    }
}

/// Reports the ten successful answers, with handles that start at `base`, and
/// returns the requests that were pending on the way and the final step.
fn run_to_the_end(
    root: &str,
    context: &str,
    base: usize,
    state_handle: u64,
) -> (Vec<Action>, Step) {
    let answers = vec![
        Event::PayloadLocated { path: format!("{}\\Bin\\MMManaged.dll", root) },
        Event::LibraryLoaded { module: base + 1 },
        Event::SymbolResolved { entry: base + 2 },
        Event::MetaHostCreated { status: 0, meta_host: base + 3 },
        Event::RuntimeObtained { status: 0, runtime_info: base + 4 },
        Event::LoadabilityChecked { status: 0, loadable: true },
        Event::RuntimeHostObtained { status: 0, runtime_host: base + 5 },
        Event::RuntimeStarted { status: 0 },
        Event::GlobalStateRead { global_state: state_handle },
        Event::EntryPointReturned { status: 0, return_code: 0 },
    ];
    let mut requests = Vec::new();
    let mut step = Bootstrap::begin(&Some(root.to_string()), context);
    for answer in answers {
        let state = under_way(step);
        assert!(state.expects(&answer));
        requests.push(state.request());
        step = state.step(answer);
    }
    (requests, step)
}

#[test]
fn test_init_clr() {
    let state = under_way(init_clr(&Some("C:\\Dev\\modelmod.new".to_owned())));
    assert_eq!(state.stage(), Stage::ResolvingPayload);
    assert_eq!(
        state.request(),
        Action::ResolvePayloadPath { root: "C:\\Dev\\modelmod.new".to_string() }
    );
    let state = under_way(state.step(Event::PayloadLocated {
        path: "C:\\Dev\\modelmod.new\\Bin\\MMManaged.dll".to_string(),
    }));
    assert_eq!(state.stage(), Stage::LoadingLibrary);
    assert_eq!(state.request(), Action::LoadLibrary { name: "mscoree.dll".to_string() });
    let state = under_way(state.step(Event::LibraryLoaded { module: 0x1000 }));
    assert_eq!(state.stage(), Stage::ResolvingSymbol);
    assert_eq!(
        state.request(),
        Action::ResolveSymbol { module: 0x1000, name: "CLRCreateInstance".to_string() }
    );
    let state = under_way(state.step(Event::SymbolResolved { entry: 0x2000 }));
    assert_eq!(state.stage(), Stage::CreatingMetaHost);
    assert_eq!(state.request(), Action::CreateMetaHost { entry: 0x2000 });
    let state = under_way(state.step(Event::MetaHostCreated { status: 0, meta_host: 0x3000 }));
    assert_eq!(state.stage(), Stage::RequestingRuntime);
    assert_eq!(
        state.request(),
        Action::GetRuntime { meta_host: 0x3000, version: "v4.0.30319".to_string() }
    );
    let state = under_way(state.step(Event::RuntimeObtained { status: 0, runtime_info: 0x4000 }));
    assert_eq!(state.stage(), Stage::CheckingLoadability);
    assert_eq!(state.request(), Action::CheckLoadable { runtime_info: 0x4000 });
    let state = under_way(state.step(Event::LoadabilityChecked { status: 0, loadable: true }));
    assert_eq!(state.stage(), Stage::QueryingRuntimeHost);
    assert_eq!(state.request(), Action::GetRuntimeHost { runtime_info: 0x4000 });
    let state =
        under_way(state.step(Event::RuntimeHostObtained { status: 0, runtime_host: 0x5000 }));
    assert_eq!(state.stage(), Stage::StartingRuntime);
    assert_eq!(state.request(), Action::StartRuntime { runtime_host: 0x5000 });
    let state = under_way(state.step(Event::RuntimeStarted { status: 0 }));
    assert_eq!(state.stage(), Stage::ReadingGlobalState);
    assert_eq!(state.request(), Action::ReadGlobalState);
    let state = under_way(state.step(Event::GlobalStateRead { global_state: 4096 }));
    assert_eq!(state.stage(), Stage::InvokingEntryPoint);
    assert_eq!(
        state.request(),
        Action::InvokeEntryPoint {
            runtime_host: 0x5000,
            assembly_path: "C:\\Dev\\modelmod.new\\Bin\\MMManaged.dll".to_string(),
            entry_type: "ModelMod.Main".to_string(),
            entry_method: "Main".to_string(),
            argument: "4096|d3d9".to_string(),
        }
    );
    match state.step(Event::EntryPointReturned { status: 0, return_code: 0 }) {
        Step::Done { outcome: Ok(code), release } => {
            assert_eq!(code, 0);
            assert_eq!(release, vec![0x5000, 0x4000, 0x3000]);
        }
        other => panic!("Expected Ok but got {:?}", other),
    }
}

#[test]
fn init_clr_without_a_root_fails_at_once() {
    match init_clr(&None) {
        Step::Done { outcome: Err(error), release } => {
            assert_eq!(error.message, "No MM Root has been set");
            assert!(release.is_empty());
        }
        other => panic!("Expected Err but got {:?}", other),
    }
}

#[test]
fn entry_point_gets_four_texts_in_order() {
    let state = under_way(Bootstrap::begin(&Some("C:\\mm".to_string()), "d3d9"));
    let state = under_way(state.step(Event::PayloadLocated { path: "C:\\mm\\M.dll".to_string() }));
    let state = under_way(state.step(Event::LibraryLoaded { module: 1 }));
    let state = under_way(state.step(Event::SymbolResolved { entry: 2 }));
    let state = under_way(state.step(Event::MetaHostCreated { status: 0, meta_host: 3 }));
    let state = under_way(state.step(Event::RuntimeObtained { status: 0, runtime_info: 4 }));
    let state = under_way(state.step(Event::LoadabilityChecked { status: 0, loadable: true }));
    let state = under_way(state.step(Event::RuntimeHostObtained { status: 0, runtime_host: 5 }));
    let state = under_way(state.step(Event::RuntimeStarted { status: 0 }));
    let state = under_way(state.step(Event::GlobalStateRead { global_state: 4096 }));
    assert_eq!(
        state.request(),
        Action::InvokeEntryPoint {
            runtime_host: 5,
            assembly_path: "C:\\mm\\M.dll".to_string(),
            entry_type: "ModelMod.Main".to_string(),
            entry_method: "Main".to_string(),
            argument: "4096|d3d9".to_string(),
        }
    );
}

#[test]
fn return_code_is_handed_back_unchanged() {
    for code in [0u32, 1, 7, 0x8000_0000, 0xFFFF_FFFF] {
        let state = under_way(Bootstrap::begin(&Some("r".to_string()), "d3d9"));
        let state = under_way(state.step(Event::PayloadLocated { path: "p".to_string() }));
        let state = under_way(state.step(Event::LibraryLoaded { module: 1 }));
        let state = under_way(state.step(Event::SymbolResolved { entry: 2 }));
        let state = under_way(state.step(Event::MetaHostCreated { status: 0, meta_host: 3 }));
        let state = under_way(state.step(Event::RuntimeObtained { status: 0, runtime_info: 4 }));
        let state = under_way(state.step(Event::LoadabilityChecked { status: 0, loadable: true }));
        let state =
            under_way(state.step(Event::RuntimeHostObtained { status: 0, runtime_host: 5 }));
        let state = under_way(state.step(Event::RuntimeStarted { status: 0 }));
        let state = under_way(state.step(Event::GlobalStateRead { global_state: 9 }));
        match state.step(Event::EntryPointReturned { status: 0, return_code: code }) {
            Step::Done { outcome: Ok(kept), .. } => assert_eq!(kept, code),
            other => panic!("expected Ok but got {:?}", other),
        }
    }
}

#[test]
fn a_successful_run_requests_all_ten_stages_in_order() {
    let (requests, step) = run_to_the_end("C:\\mm", "d3d9", 0x7000, 4096);
    assert!(matches!(step, Step::Done { outcome: Ok(0), .. }));
    assert_eq!(
        requests,
        vec![
            Action::ResolvePayloadPath { root: "C:\\mm".to_string() },
            Action::LoadLibrary { name: "mscoree.dll".to_string() },
            Action::ResolveSymbol { module: 0x7001, name: "CLRCreateInstance".to_string() },
            Action::CreateMetaHost { entry: 0x7002 },
            Action::GetRuntime { meta_host: 0x7003, version: "v4.0.30319".to_string() },
            Action::CheckLoadable { runtime_info: 0x7004 },
            Action::GetRuntimeHost { runtime_info: 0x7004 },
            Action::StartRuntime { runtime_host: 0x7005 },
            Action::ReadGlobalState,
            Action::InvokeEntryPoint {
                runtime_host: 0x7005,
                assembly_path: "C:\\mm\\Bin\\MMManaged.dll".to_string(),
                entry_type: "ModelMod.Main".to_string(),
                entry_method: "Main".to_string(),
                argument: "4096|d3d9".to_string(),
            },
        ]
    );
}

#[test]
fn a_second_bootstrap_discovers_everything_again() {
    let (first, first_end) = run_to_the_end("C:\\mm", "d3d9", 0x1000, 11);
    let (second, second_end) = run_to_the_end("C:\\mm", "d3d9", 0x2000, 22);
    assert!(matches!(&first_end, Step::Done { outcome: Ok(0), .. }));
    assert!(matches!(&second_end, Step::Done { outcome: Ok(0), .. }));
    assert_eq!(first.len(), 10);
    assert_eq!(second.len(), 10);
    // The second run names only handles that were reported to the second run.
    assert_eq!(second[2], Action::ResolveSymbol {
        module: 0x2001,
        name: "CLRCreateInstance".to_string()
    });
    assert_eq!(second[3], Action::CreateMetaHost { entry: 0x2002 });
    assert_eq!(second[4], Action::GetRuntime {
        meta_host: 0x2003,
        version: "v4.0.30319".to_string()
    });
    assert_eq!(second[5], Action::CheckLoadable { runtime_info: 0x2004 });
    assert_eq!(second[6], Action::GetRuntimeHost { runtime_info: 0x2004 });
    assert_eq!(second[7], Action::StartRuntime { runtime_host: 0x2005 });
    assert_eq!(second[9], Action::InvokeEntryPoint {
        runtime_host: 0x2005,
        assembly_path: "C:\\mm\\Bin\\MMManaged.dll".to_string(),
        entry_type: "ModelMod.Main".to_string(),
        entry_method: "Main".to_string(),
        argument: "22|d3d9".to_string(),
    });
    // Each run hands back the handles of that run, and no others.
    match (first_end, second_end) {
        (Step::Done { release: first, .. }, Step::Done { release: second, .. }) => {
            assert_eq!(first, vec![0x1005, 0x1004, 0x1003]);
            assert_eq!(second, vec![0x2005, 0x2004, 0x2003]);
        }
        other => panic!("both runs should be over: {:?}", other),
    }
    // Same inputs and the same reports give the same requests.
    let (again, _) = run_to_the_end("C:\\mm", "d3d9", 0x1000, 11);
    assert_eq!(first, again);
}

#[test]
fn host_controller_moves_one_way() {
    let state = under_way(Bootstrap::begin(&Some("r".to_string()), "d3d9"));
    assert_eq!(state.host_state(), HostState::Uninitialized);
    let state = under_way(state.step(Event::PayloadLocated { path: "p".to_string() }));
    assert_eq!(state.host_state(), HostState::Uninitialized);
    let state = under_way(state.step(Event::LibraryLoaded { module: 1 }));
    assert_eq!(state.host_state(), HostState::Uninitialized);
    let state = under_way(state.step(Event::SymbolResolved { entry: 2 }));
    assert_eq!(state.host_state(), HostState::Uninitialized);
    let state = under_way(state.step(Event::MetaHostCreated { status: 0, meta_host: 3 }));
    assert_eq!(state.host_state(), HostState::Uninitialized);
    let state = under_way(state.step(Event::RuntimeObtained { status: 0, runtime_info: 4 }));
    assert_eq!(state.host_state(), HostState::Uninitialized);
    let state = under_way(state.step(Event::LoadabilityChecked { status: 0, loadable: true }));
    assert_eq!(state.host_state(), HostState::Uninitialized);
    let state = under_way(state.step(Event::RuntimeHostObtained { status: 0, runtime_host: 5 }));
    assert_eq!(state.host_state(), HostState::InterfaceResolved);
    let state = under_way(state.step(Event::RuntimeStarted { status: 0 }));
    assert_eq!(state.host_state(), HostState::Started);
    let state = under_way(state.step(Event::GlobalStateRead { global_state: 1 }));
    assert_eq!(state.host_state(), HostState::Started);
}

#[test]
fn an_event_that_answers_nothing_changes_nothing() {
    let strays = || {
        vec![
            Event::LibraryLoaded { module: 9 },
            Event::SymbolResolved { entry: 9 },
            Event::MetaHostCreated { status: 0, meta_host: 9 },
            Event::MetaHostCreated { status: -1, meta_host: 0 },
            Event::RuntimeObtained { status: 0, runtime_info: 9 },
            Event::LoadabilityChecked { status: 0, loadable: true },
            Event::RuntimeHostObtained { status: 0, runtime_host: 9 },
            Event::RuntimeStarted { status: 0 },
            Event::RuntimeStarted { status: -1 },
            Event::GlobalStateRead { global_state: 9 },
            Event::EntryPointReturned { status: 0, return_code: 9 },
            Event::EntryPointReturned { status: -1, return_code: 9 },
        ]
    };
    let mut state = under_way(Bootstrap::begin(&Some("r".to_string()), "d3d9"));
    for stray in strays() {
        assert!(!state.expects(&stray));
        state = under_way(state.step(stray));
        assert_eq!(state.stage(), Stage::ResolvingPayload);
        assert_eq!(state.request(), Action::ResolvePayloadPath { root: "r".to_string() });
    }
    assert!(state.expects(&Event::PayloadUnavailable { message: "m".to_string() }));
    assert!(state.expects(&Event::PayloadLocated { path: "p".to_string() }));
    let mut state = under_way(state.step(Event::PayloadLocated { path: "p".to_string() }));
    assert!(state.expects(&Event::LibraryLoaded { module: 0 }));
    assert!(state.expects(&Event::LibraryLoaded { module: 1 }));
    for stray in [
        Event::PayloadLocated { path: "q".to_string() },
        Event::PayloadUnavailable { message: "late".to_string() },
        Event::SymbolResolved { entry: 0 },
        Event::RuntimeStarted { status: -5 },
    ] {
        assert!(!state.expects(&stray));
        state = under_way(state.step(stray));
        assert_eq!(state.stage(), Stage::LoadingLibrary);
        assert_eq!(state.request(), Action::LoadLibrary { name: "mscoree.dll".to_string() });
    }
}
