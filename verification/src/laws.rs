//! What holds of every bootstrap, proved over the model of the state machine.

use crate::error::{configuration_error, ErrorKind, ErrorView};
use crate::handoff::{handoff_argument, ENTRY_METHOD, ENTRY_TYPE};
use crate::model::{
    failure_stage, first_step, next_step, request_stage, BootstrapView, HostState, Stage, StepView,
};
use crate::protocol::{ActionView, EventView, CREATION_SYMBOL, HOST_LIBRARY, RUNTIME_VERSION};
use crate::render::{hexadecimal, signed_decimal, twos_complement};
use vstd::prelude::*;

verus! {

/// Where a bootstrap that stands at `start` stands after `events` have been
/// reported to it one after another. A bootstrap that is done takes no event.
pub open spec fn run(start: StepView, events: Seq<EventView>) -> StepView
    decreases events.len(),
{
    if events.len() == 0 {
        start
    } else {
        match start {
            StepView::Done { .. } => start,
            StepView::Continue(state) => run(
                next_step(state, events.first()),
                events.drop_first(),
            ),
        }
    }
}

/// The requests that are handed to the embedder while `events` are reported
/// to a bootstrap that stands at `start`, in the order in which they are
/// handed out. Each stage that is entered hands out its request once; an event
/// that is no answer to the pending request hands out nothing.
pub open spec fn requests(start: StepView, events: Seq<EventView>) -> Seq<ActionView>
    decreases events.len(),
{
    match start {
        StepView::Done { .. } => Seq::empty(),
        StepView::Continue(state) => if events.len() == 0 {
            seq![state.request()]
        } else if state.answered_by(events.first()) {
            seq![state.request()] + requests(
                next_step(state, events.first()),
                events.drop_first(),
            )
        } else {
            requests(start, events.drop_first())
        },
    }
}

/// Without a root path the bootstrap fails with a configuration error at once,
/// and whatever is reported afterwards, nothing is ever requested.
pub proof fn law_missing_root_requests_nothing(context: Seq<char>, events: Seq<EventView>)
    ensures
        first_step(None, context) == (StepView::Done {
            outcome: Err(configuration_error()),
            release: Seq::empty(),
        }),
        configuration_error().kind == ErrorKind::ConfigurationError,
        run(first_step(None, context), events) == first_step(None, context),
        requests(first_step(None, context), events) == Seq::<ActionView>::empty(),
{
}

/// A failure to resolve the payload path ends the bootstrap with the resolver's
/// own message, unchanged.
pub proof fn law_payload_failure_is_passed_on(state: BootstrapView, message: Seq<char>)
    requires
        state.stage() == Stage::ResolvingPayload,
    ensures
        next_step(state, EventView::PayloadUnavailable { message }) == (StepView::Done {
            outcome: Err(ErrorView { kind: ErrorKind::PathResolutionError, message, code: None }),
            release: Seq::empty(),
        }),
{
}

/// A creation call that reports a failure status ends the bootstrap with
/// `HostCreationFailed`, whatever handle came with it.
pub proof fn law_failed_creation(state: BootstrapView, status: i32, meta_host: usize)
    requires
        state.stage() == Stage::CreatingMetaHost,
        status != 0,
    ensures
        next_step(state, EventView::MetaHostCreated { status, meta_host })
            matches StepView::Done { outcome: Err(error), .. } && error.kind
            == ErrorKind::HostCreationFailed && error.code == Some(status),
{
}

/// A creation call that reports success and gives a null factory ends the
/// bootstrap with `NullInstanceError`, which is another kind than
/// `HostCreationFailed`.
pub proof fn law_null_factory(state: BootstrapView)
    requires
        state.stage() == Stage::CreatingMetaHost,
    ensures
        next_step(state, EventView::MetaHostCreated { status: 0, meta_host: 0 })
            matches StepView::Done { outcome: Err(error), .. }
            && error.kind == ErrorKind::NullInstanceError && error.code.is_none(),
        ErrorKind::NullInstanceError != ErrorKind::HostCreationFailed,
{
}

/// A factory that reports a failure status for the requested version, or gives
/// a null runtime, ends the bootstrap with `RuntimeNotFound`.
pub proof fn law_runtime_not_found(state: BootstrapView, status: i32, runtime_info: usize)
    requires
        state.stage() == Stage::RequestingRuntime,
        status != 0 || runtime_info == 0,
    ensures
        next_step(state, EventView::RuntimeObtained { status, runtime_info })
            matches StepView::Done { outcome: Err(error), .. }
            && error.kind == ErrorKind::RuntimeNotFound,
{
}

/// A loadability query that fails, or answers "not loadable", ends the
/// bootstrap with `RuntimeNotLoadable`.
pub proof fn law_runtime_not_loadable(state: BootstrapView, status: i32, loadable: bool)
    requires
        state.stage() == Stage::CheckingLoadability,
        status != 0 || !loadable,
    ensures
        next_step(state, EventView::LoadabilityChecked { status, loadable })
            matches StepView::Done { outcome: Err(error), .. }
            && error.kind == ErrorKind::RuntimeNotLoadable,
{
}

/// An interface query that fails, or gives a null runtime host, ends the
/// bootstrap with `InterfaceQueryFailed`.
pub proof fn law_interface_query_failed(state: BootstrapView, status: i32, runtime_host: usize)
    requires
        state.stage() == Stage::QueryingRuntimeHost,
        status != 0 || runtime_host == 0,
    ensures
        next_step(state, EventView::RuntimeHostObtained { status, runtime_host })
            matches StepView::Done { outcome: Err(error), .. }
            && error.kind == ErrorKind::InterfaceQueryFailed,
{
}

/// A start call that reports a failure status ends the bootstrap with
/// `RuntimeStartFailed`; the error carries the status, and its message ends in
/// the status in base ten.
pub proof fn law_failed_start_carries_status(state: BootstrapView, status: i32)
    requires
        state.stage() == Stage::StartingRuntime,
        status != 0,
    ensures
        next_step(state, EventView::RuntimeStarted { status })
            matches StepView::Done { outcome: Err(error), .. }
            && error.kind == ErrorKind::RuntimeStartFailed && error.code == Some(status) && ({
            let rendered = signed_decimal(status as int);
            &&& rendered.len() <= error.message.len()
            &&& error.message.subrange(
                error.message.len() - rendered.len(),
                error.message.len() as int,
            ) == rendered
        }),
{
}

/// Once the native state handle is read, the entry point is requested with
/// four texts: the payload path, the fixed type and method names, and the
/// handoff argument made of that handle and the context tag. The runtime host
/// is the one that was started.
pub proof fn law_handoff_request(state: BootstrapView, global_state: u64)
    requires
        state.stage() == Stage::ReadingGlobalState,
    ensures
        next_step(state, EventView::GlobalStateRead { global_state }) matches StepView::Continue(
            next,
        ) && next.request() == (ActionView::InvokeEntryPoint {
            runtime_host: state->ReadingGlobalState_runtime_host,
            assembly_path: state->ReadingGlobalState_payload,
            entry_type: ENTRY_TYPE@,
            entry_method: ENTRY_METHOD@,
            argument: handoff_argument(global_state, state->ReadingGlobalState_context),
        }),
{
}

/// An entry point call that reports success ends the bootstrap with the return
/// code that the entry point gave, unchanged.
pub proof fn law_return_code_is_kept(state: BootstrapView, return_code: u32)
    requires
        state.stage() == Stage::InvokingEntryPoint,
    ensures
        next_step(state, EventView::EntryPointReturned { status: 0, return_code })
            matches StepView::Done { outcome: Ok(code), .. } && code == return_code,
{
}

/// An entry point call that reports a failure status ends the bootstrap with
/// `EntryPointInvocationFailed`; the error carries the status, and its message
/// ends in the 32 bits of the status in base sixteen.
pub proof fn law_failed_invocation_carries_hex_status(
    state: BootstrapView,
    status: i32,
    return_code: u32,
)
    requires
        state.stage() == Stage::InvokingEntryPoint,
        status != 0,
    ensures
        next_step(state, EventView::EntryPointReturned { status, return_code })
            matches StepView::Done { outcome: Err(error), .. } && error.kind
            == ErrorKind::EntryPointInvocationFailed && error.code == Some(status) && ({
            let rendered = hexadecimal(twos_complement(status));
            &&& rendered.len() <= error.message.len()
            &&& error.message.subrange(
                error.message.len() - rendered.len(),
                error.message.len() as int,
            ) == rendered
        }),
{
}

/// One report moves a bootstrap by at most one stage: an answer that is
/// accepted moves it to the stage that follows, any other event leaves it as
/// it is. No stage is skipped and none is entered again.
pub proof fn law_one_stage_at_a_time(state: BootstrapView, event: EventView)
    ensures
        next_step(state, event) matches StepView::Continue(next) ==> next.stage().index()
            == state.stage().index() + (if state.answered_by(event) {
            1nat
        } else {
            0nat
        }),
        !state.answered_by(event) ==> next_step(state, event) == StepView::Continue(state),
{
}

/// A live bootstrap stays live: a handle is taken up only when it is not
/// null.
pub proof fn law_handles_stay_live(state: BootstrapView, event: EventView)
    requires
        state.live(),
    ensures
        next_step(state, event) matches StepView::Continue(next) ==> next.live(),
{
}

/// A request never names a null handle: a symbol is resolved only in a library
/// that was loaded, the factory is created only through an entry point that
/// was found, a runtime is requested only from a factory that exists,
/// loadability is checked and the host interface queried only on a runtime
/// that exists, and only a runtime host that exists is started and told to run
/// the entry point.
pub proof fn law_requests_name_live_handles(state: BootstrapView)
    requires
        state.live(),
    ensures
        match state.request() {
            ActionView::ResolveSymbol { module, .. } => module != 0,
            ActionView::CreateMetaHost { entry } => entry != 0,
            ActionView::GetRuntime { meta_host, .. } => meta_host != 0,
            ActionView::CheckLoadable { runtime_info } => runtime_info != 0,
            ActionView::GetRuntimeHost { runtime_info } => runtime_info != 0,
            ActionView::StartRuntime { runtime_host } => runtime_host != 0,
            ActionView::InvokeEntryPoint { runtime_host, .. } => runtime_host != 0,
            _ => true,
        },
{
}

/// Every stage that a bootstrap reaches is live, whatever is reported to it.
pub proof fn law_every_reached_stage_is_live(
    root: Seq<char>,
    context: Seq<char>,
    events: Seq<EventView>,
)
    ensures
        run(first_step(Some(root), context), events) matches StepView::Continue(state)
            ==> state.live(),
{
    lemma_run_keeps_live(BootstrapView::ResolvingPayload { root, context }, events);
}

proof fn lemma_run_keeps_live(state: BootstrapView, events: Seq<EventView>)
    requires
        state.live(),
    ensures
        run(StepView::Continue(state), events) matches StepView::Continue(last) ==> last.live(),
    decreases events.len(),
{
    if events.len() > 0 {
        law_handles_stay_live(state, events.first());
        match next_step(state, events.first()) {
            StepView::Continue(next) => {
                lemma_run_keeps_live(next, events.drop_first());
            },
            StepView::Done { .. } => {
                law_done_is_final(next_step(state, events.first()), events.drop_first());
            },
        }
    }
}

/// No handle that a live bootstrap is to hand back is null.
pub proof fn law_held_handles_are_live(state: BootstrapView)
    requires
        state.live(),
    ensures
        forall|i: int| 0 <= i < state.held().len() ==> #[trigger] state.held()[i] != 0,
{
}

/// Every interface handle is handed back once. A bootstrap that goes on keeps
/// the handles it held and puts at most one new handle in front of them; a
/// bootstrap that ends, in success or in failure, hands back exactly the
/// handles it held.
pub proof fn law_handles_are_handed_back(state: BootstrapView, event: EventView)
    ensures
        next_step(state, event) matches StepView::Continue(next) ==> next.held() == state.held()
            || (next.held().len() == state.held().len() + 1 && next.held().drop_first()
            == state.held()),
        next_step(state, event) matches StepView::Done { release, .. } ==> release
            == state.held(),
        state.held().len() <= 3,
{
}

/// Whatever a bootstrap holds when events are reported to it is among the
/// handles that it hands back when it ends: they stand last, in their order.
pub proof fn law_nothing_held_is_lost(state: BootstrapView, events: Seq<EventView>)
    ensures
        run(StepView::Continue(state), events) matches StepView::Done { release, .. } ==> {
            &&& state.held().len() <= release.len()
            &&& release.subrange(release.len() - state.held().len(), release.len() as int)
                == state.held()
        },
    decreases events.len(),
{
    if events.len() > 0 {
        let event = events.first();
        let rest = events.drop_first();
        law_handles_are_handed_back(state, event);
        match next_step(state, event) {
            StepView::Continue(next) => {
                law_nothing_held_is_lost(next, rest);
                if let StepView::Done { release, .. } = run(StepView::Continue(next), rest) {
                    let kept = release.subrange(
                        release.len() - next.held().len(),
                        release.len() as int,
                    );
                    assert(release.subrange(
                        release.len() - state.held().len(),
                        release.len() as int,
                    ) =~= state.held()) by {
                        if next.held() != state.held() {
                            assert(kept.drop_first() =~= release.subrange(
                                release.len() - state.held().len(),
                                release.len() as int,
                            ));
                        }
                    }
                }
            },
            StepView::Done { .. } => {
                law_done_is_final(next_step(state, event), rest);
            },
        }
    }
}

/// The runtime host controller never goes back: from `Uninitialized` over
/// `InterfaceResolved` to `Started`.
pub proof fn law_host_state_never_goes_back(state: BootstrapView, event: EventView)
    ensures
        next_step(state, event) matches StepView::Continue(next) ==> state.host_state().index()
            <= next.host_state().index(),
        state.host_state() == HostState::Uninitialized <==> state.stage().index()
            <= Stage::QueryingRuntimeHost.index(),
        state.host_state() == HostState::Started <==> state.stage().index()
            >= Stage::ReadingGlobalState.index(),
{
}

/// A bootstrap that is done stays as it is and requests nothing more,
/// whatever is reported to it.
pub proof fn law_done_is_final(done: StepView, events: Seq<EventView>)
    requires
        done is Done,
    ensures
        run(done, events) == done,
        requests(done, events) == Seq::<ActionView>::empty(),
{
}

/// The requests of a run are those of consecutive stages, from the stage in
/// which the run begins: each stage is requested at most once, and none before
/// the stage ahead of it.
pub proof fn law_requests_follow_the_pipeline(state: BootstrapView, events: Seq<EventView>)
    ensures
        requests(StepView::Continue(state), events).len() >= 1,
        forall|i: int|
            0 <= i < requests(StepView::Continue(state), events).len() ==> request_stage(
                #[trigger] requests(StepView::Continue(state), events)[i],
            ).index() == state.stage().index() + i,
    decreases events.len(),
{
    let all = requests(StepView::Continue(state), events);
    if events.len() > 0 {
        let event = events.first();
        let rest = events.drop_first();
        if state.answered_by(event) {
            let later = requests(next_step(state, event), rest);
            assert(all == seq![state.request()] + later);
            match next_step(state, event) {
                StepView::Continue(next) => {
                    law_requests_follow_the_pipeline(next, rest);
                },
                StepView::Done { .. } => {},
            }
            assert forall|i: int| 0 <= i < all.len() implies request_stage(
                #[trigger] all[i],
            ).index() == state.stage().index() + i by {
                if i > 0 {
                    assert(all[i] == later[i - 1]);
                }
            }
        } else {
            law_requests_follow_the_pipeline(state, rest);
        }
    }
}

/// A run that ends in a failure has requested the stages up to the one in
/// which the failure arose, and nothing of any later stage.
pub proof fn law_failure_stops_the_pipeline(state: BootstrapView, events: Seq<EventView>)
    ensures
        run(StepView::Continue(state), events)
            matches StepView::Done { outcome: Err(error), .. } ==> {
            &&& failure_stage(error.kind) matches Some(stage)
            &&& state.stage().index() <= stage.index()
            &&& requests(StepView::Continue(state), events).len() == stage.index()
                - state.stage().index() + 1
        },
    decreases events.len(),
{
    if events.len() > 0 {
        let event = events.first();
        let rest = events.drop_first();
        match next_step(state, event) {
            StepView::Continue(next) => {
                law_failure_stops_the_pipeline(next, rest);
            },
            StepView::Done { .. } => {
                law_done_is_final(next_step(state, event), rest);
            },
        }
    }
}

/// A run that ends in success has requested every stage from the one in which
/// it began to the last.
pub proof fn law_success_takes_every_stage(state: BootstrapView, events: Seq<EventView>)
    ensures
        run(StepView::Continue(state), events) matches StepView::Done { outcome: Ok(_), .. }
            ==> requests(StepView::Continue(state), events).len() == 10 - state.stage().index(),
    decreases events.len(),
{
    if events.len() > 0 {
        let event = events.first();
        let rest = events.drop_first();
        match next_step(state, event) {
            StepView::Continue(next) => {
                law_success_takes_every_stage(next, rest);
            },
            StepView::Done { .. } => {
                law_done_is_final(next_step(state, event), rest);
            },
        }
    }
}

/// A bootstrap that has failed has requested nothing of a later stage than
/// the one in which the failure arose: without a root path nothing at all,
/// after a failed creation call no runtime, after a runtime that is missing no
/// loadability check, after a runtime that is not loadable or has no host
/// interface no start, and after a failed start no entry point.
pub proof fn law_nothing_is_requested_beyond_a_failure(
    root: Option<Seq<char>>,
    context: Seq<char>,
    events: Seq<EventView>,
)
    ensures
        run(first_step(root, context), events) matches StepView::Done { outcome: Err(error), .. }
            ==> match failure_stage(error.kind) {
            None => requests(first_step(root, context), events).len() == 0,
            Some(stage) => forall|i: int|
                0 <= i < requests(first_step(root, context), events).len() ==> request_stage(
                    #[trigger] requests(first_step(root, context), events)[i],
                ).index() <= stage.index(),
        },
{
    match root {
        None => {},
        Some(root) => {
            let state = BootstrapView::ResolvingPayload { root, context };
            law_failure_stops_the_pipeline(state, events);
            law_requests_follow_the_pipeline(state, events);
        },
    }
}

/// Every bootstrap starts afresh: it begins in the first stage and holds no
/// handle, and when it ends in success it has requested all ten stages, each
/// once and in order. Nothing that an earlier bootstrap found spares a later
/// one a request.
pub proof fn law_every_bootstrap_starts_afresh(
    root: Seq<char>,
    context: Seq<char>,
    events: Seq<EventView>,
)
    ensures
        first_step(Some(root), context) == StepView::Continue(
            BootstrapView::ResolvingPayload { root, context },
        ),
        (BootstrapView::ResolvingPayload { root, context }).held().len() == 0,
        run(first_step(Some(root), context), events)
            matches StepView::Done { outcome: Ok(_), .. } ==> {
            &&& requests(first_step(Some(root), context), events).len() == 10
            &&& forall|i: int|
                0 <= i < 10 ==> request_stage(
                    #[trigger] requests(first_step(Some(root), context), events)[i],
                ).index() == i
        },
{
    let state = BootstrapView::ResolvingPayload { root, context };
    law_success_takes_every_stage(state, events);
    law_requests_follow_the_pipeline(state, events);
}

/// In a run that has ended, every request was answered: there are no more
/// requests than events.
proof fn lemma_ended_run_answered_every_request(state: BootstrapView, events: Seq<EventView>)
    ensures
        run(StepView::Continue(state), events) is Done ==> requests(
            StepView::Continue(state),
            events,
        ).len() <= events.len(),
    decreases events.len(),
{
    if events.len() > 0 {
        let event = events.first();
        let rest = events.drop_first();
        match next_step(state, event) {
            StepView::Continue(next) => {
                lemma_ended_run_answered_every_request(next, rest);
            },
            StepView::Done { .. } => {
                law_done_is_final(next_step(state, event), rest);
            },
        }
    }
}

/// In a successful run that has no more events than stages ahead of it, the
/// first event is the successful answer of the stage the run begins in. The
/// result is the step that this answer leads to.
proof fn lemma_first_answer_of_a_tight_run(state: BootstrapView, events: Seq<EventView>) -> (next:
    StepView)
    requires
        events.len() + state.stage().index() == 10,
        run(StepView::Continue(state), events) matches StepView::Done { outcome: Ok(_), .. },
    ensures
        next == next_step(state, events[0]),
        state.answered_by(events[0]),
        requests(StepView::Continue(state), events) == seq![state.request()] + requests(
            next,
            events.drop_first(),
        ),
        run(StepView::Continue(state), events) == run(next, events.drop_first()),
        state.stage() == Stage::InvokingEntryPoint ==> next is Done,
        state.stage() != Stage::InvokingEntryPoint ==> (next matches StepView::Continue(after)
            && after.stage().index() == state.stage().index() + 1),
{
    let rest = events.drop_first();
    let next = next_step(state, events[0]);
    law_success_takes_every_stage(state, events);
    if !state.answered_by(events[0]) {
        law_success_takes_every_stage(state, rest);
        lemma_ended_run_answered_every_request(state, rest);
    }
    law_one_stage_at_a_time(state, events[0]);
    if next is Done {
        law_done_is_final(next, rest);
    }
    next
}

/// The requests and the end of a successful run of five events that begins
/// with the loadability check.
proof fn lemma_second_half(state: BootstrapView, events: Seq<EventView>)
    requires
        state.stage() == Stage::CheckingLoadability,
        events.len() == 5,
        run(StepView::Continue(state), events) matches StepView::Done { outcome: Ok(_), .. },
    ensures
        ({
            &&& state matches BootstrapView::CheckingLoadability {
                meta_host,
                runtime_info,
                payload,
                context,
            }
            &&& events[0] matches EventView::LoadabilityChecked { status: 0, loadable: true }
            &&& events[1] matches EventView::RuntimeHostObtained { status: 0, runtime_host }
            &&& events[2] matches EventView::RuntimeStarted { status: 0 }
            &&& events[3] matches EventView::GlobalStateRead { global_state }
            &&& events[4] matches EventView::EntryPointReturned { status: 0, return_code }
            &&& runtime_host != 0
            &&& requests(StepView::Continue(state), events) == seq![
                ActionView::CheckLoadable { runtime_info },
                ActionView::GetRuntimeHost { runtime_info },
                ActionView::StartRuntime { runtime_host },
                ActionView::ReadGlobalState,
                ActionView::InvokeEntryPoint {
                    runtime_host,
                    assembly_path: payload,
                    entry_type: ENTRY_TYPE@,
                    entry_method: ENTRY_METHOD@,
                    argument: handoff_argument(global_state, context),
                },
            ]
            &&& run(StepView::Continue(state), events) == (StepView::Done {
                outcome: Ok(return_code),
                release: seq![runtime_host, runtime_info, meta_host],
            })
        }),
{
    let s5 = state;
    let e5 = events;
    let n6 = lemma_first_answer_of_a_tight_run(s5, e5);
    let s6 = n6->Continue_0;
    let e6 = e5.drop_first();
    let n7 = lemma_first_answer_of_a_tight_run(s6, e6);
    let s7 = n7->Continue_0;
    let e7 = e6.drop_first();
    let n8 = lemma_first_answer_of_a_tight_run(s7, e7);
    let s8 = n8->Continue_0;
    let e8 = e7.drop_first();
    let n9 = lemma_first_answer_of_a_tight_run(s8, e8);
    let s9 = n9->Continue_0;
    let e9 = e8.drop_first();
    let end = lemma_first_answer_of_a_tight_run(s9, e9);
    law_done_is_final(end, e9.drop_first());
    assert(requests(StepView::Continue(s5), e5) =~= seq![
        s5.request(),
        s6.request(),
        s7.request(),
        s8.request(),
        s9.request(),
    ]);
}

/// The whole of a successful bootstrap. Ten answers that lead to success are
/// the ten successful answers of the ten stages, in order; the requests are
/// the ten requests of the pipeline, each with the handle that the answer
/// before it brought, the last with the payload path that was resolved and the
/// handoff argument made of the native state handle and the context tag; the
/// outcome is the return code of the entry point; and the three interface
/// handles are handed back, newest first.
pub proof fn law_successful_bootstrap(
    root: Seq<char>,
    context: Seq<char>,
    events: Seq<EventView>,
)
    requires
        events.len() == 10,
        run(first_step(Some(root), context), events) matches StepView::Done { outcome: Ok(_), .. },
    ensures
        ({
            &&& events[0] matches EventView::PayloadLocated { path }
            &&& events[1] matches EventView::LibraryLoaded { module }
            &&& events[2] matches EventView::SymbolResolved { entry }
            &&& events[3] matches EventView::MetaHostCreated { status: 0, meta_host }
            &&& events[4] matches EventView::RuntimeObtained { status: 0, runtime_info }
            &&& events[5] matches EventView::LoadabilityChecked { status: 0, loadable: true }
            &&& events[6] matches EventView::RuntimeHostObtained { status: 0, runtime_host }
            &&& events[7] matches EventView::RuntimeStarted { status: 0 }
            &&& events[8] matches EventView::GlobalStateRead { global_state }
            &&& events[9] matches EventView::EntryPointReturned { status: 0, return_code }
            &&& module != 0 && entry != 0 && meta_host != 0 && runtime_info != 0 && runtime_host
                != 0
            &&& requests(first_step(Some(root), context), events) == seq![
                ActionView::ResolvePayloadPath { root },
                ActionView::LoadLibrary { name: HOST_LIBRARY@ },
                ActionView::ResolveSymbol { module, name: CREATION_SYMBOL@ },
                ActionView::CreateMetaHost { entry },
                ActionView::GetRuntime { meta_host, version: RUNTIME_VERSION@ },
                ActionView::CheckLoadable { runtime_info },
                ActionView::GetRuntimeHost { runtime_info },
                ActionView::StartRuntime { runtime_host },
                ActionView::ReadGlobalState,
                ActionView::InvokeEntryPoint {
                    runtime_host,
                    assembly_path: path,
                    entry_type: ENTRY_TYPE@,
                    entry_method: ENTRY_METHOD@,
                    argument: handoff_argument(global_state, context),
                },
            ]
            &&& run(first_step(Some(root), context), events) == (StepView::Done {
                outcome: Ok(return_code),
                release: seq![runtime_host, runtime_info, meta_host],
            })
        }),
{
    let s0 = BootstrapView::ResolvingPayload { root, context };
    let e0 = events;
    let n1 = lemma_first_answer_of_a_tight_run(s0, e0);
    let s1 = n1->Continue_0;
    let e1 = e0.drop_first();
    let n2 = lemma_first_answer_of_a_tight_run(s1, e1);
    let s2 = n2->Continue_0;
    let e2 = e1.drop_first();
    let n3 = lemma_first_answer_of_a_tight_run(s2, e2);
    let s3 = n3->Continue_0;
    let e3 = e2.drop_first();
    let n4 = lemma_first_answer_of_a_tight_run(s3, e3);
    let s4 = n4->Continue_0;
    let e4 = e3.drop_first();
    let n5 = lemma_first_answer_of_a_tight_run(s4, e4);
    let s5 = n5->Continue_0;
    let e5 = e4.drop_first();
    lemma_second_half(s5, e5);
    assert forall|i: int| 0 <= i < 5 implies #[trigger] e5[i] == events[i + 5] by {}
    assert(requests(StepView::Continue(s0), e0) =~= seq![
        s0.request(),
        s1.request(),
        s2.request(),
        s3.request(),
        s4.request(),
    ] + requests(StepView::Continue(s5), e5));
}

} // verus!
