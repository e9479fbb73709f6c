//! The protocol's laws: properties of whole turns and whole sessions, proved
//! once and for all over the state machine's specification.

use vstd::prelude::*;

use crate::capability::{DeviceModelView, ErrorView};
use crate::connection::{RequestView, ResponseView};
use crate::subscription::{
    session_wf, spec_handle, spec_idle, spec_opening, spec_run, spec_step, spec_steps,
    spec_streaming, EventView, PollView, WorkerState,
};

verus! {

/// Whether `resp` is the kind of response that answers `req`.
pub open spec fn corresponds(req: RequestView, resp: ResponseView) -> bool {
    match req {
        RequestView::StartStream => resp is StartStream,
        RequestView::StopStream => resp is StopStream,
        RequestView::QueryFormats => resp is QueryFormats,
        RequestView::QueryControls => resp is QueryControls,
        RequestView::GetFormat => resp is GetFormat,
        RequestView::SetFormat(_) => resp is SetFormat,
        RequestView::SetControl(_) => resp is SetControl,
    }
}

/// Whether `ev` is a response event answering `req`.
pub open spec fn answers(req: RequestView, ev: EventView) -> bool {
    ev matches EventView::Response(resp) && corresponds(req, resp)
}

/// The schedule in which each given request arrives in a turn of its own.
pub open spec fn deliveries(cs: Seq<RequestView>) -> Seq<PollView> {
    Seq::new(cs.len(), |i: int| PollView::Deliver(cs[i]))
}

/// Law: a request delivered to an idle worker yields exactly one event, and
/// it is the matching command result — whatever the request and whatever the
/// device does.
pub proof fn lemma_idle_command_answered(d: DeviceModelView, req: RequestView)
    ensures
        ({
            let (d1, ev, st1) = spec_idle(d, PollView::Deliver(req));
            &&& ev is Some
            &&& answers(req, ev->0)
        }),
{
}

/// Law: requests that do not start a stream keep an idle worker idle.
pub proof fn lemma_idle_stays_idle(d: DeviceModelView, req: RequestView)
    requires
        !(req is StartStream),
    ensures
        spec_idle(d, PollView::Deliver(req)).2 == WorkerState::Idle,
{
}

/// Law (results in order): a sequence of requests, none of which starts a
/// stream, served while the worker is idle yields exactly one matching
/// command result per request, in the order the requests were sent, and
/// leaves the worker idle. Together with [`lemma_idle_command_answered`]
/// this pins one result per command for every request kind.
pub proof fn lemma_idle_commands_in_order(d: DeviceModelView, cs: Seq<RequestView>)
    requires
        forall|i: int| 0 <= i < cs.len() ==> !((#[trigger] cs[i]) is StartStream),
    ensures
        ({
            let (d1, evs, st1) = spec_steps(d, WorkerState::Idle, deliveries(cs));
            &&& st1 == WorkerState::Idle
            &&& evs.len() == cs.len()
            &&& forall|i: int| 0 <= i < cs.len() ==> answers(cs[i], #[trigger] evs[i])
        }),
    decreases cs.len(),
{
    let polls = deliveries(cs);
    if cs.len() == 0 {
        assert(polls.len() == 0);
    } else {
        let c0 = cs[0];
        assert(polls[0] == PollView::Deliver(c0));
        lemma_idle_command_answered(d, c0);
        lemma_idle_stays_idle(d, c0);
        let (da, ev0, sta) = spec_idle(d, PollView::Deliver(c0));
        lemma_idle_commands_in_order(da, cs.drop_first());
        assert(polls.drop_first() =~= deliveries(cs.drop_first()));
        let (db, evs2, stb) = spec_steps(da, WorkerState::Idle, deliveries(cs.drop_first()));
        let (dc, evs, stc) = spec_steps(d, WorkerState::Idle, polls);
        assert(evs == seq![ev0->0] + evs2);
        assert forall|i: int| 0 <= i < cs.len() implies answers(cs[i], #[trigger] evs[i]) by {
            if i == 0 {
                assert(evs[0] == ev0->0);
            } else {
                assert(evs[i] == evs2[i - 1]);
                assert(cs.drop_first()[i - 1] == cs[i]);
            }
        }
    }
}

/// Law (stop is idempotent): stopping twice in a row while idle yields two
/// successful stop results, leaves the worker idle, and the device untouched.
pub proof fn lemma_stop_stream_idempotent(d: DeviceModelView)
    ensures
        ({
            let (d1, ev1, st1) = spec_idle(d, PollView::Deliver(RequestView::StopStream));
            let (d2, ev2, st2) = spec_idle(d1, PollView::Deliver(RequestView::StopStream));
            &&& ev1 == Some(EventView::Response(ResponseView::StopStream(Ok(()))))
            &&& ev2 == Some(EventView::Response(ResponseView::StopStream(Ok(()))))
            &&& st1 == WorkerState::Idle
            &&& st2 == WorkerState::Idle
            &&& d1 == d
            &&& d2 == d
        }),
{
}

/// Law (commands and frames take separate turns): a streaming turn emits
/// exactly one event; a turn that drains a request never also delivers a
/// frame, and a frame is only delivered on a turn in which nothing was
/// pending. So between any two frame events, every drained request took a
/// poll cycle of its own: at most one request is drained per cycle, and a
/// flood of requests cannot be starved by a fast frame source.
pub proof fn lemma_streaming_serializes(d: DeviceModelView, p: PollView)
    ensures
        ({
            let ev = spec_streaming(d, p).1;
            &&& ev is Some
            &&& p is Deliver ==> !(ev->0 is Stream)
            &&& ev->0 is Stream ==> p is Quiet
        }),
{
}

/// How many frame events a trace holds.
pub open spec fn frame_events(evs: Seq<EventView>) -> nat
    decreases evs.len(),
{
    if evs.len() == 0 {
        0
    } else {
        (if evs[0] is Stream {
            1nat
        } else {
            0nat
        }) + frame_events(evs.drop_first())
    }
}

/// How many response events a trace holds.
pub open spec fn response_events(evs: Seq<EventView>) -> nat
    decreases evs.len(),
{
    if evs.len() == 0 {
        0
    } else {
        (if evs[0] is Response {
            1nat
        } else {
            0nat
        }) + response_events(evs.drop_first())
    }
}

/// How many quiet turns a schedule holds.
pub open spec fn quiet_polls(polls: Seq<PollView>) -> nat
    decreases polls.len(),
{
    if polls.len() == 0 {
        0
    } else {
        (if polls[0] is Quiet {
            1nat
        } else {
            0nat
        }) + quiet_polls(polls.drop_first())
    }
}

/// How many turns of a schedule deliver a request.
pub open spec fn delivered_polls(polls: Seq<PollView>) -> nat
    decreases polls.len(),
{
    if polls.len() == 0 {
        0
    } else {
        (if polls[0] is Deliver {
            1nat
        } else {
            0nat
        }) + delivered_polls(polls.drop_first())
    }
}

/// Counting frame events distributes over splitting a trace.
proof fn lemma_frame_events_concat(a: Seq<EventView>, b: Seq<EventView>)
    ensures
        frame_events(a + b) == frame_events(a) + frame_events(b),
    decreases a.len(),
{
    if a.len() == 0 {
        assert(a + b =~= b);
    } else {
        assert((a + b).drop_first() =~= a.drop_first() + b);
        lemma_frame_events_concat(a.drop_first(), b);
    }
}

/// Counting response events distributes over splitting a trace.
proof fn lemma_response_events_concat(a: Seq<EventView>, b: Seq<EventView>)
    ensures
        response_events(a + b) == response_events(a) + response_events(b),
    decreases a.len(),
{
    if a.len() == 0 {
        assert(a + b =~= b);
    } else {
        assert((a + b).drop_first() =~= a.drop_first() + b);
        lemma_response_events_concat(a.drop_first(), b);
    }
}

/// Law (every event takes a turn of the right kind, whole run): over any
/// schedule, a running worker delivers no more frames than it had quiet
/// turns and no more responses than it had requests delivered. A frame is
/// never produced on a turn that drained a request, and at most one request
/// is drained per turn; so neither side can starve the other — this is the
/// tie-break rule of the streaming state, stated over whole traces.
pub proof fn lemma_events_budget(d: DeviceModelView, st: WorkerState, polls: Seq<PollView>)
    ensures
        ({
            let evs = spec_steps(d, st, polls).1;
            &&& frame_events(evs) <= quiet_polls(polls)
            &&& response_events(evs) <= delivered_polls(polls)
            &&& evs.len() <= polls.len()
        }),
    decreases polls.len(),
{
    if polls.len() > 0 {
        let p = polls[0];
        let (d1, evs0, st1) = spec_step(d, st, p);
        lemma_events_budget(d1, st1, polls.drop_first());
        let evs2 = spec_steps(d1, st1, polls.drop_first()).1;
        lemma_frame_events_concat(evs0, evs2);
        lemma_response_events_concat(evs0, evs2);
        if evs0.len() == 1 {
            assert(evs0.drop_first() =~= Seq::<EventView>::empty());
            assert(frame_events(Seq::<EventView>::empty()) == 0);
            assert(response_events(Seq::<EventView>::empty()) == 0);
            assert(frame_events(evs0) == (if evs0[0] is Stream {
                1nat
            } else {
                0nat
            }));
            assert(response_events(evs0) == (if evs0[0] is Response {
                1nat
            } else {
                0nat
            }));
            if evs0[0] is Stream {
                assert(p is Quiet);
            }
            if evs0[0] is Response {
                assert(p is Deliver);
            }
        } else {
            assert(evs0 =~= Seq::<EventView>::empty());
            assert(frame_events(evs0) == 0);
            assert(response_events(evs0) == 0);
        }
    }
}

/// The shared handler never touches the frame source.
pub proof fn lemma_handle_preserves_sources(d: DeviceModelView, req: RequestView)
    ensures
        spec_handle(d, req).0.sources_open == d.sources_open,
{
}

/// Opening never touches the frame source either.
pub proof fn lemma_opening_preserves_sources(d: DeviceModelView)
    ensures
        spec_opening(d).0.sources_open == d.sources_open,
{
}

/// Law (a single frame source, one turn): a worker that holds a frame source
/// exactly while streaming still does after any one turn. In particular no
/// two frame sources are ever open at once: a format change while streaming
/// must close the old source before the new one is opened, and the device
/// model refuses to open a second one (see
/// [`crate::capability::DeviceModel::open_source`]).
pub proof fn lemma_step_single_source(d: DeviceModelView, st: WorkerState, p: PollView)
    requires
        session_wf(d, st),
    ensures
        ({
            let (d1, evs, st1) = spec_step(d, st, p);
            &&& session_wf(d1, st1)
            &&& d1.sources_open <= 1
        }),
{
    if st is Idle {
        match p {
            PollView::Deliver(req) => {
                lemma_handle_preserves_sources(d, req);
            },
            _ => {},
        }
    } else if st is Streaming {
        match p {
            PollView::Deliver(req) => {
                lemma_handle_preserves_sources(crate::capability::spec_close_source(d), req);
            },
            _ => {},
        }
    }
}

/// Law (a single frame source, whole run): over any schedule, a worker that
/// starts well-formed stays well-formed — its device never has two frame
/// sources open, and none is left open once the worker is not streaming.
pub proof fn lemma_run_single_source(d: DeviceModelView, st: WorkerState, polls: Seq<PollView>)
    requires
        session_wf(d, st),
    ensures
        session_wf(spec_steps(d, st, polls).0, spec_steps(d, st, polls).2),
    decreases polls.len(),
{
    if polls.len() > 0 {
        lemma_step_single_source(d, st, polls[0]);
        let (d1, evs, st1) = spec_step(d, st, polls[0]);
        lemma_run_single_source(d1, st1, polls.drop_first());
    }
}

/// A finished worker does nothing, whatever the schedule: no event is ever
/// produced after the terminal state is reached.
pub proof fn lemma_finished_inert(d: DeviceModelView, polls: Seq<PollView>)
    ensures
        spec_steps(d, WorkerState::Finished, polls).0 == d,
        spec_steps(d, WorkerState::Finished, polls).1 == Seq::<EventView>::empty(),
        spec_steps(d, WorkerState::Finished, polls).2 == WorkerState::Finished,
    decreases polls.len(),
{
    if polls.len() > 0 {
        lemma_finished_inert(d, polls.drop_first());
        assert(Seq::<EventView>::empty() + Seq::<EventView>::empty()
            =~= Seq::<EventView>::empty());
    }
}

/// Law (a failed open is terminal): when the device cannot be opened, the
/// whole session is exactly one error event carrying the driver's own
/// description — no `Connected` is ever emitted and nothing follows.
pub proof fn lemma_open_failure_terminal(d: DeviceModelView, polls: Seq<PollView>)
    requires
        d.open_error is Some,
    ensures
        spec_run(d, polls) == seq![EventView::Error(ErrorView::Device(d.open_error->0))],
{
    lemma_finished_inert(d, polls);
    assert(spec_run(d, polls) =~= seq![EventView::Error(ErrorView::Device(d.open_error->0))]);
}

/// Law (connected comes first, or never): every session begins with exactly
/// one event; it is `Connected` exactly when opening and negotiation
/// succeeded, and otherwise it is an `Error` that ends the session by itself.
pub proof fn lemma_connected_first(d: DeviceModelView, polls: Seq<PollView>)
    ensures
        ({
            let evs = spec_run(d, polls);
            &&& evs.len() >= 1
            &&& (evs[0] is Connected <==> spec_opening(d).2 == WorkerState::Idle)
            &&& (spec_opening(d).2 == WorkerState::Finished ==> evs.len() == 1 && evs[0] is Error)
        }),
{
    let (d1, ev, st1) = spec_opening(d);
    if st1 == WorkerState::Finished {
        lemma_finished_inert(d1, polls);
        assert(spec_run(d, polls) =~= seq![ev]);
    }
    assert(spec_run(d, polls)[0] == ev);
}

/// Law (connected only once): a running worker never emits `Connected`
/// again — over any schedule, no event of the running trace is `Connected`.
/// With [`lemma_connected_first`], exactly one `Connected` precedes every
/// other event of a session that opened at all.
pub proof fn lemma_connected_only_once(d: DeviceModelView, st: WorkerState, polls: Seq<PollView>)
    ensures
        ({
            let evs = spec_steps(d, st, polls).1;
            forall|i: int| 0 <= i < evs.len() ==> !((#[trigger] evs[i]) is Connected)
        }),
    decreases polls.len(),
{
    if polls.len() > 0 {
        let (d1, evs0, st1) = spec_step(d, st, polls[0]);
        lemma_connected_only_once(d1, st1, polls.drop_first());
        let evs2 = spec_steps(d1, st1, polls.drop_first()).1;
        let evs = spec_steps(d, st, polls).1;
        assert forall|i: int| 0 <= i < evs.len() implies !((#[trigger] evs[i]) is Connected) by {
            if i < evs0.len() {
                assert(evs[i] == evs0[i]);
            } else {
                assert(evs[i] == evs2[i - evs0.len()]);
            }
        }
    }
}

/// Law (disconnected is terminal): once a running worker emits
/// `Disconnected`, nothing follows it — in any running trace, a
/// `Disconnected` event is the last event.
pub proof fn lemma_disconnected_is_last(d: DeviceModelView, st: WorkerState, polls: Seq<PollView>)
    ensures
        ({
            let evs = spec_steps(d, st, polls).1;
            forall|i: int|
                0 <= i < evs.len() && ((#[trigger] evs[i]) is Disconnected) ==> i == evs.len() - 1
        }),
    decreases polls.len(),
{
    if polls.len() > 0 {
        let (d1, evs0, st1) = spec_step(d, st, polls[0]);
        lemma_disconnected_is_last(d1, st1, polls.drop_first());
        let evs2 = spec_steps(d1, st1, polls.drop_first()).1;
        let evs = spec_steps(d, st, polls).1;
        if evs0.len() == 1 && evs0[0] is Disconnected {
            // the channel closed: the worker finished, and a finished worker
            // emits nothing more
            assert(st1 == WorkerState::Finished);
            lemma_finished_inert(d1, polls.drop_first());
            assert(evs =~= evs0);
        }
        assert forall|i: int|
            0 <= i < evs.len() && ((#[trigger] evs[i]) is Disconnected) implies i == evs.len()
            - 1 by {
            if i < evs0.len() {
                assert(evs[i] == evs0[i]);
            } else {
                assert(evs[i] == evs2[i - evs0.len()]);
            }
        }
    }
}

} // verus!

