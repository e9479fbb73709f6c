//! The worker: a state machine that owns the device capability exclusively,
//! serves requests, and pumps frames.
//!
//! The worker lives in one of four states. `Opening` negotiates the pixel
//! layout and either connects or fails terminally. `Idle` waits for requests.
//! `Streaming` polls the channel without blocking and, when nothing is
//! pending, pulls the next frame — so at most one request is drained per
//! cycle and neither requests nor frames starve the other. `Finished` is
//! terminal. Every transition is a verified function from the current state
//! and one channel poll to the next state and the event emitted; a session is
//! the fold of those transitions over a schedule of polls, and
//! [`run_session`] computes exactly that fold.

use vstd::prelude::*;

use crate::capability::{
    lookup_value, spec_close_source, spec_next_frame, spec_open_device, spec_open_source,
    spec_query_controls, spec_query_formats, spec_read_format, spec_write_control,
    spec_write_format, target_layout, DevFormat, DeviceModel, DeviceModelView, ErrorInfo,
    ErrorView, FormatEntryView, Frame, FrameOutcome, FrameOutcomeView, FrameView, PixelLayout,
};
use crate::connection::{copy_request, Request, RequestView, Response, ResponseView};
use crate::control::{reads_value, Control, ControlInfoView, ControlView, ValueView};
use crate::format::Format;

verus! {

/// A worker-to-UI notification. Exactly one `Connected` precedes any other
/// event of a session; a `Disconnected`, or an `Error` during opening, is the
/// last event of the session.
#[derive(Debug, PartialEq, Eq)]
pub enum Event {
    /// Something failed; the description says what.
    Error(ErrorInfo),
    /// The device is open and negotiated; the worker is ready for requests.
    Connected,
    /// The channel closed; the worker is gone.
    Disconnected,
    /// The result of one request.
    Response(Response),
    /// A freshly captured frame.
    Stream(Frame),
}

/// The mathematical shape of an [`Event`].
#[verifier::ext_equal]
pub enum EventView {
    Error(ErrorView),
    Connected,
    Disconnected,
    Response(ResponseView),
    Stream(FrameView),
}

impl DeepView for Event {
    type V = EventView;

    open spec fn deep_view(&self) -> EventView {
        match self {
            Event::Error(e) => EventView::Error(e.deep_view()),
            Event::Connected => EventView::Connected,
            Event::Disconnected => EventView::Disconnected,
            Event::Response(r) => EventView::Response(r.deep_view()),
            Event::Stream(f) => EventView::Stream(f.deep_view()),
        }
    }
}

/// Where the worker stands in its lifecycle.
#[derive(Clone, Copy, Debug, PartialEq, Eq, Structural)]
pub enum WorkerState {
    /// The device is being opened and its pixel layout negotiated.
    Opening,
    /// Connected; waiting for the next request.
    Idle,
    /// Connected with an open frame source; pumping frames between polls.
    Streaming,
    /// Terminal: no further event is ever produced.
    Finished,
}

/// What one look at the command channel found.
#[derive(Debug, PartialEq, Eq)]
pub enum Poll {
    /// A request was waiting.
    Deliver(Request),
    /// Nothing was waiting. While idle the worker just keeps waiting; while
    /// streaming it uses the turn to pull the next frame.
    Quiet,
    /// The sending side is gone: the session is over.
    Closed,
}

/// The mathematical shape of a [`Poll`].
#[verifier::ext_equal]
pub enum PollView {
    Deliver(RequestView),
    Quiet,
    Closed,
}

impl DeepView for Poll {
    type V = PollView;

    open spec fn deep_view(&self) -> PollView {
        match self {
            Poll::Deliver(r) => PollView::Deliver(r.deep_view()),
            Poll::Quiet => PollView::Quiet,
            Poll::Closed => PollView::Closed,
        }
    }
}

/// One worker's identity: the URI of the device it drives. Two subscriptions
/// to the same URI describe the same worker.
#[derive(Debug, PartialEq, Eq)]
pub struct Subscription {
    pub uri: String,
}

/// The flat list of resolutions the device's format table offers in the
/// target pixel layout: entries in other layouts are dropped, matching
/// entries contribute their resolutions in table order.
pub open spec fn matching_resolutions(entries: Seq<FormatEntryView>) -> Seq<Format>
    decreases entries.len(),
{
    if entries.len() == 0 {
        Seq::empty()
    } else {
        matching_resolutions(entries.drop_last()) + (if entries.last().layout == target_layout() {
            entries.last().resolutions
        } else {
            Seq::empty()
        })
    }
}

/// One row of the control table the UI is shown: the advertised control, with
/// its current value attached when its representation carries one and the
/// read succeeds, and no value otherwise.
pub open spec fn control_row(info: ControlInfoView, values: Seq<(u32, ValueView)>) -> ControlView {
    ControlView {
        id: info.id,
        name: info.name,
        representation: info.repr,
        value: if reads_value(info.repr) {
            match lookup_value(values, info.id) {
                Some(v) => v,
                None => ValueView::Absent,
            }
        } else {
            ValueView::Absent
        },
    }
}

/// The whole control table, one row per advertised control, in order.
pub open spec fn control_rows(infos: Seq<ControlInfoView>, values: Seq<(u32, ValueView)>) -> Seq<
    ControlView,
> {
    Seq::new(infos.len(), |i: int| control_row(infos[i], values))
}

/// What the shared handler does with one request: how the device changes and
/// which response comes back. Start and stop requests are not its business
/// and yield no response.
pub open spec fn spec_handle(d: DeviceModelView, req: RequestView) -> (DeviceModelView, Option<
    ResponseView,
>) {
    match req {
        RequestView::QueryFormats => (
            d,
            Some(
                ResponseView::QueryFormats(
                    match spec_query_formats(d) {
                        Ok(entries) => Ok(matching_resolutions(entries)),
                        Err(e) => Err(e),
                    },
                ),
            ),
        ),
        RequestView::QueryControls => (
            d,
            Some(
                ResponseView::QueryControls(
                    match spec_query_controls(d) {
                        Ok(infos) => Ok(control_rows(infos, d.values)),
                        Err(e) => Err(e),
                    },
                ),
            ),
        ),
        RequestView::GetFormat => (
            d,
            Some(
                ResponseView::GetFormat(
                    match spec_read_format(d) {
                        Ok(f) => Ok(Format { width: f.width, height: f.height }),
                        Err(e) => Err(e),
                    },
                ),
            ),
        ),
        RequestView::SetFormat(f) => match spec_read_format(d) {
            Err(e) => (d, Some(ResponseView::SetFormat(Err(e)))),
            Ok(cur) => {
                let want = DevFormat { width: f.width, height: f.height, layout: cur.layout };
                let (d1, res) = spec_write_format(d, want);
                (
                    d1,
                    Some(
                        ResponseView::SetFormat(
                            match res {
                                Ok(got) => Ok(Format { width: got.width, height: got.height }),
                                Err(e) => Err(e),
                            },
                        ),
                    ),
                )
            },
        },
        RequestView::SetControl(c) => {
            let (d1, res) = spec_write_control(d, c.id, c.value);
            (
                d1,
                Some(
                    ResponseView::SetControl(
                        match res {
                            Ok(_) => Ok(c),
                            Err(e) => Err(e),
                        },
                    ),
                ),
            )
        },
        RequestView::StartStream => (d, None),
        RequestView::StopStream => (d, None),
    }
}

impl Subscription {
    /// A subscription to the device behind `uri`.
    pub fn new(uri: String) -> (s: Subscription)
        ensures
            s.uri == uri,
    {
        Subscription { uri }
    }

    /// The shared request handler, used verbatim from both `Idle` and
    /// `Streaming`: executes one query/get/set request against the device and
    /// wraps the outcome in the matching response. Every device failure
    /// surfaces in the response; nothing is retried. `StartStream` and
    /// `StopStream` are handled by the states themselves and yield `None`.
    #[verifier::loop_isolation(false)]
    pub fn handle_request(device: &mut DeviceModel, request: Request) -> (r: Option<Response>)
        ensures
            ({
                let (d1, res) = spec_handle(old(device).deep_view(), request.deep_view());
                &&& final(device).deep_view() == d1
                &&& match r {
                    Some(resp) => res == Some(resp.deep_view()),
                    None => res is None,
                }
            }),
    {
        match request {
            Request::QueryFormats => {
                match device.query_formats() {
                    Ok(entries) => {
                        let ghost ev = entries.deep_view();
                        let mut resolutions: Vec<Format> = Vec::new();
                        let mut i: usize = 0;
                        proof {
                            assert(ev.take(0) =~= Seq::<FormatEntryView>::empty());
                        }
                        while i < entries.len()
                            invariant
                                i <= entries.len(),
                                resolutions@ == matching_resolutions(ev.take(i as int)),
                            decreases entries.len() - i,
                        {
                            let entry = &entries[i];
                            if entry.layout.is_target() {
                                let mut j: usize = 0;
                                while j < entry.resolutions.len()
                                    invariant
                                        i < entries.len(),
                                        j <= entry.resolutions.len(),
                                        resolutions@ == matching_resolutions(ev.take(i as int))
                                            + entry.resolutions@.take(j as int),
                                    decreases entry.resolutions.len() - j,
                                {
                                    resolutions.push(entry.resolutions[j]);
                                    proof {
                                        assert(entry.resolutions@.take(j + 1) =~= entry.resolutions@
                                            .take(j as int).push(entry.resolutions@[j as int]));
                                        assert(resolutions@ =~= matching_resolutions(
                                            ev.take(i as int),
                                        ) + entry.resolutions@.take(j + 1));
                                    }
                                    j = j + 1;
                                }
                                proof {
                                    assert(entry.resolutions@.take(
                                        entry.resolutions@.len() as int,
                                    ) =~= entry.resolutions@);
                                }
                            } else {
                                proof {
                                    assert(resolutions@ =~= matching_resolutions(ev.take(i as int))
                                        + Seq::<Format>::empty());
                                }
                            }
                            proof {
                                assert(ev.take(i + 1).drop_last() =~= ev.take(i as int));
                                assert(ev.take(i + 1).last() == ev[i as int]);
                                assert(ev[i as int].resolutions == entry.resolutions@);
                                assert(ev[i as int].layout == entry.layout);
                            }
                            i = i + 1;
                        }
                        proof {
                            assert(ev.take(ev.len() as int) =~= ev);
                            assert(resolutions.deep_view() =~= resolutions@);
                        }
                        Some(Response::QueryFormats(Ok(resolutions)))
                    },
                    Err(e) => Some(Response::QueryFormats(Err(e))),
                }
            },
            Request::QueryControls => {
                match device.query_controls() {
                    Ok(infos) => {
                        let ghost iv = infos.deep_view();
                        let ghost vals = device.deep_view().values;
                        let mut controls: Vec<Control> = Vec::new();
                        let mut i: usize = 0;
                        while i < infos.len()
                            invariant
                                i <= infos.len(),
                                controls.deep_view() == control_rows(iv.take(i as int), vals),
                            decreases infos.len() - i,
                        {
                            let info = &infos[i];
                            let mut control = Control::from_info(info);
                            if control.representation.carries_value() {
                                match device.read_control(control.id) {
                                    Ok(v) => {
                                        control.value = v;
                                    },
                                    Err(_) => {},
                                }
                            }
                            proof {
                                assert(control.deep_view() == control_row(iv[i as int], vals));
                            }
                            let ghost prev = controls.deep_view();
                            controls.push(control);
                            proof {
                                assert(controls.deep_view() =~= prev.push(control.deep_view()));
                                assert(control_rows(iv.take(i + 1), vals) =~= prev.push(
                                    control.deep_view(),
                                ));
                            }
                            i = i + 1;
                        }
                        proof {
                            assert(iv.take(iv.len() as int) =~= iv);
                            assert(controls.deep_view() =~= control_rows(iv, vals));
                        }
                        Some(Response::QueryControls(Ok(controls)))
                    },
                    Err(e) => Some(Response::QueryControls(Err(e))),
                }
            },
            Request::GetFormat => match device.read_format() {
                Ok(f) => Some(Response::GetFormat(Ok(Format { width: f.width, height: f.height }))),
                Err(e) => Some(Response::GetFormat(Err(e))),
            },
            Request::SetFormat(fmt) => match device.read_format() {
                Ok(cur) => {
                    let want = DevFormat { width: fmt.width, height: fmt.height, layout: cur.layout };
                    match device.write_format(want) {
                        Ok(got) => Some(
                            Response::SetFormat(Ok(Format { width: got.width, height: got.height })),
                        ),
                        Err(e) => Some(Response::SetFormat(Err(e))),
                    }
                },
                Err(e) => Some(Response::SetFormat(Err(e))),
            },
            Request::SetControl(ctrl) => match device.write_control(ctrl.id, &ctrl.value) {
                Ok(()) => Some(Response::SetControl(Ok(ctrl))),
                Err(e) => Some(Response::SetControl(Err(e))),
            },
            Request::StartStream => None,
            Request::StopStream => None,
        }
    }
}

/// What opening does: open the device, read its current format, ask for the
/// same resolution in the target pixel layout, and re-check what the device
/// settled on. Any failure, including a layout the device would not adopt, is
/// fatal to the session; success connects and leaves the worker idle.
pub open spec fn spec_opening(d: DeviceModelView) -> (DeviceModelView, EventView, WorkerState) {
    match spec_open_device(d) {
        Err(e) => (d, EventView::Error(e), WorkerState::Finished),
        Ok(_) => match spec_read_format(d) {
            Err(e) => (d, EventView::Error(e), WorkerState::Finished),
            Ok(cur) => {
                let want = DevFormat {
                    width: cur.width,
                    height: cur.height,
                    layout: target_layout(),
                };
                let (d1, res) = spec_write_format(d, want);
                match res {
                    Err(e) => (d1, EventView::Error(e), WorkerState::Finished),
                    Ok(got) => if got.layout != target_layout() {
                        (d1, EventView::Error(ErrorView::UnsupportedLayout), WorkerState::Finished)
                    } else {
                        (d1, EventView::Connected, WorkerState::Idle)
                    },
                }
            },
        },
    }
}

/// What one idle turn does with one poll.
pub open spec fn spec_idle(d: DeviceModelView, p: PollView) -> (DeviceModelView, Option<EventView>, WorkerState) {
    match p {
        PollView::Closed => (d, Some(EventView::Disconnected), WorkerState::Finished),
        PollView::Quiet => (d, None, WorkerState::Idle),
        PollView::Deliver(req) => match req {
            RequestView::StartStream => {
                let (d1, res) = spec_open_source(d);
                match res {
                    Ok(_) => (
                        d1,
                        Some(EventView::Response(ResponseView::StartStream(Ok(())))),
                        WorkerState::Streaming,
                    ),
                    Err(e) => (
                        d1,
                        Some(EventView::Response(ResponseView::StartStream(Err(e)))),
                        WorkerState::Idle,
                    ),
                }
            },
            RequestView::StopStream => (
                d,
                Some(EventView::Response(ResponseView::StopStream(Ok(())))),
                WorkerState::Idle,
            ),
            _ => {
                let (d1, res) = spec_handle(d, req);
                let ev = match res {
                    Some(resp) => EventView::Response(resp),
                    None => EventView::Error(ErrorView::InvalidRequest),
                };
                (d1, Some(ev), WorkerState::Idle)
            },
        },
    }
}

/// What one streaming turn does with one poll. A request, when one is
/// pending, always takes the turn; only a quiet poll pulls a frame.
pub open spec fn spec_streaming(d: DeviceModelView, p: PollView) -> (DeviceModelView, Option<EventView>, WorkerState) {
    match p {
        PollView::Closed => (
            spec_close_source(d),
            Some(EventView::Disconnected),
            WorkerState::Finished,
        ),
        PollView::Quiet => {
            let (d1, out) = spec_next_frame(d);
            match out {
                Some(FrameOutcomeView::Ready(f)) => (
                    d1,
                    Some(EventView::Stream(f)),
                    WorkerState::Streaming,
                ),
                Some(FrameOutcomeView::Failed(m)) => (
                    spec_close_source(d1),
                    Some(EventView::Error(ErrorView::Device(m))),
                    WorkerState::Idle,
                ),
                None => (
                    spec_close_source(d1),
                    Some(EventView::Error(ErrorView::StreamDied)),
                    WorkerState::Idle,
                ),
            }
        },
        PollView::Deliver(req) => match req {
            RequestView::StopStream => (
                spec_close_source(d),
                Some(EventView::Response(ResponseView::StopStream(Ok(())))),
                WorkerState::Idle,
            ),
            RequestView::SetFormat(f) => {
                let d1 = spec_close_source(d);
                let (d2, res) = spec_handle(d1, RequestView::SetFormat(f));
                let ev = match res {
                    Some(resp) => EventView::Response(resp),
                    None => EventView::Error(ErrorView::InvalidRequest),
                };
                let (d3, opened) = spec_open_source(d2);
                match opened {
                    Ok(_) => (d3, Some(ev), WorkerState::Streaming),
                    Err(e) => (
                        d3,
                        Some(EventView::Response(ResponseView::SetFormat(Err(e)))),
                        WorkerState::Idle,
                    ),
                }
            },
            RequestView::StartStream => (
                d,
                Some(EventView::Error(ErrorView::InvalidState)),
                WorkerState::Streaming,
            ),
            _ => {
                let (d1, res) = spec_handle(d, req);
                let ev = match res {
                    Some(resp) => EventView::Response(resp),
                    None => EventView::Error(ErrorView::InvalidRequest),
                };
                (d1, Some(ev), WorkerState::Streaming)
            },
        },
    }
}

/// The events one step emits, as a sequence.
pub open spec fn opt_events(ev: Option<EventView>) -> Seq<EventView> {
    match ev {
        Some(e) => seq![e],
        None => Seq::empty(),
    }
}

/// One turn of a running worker on one poll. A finished worker does nothing;
/// a worker that was never opened is not driven by polls and does nothing
/// either.
pub open spec fn spec_step(d: DeviceModelView, st: WorkerState, p: PollView) -> (DeviceModelView, Seq<EventView>, WorkerState) {
    match st {
        WorkerState::Opening => (d, Seq::empty(), WorkerState::Opening),
        WorkerState::Idle => {
            let (d1, ev, st1) = spec_idle(d, p);
            (d1, opt_events(ev), st1)
        },
        WorkerState::Streaming => {
            let (d1, ev, st1) = spec_streaming(d, p);
            (d1, opt_events(ev), st1)
        },
        WorkerState::Finished => (d, Seq::empty(), WorkerState::Finished),
    }
}

/// A running worker folded over a schedule of polls: the final device state,
/// the events emitted in order, and the final worker state.
pub open spec fn spec_steps(d: DeviceModelView, st: WorkerState, polls: Seq<PollView>) -> (DeviceModelView, Seq<EventView>, WorkerState)
    decreases polls.len(),
{
    if polls.len() == 0 {
        (d, Seq::empty(), st)
    } else {
        let (d1, evs, st1) = spec_step(d, st, polls[0]);
        let (d2, evs2, st2) = spec_steps(d1, st1, polls.drop_first());
        (d2, evs + evs2, st2)
    }
}

/// A whole session: open and negotiate, then serve the schedule. The result
/// is every event the UI sees, in order.
pub open spec fn spec_run(d: DeviceModelView, polls: Seq<PollView>) -> Seq<EventView> {
    let (d1, ev, st1) = spec_opening(d);
    seq![ev] + spec_steps(d1, st1, polls).1
}

/// The worker holds a frame source exactly while it is streaming: never two
/// at once, and none once it leaves the streaming state.
pub open spec fn session_wf(d: DeviceModelView, st: WorkerState) -> bool {
    &&& (st is Streaming ==> d.sources_open == 1)
    &&& (!(st is Streaming) ==> d.sources_open == 0)
}

/// Folding a schedule one poll longer runs the old schedule, then the one
/// extra step.
pub proof fn lemma_steps_snoc(d: DeviceModelView, st: WorkerState, polls: Seq<PollView>, p: PollView)
    ensures
        ({
            let (d1, evs, st1) = spec_steps(d, st, polls);
            let (d2, evs2, st2) = spec_step(d1, st1, p);
            &&& spec_steps(d, st, polls.push(p)).0 == d2
            &&& spec_steps(d, st, polls.push(p)).1 == evs + evs2
            &&& spec_steps(d, st, polls.push(p)).2 == st2
        }),
    decreases polls.len(),
{
    let pp = polls.push(p);
    if polls.len() == 0 {
        let (d2, evs2, st2) = spec_step(d, st, p);
        assert(pp[0] == p);
        assert(pp.drop_first() =~= Seq::<PollView>::empty());
        assert(spec_steps(d2, st2, Seq::<PollView>::empty()).0 == d2);
        assert(spec_steps(d2, st2, Seq::<PollView>::empty()).1 == Seq::<EventView>::empty());
        assert(spec_steps(d2, st2, Seq::<PollView>::empty()).2 == st2);
        assert(spec_steps(d, st, pp).1 == evs2 + Seq::<EventView>::empty());
        assert(Seq::<EventView>::empty() + evs2 =~= evs2);
        assert(evs2 + Seq::<EventView>::empty() =~= evs2);
    } else {
        assert(pp[0] == polls[0]);
        assert(pp.drop_first() =~= polls.drop_first().push(p));
        let (da, evsa, sta) = spec_step(d, st, polls[0]);
        lemma_steps_snoc(da, sta, polls.drop_first(), p);
        let (db, evsb, stb) = spec_steps(da, sta, polls.drop_first());
        let (dc, evsc, stc) = spec_step(db, stb, p);
        assert(spec_steps(da, sta, pp.drop_first()).0 == dc);
        assert(spec_steps(da, sta, pp.drop_first()).1 == evsb + evsc);
        assert(spec_steps(da, sta, pp.drop_first()).2 == stc);
        assert(spec_steps(d, st, pp).1 == evsa + (evsb + evsc));
        assert(spec_steps(d, st, polls).1 == evsa + evsb);
        assert(evsa + (evsb + evsc) =~= (evsa + evsb) + evsc);
    }
}

/// One opening turn: performs the whole open-and-negotiate sequence against
/// the device and reports how the session starts.
pub fn opening_step(device: &mut DeviceModel) -> (r: (Event, WorkerState))
    ensures
        ({
            let (d1, ev, st) = spec_opening(old(device).deep_view());
            &&& final(device).deep_view() == d1
            &&& r.0.deep_view() == ev
            &&& r.1 == st
        }),
{
    match device.open_device() {
        Err(e) => (Event::Error(e), WorkerState::Finished),
        Ok(()) => match device.read_format() {
            Err(e) => (Event::Error(e), WorkerState::Finished),
            Ok(cur) => {
                let want = DevFormat {
                    width: cur.width,
                    height: cur.height,
                    layout: PixelLayout::Bgra(32),
                };
                match device.write_format(want) {
                    Err(e) => (Event::Error(e), WorkerState::Finished),
                    Ok(got) => {
                        if !got.layout.is_target() {
                            (Event::Error(ErrorInfo::UnsupportedLayout), WorkerState::Finished)
                        } else {
                            (Event::Connected, WorkerState::Idle)
                        }
                    },
                }
            },
        },
    }
}

/// One idle turn: blocks on the channel (modelled by the poll) and serves
/// what arrives. Every request is answered with exactly one matching
/// response; a closed channel disconnects; stopping an already stopped
/// stream is a no-op success.
pub fn idle_step(device: &mut DeviceModel, p: &Poll) -> (r: (Option<Event>, WorkerState))
    requires
        old(device).sources_open == 0,
    ensures
        ({
            let (d1, ev, st) = spec_idle(old(device).deep_view(), p.deep_view());
            &&& final(device).deep_view() == d1
            &&& r.0.deep_view() == ev
            &&& r.1 == st
        }),
{
    match p {
        Poll::Closed => (Some(Event::Disconnected), WorkerState::Finished),
        Poll::Quiet => (None, WorkerState::Idle),
        Poll::Deliver(req) => match req {
            Request::StartStream => match device.open_source() {
                Ok(()) => (
                    Some(Event::Response(Response::StartStream(Ok(())))),
                    WorkerState::Streaming,
                ),
                Err(e) => (
                    Some(Event::Response(Response::StartStream(Err(e)))),
                    WorkerState::Idle,
                ),
            },
            Request::StopStream => (
                Some(Event::Response(Response::StopStream(Ok(())))),
                WorkerState::Idle,
            ),
            _ => {
                let event = match Subscription::handle_request(device, copy_request(req)) {
                    Some(res) => Event::Response(res),
                    None => Event::Error(ErrorInfo::InvalidRequest),
                };
                (Some(event), WorkerState::Idle)
            },
        },
    }
}

/// One streaming turn: polls without blocking, drains at most the one
/// pending request, and only pulls a frame when nothing was pending. A
/// format change closes the frame source before the device is touched and
/// reopens it afterwards, so no two sources are ever open at once.
pub fn streaming_step(device: &mut DeviceModel, p: &Poll) -> (r: (Option<Event>, WorkerState))
    requires
        old(device).sources_open == 1,
    ensures
        ({
            let (d1, ev, st) = spec_streaming(old(device).deep_view(), p.deep_view());
            &&& final(device).deep_view() == d1
            &&& r.0.deep_view() == ev
            &&& r.1 == st
        }),
{
    match p {
        Poll::Closed => {
            device.close_source();
            (Some(Event::Disconnected), WorkerState::Finished)
        },
        Poll::Quiet => match device.next_frame() {
            Some(FrameOutcome::Ready(f)) => (Some(Event::Stream(f)), WorkerState::Streaming),
            Some(FrameOutcome::Failed(m)) => {
                device.close_source();
                (Some(Event::Error(ErrorInfo::Device(m))), WorkerState::Idle)
            },
            None => {
                device.close_source();
                (Some(Event::Error(ErrorInfo::StreamDied)), WorkerState::Idle)
            },
        },
        Poll::Deliver(req) => match req {
            Request::StopStream => {
                device.close_source();
                (Some(Event::Response(Response::StopStream(Ok(())))), WorkerState::Idle)
            },
            Request::SetFormat(f) => {
                // The format cannot change under an open stream handle: drop
                // the source first, then change, then reopen.
                device.close_source();
                let event = match Subscription::handle_request(device, Request::SetFormat(*f)) {
                    Some(res) => Event::Response(res),
                    None => Event::Error(ErrorInfo::InvalidRequest),
                };
                match device.open_source() {
                    Ok(()) => (Some(event), WorkerState::Streaming),
                    Err(e) => (
                        Some(Event::Response(Response::SetFormat(Err(e)))),
                        WorkerState::Idle,
                    ),
                }
            },
            Request::StartStream => (
                Some(Event::Error(ErrorInfo::InvalidState)),
                WorkerState::Streaming,
            ),
            _ => {
                let event = match Subscription::handle_request(device, copy_request(req)) {
                    Some(res) => Event::Response(res),
                    None => Event::Error(ErrorInfo::InvalidRequest),
                };
                (Some(event), WorkerState::Streaming)
            },
        },
    }
}

/// Runs a whole session: opens and negotiates, then serves the schedule poll
/// by poll until it is exhausted or the worker finishes. Returns every event
/// in the order the UI would see them.
#[verifier::loop_isolation(false)]
pub fn run_session(device: DeviceModel, schedule: &Vec<Poll>) -> (events: Vec<Event>)
    requires
        device.sources_open == 0,
    ensures
        events.deep_view() == spec_run(device.deep_view(), schedule.deep_view()),
{
    let ghost d0 = device.deep_view();
    let mut device = device;
    let mut events: Vec<Event> = Vec::new();
    let (ev0, st0) = opening_step(&mut device);
    events.push(ev0);
    let mut state = st0;
    let ghost d1 = device.deep_view();
    let ghost st1 = state;
    proof {
        assert(events.deep_view() =~= seq![spec_opening(d0).1]);
        assert(spec_steps(d1, st1, schedule.deep_view().take(0)).1 =~= Seq::<EventView>::empty());
        assert(seq![spec_opening(d0).1] + Seq::<EventView>::empty() =~= seq![spec_opening(d0).1]);
    }
    let mut i: usize = 0;
    while i < schedule.len()
        invariant
            i <= schedule.len(),
            device.deep_view() == spec_steps(d1, st1, schedule.deep_view().take(i as int)).0,
            state == spec_steps(d1, st1, schedule.deep_view().take(i as int)).2,
            events.deep_view() == seq![spec_opening(d0).1] + spec_steps(
                d1,
                st1,
                schedule.deep_view().take(i as int),
            ).1,
            session_wf(device.deep_view(), state),
            state != WorkerState::Opening,
        decreases schedule.len() - i,
    {
        let p = &schedule[i];
        proof {
            assert(schedule.deep_view()[i as int] == schedule@[i as int].deep_view());
            assert(schedule.deep_view().take(i + 1) =~= schedule.deep_view().take(i as int).push(
                schedule.deep_view()[i as int],
            ));
            lemma_steps_snoc(d1, st1, schedule.deep_view().take(i as int), schedule.deep_view()[i as int]);
        }
        let ghost evs_before = events.deep_view();
        let (ev, st) = match state {
            WorkerState::Idle => idle_step(&mut device, p),
            WorkerState::Streaming => streaming_step(&mut device, p),
            _ => (None, state),
        };
        state = st;
        match ev {
            Some(e) => {
                events.push(e);
                proof {
                    assert(events.deep_view() =~= evs_before.push(events@.last().deep_view()));
                }
            },
            None => {},
        }
        proof {
            let (dd, evs, stt) = spec_steps(d1, st1, schedule.deep_view().take(i + 1));
            assert(events.deep_view() =~= seq![spec_opening(d0).1] + evs);
        }
        i = i + 1;
    }
    proof {
        assert(schedule.deep_view().take(schedule.deep_view().len() as int) =~= schedule.deep_view());
    }
    events
}

} // verus!
