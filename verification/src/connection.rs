//! The command/response protocol and the UI-side connection handle.

use vstd::prelude::*;

use crate::capability::{result_view, ErrorInfo, ErrorView};
use crate::control::{copy_control, Control, ControlView};
use crate::format::Format;

verus! {

/// A UI-to-worker instruction. Immutable once sent; ownership moves to the
/// worker with the queue.
#[derive(Clone, Debug, PartialEq, Eq)]
pub enum Request {
    StartStream,
    StopStream,
    QueryFormats,
    QueryControls,
    GetFormat,
    SetFormat(Format),
    SetControl(Control),
}

/// The mathematical shape of a [`Request`].
#[verifier::ext_equal]
pub enum RequestView {
    StartStream,
    StopStream,
    QueryFormats,
    QueryControls,
    GetFormat,
    SetFormat(Format),
    SetControl(ControlView),
}

impl DeepView for Request {
    type V = RequestView;

    open spec fn deep_view(&self) -> RequestView {
        match self {
            Request::StartStream => RequestView::StartStream,
            Request::StopStream => RequestView::StopStream,
            Request::QueryFormats => RequestView::QueryFormats,
            Request::QueryControls => RequestView::QueryControls,
            Request::GetFormat => RequestView::GetFormat,
            Request::SetFormat(f) => RequestView::SetFormat(*f),
            Request::SetControl(c) => RequestView::SetControl(c.deep_view()),
        }
    }
}

/// An owned copy of a request, equal to the one given.
pub fn copy_request(r: &Request) -> (c: Request)
    ensures
        c == *r,
{
    match r {
        Request::StartStream => Request::StartStream,
        Request::StopStream => Request::StopStream,
        Request::QueryFormats => Request::QueryFormats,
        Request::QueryControls => Request::QueryControls,
        Request::GetFormat => Request::GetFormat,
        Request::SetFormat(f) => Request::SetFormat(*f),
        Request::SetControl(c) => Request::SetControl(copy_control(c)),
    }
}

/// The worker's answer to one request, reported asynchronously over the event
/// stream.
#[derive(Debug, PartialEq, Eq)]
pub enum Response {
    StartStream(Result<(), ErrorInfo>),
    StopStream(Result<(), ErrorInfo>),
    QueryFormats(Result<Vec<Format>, ErrorInfo>),
    QueryControls(Result<Vec<Control>, ErrorInfo>),
    GetFormat(Result<Format, ErrorInfo>),
    SetFormat(Result<Format, ErrorInfo>),
    SetControl(Result<Control, ErrorInfo>),
}

/// The mathematical shape of a [`Response`].
#[verifier::ext_equal]
pub enum ResponseView {
    StartStream(Result<(), ErrorView>),
    StopStream(Result<(), ErrorView>),
    QueryFormats(Result<Seq<Format>, ErrorView>),
    QueryControls(Result<Seq<ControlView>, ErrorView>),
    GetFormat(Result<Format, ErrorView>),
    SetFormat(Result<Format, ErrorView>),
    SetControl(Result<ControlView, ErrorView>),
}

impl DeepView for Response {
    type V = ResponseView;

    open spec fn deep_view(&self) -> ResponseView {
        match self {
            Response::StartStream(r) => ResponseView::StartStream(result_view(*r)),
            Response::StopStream(r) => ResponseView::StopStream(result_view(*r)),
            Response::QueryFormats(r) => ResponseView::QueryFormats(result_view(*r)),
            Response::QueryControls(r) => ResponseView::QueryControls(result_view(*r)),
            Response::GetFormat(r) => ResponseView::GetFormat(result_view(*r)),
            Response::SetFormat(r) => ResponseView::SetFormat(result_view(*r)),
            Response::SetControl(r) => ResponseView::SetControl(result_view(*r)),
        }
    }
}

/// The UI's fire-and-forget proxy: it can only enqueue requests, oldest
/// first, and never waits for an answer. Results arrive asynchronously as
/// events. The handle has no access to the device itself.
#[derive(Debug)]
pub struct Connection {
    sent: Vec<Request>,
}

impl Connection {
    /// Everything enqueued so far, oldest first. The worker drains this queue
    /// in exactly this order: there is one producer per connection, so
    /// program order is preserved end to end.
    pub closed spec fn queued(&self) -> Seq<RequestView> {
        self.sent.deep_view()
    }

    /// A fresh handle with nothing enqueued.
    pub fn new() -> (c: Connection)
        ensures
            c.queued() == Seq::<RequestView>::empty(),
    {
        let c = Connection { sent: Vec::new() };
        proof {
            assert(c.queued() =~= Seq::<RequestView>::empty());
        }
        c
    }

    /// Asks the worker to open the frame source and start delivering frames.
    pub fn start_stream(&mut self)
        ensures
            final(self).queued() == old(self).queued().push(RequestView::StartStream),
    {
        self.sent.push(Request::StartStream);
        proof {
            assert(self.queued() =~= old(self).queued().push(RequestView::StartStream));
        }
    }

    /// Asks the worker to stop delivering frames. A no-op success when no
    /// stream is running.
    pub fn stop_stream(&mut self)
        ensures
            final(self).queued() == old(self).queued().push(RequestView::StopStream),
    {
        self.sent.push(Request::StopStream);
        proof {
            assert(self.queued() =~= old(self).queued().push(RequestView::StopStream));
        }
    }

    /// Asks for the resolutions the device supports in the target layout.
    pub fn query_formats(&mut self)
        ensures
            final(self).queued() == old(self).queued().push(RequestView::QueryFormats),
    {
        self.sent.push(Request::QueryFormats);
        proof {
            assert(self.queued() =~= old(self).queued().push(RequestView::QueryFormats));
        }
    }

    /// Asks for the device's controls and their current values.
    pub fn query_controls(&mut self)
        ensures
            final(self).queued() == old(self).queued().push(RequestView::QueryControls),
    {
        self.sent.push(Request::QueryControls);
        proof {
            assert(self.queued() =~= old(self).queued().push(RequestView::QueryControls));
        }
    }

    /// Asks for the format the device is currently set to.
    pub fn get_format(&mut self)
        ensures
            final(self).queued() == old(self).queued().push(RequestView::GetFormat),
    {
        self.sent.push(Request::GetFormat);
        proof {
            assert(self.queued() =~= old(self).queued().push(RequestView::GetFormat));
        }
    }

    /// Asks the worker to switch the device to the given resolution. The
    /// pixel layout is never touched by this request.
    pub fn set_format(&mut self, fmt: &Format)
        ensures
            final(self).queued() == old(self).queued().push(RequestView::SetFormat(*fmt)),
    {
        self.sent.push(Request::SetFormat(*fmt));
        proof {
            assert(self.queued() =~= old(self).queued().push(RequestView::SetFormat(*fmt)));
        }
    }

    /// Asks the worker to write the given control value verbatim.
    pub fn set_control(&mut self, ctrl: &Control)
        ensures
            final(self).queued() == old(self).queued().push(
                RequestView::SetControl(ctrl.deep_view()),
            ),
    {
        self.sent.push(Request::SetControl(copy_control(ctrl)));
        proof {
            assert(self.queued() =~= old(self).queued().push(
                RequestView::SetControl(ctrl.deep_view()),
            ));
        }
    }

    /// Releases the handle. A final `StopStream` is unconditionally enqueued,
    /// behind everything already sent and before the sending side goes away,
    /// as a best-effort teardown signal; the worker treats it as a no-op when
    /// no stream is running. The returned queue is everything the worker will
    /// ever receive from this handle.
    pub fn close(self) -> (r: Vec<Request>)
        ensures
            r.deep_view() == self.queued().push(RequestView::StopStream),
    {
        let mut sent = self.sent;
        sent.push(Request::StopStream);
        proof {
            assert(sent.deep_view() =~= self.sent.deep_view().push(RequestView::StopStream));
        }
        sent
    }
}

} // verus!
