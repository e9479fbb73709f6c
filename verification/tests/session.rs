//! Whole-session scenarios: the worker driven over a schedule of polls.

use eyece::capability::{
    DevFormat, DeviceModel, ErrorInfo, FormatEntry, Frame, FrameOutcome, PixelLayout,
};
use eyece::connection::{Request, Response};
use eyece::format::Format;
use eyece::subscription::{run_session, Event, Poll};

fn healthy_device() -> DeviceModel {
    DeviceModel {
        open_error: None,
        format_error: None,
        set_format_error: None,
        query_formats_error: None,
        query_controls_error: None,
        set_control_error: None,
        stream_error: None,
        honors_layout: true,
        entries: Vec::new(),
        infos: Vec::new(),
        values: Vec::new(),
        current: DevFormat { width: 640, height: 480, layout: PixelLayout::Other(7) },
        frames: Vec::new(),
        cursor: 0,
        sources_open: 0,
    }
}

fn frame(tag: u8) -> Frame {
    Frame { width: 640, height: 480, pixels: vec![tag, tag, tag, 255] }
}

#[test]
fn connect_then_disconnect() {
    let schedule = vec![Poll::Closed];
    let events = run_session(healthy_device(), &schedule);
    assert_eq!(events, vec![Event::Connected, Event::Disconnected]);
}

#[test]
fn stop_stream_twice_is_idempotent() {
    let schedule = vec![
        Poll::Deliver(Request::StopStream),
        Poll::Deliver(Request::StopStream),
    ];
    let events = run_session(healthy_device(), &schedule);
    assert_eq!(
        events,
        vec![
            Event::Connected,
            Event::Response(Response::StopStream(Ok(()))),
            Event::Response(Response::StopStream(Ok(()))),
        ]
    );
}

#[test]
fn query_then_stream_until_stopped() {
    let mut device = healthy_device();
    device.entries = vec![FormatEntry {
        layout: PixelLayout::Bgra(32),
        resolutions: vec![
            Format { width: 640, height: 480 },
            Format { width: 1280, height: 720 },
        ],
    }];
    device.frames = vec![
        FrameOutcome::Ready(frame(1)),
        FrameOutcome::Ready(frame(2)),
        FrameOutcome::Ready(frame(3)),
        FrameOutcome::Ready(frame(4)),
    ];
    let schedule = vec![
        Poll::Deliver(Request::QueryFormats),
        Poll::Deliver(Request::StartStream),
        Poll::Quiet,
        Poll::Quiet,
        Poll::Quiet,
        Poll::Deliver(Request::StopStream),
        Poll::Quiet,
    ];
    let events = run_session(device, &schedule);
    assert_eq!(
        events,
        vec![
            Event::Connected,
            Event::Response(Response::QueryFormats(Ok(vec![
                Format { width: 640, height: 480 },
                Format { width: 1280, height: 720 },
            ]))),
            Event::Response(Response::StartStream(Ok(()))),
            Event::Stream(frame(1)),
            Event::Stream(frame(2)),
            Event::Stream(frame(3)),
            Event::Response(Response::StopStream(Ok(()))),
            // the trailing quiet poll in the idle state yields nothing:
            // no frame is ever delivered after the stop result
        ]
    );
}

#[test]
fn open_failure_is_terminal() {
    let mut device = healthy_device();
    device.open_error = Some("device busy".to_string());
    let schedule = vec![Poll::Deliver(Request::QueryFormats), Poll::Quiet, Poll::Closed];
    let events = run_session(device, &schedule);
    assert_eq!(
        events,
        vec![Event::Error(ErrorInfo::Device("device busy".to_string()))]
    );
}

#[test]
fn layout_mismatch_is_terminal() {
    let mut device = healthy_device();
    device.honors_layout = false;
    let schedule = vec![Poll::Deliver(Request::QueryFormats)];
    let events = run_session(device, &schedule);
    assert_eq!(events, vec![Event::Error(ErrorInfo::UnsupportedLayout)]);
}

#[test]
fn negotiation_preserves_resolution() {
    let schedule = vec![Poll::Deliver(Request::GetFormat)];
    let events = run_session(healthy_device(), &schedule);
    assert_eq!(
        events,
        vec![
            Event::Connected,
            Event::Response(Response::GetFormat(Ok(Format { width: 640, height: 480 }))),
        ]
    );
}

#[test]
fn frame_error_falls_back_to_idle_and_restart_succeeds() {
    let mut device = healthy_device();
    let mut frames = Vec::new();
    for tag in 1..10u8 {
        frames.push(FrameOutcome::Ready(frame(tag)));
    }
    frames.push(FrameOutcome::Failed("frame torn".to_string()));
    frames.push(FrameOutcome::Ready(frame(11)));
    frames.push(FrameOutcome::Ready(frame(12)));
    device.frames = frames;
    let mut schedule = vec![Poll::Deliver(Request::StartStream)];
    for _ in 0..10 {
        schedule.push(Poll::Quiet);
    }
    schedule.push(Poll::Deliver(Request::StartStream));
    schedule.push(Poll::Quiet);
    schedule.push(Poll::Quiet);
    let events = run_session(device, &schedule);

    let mut expected = vec![Event::Connected, Event::Response(Response::StartStream(Ok(())))];
    for tag in 1..10u8 {
        expected.push(Event::Stream(frame(tag)));
    }
    expected.push(Event::Error(ErrorInfo::Device("frame torn".to_string())));
    expected.push(Event::Response(Response::StartStream(Ok(()))));
    expected.push(Event::Stream(frame(11)));
    expected.push(Event::Stream(frame(12)));
    assert_eq!(events, expected);

    let errors = events
        .iter()
        .filter(|e| matches!(e, Event::Error(_)))
        .count();
    assert_eq!(errors, 1);
}

#[test]
fn stream_end_reports_stream_died() {
    let mut device = healthy_device();
    device.frames = vec![FrameOutcome::Ready(frame(1))];
    let schedule = vec![Poll::Deliver(Request::StartStream), Poll::Quiet, Poll::Quiet];
    let events = run_session(device, &schedule);
    assert_eq!(
        events,
        vec![
            Event::Connected,
            Event::Response(Response::StartStream(Ok(()))),
            Event::Stream(frame(1)),
            Event::Error(ErrorInfo::StreamDied),
        ]
    );
}

#[test]
fn start_stream_while_streaming_is_invalid() {
    let mut device = healthy_device();
    device.frames = vec![FrameOutcome::Ready(frame(1))];
    let schedule = vec![
        Poll::Deliver(Request::StartStream),
        Poll::Deliver(Request::StartStream),
        Poll::Quiet,
    ];
    let events = run_session(device, &schedule);
    assert_eq!(
        events,
        vec![
            Event::Connected,
            Event::Response(Response::StartStream(Ok(()))),
            Event::Error(ErrorInfo::InvalidState),
            Event::Stream(frame(1)),
        ]
    );
}

#[test]
fn start_stream_failure_keeps_serving() {
    let mut device = healthy_device();
    device.stream_error = Some("no free buffers".to_string());
    let schedule = vec![
        Poll::Deliver(Request::StartStream),
        Poll::Deliver(Request::QueryFormats),
    ];
    let events = run_session(device, &schedule);
    assert_eq!(
        events,
        vec![
            Event::Connected,
            Event::Response(Response::StartStream(Err(ErrorInfo::Device(
                "no free buffers".to_string()
            )))),
            Event::Response(Response::QueryFormats(Ok(Vec::new()))),
        ]
    );
}

#[test]
fn set_format_while_streaming_reopens_the_source() {
    let mut device = healthy_device();
    device.frames = vec![FrameOutcome::Ready(frame(1)), FrameOutcome::Ready(frame(2))];
    let schedule = vec![
        Poll::Deliver(Request::StartStream),
        Poll::Quiet,
        Poll::Deliver(Request::SetFormat(Format { width: 1280, height: 720 })),
        Poll::Quiet,
    ];
    let events = run_session(device, &schedule);
    assert_eq!(
        events,
        vec![
            Event::Connected,
            Event::Response(Response::StartStream(Ok(()))),
            Event::Stream(frame(1)),
            Event::Response(Response::SetFormat(Ok(Format { width: 1280, height: 720 }))),
            Event::Stream(frame(2)),
        ]
    );
}

#[test]
fn closed_channel_while_streaming_disconnects() {
    let mut device = healthy_device();
    device.frames = vec![FrameOutcome::Ready(frame(1))];
    let schedule = vec![Poll::Deliver(Request::StartStream), Poll::Quiet, Poll::Closed];
    let events = run_session(device, &schedule);
    assert_eq!(
        events,
        vec![
            Event::Connected,
            Event::Response(Response::StartStream(Ok(()))),
            Event::Stream(frame(1)),
            Event::Disconnected,
        ]
    );
}

#[test]
fn empty_schedule_connects_and_nothing_more() {
    let events = run_session(healthy_device(), &Vec::new());
    assert_eq!(events, vec![Event::Connected]);
}
