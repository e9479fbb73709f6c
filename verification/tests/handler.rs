//! The shared command handler, exercised directly against the device model.

use eyece::capability::{
    DevFormat, DeviceModel, ErrorInfo, FormatEntry, PixelLayout,
};
use eyece::connection::{Request, Response};
use eyece::control::{Control, ControlInfo, Representation, Value};
use eyece::format::Format;
use eyece::subscription::Subscription;

fn device() -> DeviceModel {
    DeviceModel {
        open_error: None,
        format_error: None,
        set_format_error: None,
        query_formats_error: None,
        query_controls_error: None,
        set_control_error: None,
        stream_error: None,
        honors_layout: true,
        entries: Vec::new(),
        infos: Vec::new(),
        values: Vec::new(),
        current: DevFormat { width: 640, height: 480, layout: PixelLayout::Bgra(32) },
        frames: Vec::new(),
        cursor: 0,
        sources_open: 0,
    }
}

#[test]
fn query_formats_filters_and_flattens() {
    let mut dev = device();
    dev.entries = vec![
        FormatEntry {
            layout: PixelLayout::Bgra(32),
            resolutions: vec![Format { width: 640, height: 480 }],
        },
        FormatEntry {
            layout: PixelLayout::Other(9),
            resolutions: vec![Format { width: 320, height: 240 }],
        },
        FormatEntry {
            layout: PixelLayout::Bgra(32),
            resolutions: vec![
                Format { width: 1280, height: 720 },
                Format { width: 1920, height: 1080 },
            ],
        },
    ];
    let r = Subscription::handle_request(&mut dev, Request::QueryFormats);
    assert_eq!(
        r,
        Some(Response::QueryFormats(Ok(vec![
            Format { width: 640, height: 480 },
            Format { width: 1280, height: 720 },
            Format { width: 1920, height: 1080 },
        ])))
    );
}

#[test]
fn query_formats_empty_table() {
    let mut dev = device();
    let r = Subscription::handle_request(&mut dev, Request::QueryFormats);
    assert_eq!(r, Some(Response::QueryFormats(Ok(Vec::new()))));
}

#[test]
fn query_formats_surfaces_the_driver_error() {
    let mut dev = device();
    dev.query_formats_error = Some("usb reset".to_string());
    let r = Subscription::handle_request(&mut dev, Request::QueryFormats);
    assert_eq!(
        r,
        Some(Response::QueryFormats(Err(ErrorInfo::Device(
            "usb reset".to_string()
        ))))
    );
}

#[test]
fn query_controls_reads_values_only_where_they_exist() {
    let mut dev = device();
    dev.infos = vec![
        ControlInfo {
            id: 1,
            name: "Brightness".to_string(),
            repr: Representation::Integer { min: 0, max: 100, step: 1, default: 50 },
        },
        ControlInfo { id: 2, name: "Flip".to_string(), repr: Representation::Button },
        ControlInfo { id: 3, name: "Auto White Balance".to_string(), repr: Representation::Boolean },
        ControlInfo { id: 4, name: "Vendor Zoom".to_string(), repr: Representation::Unknown },
    ];
    // the button and the unrecognized control have stored values too, but
    // neither representation gets a follow-up read; control 3 has none at
    // all, so its read fails silently and it keeps no value
    dev.values = vec![
        (1, Value::Integer(42)),
        (2, Value::Boolean(true)),
        (4, Value::Integer(9)),
    ];
    let r = Subscription::handle_request(&mut dev, Request::QueryControls);
    assert_eq!(
        r,
        Some(Response::QueryControls(Ok(vec![
            Control {
                id: 1,
                name: "Brightness".to_string(),
                representation: Representation::Integer { min: 0, max: 100, step: 1, default: 50 },
                value: Value::Integer(42),
            },
            Control {
                id: 2,
                name: "Flip".to_string(),
                representation: Representation::Button,
                value: Value::Absent,
            },
            Control {
                id: 3,
                name: "Auto White Balance".to_string(),
                representation: Representation::Boolean,
                value: Value::Absent,
            },
            Control {
                id: 4,
                name: "Vendor Zoom".to_string(),
                representation: Representation::Unknown,
                value: Value::Absent,
            },
        ])))
    );
}

#[test]
fn query_controls_surfaces_the_driver_error() {
    let mut dev = device();
    dev.query_controls_error = Some("not supported".to_string());
    let r = Subscription::handle_request(&mut dev, Request::QueryControls);
    assert_eq!(
        r,
        Some(Response::QueryControls(Err(ErrorInfo::Device(
            "not supported".to_string()
        ))))
    );
}

#[test]
fn get_format_reports_the_current_format() {
    let mut dev = device();
    let r = Subscription::handle_request(&mut dev, Request::GetFormat);
    assert_eq!(
        r,
        Some(Response::GetFormat(Ok(Format { width: 640, height: 480 })))
    );
}

#[test]
fn get_format_surfaces_the_driver_error() {
    let mut dev = device();
    dev.format_error = Some("EIO".to_string());
    let r = Subscription::handle_request(&mut dev, Request::GetFormat);
    assert_eq!(
        r,
        Some(Response::GetFormat(Err(ErrorInfo::Device("EIO".to_string()))))
    );
}

#[test]
fn set_format_overwrites_resolution_and_keeps_the_layout() {
    let mut dev = device();
    let r = Subscription::handle_request(
        &mut dev,
        Request::SetFormat(Format { width: 1280, height: 720 }),
    );
    assert_eq!(
        r,
        Some(Response::SetFormat(Ok(Format { width: 1280, height: 720 })))
    );
    assert_eq!(
        dev.current,
        DevFormat { width: 1280, height: 720, layout: PixelLayout::Bgra(32) }
    );
}

#[test]
fn set_format_surfaces_the_write_error_and_changes_nothing() {
    let mut dev = device();
    dev.set_format_error = Some("device busy".to_string());
    let r = Subscription::handle_request(
        &mut dev,
        Request::SetFormat(Format { width: 1280, height: 720 }),
    );
    assert_eq!(
        r,
        Some(Response::SetFormat(Err(ErrorInfo::Device(
            "device busy".to_string()
        ))))
    );
    assert_eq!(
        dev.current,
        DevFormat { width: 640, height: 480, layout: PixelLayout::Bgra(32) }
    );
}

#[test]
fn set_control_echoes_the_written_pair() {
    let mut dev = device();
    dev.values = vec![(5, Value::Integer(1))];
    let ctrl = Control {
        id: 5,
        name: "Contrast".to_string(),
        representation: Representation::Integer { min: 0, max: 10, step: 1, default: 5 },
        value: Value::Integer(7),
    };
    let r = Subscription::handle_request(&mut dev, Request::SetControl(ctrl.clone()));
    assert_eq!(r, Some(Response::SetControl(Ok(ctrl))));
    assert_eq!(dev.values, vec![(5, Value::Integer(7))]);
}

#[test]
fn set_control_appends_a_fresh_id() {
    let mut dev = device();
    let ctrl = Control {
        id: 9,
        name: "Gamma".to_string(),
        representation: Representation::Boolean,
        value: Value::Boolean(true),
    };
    let r = Subscription::handle_request(&mut dev, Request::SetControl(ctrl));
    assert!(matches!(r, Some(Response::SetControl(Ok(_)))));
    assert_eq!(dev.values, vec![(9, Value::Boolean(true))]);
}

#[test]
fn set_control_surfaces_the_driver_error() {
    let mut dev = device();
    dev.set_control_error = Some("read only".to_string());
    let ctrl = Control {
        id: 5,
        name: "Contrast".to_string(),
        representation: Representation::Boolean,
        value: Value::Boolean(false),
    };
    let r = Subscription::handle_request(&mut dev, Request::SetControl(ctrl));
    assert_eq!(
        r,
        Some(Response::SetControl(Err(ErrorInfo::Device(
            "read only".to_string()
        ))))
    );
    assert_eq!(dev.values, Vec::new());
}

#[test]
fn start_and_stop_are_not_the_handlers_business() {
    let mut dev = device();
    assert_eq!(Subscription::handle_request(&mut dev, Request::StartStream), None);
    assert_eq!(Subscription::handle_request(&mut dev, Request::StopStream), None);
}

#[test]
fn set_format_accepts_the_largest_resolution() {
    let mut dev = device();
    let r = Subscription::handle_request(
        &mut dev,
        Request::SetFormat(Format { width: u32::MAX, height: u32::MAX }),
    );
    assert_eq!(
        r,
        Some(Response::SetFormat(Ok(Format { width: u32::MAX, height: u32::MAX })))
    );
    assert_eq!(dev.current.width, u32::MAX);
    assert_eq!(dev.current.height, u32::MAX);
}
