//! The connection handle, the model types, and the error descriptions.

use eyece::capability::{copy_error, ErrorInfo, PixelLayout};
use eyece::connection::{copy_request, Connection, Request};
use eyece::control::{
    copy_control, copy_value, Control, ControlInfo, Representation, Value,
};
use eyece::device::Device;
use eyece::format::Format;
use eyece::log::Level;
use eyece::subscription::Subscription;

#[test]
fn connection_preserves_the_order_sent() {
    let mut conn = Connection::new();
    conn.start_stream();
    conn.query_formats();
    conn.query_controls();
    conn.get_format();
    conn.set_format(&Format { width: 800, height: 600 });
    conn.set_control(&Control {
        id: 1,
        name: "Brightness".to_string(),
        representation: Representation::Boolean,
        value: Value::Boolean(true),
    });
    conn.stop_stream();
    let sent = conn.close();
    assert_eq!(
        sent,
        vec![
            Request::StartStream,
            Request::QueryFormats,
            Request::QueryControls,
            Request::GetFormat,
            Request::SetFormat(Format { width: 800, height: 600 }),
            Request::SetControl(Control {
                id: 1,
                name: "Brightness".to_string(),
                representation: Representation::Boolean,
                value: Value::Boolean(true),
            }),
            Request::StopStream,
            Request::StopStream,
        ]
    );
}

#[test]
fn releasing_the_handle_enqueues_a_final_stop() {
    let conn = Connection::new();
    let sent = conn.close();
    assert_eq!(sent, vec![Request::StopStream]);
}

#[test]
fn subscription_remembers_its_uri() {
    let s = Subscription::new("v4l2:///dev/video0".to_string());
    assert_eq!(s.uri, "v4l2:///dev/video0");
}

#[test]
fn device_entry_from_uri() {
    let d = Device::from_uri("v4l2:///dev/video1");
    assert_eq!(d, Device { uri: "v4l2:///dev/video1".to_string() });
}

#[test]
fn control_from_info_attaches_no_value() {
    let info = ControlInfo {
        id: 7,
        name: "Sharpness".to_string(),
        repr: Representation::Integer { min: 0, max: 6, step: 2, default: 2 },
    };
    let c = Control::from_info(&info);
    assert_eq!(
        c,
        Control {
            id: 7,
            name: "Sharpness".to_string(),
            representation: Representation::Integer { min: 0, max: 6, step: 2, default: 2 },
            value: Value::Absent,
        }
    );
}

#[test]
fn representation_says_which_controls_carry_values() {
    assert!(Representation::Boolean.carries_value());
    assert!(
        Representation::Integer { min: 0, max: 1, step: 1, default: 0 }.carries_value()
    );
    assert!(!Representation::Button.carries_value());
    assert!(!Representation::Unknown.carries_value());
}

#[test]
fn error_descriptions() {
    assert_eq!(
        ErrorInfo::Device("device busy".to_string()).describe(),
        "device busy"
    );
    assert_eq!(
        ErrorInfo::UnsupportedLayout.describe(),
        "device does not support the required pixel layout"
    );
    assert_eq!(ErrorInfo::StreamDied.describe(), "stream died");
    assert_eq!(ErrorInfo::InvalidRequest.describe(), "cannot handle request");
    assert_eq!(
        ErrorInfo::InvalidState.describe(),
        "cannot handle this request in the current state"
    );
    assert_eq!(ErrorInfo::UnknownControl.describe(), "no such control");
}

#[test]
fn copies_are_equal_to_their_originals() {
    let v = Value::Text("manual".to_string());
    assert_eq!(copy_value(&v), v);
    let c = Control {
        id: 3,
        name: "Mode".to_string(),
        representation: Representation::Unknown,
        value: v,
    };
    assert_eq!(copy_control(&c), c);
    let r = Request::SetControl(c);
    assert_eq!(copy_request(&r), r);
    let e = ErrorInfo::Device("gone".to_string());
    assert_eq!(copy_error(&e), e);
}

#[test]
fn pixel_layout_target() {
    assert!(PixelLayout::Bgra(32).is_target());
    assert!(!PixelLayout::Bgra(24).is_target());
    assert!(!PixelLayout::Other(32).is_target());
}

#[test]
fn log_levels() {
    assert_eq!(Level::default(), Level::Error);
    assert_eq!(
        Level::ALL,
        [Level::Error, Level::Warn, Level::Info, Level::Verbose]
    );
    assert_eq!(Level::Error.severity(), 0);
    assert_eq!(Level::Warn.severity(), 1);
    assert_eq!(Level::Info.severity(), 2);
    assert_eq!(Level::Verbose.severity(), 3);
}
