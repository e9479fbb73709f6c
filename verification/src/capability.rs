//! A deterministic model of the device capability.
//!
//! The real capture device offers only blocking calls that may fail: open,
//! format negotiation, control reads and writes, and a frame source. The
//! worker never depends on how those calls are carried out, only on their
//! results, so the capability is modelled here as plain data: a script that
//! fixes the outcome of every call. The worker's state machine
//! (see [`crate::subscription`]) is verified against this model; an unverified
//! runner substitutes the real driver call for each method.

use vstd::prelude::*;
use vstd::string::StringExecFns;

use crate::control::{copy_value, ControlInfo, ControlInfoView, Value, ValueView};
use crate::format::Format;

verus! {

/// The byte arrangement of a frame's colour channels.
#[derive(Clone, Copy, Debug, PartialEq, Eq, Structural)]
pub enum PixelLayout {
    /// Blue, green, red, alpha, with the given bits per pixel.
    Bgra(u32),
    /// Any other arrangement, identified by an opaque driver code.
    Other(u32),
}

/// The one pixel layout the UI's image widget renders natively. Negotiation
/// always requests it, and a device that cannot settle on it is rejected.
pub open spec fn target_layout() -> PixelLayout {
    PixelLayout::Bgra(32)
}

impl PixelLayout {
    /// Whether this layout is the target layout, [`target_layout`].
    pub fn is_target(&self) -> (r: bool)
        ensures
            r == (*self == target_layout()),
    {
        *self == PixelLayout::Bgra(32)
    }
}

/// A device-side format: a resolution together with its pixel layout.
#[derive(Clone, Copy, Debug, PartialEq, Eq, Structural)]
pub struct DevFormat {
    pub width: u32,
    pub height: u32,
    pub layout: PixelLayout,
}

impl DeepView for DevFormat {
    type V = DevFormat;

    open spec fn deep_view(&self) -> DevFormat {
        *self
    }
}

/// One entry of the device's advertised format table: a pixel layout and the
/// resolutions supported in it.
#[derive(Clone, Debug, PartialEq, Eq)]
pub struct FormatEntry {
    pub layout: PixelLayout,
    pub resolutions: Vec<Format>,
}

/// The mathematical shape of a [`FormatEntry`].
#[verifier::ext_equal]
pub struct FormatEntryView {
    pub layout: PixelLayout,
    pub resolutions: Seq<Format>,
}

impl DeepView for FormatEntry {
    type V = FormatEntryView;

    open spec fn deep_view(&self) -> FormatEntryView {
        FormatEntryView { layout: self.layout, resolutions: self.resolutions@ }
    }
}

/// A captured frame: its resolution and raw pixel bytes in the negotiated
/// layout.
#[derive(Clone, Debug, PartialEq, Eq)]
pub struct Frame {
    pub width: u32,
    pub height: u32,
    pub pixels: Vec<u8>,
}

/// The mathematical shape of a [`Frame`].
#[verifier::ext_equal]
pub struct FrameView {
    pub width: u32,
    pub height: u32,
    pub pixels: Seq<u8>,
}

impl DeepView for Frame {
    type V = FrameView;

    open spec fn deep_view(&self) -> FrameView {
        FrameView { width: self.width, height: self.height, pixels: self.pixels@ }
    }
}

/// Why an operation failed.
#[derive(Clone, Debug, PartialEq, Eq)]
pub enum ErrorInfo {
    /// The device driver reported a failure, with its own description.
    Device(String),
    /// Negotiation ended on a pixel layout other than the target one.
    UnsupportedLayout,
    /// The device has no control under the requested id.
    UnknownControl,
    /// The frame source ended without yielding a frame.
    StreamDied,
    /// The worker was handed a request its shared handler does not cover.
    InvalidRequest,
    /// The request is not valid in the worker's current state.
    InvalidState,
}

/// The mathematical shape of an [`ErrorInfo`].
#[verifier::ext_equal]
pub enum ErrorView {
    Device(Seq<char>),
    UnsupportedLayout,
    UnknownControl,
    StreamDied,
    InvalidRequest,
    InvalidState,
}

impl DeepView for ErrorInfo {
    type V = ErrorView;

    open spec fn deep_view(&self) -> ErrorView {
        match self {
            ErrorInfo::Device(s) => ErrorView::Device(s@),
            ErrorInfo::UnsupportedLayout => ErrorView::UnsupportedLayout,
            ErrorInfo::UnknownControl => ErrorView::UnknownControl,
            ErrorInfo::StreamDied => ErrorView::StreamDied,
            ErrorInfo::InvalidRequest => ErrorView::InvalidRequest,
            ErrorInfo::InvalidState => ErrorView::InvalidState,
        }
    }
}

impl ErrorInfo {
    /// A human-readable description, for the UI's log.
    pub fn describe(&self) -> (r: String)
        ensures
            r@ == self.spec_describe(),
    {
        match self {
            ErrorInfo::Device(s) => s.clone(),
            ErrorInfo::UnsupportedLayout => {
                String::from_str("device does not support the required pixel layout")
            },
            ErrorInfo::UnknownControl => String::from_str("no such control"),
            ErrorInfo::StreamDied => String::from_str("stream died"),
            ErrorInfo::InvalidRequest => String::from_str("cannot handle request"),
            ErrorInfo::InvalidState => {
                String::from_str("cannot handle this request in the current state")
            },
        }
    }

    pub open spec fn spec_describe(&self) -> Seq<char> {
        match self {
            ErrorInfo::Device(s) => s@,
            ErrorInfo::UnsupportedLayout => "device does not support the required pixel layout"@,
            ErrorInfo::UnknownControl => "no such control"@,
            ErrorInfo::StreamDied => "stream died"@,
            ErrorInfo::InvalidRequest => "cannot handle request"@,
            ErrorInfo::InvalidState => "cannot handle this request in the current state"@,
        }
    }
}

/// An owned copy of an error, equal to the one given.
pub fn copy_error(e: &ErrorInfo) -> (r: ErrorInfo)
    ensures
        r == *e,
{
    match e {
        ErrorInfo::Device(s) => ErrorInfo::Device(s.clone()),
        ErrorInfo::UnsupportedLayout => ErrorInfo::UnsupportedLayout,
        ErrorInfo::UnknownControl => ErrorInfo::UnknownControl,
        ErrorInfo::StreamDied => ErrorInfo::StreamDied,
        ErrorInfo::InvalidRequest => ErrorInfo::InvalidRequest,
        ErrorInfo::InvalidState => ErrorInfo::InvalidState,
    }
}

/// The deep view of a `Result`, for contracts over fallible calls.
pub open spec fn result_view<T: DeepView, E: DeepView>(r: Result<T, E>) -> Result<T::V, E::V> {
    match r {
        Ok(t) => Ok(t.deep_view()),
        Err(e) => Err(e.deep_view()),
    }
}

/// What one pull on the frame source yields: a frame, or the driver's failure
/// description.
#[derive(Clone, Debug, PartialEq, Eq)]
pub enum FrameOutcome {
    Ready(Frame),
    Failed(String),
}

/// The mathematical shape of a [`FrameOutcome`].
#[verifier::ext_equal]
pub enum FrameOutcomeView {
    Ready(FrameView),
    Failed(Seq<char>),
}

impl DeepView for FrameOutcome {
    type V = FrameOutcomeView;

    open spec fn deep_view(&self) -> FrameOutcomeView {
        match self {
            FrameOutcome::Ready(f) => FrameOutcomeView::Ready(f.deep_view()),
            FrameOutcome::Failed(s) => FrameOutcomeView::Failed(s@),
        }
    }
}

/// The device capability, as a script.
///
/// Each field fixes the outcome of one kind of driver call: an `*_error`
/// field of `Some(message)` makes that call fail with the message, `entries`
/// and `infos` are what the device advertises, `values` are the controls'
/// current values, `current` is the format the device is set to, and `frames`
/// is what successive pulls on an open frame source yield. `sources_open`
/// counts the frame sources currently open; the worker is verified never to
/// hold two at once.
pub struct DeviceModel {
    pub open_error: Option<String>,
    pub format_error: Option<String>,
    pub set_format_error: Option<String>,
    pub query_formats_error: Option<String>,
    pub query_controls_error: Option<String>,
    pub set_control_error: Option<String>,
    pub stream_error: Option<String>,
    /// Whether the device can actually capture in the layout it is asked for;
    /// a device that cannot keeps its current layout when a format is set.
    pub honors_layout: bool,
    pub entries: Vec<FormatEntry>,
    pub infos: Vec<ControlInfo>,
    pub values: Vec<(u32, Value)>,
    pub current: DevFormat,
    pub frames: Vec<FrameOutcome>,
    pub cursor: usize,
    pub sources_open: u32,
}

/// The mathematical shape of a [`DeviceModel`].
#[verifier::ext_equal]
pub struct DeviceModelView {
    pub open_error: Option<Seq<char>>,
    pub format_error: Option<Seq<char>>,
    pub set_format_error: Option<Seq<char>>,
    pub query_formats_error: Option<Seq<char>>,
    pub query_controls_error: Option<Seq<char>>,
    pub set_control_error: Option<Seq<char>>,
    pub stream_error: Option<Seq<char>>,
    pub honors_layout: bool,
    pub entries: Seq<FormatEntryView>,
    pub infos: Seq<ControlInfoView>,
    pub values: Seq<(u32, ValueView)>,
    pub current: DevFormat,
    pub frames: Seq<FrameOutcomeView>,
    pub cursor: usize,
    pub sources_open: u32,
}

impl DeepView for DeviceModel {
    type V = DeviceModelView;

    open spec fn deep_view(&self) -> DeviceModelView {
        DeviceModelView {
            open_error: self.open_error.deep_view(),
            format_error: self.format_error.deep_view(),
            set_format_error: self.set_format_error.deep_view(),
            query_formats_error: self.query_formats_error.deep_view(),
            query_controls_error: self.query_controls_error.deep_view(),
            set_control_error: self.set_control_error.deep_view(),
            stream_error: self.stream_error.deep_view(),
            honors_layout: self.honors_layout,
            entries: self.entries.deep_view(),
            infos: self.infos.deep_view(),
            values: self.values.deep_view(),
            current: self.current,
            frames: self.frames.deep_view(),
            cursor: self.cursor,
            sources_open: self.sources_open,
        }
    }
}

// What each driver call does, stated over the model's view. The worker's
// contracts are phrased in terms of these functions.

/// Opening the device succeeds unless the script says otherwise.
pub open spec fn spec_open_device(d: DeviceModelView) -> Result<(), ErrorView> {
    match d.open_error {
        Some(m) => Err(ErrorView::Device(m)),
        None => Ok(()),
    }
}

/// Reading the current format.
pub open spec fn spec_read_format(d: DeviceModelView) -> Result<DevFormat, ErrorView> {
    match d.format_error {
        Some(m) => Err(ErrorView::Device(m)),
        None => Ok(d.current),
    }
}

/// The format the device settles on when asked for `req`: the resolution is
/// taken as requested, and the layout too unless the device cannot capture in
/// it, in which case the device keeps its current layout.
pub open spec fn adjusted_format(d: DeviceModelView, req: DevFormat) -> DevFormat {
    DevFormat {
        width: req.width,
        height: req.height,
        layout: if req.layout == target_layout() && !d.honors_layout {
            d.current.layout
        } else {
            req.layout
        },
    }
}

/// Writing a format: on success the device adopts [`adjusted_format`] and
/// reports it back.
pub open spec fn spec_write_format(d: DeviceModelView, req: DevFormat) -> (DeviceModelView, Result<
    DevFormat,
    ErrorView,
>) {
    match d.set_format_error {
        Some(m) => (d, Err(ErrorView::Device(m))),
        None => {
            let got = adjusted_format(d, req);
            (DeviceModelView { current: got, ..d }, Ok(got))
        },
    }
}

/// Querying the advertised format table.
pub open spec fn spec_query_formats(d: DeviceModelView) -> Result<Seq<FormatEntryView>, ErrorView> {
    match d.query_formats_error {
        Some(m) => Err(ErrorView::Device(m)),
        None => Ok(d.entries),
    }
}

/// Querying the advertised controls.
pub open spec fn spec_query_controls(d: DeviceModelView) -> Result<Seq<ControlInfoView>, ErrorView> {
    match d.query_controls_error {
        Some(m) => Err(ErrorView::Device(m)),
        None => Ok(d.infos),
    }
}

/// The value stored for `id`: the first matching entry wins.
pub open spec fn lookup_value(values: Seq<(u32, ValueView)>, id: u32) -> Option<ValueView>
    decreases values.len(),
{
    if values.len() == 0 {
        None
    } else if values[0].0 == id {
        Some(values[0].1)
    } else {
        lookup_value(values.drop_first(), id)
    }
}

/// Reading a control's current value.
pub open spec fn spec_read_control(d: DeviceModelView, id: u32) -> Result<ValueView, ErrorView> {
    match lookup_value(d.values, id) {
        Some(v) => Ok(v),
        None => Err(ErrorView::UnknownControl),
    }
}

/// The stored values after writing `v` under `id`: the first matching entry
/// is replaced, or the pair is appended when the id is new.
pub open spec fn store_value(values: Seq<(u32, ValueView)>, id: u32, v: ValueView) -> Seq<
    (u32, ValueView),
>
    decreases values.len(),
{
    if values.len() == 0 {
        seq![(id, v)]
    } else if values[0].0 == id {
        seq![(id, v)] + values.drop_first()
    } else {
        seq![values[0]] + store_value(values.drop_first(), id, v)
    }
}

/// Writing a control value verbatim.
pub open spec fn spec_write_control(d: DeviceModelView, id: u32, v: ValueView) -> (
    DeviceModelView,
    Result<(), ErrorView>,
) {
    match d.set_control_error {
        Some(m) => (d, Err(ErrorView::Device(m))),
        None => (DeviceModelView { values: store_value(d.values, id, v), ..d }, Ok(())),
    }
}

/// Opening a frame source.
pub open spec fn spec_open_source(d: DeviceModelView) -> (DeviceModelView, Result<(), ErrorView>) {
    match d.stream_error {
        Some(m) => (d, Err(ErrorView::Device(m))),
        None => (DeviceModelView { sources_open: 1, ..d }, Ok(())),
    }
}

/// Dropping the open frame source.
pub open spec fn spec_close_source(d: DeviceModelView) -> DeviceModelView {
    DeviceModelView { sources_open: 0, ..d }
}

/// Pulling the next frame: the script's next outcome, or nothing once the
/// script is exhausted (the source has ended).
pub open spec fn spec_next_frame(d: DeviceModelView) -> (DeviceModelView, Option<FrameOutcomeView>) {
    if d.cursor < d.frames.len() {
        (DeviceModelView { cursor: (d.cursor + 1) as usize, ..d }, Some(d.frames[d.cursor as int]))
    } else {
        (d, None)
    }
}

/// An owned copy of a resolution list, equal to the one given.
pub fn copy_formats(v: &Vec<Format>) -> (r: Vec<Format>)
    ensures
        r@ == v@,
{
    let mut r: Vec<Format> = Vec::new();
    let mut i: usize = 0;
    while i < v.len()
        invariant
            i <= v.len(),
            r@.len() == i,
            forall|k: int| 0 <= k < i ==> r@[k] == v@[k],
        decreases v.len() - i,
    {
        r.push(v[i]);
        i = i + 1;
    }
    proof {
        assert(r@ =~= v@);
    }
    r
}

/// An owned copy of a raw pixel buffer, equal to the one given.
pub fn copy_bytes(v: &Vec<u8>) -> (r: Vec<u8>)
    ensures
        r@ == v@,
{
    let mut r: Vec<u8> = Vec::new();
    let mut i: usize = 0;
    while i < v.len()
        invariant
            i <= v.len(),
            r@.len() == i,
            forall|k: int| 0 <= k < i ==> r@[k] == v@[k],
        decreases v.len() - i,
    {
        r.push(v[i]);
        i = i + 1;
    }
    proof {
        assert(r@ =~= v@);
    }
    r
}

/// An owned copy of a frame, with the same view.
pub fn copy_frame(f: &Frame) -> (r: Frame)
    ensures
        r.deep_view() == f.deep_view(),
{
    Frame { width: f.width, height: f.height, pixels: copy_bytes(&f.pixels) }
}

/// An owned copy of a format-table entry, with the same view.
pub fn copy_entry(e: &FormatEntry) -> (r: FormatEntry)
    ensures
        r.deep_view() == e.deep_view(),
{
    FormatEntry { layout: e.layout, resolutions: copy_formats(&e.resolutions) }
}

/// An owned copy of a frame outcome, with the same view.
pub fn copy_frame_outcome(o: &FrameOutcome) -> (r: FrameOutcome)
    ensures
        r.deep_view() == o.deep_view(),
{
    match o {
        FrameOutcome::Ready(f) => FrameOutcome::Ready(copy_frame(f)),
        FrameOutcome::Failed(s) => FrameOutcome::Failed(s.clone()),
    }
}

/// Looking up an id skips any prefix in which it does not occur.
proof fn lemma_lookup_skip(values: Seq<(u32, ValueView)>, id: u32, i: int)
    requires
        0 <= i <= values.len(),
        forall|k: int| 0 <= k < i ==> values[k].0 != id,
    ensures
        lookup_value(values, id) == lookup_value(values.skip(i), id),
    decreases i,
{
    if i > 0 {
        assert(values.skip(i) =~= values.drop_first().skip(i - 1));
        lemma_lookup_skip(values.drop_first(), id, i - 1);
    } else {
        assert(values.skip(0) =~= values);
    }
}

/// When the id first occurs at position `k`, storing replaces that entry.
proof fn lemma_store_at(values: Seq<(u32, ValueView)>, id: u32, v: ValueView, k: int)
    requires
        0 <= k < values.len(),
        values[k].0 == id,
        forall|j: int| 0 <= j < k ==> values[j].0 != id,
    ensures
        store_value(values, id, v) == values.update(k, (id, v)),
    decreases k,
{
    if k == 0 {
        assert(seq![(id, v)] + values.drop_first() =~= values.update(0, (id, v)));
    } else {
        lemma_store_at(values.drop_first(), id, v, k - 1);
        assert(values.drop_first().update(k - 1, (id, v)) =~= values.update(k, (id, v)).drop_first());
        assert(seq![values[0]] + values.update(k, (id, v)).drop_first() =~= values.update(
            k,
            (id, v),
        ));
    }
}

/// When the id occurs nowhere, storing appends.
proof fn lemma_store_fresh(values: Seq<(u32, ValueView)>, id: u32, v: ValueView)
    requires
        forall|j: int| 0 <= j < values.len() ==> values[j].0 != id,
    ensures
        store_value(values, id, v) == values.push((id, v)),
    decreases values.len(),
{
    if values.len() == 0 {
        assert(seq![(id, v)] =~= values.push((id, v)));
    } else {
        lemma_store_fresh(values.drop_first(), id, v);
        assert(seq![values[0]] + values.drop_first().push((id, v)) =~= values.push((id, v)));
    }
}

impl DeviceModel {
    /// Opening the device. Relies on nothing but the script.
    pub fn open_device(&self) -> (r: Result<(), ErrorInfo>)
        ensures
            result_view(r) == spec_open_device(self.deep_view()),
    {
        match &self.open_error {
            Some(m) => Err(ErrorInfo::Device(m.clone())),
            None => Ok(()),
        }
    }

    /// Reading the format the device is currently set to.
    pub fn read_format(&self) -> (r: Result<DevFormat, ErrorInfo>)
        ensures
            result_view(r) == spec_read_format(self.deep_view()),
    {
        match &self.format_error {
            Some(m) => Err(ErrorInfo::Device(m.clone())),
            None => Ok(self.current),
        }
    }

    /// Setting a format. The device may settle on something other than what
    /// was requested; the caller must re-check the result.
    pub fn write_format(&mut self, req: DevFormat) -> (r: Result<DevFormat, ErrorInfo>)
        ensures
            ({
                let (d1, res) = spec_write_format(old(self).deep_view(), req);
                final(self).deep_view() == d1 && result_view(r) == res
            }),
    {
        match &self.set_format_error {
            Some(m) => Err(ErrorInfo::Device(m.clone())),
            None => {
                let layout = if req.layout.is_target() && !self.honors_layout {
                    self.current.layout
                } else {
                    req.layout
                };
                let got = DevFormat { width: req.width, height: req.height, layout };
                self.current = got;
                Ok(got)
            },
        }
    }

    /// Querying the advertised format table.
    pub fn query_formats(&self) -> (r: Result<Vec<FormatEntry>, ErrorInfo>)
        ensures
            ({
                let res = spec_query_formats(self.deep_view());
                match r {
                    Ok(v) => res == Ok::<_, ErrorView>(v.deep_view()),
                    Err(e) => res == Err::<Seq<FormatEntryView>, _>(e.deep_view()),
                }
            }),
    {
        match &self.query_formats_error {
            Some(m) => Err(ErrorInfo::Device(m.clone())),
            None => {
                let mut out: Vec<FormatEntry> = Vec::new();
                let mut i: usize = 0;
                while i < self.entries.len()
                    invariant
                        i <= self.entries.len(),
                        out@.len() == i,
                        forall|k: int|
                            0 <= k < i ==> out@[k].deep_view() == self.entries@[k].deep_view(),
                    decreases self.entries.len() - i,
                {
                    out.push(copy_entry(&self.entries[i]));
                    i = i + 1;
                }
                proof {
                    assert(out.deep_view() =~= self.entries.deep_view());
                }
                Ok(out)
            },
        }
    }

    /// Querying the advertised controls.
    pub fn query_controls(&self) -> (r: Result<Vec<ControlInfo>, ErrorInfo>)
        ensures
            ({
                let res = spec_query_controls(self.deep_view());
                match r {
                    Ok(v) => res == Ok::<_, ErrorView>(v.deep_view()),
                    Err(e) => res == Err::<Seq<ControlInfoView>, _>(e.deep_view()),
                }
            }),
    {
        match &self.query_controls_error {
            Some(m) => Err(ErrorInfo::Device(m.clone())),
            None => {
                let mut out: Vec<ControlInfo> = Vec::new();
                let mut i: usize = 0;
                while i < self.infos.len()
                    invariant
                        i <= self.infos.len(),
                        out@.len() == i,
                        forall|k: int|
                            0 <= k < i ==> out@[k].deep_view() == self.infos@[k].deep_view(),
                    decreases self.infos.len() - i,
                {
                    let info = &self.infos[i];
                    out.push(ControlInfo { id: info.id, name: info.name.clone(), repr: info.repr });
                    i = i + 1;
                }
                proof {
                    assert(out.deep_view() =~= self.infos.deep_view());
                }
                Ok(out)
            },
        }
    }

    /// Reading a control's current value.
    pub fn read_control(&self, id: u32) -> (r: Result<Value, ErrorInfo>)
        ensures
            result_view(r) == spec_read_control(self.deep_view(), id),
    {
        let ghost dv = self.deep_view().values;
        let mut i: usize = 0;
        while i < self.values.len()
            invariant
                i <= self.values.len(),
                dv == self.deep_view().values,
                dv.len() == self.values@.len(),
                forall|k: int| 0 <= k < i ==> dv[k].0 != id,
                forall|k: int|
                    0 <= k < self.values@.len() ==> dv[k] == (
                    self.values@[k].0,
                    self.values@[k].1.deep_view(),
                ),
            decreases self.values.len() - i,
        {
            if self.values[i].0 == id {
                proof {
                    lemma_lookup_skip(dv, id, i as int);
                    assert(dv.skip(i as int)[0] == dv[i as int]);
                }
                return Ok(copy_value(&self.values[i].1));
            }
            i = i + 1;
        }
        proof {
            lemma_lookup_skip(dv, id, dv.len() as int);
            assert(dv.skip(dv.len() as int) =~= Seq::<(u32, ValueView)>::empty());
        }
        Err(ErrorInfo::UnknownControl)
    }

    /// Writing a control value verbatim.
    #[verifier::loop_isolation(false)]
    pub fn write_control(&mut self, id: u32, value: &Value) -> (r: Result<(), ErrorInfo>)
        ensures
            ({
                let (d1, res) = spec_write_control(old(self).deep_view(), id, value.deep_view());
                final(self).deep_view() == d1 && result_view(r) == res
            }),
    {
        match &self.set_control_error {
            Some(m) => Err(ErrorInfo::Device(m.clone())),
            None => {
                let ghost dv = self.deep_view().values;
                let mut i: usize = 0;
                while i < self.values.len()
                    invariant
                        i <= self.values.len(),
                        *self == *old(self),
                        dv == self.deep_view().values,
                        dv.len() == self.values@.len(),
                        forall|k: int| 0 <= k < i ==> dv[k].0 != id,
                        forall|k: int|
                            0 <= k < self.values@.len() ==> dv[k] == (
                            self.values@[k].0,
                            self.values@[k].1.deep_view(),
                        ),
                    decreases self.values.len() - i,
                {
                    if self.values[i].0 == id {
                        self.values[i] = (id, copy_value(value));
                        proof {
                            lemma_store_at(dv, id, value.deep_view(), i as int);
                            assert(self.values.deep_view() =~= dv.update(
                                i as int,
                                (id, value.deep_view()),
                            ));
                            assert(self.values.deep_view() == store_value(
                                old(self).deep_view().values,
                                id,
                                value.deep_view(),
                            ));
                            assert(self.deep_view() =~= spec_write_control(
                                old(self).deep_view(),
                                id,
                                value.deep_view(),
                            ).0);
                        }
                        return Ok(());
                    }
                    i = i + 1;
                }
                self.values.push((id, copy_value(value)));
                proof {
                    lemma_store_fresh(dv, id, value.deep_view());
                    assert(self.values.deep_view() =~= dv.push((id, value.deep_view())));
                }
                Ok(())
            },
        }
    }

    /// Opening a frame source. At most one can be open at a time; the worker
    /// is verified to close the old one first.
    pub fn open_source(&mut self) -> (r: Result<(), ErrorInfo>)
        requires
            old(self).sources_open == 0,
        ensures
            ({
                let (d1, res) = spec_open_source(old(self).deep_view());
                final(self).deep_view() == d1 && result_view(r) == res
            }),
    {
        match &self.stream_error {
            Some(m) => Err(ErrorInfo::Device(m.clone())),
            None => {
                self.sources_open = 1;
                Ok(())
            },
        }
    }

    /// Dropping the open frame source.
    pub fn close_source(&mut self)
        requires
            old(self).sources_open == 1,
        ensures
            final(self).deep_view() == spec_close_source(old(self).deep_view()),
    {
        self.sources_open = 0;
    }

    /// Pulling the next frame from the open source. `None` means the source
    /// ended.
    pub fn next_frame(&mut self) -> (r: Option<FrameOutcome>)
        requires
            old(self).sources_open == 1,
        ensures
            ({
                let (d1, out) = spec_next_frame(old(self).deep_view());
                final(self).deep_view() == d1 && r.deep_view() == out
            }),
    {
        if self.cursor < self.frames.len() {
            let out = copy_frame_outcome(&self.frames[self.cursor]);
            self.cursor = self.cursor + 1;
            Some(out)
        } else {
            None
        }
    }
}

} // verus!
