//! Device controls: what a control is, how it is represented, and the value
//! it currently carries.

use vstd::prelude::*;

verus! {

/// The value a control carries. A `Boolean` control only ever carries
/// `Boolean` or `Integer` values (nonzero meaning true); an `Integer` control
/// only carries `Integer` values. A control whose value was never read
/// carries `Absent`.
#[derive(Clone, Debug, PartialEq, Eq)]
pub enum Value {
    Absent,
    Boolean(bool),
    Integer(i64),
    Text(String),
}

/// The mathematical shape of a [`Value`]: text at the sequence level.
#[verifier::ext_equal]
pub enum ValueView {
    Absent,
    Boolean(bool),
    Integer(i64),
    Text(Seq<char>),
}

impl DeepView for Value {
    type V = ValueView;

    open spec fn deep_view(&self) -> ValueView {
        match self {
            Value::Absent => ValueView::Absent,
            Value::Boolean(b) => ValueView::Boolean(*b),
            Value::Integer(i) => ValueView::Integer(*i),
            Value::Text(s) => ValueView::Text(s@),
        }
    }
}

/// How a control is represented, fixed at query time: a stateless trigger, a
/// flag, a bounded integer, or something this core does not recognize.
#[derive(Clone, Copy, Debug, PartialEq, Eq, Structural)]
pub enum Representation {
    Button,
    Boolean,
    Integer { min: i64, max: i64, step: u64, default: i64 },
    Unknown,
}

impl Representation {
    /// Whether a control of this representation has a current value worth
    /// reading: buttons are stateless and unrecognized controls are skipped.
    pub fn carries_value(&self) -> (r: bool)
        ensures
            r == reads_value(*self),
    {
        match self {
            Representation::Boolean => true,
            Representation::Integer { .. } => true,
            _ => false,
        }
    }
}

/// Whether querying controls follows up with a value read for this
/// representation.
pub open spec fn reads_value(repr: Representation) -> bool {
    repr is Boolean || repr is Integer
}

/// A control as the device driver advertises it: identity and representation,
/// but no current value.
#[derive(Clone, Debug, PartialEq, Eq)]
pub struct ControlInfo {
    pub id: u32,
    pub name: String,
    pub repr: Representation,
}

/// The mathematical shape of a [`ControlInfo`].
#[verifier::ext_equal]
pub struct ControlInfoView {
    pub id: u32,
    pub name: Seq<char>,
    pub repr: Representation,
}

impl DeepView for ControlInfo {
    type V = ControlInfoView;

    open spec fn deep_view(&self) -> ControlInfoView {
        ControlInfoView { id: self.id, name: self.name@, repr: self.repr }
    }
}

/// A control as the UI sees it: the advertised identity and representation
/// together with the value most recently learned for it.
#[derive(Clone, Debug, PartialEq, Eq)]
pub struct Control {
    pub id: u32,
    pub name: String,
    pub representation: Representation,
    pub value: Value,
}

/// The mathematical shape of a [`Control`].
#[verifier::ext_equal]
pub struct ControlView {
    pub id: u32,
    pub name: Seq<char>,
    pub representation: Representation,
    pub value: ValueView,
}

impl DeepView for Control {
    type V = ControlView;

    open spec fn deep_view(&self) -> ControlView {
        ControlView {
            id: self.id,
            name: self.name@,
            representation: self.representation,
            value: self.value.deep_view(),
        }
    }
}

impl Control {
    /// Converts an advertised control into the UI's model, with no value
    /// attached yet.
    pub fn from_info(info: &ControlInfo) -> (r: Control)
        ensures
            r.deep_view() == control_of_info(info.deep_view()),
    {
        Control {
            id: info.id,
            name: info.name.clone(),
            representation: info.repr,
            value: Value::Absent,
        }
    }
}

/// What [`Control::from_info`] returns: the advertised identity with an
/// absent value.
pub open spec fn control_of_info(info: ControlInfoView) -> ControlView {
    ControlView {
        id: info.id,
        name: info.name,
        representation: info.repr,
        value: ValueView::Absent,
    }
}

/// An owned copy of a value, equal to the one given.
pub fn copy_value(v: &Value) -> (r: Value)
    ensures
        r == *v,
{
    match v {
        Value::Absent => Value::Absent,
        Value::Boolean(b) => Value::Boolean(*b),
        Value::Integer(i) => Value::Integer(*i),
        Value::Text(s) => Value::Text(s.clone()),
    }
}

/// An owned copy of a control, equal to the one given.
pub fn copy_control(c: &Control) -> (r: Control)
    ensures
        r == *c,
{
    Control {
        id: c.id,
        name: c.name.clone(),
        representation: c.representation,
        value: copy_value(&c.value),
    }
}

} // verus!
