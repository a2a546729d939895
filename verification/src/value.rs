//! Generic values that cross the boundary to the host, and the typed codec
//! over them.

use vstd::prelude::*;

verus! {

/// Why a render pass was abandoned.
#[derive(Clone, Copy, Debug, PartialEq, Eq, Structural)]
pub enum RenderError {
    /// A payload did not decode to the type that was expected of it.
    Marshal,
    /// A render pass asked for its state slots otherwise than the first
    /// pass of the same instance did.
    SlotMismatch,
}

/// A value as the host stores and passes it: untyped.
#[derive(Clone, Debug, PartialEq, Eq)]
pub enum Value {
    Null,
    Bool(bool),
    Number(i64),
    Text(String),
    /// A callback that the host can fire, by the number under which it is
    /// registered.
    Handler(u64),
}

/// The mathematical content of a [`Value`].
pub ghost enum ValueView {
    Null,
    Bool(bool),
    Number(int),
    Text(Seq<char>),
    Handler(nat),
}

impl View for Value {
    type V = ValueView;

    open spec fn view(&self) -> ValueView {
        match *self {
            Value::Null => ValueView::Null,
            Value::Bool(b) => ValueView::Bool(b),
            Value::Number(n) => ValueView::Number(n as int),
            Value::Text(s) => ValueView::Text(s@),
            Value::Handler(h) => ValueView::Handler(h as nat),
        }
    }
}

impl Value {
    /// A text value with the characters of `s`.
    pub fn text(s: &str) -> (v: Value)
        ensures
            v@ == ValueView::Text(s@),
    {
        Value::Text(s.to_owned())
    }

    /// A second value with the same content.
    pub fn duplicate(&self) -> (v: Value)
        ensures
            v@ == self@,
    {
        match self {
            Value::Null => Value::Null,
            Value::Bool(b) => Value::Bool(*b),
            Value::Number(n) => Value::Number(*n),
            Value::Text(s) => Value::Text(s.clone()),
            Value::Handler(h) => Value::Handler(*h),
        }
    }

    /// Whether the two values have the same content.
    pub fn same(&self, other: &Value) -> (b: bool)
        ensures
            b == (self@ == other@),
    {
        match (self, other) {
            (Value::Null, Value::Null) => true,
            (Value::Bool(a), Value::Bool(b)) => *a == *b,
            (Value::Number(a), Value::Number(b)) => *a == *b,
            (Value::Text(a), Value::Text(b)) => *a == *b,
            (Value::Handler(a), Value::Handler(b)) => *a == *b,
            _ => false,
        }
    }
}

/// A typed value that can be stored in a host cell and read back.
///
/// `decoded` is the left inverse of `encoded`: what was written is what is
/// read.
pub trait Marshal: Sized {
    /// The generic value that stands for `self`.
    spec fn encoded(&self) -> ValueView;

    /// The typed value that a generic value stands for, if any.
    spec fn decoded(v: ValueView) -> Option<Self>;

    /// Encoding and then decoding gives the value back.
    proof fn round_trip(&self)
        ensures
            Self::decoded(self.encoded()) == Some(*self),
    ;

    fn encode(&self) -> (v: Value)
        ensures
            v@ == self.encoded(),
    ;

    fn decode(v: &Value) -> (r: Result<Self, RenderError>)
        ensures
            match Self::decoded(v@) {
                Some(t) => r == Ok::<Self, RenderError>(t),
                None => r == Err::<Self, RenderError>(RenderError::Marshal),
            },
    ;
}

impl Marshal for bool {
    open spec fn encoded(&self) -> ValueView {
        ValueView::Bool(*self)
    }

    open spec fn decoded(v: ValueView) -> Option<bool> {
        match v {
            ValueView::Bool(b) => Some(b),
            _ => None,
        }
    }

    proof fn round_trip(&self) {
    }

    fn encode(&self) -> (v: Value) {
        Value::Bool(*self)
    }

    fn decode(v: &Value) -> (r: Result<bool, RenderError>) {
        match v {
            Value::Bool(b) => Ok(*b),
            _ => Err(RenderError::Marshal),
        }
    }
}

impl Marshal for i64 {
    open spec fn encoded(&self) -> ValueView {
        ValueView::Number(*self as int)
    }

    open spec fn decoded(v: ValueView) -> Option<i64> {
        match v {
            ValueView::Number(n) if i64::MIN <= n <= i64::MAX => Some(n as i64),
            _ => None,
        }
    }

    proof fn round_trip(&self) {
    }

    fn encode(&self) -> (v: Value) {
        Value::Number(*self)
    }

    fn decode(v: &Value) -> (r: Result<i64, RenderError>) {
        match v {
            Value::Number(n) => Ok(*n),
            _ => Err(RenderError::Marshal),
        }
    }
}

impl Marshal for u32 {
    open spec fn encoded(&self) -> ValueView {
        ValueView::Number(*self as int)
    }

    open spec fn decoded(v: ValueView) -> Option<u32> {
        match v {
            ValueView::Number(n) if 0 <= n <= u32::MAX => Some(n as u32),
            _ => None,
        }
    }

    proof fn round_trip(&self) {
    }

    fn encode(&self) -> (v: Value) {
        Value::Number(*self as i64)
    }

    fn decode(v: &Value) -> (r: Result<u32, RenderError>) {
        match v {
            Value::Number(n) => {
                if 0 <= *n && *n <= 4_294_967_295i64 {
                    Ok(*n as u32)
                } else {
                    Err(RenderError::Marshal)
                }
            },
            _ => Err(RenderError::Marshal),
        }
    }
}

} // verus!
