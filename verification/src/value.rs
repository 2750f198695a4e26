//! The values that a configuration layer gives its keys.

use vstd::prelude::*;

verus! {

/// A value as a layer holds it, before it is coerced to the type of its key.
#[derive(Debug, PartialEq, Eq)]
pub enum Value {
    /// The key is named, with nothing for a value: an optional key is absent.
    Nil,
    /// A text: what a flag or a file gave.
    Text(String),
    /// A number.
    Integer(u64),
    /// A value of a shape that no key takes: a table or an array in place of
    /// a single value, or a single value in place of a section.
    Mistyped,
}

/// The mathematical model of a [`Value`].
pub enum Val {
    Nil,
    Text(Seq<char>),
    Integer(u64),
    Mistyped,
}

impl View for Value {
    type V = Val;

    open spec fn view(&self) -> Val {
        match self {
            Value::Nil => Val::Nil,
            Value::Text(s) => Val::Text(s@),
            Value::Integer(n) => Val::Integer(*n),
            Value::Mistyped => Val::Mistyped,
        }
    }
}

impl DeepView for Value {
    type V = Val;

    open spec fn deep_view(&self) -> Val {
        self@
    }
}

impl Clone for Value {
    fn clone(&self) -> (r: Self)
        ensures
            r@ == self@,
    {
        match self {
            Value::Nil => Value::Nil,
            Value::Text(s) => Value::Text(s.clone()),
            Value::Integer(n) => Value::Integer(*n),
            Value::Mistyped => Value::Mistyped,
        }
    }
}

impl Value {
    /// The text `s` as a value.
    pub fn text(s: &str) -> (v: Value)
        ensures
            v@ == Val::Text(s@),
    {
        Value::Text(s.to_owned())
    }
}

/// The model of an optional text.
pub open spec fn text_view(s: Option<String>) -> Option<Seq<char>> {
    match s {
        Some(s) => Some(s@),
        None => None,
    }
}

/// An optional text as an optional value of a layer.
pub open spec fn text_val(s: Option<String>) -> Option<Val> {
    match s {
        Some(s) => Some(Val::Text(s@)),
        None => None,
    }
}

} // verus!
