//! Values of the evaluator.

use vstd::prelude::*;
use crate::nodes::{Type, TypeView};

verus! {

/// What a value holds. A float is kept as the text of its literal.
#[derive(Debug, PartialEq)]
pub enum ValueData {
    IntegerValue(isize),
    FloatValue(String),
    StringValue(String),
    CharValue(char),
    BooleanValue(bool),
}

/// A value and its type.
#[derive(Debug, PartialEq)]
pub struct Value {
    pub type_: Type,
    pub value: ValueData,
}

/// What a value holds, as a mathematical value.
pub enum ValueDataView {
    IntegerValue(int),
    FloatValue(Seq<char>),
    StringValue(Seq<char>),
    CharValue(char),
    BooleanValue(bool),
}

/// A value and its type, as a mathematical value.
pub struct ValueView {
    pub type_: TypeView,
    pub value: ValueDataView,
}

impl View for ValueData {
    type V = ValueDataView;

    open spec fn view(&self) -> ValueDataView {
        match self {
            ValueData::IntegerValue(n) => ValueDataView::IntegerValue(*n as int),
            ValueData::FloatValue(text) => ValueDataView::FloatValue(text@),
            ValueData::StringValue(text) => ValueDataView::StringValue(text@),
            ValueData::CharValue(c) => ValueDataView::CharValue(*c),
            ValueData::BooleanValue(b) => ValueDataView::BooleanValue(*b),
        }
    }
}

impl View for Value {
    type V = ValueView;

    open spec fn view(&self) -> ValueView {
        ValueView { type_: self.type_@, value: self.value@ }
    }
}

impl Value {
    /// The value `value` of type `type_`.
    pub fn new(type_: Type, value: ValueData) -> (v: Value)
        ensures
            v@ == (ValueView { type_: type_@, value: value@ }),
    {
        Value { type_, value }
    }
}

} // verus!
