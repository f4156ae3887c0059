//! The values that a query returns.
use vstd::prelude::*;

verus! {

/// An exact non-negative rational number, standing for a value that a host
/// reads as a real number: a time in seconds, a control position between 0 and
/// 1, a tempo in beats per minute.
#[derive(Clone, Copy, Debug, PartialEq, Eq, Structural)]
pub struct Ratio {
    pub numerator: u64,
    pub denominator: u64,
}

/// The answer to a query.
#[derive(Clone, Debug, PartialEq, Eq)]
pub enum Value {
    Bool(bool),
    Int(i32),
    Ratio(Ratio),
    BoolArray(Vec<bool>),
    ByteArray(Vec<u8>),
}

/// What a [`Value`] holds, with sequences in place of vectors.
pub enum ValueModel {
    Bool(bool),
    Int(i32),
    Ratio(Ratio),
    BoolArray(Seq<bool>),
    ByteArray(Seq<u8>),
}

impl View for Value {
    type V = ValueModel;

    open spec fn view(&self) -> ValueModel {
        match *self {
            Value::Bool(b) => ValueModel::Bool(b),
            Value::Int(i) => ValueModel::Int(i),
            Value::Ratio(r) => ValueModel::Ratio(r),
            Value::BoolArray(v) => ValueModel::BoolArray(v@),
            Value::ByteArray(v) => ValueModel::ByteArray(v@),
        }
    }
}

/// Whether `answer` is what `expected` describes: both absent, or both present
/// and holding the same.
pub open spec fn answers(answer: Option<Value>, expected: Option<ValueModel>) -> bool {
    match answer {
        Some(v) => expected == Some(v@),
        None => expected is None,
    }
}

} // verus!
