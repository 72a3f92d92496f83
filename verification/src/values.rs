//! Plain models of request-parameter values.
//!
//! Callers decode provider-specific wire values into [`ParamValue`] before
//! handing them to the library; the variant records how far that decoding
//! got. A value the library never inspects is carried verbatim.

use vstd::prelude::*;

verus! {

/// Options attached to a streaming chat request.
#[derive(Clone, Copy, PartialEq, Eq, Structural, Debug)]
pub struct StreamOptions {
    /// Whether the final stream chunk must carry token-usage counters.
    pub include_usage: bool,
}

/// One request-parameter value.
#[derive(Debug)]
pub enum ParamValue {
    /// A boolean value.
    Bool(bool),
    /// An integer value.
    Int(i64),
    /// A numeric literal kept in its textual form.
    Num(String),
    /// A string value.
    Text(String),
    /// A decoded stream-options object.
    Stream(StreamOptions),
    /// Any other value, carried as its serialized form.
    Json(String),
}

/// The mathematical model of a [`ParamValue`].
pub enum ParamValueV {
    /// A boolean value.
    Bool(bool),
    /// An integer value.
    Int(i64),
    /// A numeric literal kept in its textual form.
    Num(Seq<char>),
    /// A string value.
    Text(Seq<char>),
    /// A decoded stream-options object.
    Stream(StreamOptions),
    /// Any other value, carried as its serialized form.
    Json(Seq<char>),
}

impl View for ParamValue {
    type V = ParamValueV;

    open spec fn view(&self) -> ParamValueV {
        match self {
            ParamValue::Bool(b) => ParamValueV::Bool(*b),
            ParamValue::Int(i) => ParamValueV::Int(*i),
            ParamValue::Num(s) => ParamValueV::Num(s@),
            ParamValue::Text(s) => ParamValueV::Text(s@),
            ParamValue::Stream(o) => ParamValueV::Stream(*o),
            ParamValue::Json(s) => ParamValueV::Json(s@),
        }
    }
}

impl ParamValue {
    /// An equal-valued copy.
    pub fn duplicate(&self) -> (r: ParamValue)
        ensures
            r@ == self@,
    {
        match self {
            ParamValue::Bool(b) => ParamValue::Bool(*b),
            ParamValue::Int(i) => ParamValue::Int(*i),
            ParamValue::Num(s) => ParamValue::Num(s.clone()),
            ParamValue::Text(s) => ParamValue::Text(s.clone()),
            ParamValue::Stream(o) => ParamValue::Stream(*o),
            ParamValue::Json(s) => ParamValue::Json(s.clone()),
        }
    }
}

} // verus!
