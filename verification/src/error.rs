//! The structured decode error surfaced when a response body does not match
//! the shape the requested method documents. The offending field is always
//! named; a required field is never silently defaulted.

use vstd::prelude::*;

use vstd::string::StringExecFns;

use crate::wire::Field;
use crate::wire::spec_wire_name;

verus! {

/// Why decoding a response body failed, and at which field.
#[derive(Clone, Copy, Debug, PartialEq, Eq, Structural)]
pub enum DecodeError {
    /// A field the method's result shape requires is absent from the body.
    MissingField(Field),
    /// The field is present but holds a value of the wrong wire type.
    WrongType(Field),
}

impl DecodeError {
    /// The field at which decoding failed.
    pub fn field(&self) -> (f: Field)
        ensures
            match *self {
                DecodeError::MissingField(g) => f == g,
                DecodeError::WrongType(g) => f == g,
            },
    {
        match self {
            DecodeError::MissingField(g) => *g,
            DecodeError::WrongType(g) => *g,
        }
    }

    /// A human-readable account of the failure, naming the wire spelling of
    /// the offending field.
    pub fn describe(&self) -> (r: String)
        ensures
            match *self {
                DecodeError::MissingField(f) => r@ == "missing required field "@ + spec_wire_name(
                    f,
                ),
                DecodeError::WrongType(f) => r@ == "wrong value type at field "@ + spec_wire_name(
                    f,
                ),
            },
    {
        match self {
            DecodeError::MissingField(f) => "missing required field ".to_owned().concat(
                f.wire_name().as_str(),
            ),
            DecodeError::WrongType(f) => "wrong value type at field ".to_owned().concat(
                f.wire_name().as_str(),
            ),
        }
    }
}

} // verus!
