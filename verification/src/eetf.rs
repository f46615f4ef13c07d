//! What can go wrong between values and Erlang terms.

use vstd::prelude::*;
use vstd::string::*;

verus! {

/// What can go wrong when a value is written as an Erlang term or read
/// from one.
#[derive(Clone, Debug)]
pub enum EetfError {
    Message(String),
    DecodeError(String),
    EncodeError(String),
    TypeHintsRequired,
    ExpectedBoolean,
    InvalidBoolean,
    ExpectedFixInteger,
    ExpectedFloat,
    ExpectedChar,
    ExpectedBinary,
    Utf8DecodeError,
    ExpectedNil,
    ExpectedList,
    ExpectedTuple,
    WrongTupleLength,
    ExpectedMap,
    ExpectedAtom,
    IntegerConvertError,
    FloatConvertError,
    TooManyItems,
    MisSizedVariantTuple,
    ExpectedAtomOrTuple,
}

impl EetfError {
    /// The words that describe the error. A message or an encoding error
    /// speaks for itself; a decoding error is only named.
    pub open spec fn text(self) -> Seq<char> {
        match self {
            EetfError::Message(message) => message@,
            EetfError::DecodeError(_) => "Decode error"@,
            EetfError::EncodeError(message) => message@,
            EetfError::TypeHintsRequired => "Type Hints are required for deserializing eetf"@,
            EetfError::ExpectedBoolean => "Expected boolean, got something else"@,
            EetfError::InvalidBoolean => "Invalid boolean"@,
            EetfError::ExpectedFixInteger => "Expected fix integer, got something else"@,
            EetfError::ExpectedFloat => "Expected float integer, got something else"@,
            EetfError::ExpectedChar => "Expected string of one character, got something else"@,
            EetfError::ExpectedBinary => "Expected binary, got something else"@,
            EetfError::Utf8DecodeError => "Error decoding UTF8 from binary"@,
            EetfError::ExpectedNil => "Expected nil, got something else"@,
            EetfError::ExpectedList => "Expected list, got something else"@,
            EetfError::ExpectedTuple => "Expected tuple, got something else"@,
            EetfError::WrongTupleLength => "Tuple was wrong length"@,
            EetfError::ExpectedMap => "Expected map, got something else"@,
            EetfError::ExpectedAtom => "Expected atom, got something else"@,
            EetfError::IntegerConvertError => "Could not convert integer without overflow"@,
            EetfError::FloatConvertError => "Could not convert float without overflow"@,
            EetfError::TooManyItems => "Too many items when deserializing sequence"@,
            EetfError::MisSizedVariantTuple => "Was expecting a tuple of an atom and element"@,
            EetfError::ExpectedAtomOrTuple => "Was expecting an atom or a tuple"@,
        }
    }

    /// Describes the error.
    pub fn message(&self) -> (r: String)
        ensures
            r@ == self.text(),
    {
        match self {
            EetfError::Message(message) => message.clone(),
            EetfError::DecodeError(_) => String::from_str("Decode error"),
            EetfError::EncodeError(message) => message.clone(),
            EetfError::TypeHintsRequired => String::from_str(
                "Type Hints are required for deserializing eetf",
            ),
            EetfError::ExpectedBoolean => String::from_str("Expected boolean, got something else"),
            EetfError::InvalidBoolean => String::from_str("Invalid boolean"),
            EetfError::ExpectedFixInteger => String::from_str(
                "Expected fix integer, got something else",
            ),
            EetfError::ExpectedFloat => String::from_str("Expected float integer, got something else"),
            EetfError::ExpectedChar => String::from_str(
                "Expected string of one character, got something else",
            ),
            EetfError::ExpectedBinary => String::from_str("Expected binary, got something else"),
            EetfError::Utf8DecodeError => String::from_str("Error decoding UTF8 from binary"),
            EetfError::ExpectedNil => String::from_str("Expected nil, got something else"),
            EetfError::ExpectedList => String::from_str("Expected list, got something else"),
            EetfError::ExpectedTuple => String::from_str("Expected tuple, got something else"),
            EetfError::WrongTupleLength => String::from_str("Tuple was wrong length"),
            EetfError::ExpectedMap => String::from_str("Expected map, got something else"),
            EetfError::ExpectedAtom => String::from_str("Expected atom, got something else"),
            EetfError::IntegerConvertError => String::from_str(
                "Could not convert integer without overflow",
            ),
            EetfError::FloatConvertError => String::from_str(
                "Could not convert float without overflow",
            ),
            EetfError::TooManyItems => String::from_str("Too many items when deserializing sequence"),
            EetfError::MisSizedVariantTuple => String::from_str(
                "Was expecting a tuple of an atom and element",
            ),
            EetfError::ExpectedAtomOrTuple => String::from_str("Was expecting an atom or a tuple"),
        }
    }

    /// The error for a message of one's own.
    pub fn custom(message: &str) -> (r: EetfError)
        ensures
            r.text() == message@,
    {
        EetfError::Message(String::from_str(message))
    }
}

} // verus!
