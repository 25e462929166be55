//! The ways in which a conversion fails.
use vstd::prelude::*;

verus! {

/// Why a term could not be converted.
#[derive(Debug)]
pub enum Error {
    DeserializationError(String),
    TypeHintsRequired,
    InvalidAtom,
    InvalidBoolean,
    InvalidNumber,
    InvalidStringable,
    InvalidList,
    InvalidTuple,
    InvalidSequenceElement,
    ExpectedAtom,
    ExpectedBoolean,
    ExpectedBinary,
    ExpectedNumber,
    ExpectedChar,
    ExpectedStringable,
    ExpectedNil,
    ExpectedList,
    ExpectedTuple,
    ExpectedEnum,
    ExpectedMap,
    ExpectedStruct,
    ExpectedStructName,
    ExpectedStructValue,
    ExpectedUnitVariant,
    ExpectedNewtypeStruct,
    ExpectedNewtypeVariant,
    ExpectedTupleVariant,
    ExpectedStructVariant,
    SerializationError(String),
    InvalidVariantName,
    InvalidStructName,
    InvalidBinary,
    InvalidMap,
    InvalidStruct,
    InvalidStructKey,
}

/// The message that belongs to `e`.
pub open spec fn description_of(e: Error) -> Seq<char> {
    match e {
        Error::DeserializationError(err) => err@,
        Error::TypeHintsRequired => "Cannot deserialize any, type hints are required"@,
        Error::InvalidAtom => "Failed to deserialize atom"@,
        Error::InvalidBoolean => "Failed to deserialize boolean"@,
        Error::InvalidNumber => "Failed to deserialize number"@,
        Error::InvalidStringable => "Failed to deserialize term as an &str"@,
        Error::InvalidList => "Failed to deserialize list"@,
        Error::InvalidTuple => "Failed to deserialize tuple"@,
        Error::InvalidSequenceElement => "Failed to deserialize sequence element"@,
        Error::ExpectedAtom => "Expected to deserialize atom"@,
        Error::ExpectedBoolean => "Expected to deserialize boolean"@,
        Error::ExpectedBinary => "Expected to deserialize binary"@,
        Error::ExpectedNumber => "Expected to deserialize number"@,
        Error::ExpectedChar => "Expected to deserialize char"@,
        Error::ExpectedStringable => "Expected to deserialize a UTF-8 stringable term"@,
        Error::ExpectedNil => "Expected to deserialize nil"@,
        Error::ExpectedList => "Expected to deserialize list"@,
        Error::ExpectedTuple => "Expected to deserialize tuple"@,
        Error::ExpectedEnum => "Expected to deserialize enum"@,
        Error::ExpectedMap => "Expected to deserialize map"@,
        Error::ExpectedStruct => "Expected to deserialize struct"@,
        Error::ExpectedStructName => "Expected to deserialize struct name"@,
        Error::ExpectedStructValue => "Expected to deserialize struct value"@,
        Error::ExpectedUnitVariant => "Expected to deserialize unit variant"@,
        Error::ExpectedNewtypeStruct => "Expected to deserialize newtype struct tuple"@,
        Error::ExpectedNewtypeVariant => "Expected to deserialize newtype variant"@,
        Error::ExpectedTupleVariant => "Expected to deserialize tuple variant"@,
        Error::ExpectedStructVariant => "Expected to deserialize struct variant"@,
        Error::SerializationError(err) => err@,
        Error::InvalidVariantName => "Failed to serialize variant to atom or string"@,
        Error::InvalidStructName => "Failed to serialize struct name to atom or string"@,
        Error::InvalidBinary => "Failed to serialize binary"@,
        Error::InvalidMap => "Failed to serialize map to NIF map"@,
        Error::InvalidStruct => "Failed to serialize struct to NIF struct"@,
        Error::InvalidStructKey => "Failed to serialize struct key"@,
    }
}

impl Error {
    /// The message that belongs to the error: the wrapped text of a custom
    /// error, a fixed sentence for every other.
    pub fn description(&self) -> (r: &str)
        ensures
            r@ == description_of(*self),
    {
        match self {
            Error::DeserializationError(err) => err.as_str(),
            Error::TypeHintsRequired => "Cannot deserialize any, type hints are required",
            Error::InvalidAtom => "Failed to deserialize atom",
            Error::InvalidBoolean => "Failed to deserialize boolean",
            Error::InvalidNumber => "Failed to deserialize number",
            Error::InvalidStringable => "Failed to deserialize term as an &str",
            Error::InvalidList => "Failed to deserialize list",
            Error::InvalidTuple => "Failed to deserialize tuple",
            Error::InvalidSequenceElement => "Failed to deserialize sequence element",
            Error::ExpectedAtom => "Expected to deserialize atom",
            Error::ExpectedBoolean => "Expected to deserialize boolean",
            Error::ExpectedBinary => "Expected to deserialize binary",
            Error::ExpectedNumber => "Expected to deserialize number",
            Error::ExpectedChar => "Expected to deserialize char",
            Error::ExpectedStringable => "Expected to deserialize a UTF-8 stringable term",
            Error::ExpectedNil => "Expected to deserialize nil",
            Error::ExpectedList => "Expected to deserialize list",
            Error::ExpectedTuple => "Expected to deserialize tuple",
            Error::ExpectedEnum => "Expected to deserialize enum",
            Error::ExpectedMap => "Expected to deserialize map",
            Error::ExpectedStruct => "Expected to deserialize struct",
            Error::ExpectedStructName => "Expected to deserialize struct name",
            Error::ExpectedStructValue => "Expected to deserialize struct value",
            Error::ExpectedUnitVariant => "Expected to deserialize unit variant",
            Error::ExpectedNewtypeStruct => "Expected to deserialize newtype struct tuple",
            Error::ExpectedNewtypeVariant => "Expected to deserialize newtype variant",
            Error::ExpectedTupleVariant => "Expected to deserialize tuple variant",
            Error::ExpectedStructVariant => "Expected to deserialize struct variant",
            Error::SerializationError(err) => err.as_str(),
            Error::InvalidVariantName => "Failed to serialize variant to atom or string",
            Error::InvalidStructName => "Failed to serialize struct name to atom or string",
            Error::InvalidBinary => "Failed to serialize binary",
            Error::InvalidMap => "Failed to serialize map to NIF map",
            Error::InvalidStruct => "Failed to serialize struct to NIF struct",
            Error::InvalidStructKey => "Failed to serialize struct key",
        }
    }

    /// The message as an owned string.
    pub fn to_text(&self) -> (r: String)
        ensures
            r@ == description_of(*self),
    {
        self.description().to_owned()
    }

    /// A custom error that wraps `msg`.
    pub fn custom(msg: &str) -> (r: Error)
        ensures
            r matches Error::DeserializationError(s) && s@ == msg@,
    {
        Error::DeserializationError(msg.to_owned())
    }
}

} // verus!
