//! Typed model of an anesthesia quality-registry record and its serialisation
//! into the registry's XML document format.
use vstd::prelude::*;

pub mod markup;
pub mod patterns;
pub mod text;
pub mod datetime;
pub mod schema;

verus! {

/// The two ways in which building or writing a record can fail.
#[derive(Debug, PartialEq, Eq)]
pub enum AQIError {
    /// `value` does not have the lexical form that the scalar type `scalar` requires.
    RegexError { scalar: ScalarKind, value: String },
    /// The XML writer refused an event.
    EmitterError,
}

/// The scalar types whose values are checked against regular expressions.
#[derive(Clone, Copy, Debug, PartialEq, Eq, Structural)]
pub enum ScalarKind {
    /// `PracticeIdType`
    PracticeId,
    /// `VendorIDType`
    VendorId,
    /// `EmailAddressType`
    EmailAddress,
    /// `ZipCodeType`
    ZipCode,
    /// `TaxIdType`
    TaxId,
    /// `NPIType`
    Npi,
    /// `CPTValueType`
    CptValue,
    /// `CPTModifierType`
    CptModifier,
    /// `QCDRMeasureType`
    QcdrMeasure,
    /// `QCDRCodeValueType`
    QcdrCodeValue,
    /// `ICDValueType`
    IcdValue,
}

} // verus!
