//! Scalars held as free text: those checked against a regular expression, the
//! diagnosis code with its five formats, and the open code sets.
use vstd::prelude::*;

use super::{SchemaRegexInput, SchemaStringType};
use crate::patterns::{regex_is_match, PatternKind, SchemaPatterns};
use crate::{AQIError, ScalarKind};

verus! {

/// A practice identifier: three to five digits.
/// Holds the text it was read from, unchanged.
#[derive(Debug)]
pub struct PracticeIdType(String);

impl PracticeIdType {
    #[verifier::type_invariant]
    spec fn matches_pattern(&self) -> bool {
        regex_is_match(PatternKind::PracticeId.source(), self.0@)
    }
}

impl SchemaStringType for PracticeIdType {
    closed spec fn spec_value(&self) -> Seq<char> {
        self.0@
    }

    fn value(&self) -> (r: &str) {
        self.0.as_str()
    }
}

impl SchemaRegexInput for PracticeIdType {
    open spec fn kind() -> ScalarKind {
        ScalarKind::PracticeId
    }

    open spec fn accepts(text: Seq<char>) -> bool {
        regex_is_match(PatternKind::PracticeId.source(), text)
    }

    fn from_str(val: &str, patterns: &SchemaPatterns) -> (r: Result<Self, AQIError>) {
        if patterns.is_match(PatternKind::PracticeId, val) {
            Ok(PracticeIdType(val.to_owned()))
        } else {
            Err(AQIError::RegexError { scalar: ScalarKind::PracticeId, value: val.to_owned() })
        }
    }
}

/// A vendor identifier: three digits, two capital letters, two digits.
/// Holds the text it was read from, unchanged.
#[derive(Debug)]
pub struct VendorIDType(String);

impl VendorIDType {
    #[verifier::type_invariant]
    spec fn matches_pattern(&self) -> bool {
        regex_is_match(PatternKind::VendorId.source(), self.0@)
    }
}

impl SchemaStringType for VendorIDType {
    closed spec fn spec_value(&self) -> Seq<char> {
        self.0@
    }

    fn value(&self) -> (r: &str) {
        self.0.as_str()
    }
}

impl SchemaRegexInput for VendorIDType {
    open spec fn kind() -> ScalarKind {
        ScalarKind::VendorId
    }

    open spec fn accepts(text: Seq<char>) -> bool {
        regex_is_match(PatternKind::VendorId.source(), text)
    }

    fn from_str(val: &str, patterns: &SchemaPatterns) -> (r: Result<Self, AQIError>) {
        if patterns.is_match(PatternKind::VendorId, val) {
            Ok(VendorIDType(val.to_owned()))
        } else {
            Err(AQIError::RegexError { scalar: ScalarKind::VendorId, value: val.to_owned() })
        }
    }
}

/// An e-mail address.
/// Holds the text it was read from, unchanged.
#[derive(Debug)]
pub struct EmailAddressType(String);

impl EmailAddressType {
    #[verifier::type_invariant]
    spec fn matches_pattern(&self) -> bool {
        regex_is_match(PatternKind::EmailAddress.source(), self.0@)
    }
}

impl SchemaStringType for EmailAddressType {
    closed spec fn spec_value(&self) -> Seq<char> {
        self.0@
    }

    fn value(&self) -> (r: &str) {
        self.0.as_str()
    }
}

impl SchemaRegexInput for EmailAddressType {
    open spec fn kind() -> ScalarKind {
        ScalarKind::EmailAddress
    }

    open spec fn accepts(text: Seq<char>) -> bool {
        regex_is_match(PatternKind::EmailAddress.source(), text)
    }

    fn from_str(val: &str, patterns: &SchemaPatterns) -> (r: Result<Self, AQIError>) {
        if patterns.is_match(PatternKind::EmailAddress, val) {
            Ok(EmailAddressType(val.to_owned()))
        } else {
            Err(AQIError::RegexError { scalar: ScalarKind::EmailAddress, value: val.to_owned() })
        }
    }
}

/// A ZIP code of five digits, or five and four.
/// Holds the text it was read from, unchanged.
#[derive(Debug)]
pub struct ZipCodeType(String);

impl ZipCodeType {
    #[verifier::type_invariant]
    spec fn matches_pattern(&self) -> bool {
        regex_is_match(PatternKind::ZipCode.source(), self.0@)
    }
}

impl SchemaStringType for ZipCodeType {
    closed spec fn spec_value(&self) -> Seq<char> {
        self.0@
    }

    fn value(&self) -> (r: &str) {
        self.0.as_str()
    }
}

impl SchemaRegexInput for ZipCodeType {
    open spec fn kind() -> ScalarKind {
        ScalarKind::ZipCode
    }

    open spec fn accepts(text: Seq<char>) -> bool {
        regex_is_match(PatternKind::ZipCode.source(), text)
    }

    fn from_str(val: &str, patterns: &SchemaPatterns) -> (r: Result<Self, AQIError>) {
        if patterns.is_match(PatternKind::ZipCode, val) {
            Ok(ZipCodeType(val.to_owned()))
        } else {
            Err(AQIError::RegexError { scalar: ScalarKind::ZipCode, value: val.to_owned() })
        }
    }
}

/// A tax identifier: nine digits.
/// Holds the text it was read from, unchanged.
#[derive(Debug)]
pub struct TaxIdType(String);

impl TaxIdType {
    #[verifier::type_invariant]
    spec fn matches_pattern(&self) -> bool {
        regex_is_match(PatternKind::TaxId.source(), self.0@)
    }
}

impl SchemaStringType for TaxIdType {
    closed spec fn spec_value(&self) -> Seq<char> {
        self.0@
    }

    fn value(&self) -> (r: &str) {
        self.0.as_str()
    }
}

impl SchemaRegexInput for TaxIdType {
    open spec fn kind() -> ScalarKind {
        ScalarKind::TaxId
    }

    open spec fn accepts(text: Seq<char>) -> bool {
        regex_is_match(PatternKind::TaxId.source(), text)
    }

    fn from_str(val: &str, patterns: &SchemaPatterns) -> (r: Result<Self, AQIError>) {
        if patterns.is_match(PatternKind::TaxId, val) {
            Ok(TaxIdType(val.to_owned()))
        } else {
            Err(AQIError::RegexError { scalar: ScalarKind::TaxId, value: val.to_owned() })
        }
    }
}

/// A National Provider Identifier: ten digits.
/// Holds the text it was read from, unchanged.
#[derive(Debug)]
pub struct NPIType(String);

impl NPIType {
    #[verifier::type_invariant]
    spec fn matches_pattern(&self) -> bool {
        regex_is_match(PatternKind::Npi.source(), self.0@)
    }
}

impl SchemaStringType for NPIType {
    closed spec fn spec_value(&self) -> Seq<char> {
        self.0@
    }

    fn value(&self) -> (r: &str) {
        self.0.as_str()
    }
}

impl SchemaRegexInput for NPIType {
    open spec fn kind() -> ScalarKind {
        ScalarKind::Npi
    }

    open spec fn accepts(text: Seq<char>) -> bool {
        regex_is_match(PatternKind::Npi.source(), text)
    }

    fn from_str(val: &str, patterns: &SchemaPatterns) -> (r: Result<Self, AQIError>) {
        if patterns.is_match(PatternKind::Npi, val) {
            Ok(NPIType(val.to_owned()))
        } else {
            Err(AQIError::RegexError { scalar: ScalarKind::Npi, value: val.to_owned() })
        }
    }
}

/// A procedure code: five characters whose middle three are digits.
/// Holds the text it was read from, unchanged.
#[derive(Debug)]
pub struct CPTValueType(String);

impl CPTValueType {
    #[verifier::type_invariant]
    spec fn matches_pattern(&self) -> bool {
        regex_is_match(PatternKind::CptValue.source(), self.0@)
    }
}

impl SchemaStringType for CPTValueType {
    closed spec fn spec_value(&self) -> Seq<char> {
        self.0@
    }

    fn value(&self) -> (r: &str) {
        self.0.as_str()
    }
}

impl SchemaRegexInput for CPTValueType {
    open spec fn kind() -> ScalarKind {
        ScalarKind::CptValue
    }

    open spec fn accepts(text: Seq<char>) -> bool {
        regex_is_match(PatternKind::CptValue.source(), text)
    }

    fn from_str(val: &str, patterns: &SchemaPatterns) -> (r: Result<Self, AQIError>) {
        if patterns.is_match(PatternKind::CptValue, val) {
            Ok(CPTValueType(val.to_owned()))
        } else {
            Err(AQIError::RegexError { scalar: ScalarKind::CptValue, value: val.to_owned() })
        }
    }
}

/// A procedure-code modifier: two letters or digits.
/// Holds the text it was read from, unchanged.
#[derive(Debug)]
pub struct CPTModifierType(String);

impl CPTModifierType {
    #[verifier::type_invariant]
    spec fn matches_pattern(&self) -> bool {
        regex_is_match(PatternKind::CptModifier.source(), self.0@)
    }
}

impl SchemaStringType for CPTModifierType {
    closed spec fn spec_value(&self) -> Seq<char> {
        self.0@
    }

    fn value(&self) -> (r: &str) {
        self.0.as_str()
    }
}

impl SchemaRegexInput for CPTModifierType {
    open spec fn kind() -> ScalarKind {
        ScalarKind::CptModifier
    }

    open spec fn accepts(text: Seq<char>) -> bool {
        regex_is_match(PatternKind::CptModifier.source(), text)
    }

    fn from_str(val: &str, patterns: &SchemaPatterns) -> (r: Result<Self, AQIError>) {
        if patterns.is_match(PatternKind::CptModifier, val) {
            Ok(CPTModifierType(val.to_owned()))
        } else {
            Err(AQIError::RegexError { scalar: ScalarKind::CptModifier, value: val.to_owned() })
        }
    }
}

/// A quality measure identifier.
/// Holds the text it was read from, unchanged.
#[derive(Debug)]
pub struct QCDRMeasureType(String);

impl QCDRMeasureType {
    #[verifier::type_invariant]
    spec fn matches_pattern(&self) -> bool {
        regex_is_match(PatternKind::QcdrMeasure.source(), self.0@)
    }
}

impl SchemaStringType for QCDRMeasureType {
    closed spec fn spec_value(&self) -> Seq<char> {
        self.0@
    }

    fn value(&self) -> (r: &str) {
        self.0.as_str()
    }
}

impl SchemaRegexInput for QCDRMeasureType {
    open spec fn kind() -> ScalarKind {
        ScalarKind::QcdrMeasure
    }

    open spec fn accepts(text: Seq<char>) -> bool {
        regex_is_match(PatternKind::QcdrMeasure.source(), text)
    }

    fn from_str(val: &str, patterns: &SchemaPatterns) -> (r: Result<Self, AQIError>) {
        if patterns.is_match(PatternKind::QcdrMeasure, val) {
            Ok(QCDRMeasureType(val.to_owned()))
        } else {
            Err(AQIError::RegexError { scalar: ScalarKind::QcdrMeasure, value: val.to_owned() })
        }
    }
}

/// A quality-measure code value.
/// Holds the text it was read from, unchanged.
#[derive(Debug)]
pub struct QCDRCodeValueType(String);

impl QCDRCodeValueType {
    #[verifier::type_invariant]
    spec fn matches_pattern(&self) -> bool {
        regex_is_match(PatternKind::QcdrCodeValue.source(), self.0@)
    }
}

impl SchemaStringType for QCDRCodeValueType {
    closed spec fn spec_value(&self) -> Seq<char> {
        self.0@
    }

    fn value(&self) -> (r: &str) {
        self.0.as_str()
    }
}

impl SchemaRegexInput for QCDRCodeValueType {
    open spec fn kind() -> ScalarKind {
        ScalarKind::QcdrCodeValue
    }

    open spec fn accepts(text: Seq<char>) -> bool {
        regex_is_match(PatternKind::QcdrCodeValue.source(), text)
    }

    fn from_str(val: &str, patterns: &SchemaPatterns) -> (r: Result<Self, AQIError>) {
        if patterns.is_match(PatternKind::QcdrCodeValue, val) {
            Ok(QCDRCodeValueType(val.to_owned()))
        } else {
            Err(AQIError::RegexError { scalar: ScalarKind::QcdrCodeValue, value: val.to_owned() })
        }
    }
}

/// A diagnosis or procedure code, tagged with the first of its five formats that it matches.
#[derive(Debug)]
pub enum ICDValueType {
    ICDValueType9CM(String),
    ICDValueType10CM(String),
    ICDValueType9SG(String),
    ICDValueType10SG(String),
    NacorRegistryCodeType(String),
}

/// The format of a code from which of the five patterns match it: the first that matches,
/// in the order ICD-9-CM, ICD-10-CM, ICD-9 surgical, ICD-10 surgical, registry code.
pub open spec fn icd_format(
    icd9_cm: bool,
    icd10_cm: bool,
    icd9_sg: bool,
    icd10_sg: bool,
    nacor: bool,
) -> Option<PatternKind> {
    if icd9_cm {
        Some(PatternKind::Icd9Cm)
    } else if icd10_cm {
        Some(PatternKind::Icd10Cm)
    } else if icd9_sg {
        Some(PatternKind::Icd9Sg)
    } else if icd10_sg {
        Some(PatternKind::Icd10Sg)
    } else if nacor {
        Some(PatternKind::NacorRegistry)
    } else {
        None
    }
}

/// The format of the code `text`.
pub open spec fn icd_format_of(text: Seq<char>) -> Option<PatternKind> {
    icd_format(
        regex_is_match(PatternKind::Icd9Cm.source(), text),
        regex_is_match(PatternKind::Icd10Cm.source(), text),
        regex_is_match(PatternKind::Icd9Sg.source(), text),
        regex_is_match(PatternKind::Icd10Sg.source(), text),
        regex_is_match(PatternKind::NacorRegistry.source(), text),
    )
}

/// Picks the format of a code from which of the five patterns match it.
pub fn classify_icd(
    icd9_cm: bool,
    icd10_cm: bool,
    icd9_sg: bool,
    icd10_sg: bool,
    nacor: bool,
) -> (r: Option<PatternKind>)
    ensures
        r == icd_format(icd9_cm, icd10_cm, icd9_sg, icd10_sg, nacor),
{
    if icd9_cm {
        Some(PatternKind::Icd9Cm)
    } else if icd10_cm {
        Some(PatternKind::Icd10Cm)
    } else if icd9_sg {
        Some(PatternKind::Icd9Sg)
    } else if icd10_sg {
        Some(PatternKind::Icd10Sg)
    } else if nacor {
        Some(PatternKind::NacorRegistry)
    } else {
        None
    }
}

impl ICDValueType {
    /// The format that the tag names.
    pub open spec fn format(&self) -> PatternKind {
        match self {
            ICDValueType::ICDValueType9CM(_) => PatternKind::Icd9Cm,
            ICDValueType::ICDValueType10CM(_) => PatternKind::Icd10Cm,
            ICDValueType::ICDValueType9SG(_) => PatternKind::Icd9Sg,
            ICDValueType::ICDValueType10SG(_) => PatternKind::Icd10Sg,
            ICDValueType::NacorRegistryCodeType(_) => PatternKind::NacorRegistry,
        }
    }
}

impl SchemaStringType for ICDValueType {
    open spec fn spec_value(&self) -> Seq<char> {
        match self {
            ICDValueType::ICDValueType9CM(x) => x@,
            ICDValueType::ICDValueType10CM(x) => x@,
            ICDValueType::ICDValueType9SG(x) => x@,
            ICDValueType::ICDValueType10SG(x) => x@,
            ICDValueType::NacorRegistryCodeType(x) => x@,
        }
    }

    fn value(&self) -> (r: &str) {
        match self {
            ICDValueType::ICDValueType9CM(x) => x.as_str(),
            ICDValueType::ICDValueType10CM(x) => x.as_str(),
            ICDValueType::ICDValueType9SG(x) => x.as_str(),
            ICDValueType::ICDValueType10SG(x) => x.as_str(),
            ICDValueType::NacorRegistryCodeType(x) => x.as_str(),
        }
    }
}

impl SchemaRegexInput for ICDValueType {
    open spec fn kind() -> ScalarKind {
        ScalarKind::IcdValue
    }

    open spec fn accepts(text: Seq<char>) -> bool {
        icd_format_of(text) is Some
    }

    fn from_str(val: &str, patterns: &SchemaPatterns) -> (r: Result<Self, AQIError>)
        ensures
            r matches Ok(v) ==> icd_format_of(val@) == Some(v.format()),
    {
        let format = classify_icd(
            patterns.is_match(PatternKind::Icd9Cm, val),
            patterns.is_match(PatternKind::Icd10Cm, val),
            patterns.is_match(PatternKind::Icd9Sg, val),
            patterns.is_match(PatternKind::Icd10Sg, val),
            patterns.is_match(PatternKind::NacorRegistry, val),
        );
        match format {
            Some(PatternKind::Icd9Cm) => Ok(ICDValueType::ICDValueType9CM(val.to_owned())),
            Some(PatternKind::Icd10Cm) => Ok(ICDValueType::ICDValueType10CM(val.to_owned())),
            Some(PatternKind::Icd9Sg) => Ok(ICDValueType::ICDValueType9SG(val.to_owned())),
            Some(PatternKind::Icd10Sg) => Ok(ICDValueType::ICDValueType10SG(val.to_owned())),
            Some(_) => Ok(ICDValueType::NacorRegistryCodeType(val.to_owned())),
            None => Err(AQIError::RegexError {
                scalar: ScalarKind::IcdValue,
                value: val.to_owned(),
            }),
        }
    }
}

/// Reading one text twice as a diagnosis code gives the same tag both times: the tag is
/// the first of the five formats, in their fixed order, whose pattern matches the text.
pub proof fn lemma_icd_format_is_stable(text: Seq<char>, first: ICDValueType, second: ICDValueType)
    requires
        icd_format_of(text) == Some(first.format()),
        icd_format_of(text) == Some(second.format()),
    ensures
        first.format() == second.format(),
{
}

/// A monitor used during the case. Any text.
pub struct MonitorCodeType(pub String);

impl SchemaStringType for MonitorCodeType {
    open spec fn spec_value(&self) -> Seq<char> {
        self.0@
    }

    fn value(&self) -> (r: &str) {
        self.0.as_str()
    }
}

/// How anesthesia was induced. Any text.
pub struct AnesthesiaInductionCodeType(pub String);

impl SchemaStringType for AnesthesiaInductionCodeType {
    open spec fn spec_value(&self) -> Seq<char> {
        self.0@
    }

    fn value(&self) -> (r: &str) {
        self.0.as_str()
    }
}

/// How anesthesia was maintained. Any text.
pub struct AnesthesiaMaintenanceCodeType(pub String);

impl SchemaStringType for AnesthesiaMaintenanceCodeType {
    open spec fn spec_value(&self) -> Seq<char> {
        self.0@
    }

    fn value(&self) -> (r: &str) {
        self.0.as_str()
    }
}

/// A method of airway management. Any text.
pub struct AirwayManagementMethodCodeType(pub String);

impl SchemaStringType for AirwayManagementMethodCodeType {
    open spec fn spec_value(&self) -> Seq<char> {
        self.0@
    }

    fn value(&self) -> (r: &str) {
        self.0.as_str()
    }
}

/// A sub-method of airway management. Any text.
pub struct AirwayManagementSubMethodCodeType(pub String);

impl SchemaStringType for AirwayManagementSubMethodCodeType {
    open spec fn spec_value(&self) -> Seq<char> {
        self.0@
    }

    fn value(&self) -> (r: &str) {
        self.0.as_str()
    }
}

/// The name of a lab test. Any text.
pub struct LabDataNameCodeType(pub String);

impl SchemaStringType for LabDataNameCodeType {
    open spec fn spec_value(&self) -> Seq<char> {
        self.0@
    }

    fn value(&self) -> (r: &str) {
        self.0.as_str()
    }
}

/// A unit of measure. Any text.
pub struct CommonUnit(pub String);

impl SchemaStringType for CommonUnit {
    open spec fn spec_value(&self) -> Seq<char> {
        self.0@
    }

    fn value(&self) -> (r: &str) {
        self.0.as_str()
    }
}

/// A type of medication. Any text.
pub struct MedicationTypeCodeType(pub String);

impl SchemaStringType for MedicationTypeCodeType {
    open spec fn spec_value(&self) -> Seq<char> {
        self.0@
    }

    fn value(&self) -> (r: &str) {
        self.0.as_str()
    }
}

/// A route of administration. Any text.
pub struct RouteCodeType(pub String);

impl SchemaStringType for RouteCodeType {
    open spec fn spec_value(&self) -> Seq<char> {
        self.0@
    }

    fn value(&self) -> (r: &str) {
        self.0.as_str()
    }
}

/// The name of a monitored value. Any text.
pub struct MonitoringNameCodeType(pub String);

impl SchemaStringType for MonitoringNameCodeType {
    open spec fn spec_value(&self) -> Seq<char> {
        self.0@
    }

    fn value(&self) -> (r: &str) {
        self.0.as_str()
    }
}

/// The name of an output or intake. Any text.
pub struct OutputCodeType(pub String);

impl SchemaStringType for OutputCodeType {
    open spec fn spec_value(&self) -> Seq<char> {
        self.0@
    }

    fn value(&self) -> (r: &str) {
        self.0.as_str()
    }
}

/// Where the patient went after the procedure. Any text.
pub struct PostOpDispositionCodeType(pub String);

impl SchemaStringType for PostOpDispositionCodeType {
    open spec fn spec_value(&self) -> Seq<char> {
        self.0@
    }

    fn value(&self) -> (r: &str) {
        self.0.as_str()
    }
}

/// The kind of a timing milestone. Any text.
pub struct TimingMilestoneCodeType(pub String);

impl SchemaStringType for TimingMilestoneCodeType {
    open spec fn spec_value(&self) -> Seq<char> {
        self.0@
    }

    fn value(&self) -> (r: &str) {
        self.0.as_str()
    }
}

/// The kind of a vendor: 1 billing, 2 quality and outcomes, 3 anesthesia information
/// system only, 4 health record system.
pub type TypeVendorType = u8;

} // verus!
