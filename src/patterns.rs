//! The regular expressions that pattern-constrained scalars are checked against,
//! compiled once and kept in a registry.
use vstd::prelude::*;
use regex::Regex;

verus! {

#[verifier::external_type_specification]
#[verifier::external_body]
pub struct ExRegex(Regex);

/// Whether the regular expression `pattern`, compiled by `regex::Regex::new`, finds a
/// match anywhere in `haystack` (patterns anchor themselves where they need to).
pub uninterp spec fn regex_is_match(pattern: Seq<char>, haystack: Seq<char>) -> bool;

/// A regular expression together with the source text it was compiled from.
/// Built only by `compile`.
pub struct CompiledPattern {
    source: String,
    regex: Regex,
}

impl CompiledPattern {
    pub closed spec fn source(&self) -> Seq<char> {
        self.source@
    }
}

/// Whether `regex::Regex::new` accepts `pattern` (it refuses invalid patterns and patterns
/// whose compiled form exceeds its size limit).
pub uninterp spec fn regex_compiles(pattern: Seq<char>) -> bool;

/// Relies on regex::Regex::new: `None` exactly when the regex crate rejects `source`.
#[verifier::external_body]
fn compile(source: &str) -> (r: Option<CompiledPattern>)
    ensures
        r is Some <==> regex_compiles(source@),
        r matches Some(p) ==> p.source() == source@,
{
    match Regex::new(source) {
        Ok(regex) => Some(CompiledPattern { source: source.to_owned(), regex }),
        Err(_) => None,
    }
}

/// Relies on regex::Regex::is_match, on the regex that `compile` built from `p.source`.
#[verifier::external_body]
fn is_match(p: &CompiledPattern, haystack: &str) -> (r: bool)
    ensures
        r == regex_is_match(p.source(), haystack@),
{
    p.regex.is_match(haystack)
}

pub const PRACTICE_ID_PATTERN: &'static str = r"^[0-9]{3,5}$";
pub const VENDOR_ID_PATTERN: &'static str = r"^[0-9]{3}[A-Z]{2}[0-9]{2}$";
pub const EMAIL_ADDRESS_PATTERN: &'static str = r"^[a-zA-Z0-9_.+-]+@[a-zA-Z0-9-]+\.[a-zA-Z0-9-.]+$";
pub const ZIP_CODE_PATTERN: &'static str = r"^[0-9]{5}(-[0-9]{4})?$";
pub const TAX_ID_PATTERN: &'static str = r"^[0-9]{9}$";
pub const NPI_PATTERN: &'static str = r"^[0-9]{10}$";
pub const CPT_VALUE_PATTERN: &'static str = r"^[a-zA-Z0-9][0-9][0-9][0-9][a-zA-Z0-9]$";
pub const CPT_MODIFIER_PATTERN: &'static str = r"^[a-zA-Z0-9]{2}$";
pub const QCDR_MEASURE_PATTERN: &'static str = r"^(AQI[0-9][0-9])|(PQRS[0-9][0-9][0-9])|(IIM[0-9][0-9][0-9])|(Quantum[0-9][0-9])$";
pub const QCDR_CODE_VALUE_PATTERN: &'static str = r"^([0-9][0-9][0-9][0-9]F)|(G[0-9][0-9][0-9][0-9])$";
pub const ICD9_CM_PATTERN: &'static str = r"^(V\d{2}(\.\d{1,2})?|\d{3}(\.\d{1,2})?|E\d{3}(\.\d)?)$";
pub const ICD10_CM_PATTERN: &'static str = r"^[A-TV-Z][0-9][A-Z0-9](\.[A-Z0-9]{1,4})?$";
pub const ICD9_SG_PATTERN: &'static str = r"^\d{3,4}$";
pub const ICD10_SG_PATTERN: &'static str = r"^[a-zA-Z0-9]{7}$";
pub const NACOR_REGISTRY_PATTERN: &'static str = r"[0-9][0-9][a-zA-Z][0-9][0-9]";

/// The regular expressions of the schema.
#[derive(Clone, Copy, Debug, PartialEq, Eq, Structural)]
pub enum PatternKind {
    /// A practice identifier: three to five digits.
    PracticeId,
    /// A vendor identifier: three digits, two capital letters, two digits.
    VendorId,
    /// An e-mail address.
    EmailAddress,
    /// A ZIP code of five digits, or five and four.
    ZipCode,
    /// A tax identifier: nine digits.
    TaxId,
    /// A National Provider Identifier: ten digits.
    Npi,
    /// A procedure code: five characters whose middle three are digits.
    CptValue,
    /// A procedure-code modifier: two letters or digits.
    CptModifier,
    /// A quality measure identifier.
    QcdrMeasure,
    /// A quality-measure code value.
    QcdrCodeValue,
    /// An ICD-9-CM diagnosis code.
    Icd9Cm,
    /// An ICD-10-CM diagnosis code.
    Icd10Cm,
    /// An ICD-9 surgical procedure code.
    Icd9Sg,
    /// An ICD-10 surgical procedure code.
    Icd10Sg,
    /// A code of the registry's own.
    NacorRegistry,
}

impl PatternKind {
    /// The source text of the regular expression.
    pub open spec fn source(self) -> Seq<char> {
        match self {
            PatternKind::PracticeId => PRACTICE_ID_PATTERN@,
            PatternKind::VendorId => VENDOR_ID_PATTERN@,
            PatternKind::EmailAddress => EMAIL_ADDRESS_PATTERN@,
            PatternKind::ZipCode => ZIP_CODE_PATTERN@,
            PatternKind::TaxId => TAX_ID_PATTERN@,
            PatternKind::Npi => NPI_PATTERN@,
            PatternKind::CptValue => CPT_VALUE_PATTERN@,
            PatternKind::CptModifier => CPT_MODIFIER_PATTERN@,
            PatternKind::QcdrMeasure => QCDR_MEASURE_PATTERN@,
            PatternKind::QcdrCodeValue => QCDR_CODE_VALUE_PATTERN@,
            PatternKind::Icd9Cm => ICD9_CM_PATTERN@,
            PatternKind::Icd10Cm => ICD10_CM_PATTERN@,
            PatternKind::Icd9Sg => ICD9_SG_PATTERN@,
            PatternKind::Icd10Sg => ICD10_SG_PATTERN@,
            PatternKind::NacorRegistry => NACOR_REGISTRY_PATTERN@,
        }
    }

    /// The source text of the regular expression.
    pub fn text(self) -> (r: &'static str)
        ensures
            r@ == self.source(),
    {
        match self {
            PatternKind::PracticeId => PRACTICE_ID_PATTERN,
            PatternKind::VendorId => VENDOR_ID_PATTERN,
            PatternKind::EmailAddress => EMAIL_ADDRESS_PATTERN,
            PatternKind::ZipCode => ZIP_CODE_PATTERN,
            PatternKind::TaxId => TAX_ID_PATTERN,
            PatternKind::Npi => NPI_PATTERN,
            PatternKind::CptValue => CPT_VALUE_PATTERN,
            PatternKind::CptModifier => CPT_MODIFIER_PATTERN,
            PatternKind::QcdrMeasure => QCDR_MEASURE_PATTERN,
            PatternKind::QcdrCodeValue => QCDR_CODE_VALUE_PATTERN,
            PatternKind::Icd9Cm => ICD9_CM_PATTERN,
            PatternKind::Icd10Cm => ICD10_CM_PATTERN,
            PatternKind::Icd9Sg => ICD9_SG_PATTERN,
            PatternKind::Icd10Sg => ICD10_SG_PATTERN,
            PatternKind::NacorRegistry => NACOR_REGISTRY_PATTERN,
        }
    }
}

/// Every pattern of the schema, compiled.
pub struct SchemaPatterns {
    practice_id: CompiledPattern,
    vendor_id: CompiledPattern,
    email_address: CompiledPattern,
    zip_code: CompiledPattern,
    tax_id: CompiledPattern,
    npi: CompiledPattern,
    cpt_value: CompiledPattern,
    cpt_modifier: CompiledPattern,
    qcdr_measure: CompiledPattern,
    qcdr_code_value: CompiledPattern,
    icd9_cm: CompiledPattern,
    icd10_cm: CompiledPattern,
    icd9_sg: CompiledPattern,
    icd10_sg: CompiledPattern,
    nacor_registry: CompiledPattern,
}

impl SchemaPatterns {
    #[verifier::type_invariant]
    closed spec fn compiled_from_sources(&self) -> bool {
        &&& self.practice_id.source() == PatternKind::PracticeId.source()
        &&& self.vendor_id.source() == PatternKind::VendorId.source()
        &&& self.email_address.source() == PatternKind::EmailAddress.source()
        &&& self.zip_code.source() == PatternKind::ZipCode.source()
        &&& self.tax_id.source() == PatternKind::TaxId.source()
        &&& self.npi.source() == PatternKind::Npi.source()
        &&& self.cpt_value.source() == PatternKind::CptValue.source()
        &&& self.cpt_modifier.source() == PatternKind::CptModifier.source()
        &&& self.qcdr_measure.source() == PatternKind::QcdrMeasure.source()
        &&& self.qcdr_code_value.source() == PatternKind::QcdrCodeValue.source()
        &&& self.icd9_cm.source() == PatternKind::Icd9Cm.source()
        &&& self.icd10_cm.source() == PatternKind::Icd10Cm.source()
        &&& self.icd9_sg.source() == PatternKind::Icd9Sg.source()
        &&& self.icd10_sg.source() == PatternKind::Icd10Sg.source()
        &&& self.nacor_registry.source() == PatternKind::NacorRegistry.source()
    }

    /// Compiles every pattern; `None` exactly when the regex crate rejects one of them.
    pub fn new() -> (r: Option<SchemaPatterns>)
        ensures
            r is Some <==> forall|k: PatternKind| regex_compiles(#[trigger] k.source()),
    {
        let practice_id = compile(PatternKind::PracticeId.text())?;
        let vendor_id = compile(PatternKind::VendorId.text())?;
        let email_address = compile(PatternKind::EmailAddress.text())?;
        let zip_code = compile(PatternKind::ZipCode.text())?;
        let tax_id = compile(PatternKind::TaxId.text())?;
        let npi = compile(PatternKind::Npi.text())?;
        let cpt_value = compile(PatternKind::CptValue.text())?;
        let cpt_modifier = compile(PatternKind::CptModifier.text())?;
        let qcdr_measure = compile(PatternKind::QcdrMeasure.text())?;
        let qcdr_code_value = compile(PatternKind::QcdrCodeValue.text())?;
        let icd9_cm = compile(PatternKind::Icd9Cm.text())?;
        let icd10_cm = compile(PatternKind::Icd10Cm.text())?;
        let icd9_sg = compile(PatternKind::Icd9Sg.text())?;
        let icd10_sg = compile(PatternKind::Icd10Sg.text())?;
        let nacor_registry = compile(PatternKind::NacorRegistry.text())?;
        proof {
            assert forall|k: PatternKind| regex_compiles(#[trigger] k.source()) by {
                match k {
                    PatternKind::PracticeId => {},
                    PatternKind::VendorId => {},
                    PatternKind::EmailAddress => {},
                    PatternKind::ZipCode => {},
                    PatternKind::TaxId => {},
                    PatternKind::Npi => {},
                    PatternKind::CptValue => {},
                    PatternKind::CptModifier => {},
                    PatternKind::QcdrMeasure => {},
                    PatternKind::QcdrCodeValue => {},
                    PatternKind::Icd9Cm => {},
                    PatternKind::Icd10Cm => {},
                    PatternKind::Icd9Sg => {},
                    PatternKind::Icd10Sg => {},
                    PatternKind::NacorRegistry => {},
                }
            }
        }
        Some(SchemaPatterns {
            practice_id,
            vendor_id,
            email_address,
            zip_code,
            tax_id,
            npi,
            cpt_value,
            cpt_modifier,
            qcdr_measure,
            qcdr_code_value,
            icd9_cm,
            icd10_cm,
            icd9_sg,
            icd10_sg,
            nacor_registry,
        })
    }

    /// Whether the pattern `kind` finds a match in `text`.
    pub fn is_match(&self, kind: PatternKind, text: &str) -> (r: bool)
        ensures
            r == regex_is_match(kind.source(), text@),
    {
        proof {
            use_type_invariant(self);
        }
        match kind {
            PatternKind::PracticeId => is_match(&self.practice_id, text),
            PatternKind::VendorId => is_match(&self.vendor_id, text),
            PatternKind::EmailAddress => is_match(&self.email_address, text),
            PatternKind::ZipCode => is_match(&self.zip_code, text),
            PatternKind::TaxId => is_match(&self.tax_id, text),
            PatternKind::Npi => is_match(&self.npi, text),
            PatternKind::CptValue => is_match(&self.cpt_value, text),
            PatternKind::CptModifier => is_match(&self.cpt_modifier, text),
            PatternKind::QcdrMeasure => is_match(&self.qcdr_measure, text),
            PatternKind::QcdrCodeValue => is_match(&self.qcdr_code_value, text),
            PatternKind::Icd9Cm => is_match(&self.icd9_cm, text),
            PatternKind::Icd10Cm => is_match(&self.icd10_cm, text),
            PatternKind::Icd9Sg => is_match(&self.icd9_sg, text),
            PatternKind::Icd10Sg => is_match(&self.icd10_sg, text),
            PatternKind::NacorRegistry => is_match(&self.nacor_registry, text),
        }
    }
}

} // verus!
