use aqi::patterns::{PatternKind, SchemaPatterns};
use aqi::schema::codes::ICDVersionType;
use aqi::schema::scalars::{
    classify_icd, CPTModifierType, CPTValueType, EmailAddressType, ICDValueType, NPIType,
    PracticeIdType, QCDRCodeValueType, QCDRMeasureType, TaxIdType, VendorIDType, ZipCodeType,
};
use aqi::schema::{SchemaRegexInput, SchemaStringType};
use aqi::{AQIError, ScalarKind};

fn patterns() -> SchemaPatterns {
    SchemaPatterns::new().expect("the schema's patterns compile")
}

fn rejected(scalar: ScalarKind, value: &str) -> AQIError {
    AQIError::RegexError { scalar, value: value.to_string() }
}

#[test]
fn practice_id_accepts_three_to_five_digits() {
    let p = patterns();
    assert_eq!(PracticeIdType::from_str("123", &p).unwrap().value(), "123");
    assert_eq!(PracticeIdType::from_str("12345", &p).unwrap().value(), "12345");
    assert_eq!(PracticeIdType::from_str("12", &p).unwrap_err(), rejected(ScalarKind::PracticeId, "12"));
    assert_eq!(
        PracticeIdType::from_str("123456", &p).unwrap_err(),
        rejected(ScalarKind::PracticeId, "123456")
    );
    assert!(PracticeIdType::from_str("12a", &p).is_err());
    assert!(PracticeIdType::from_str("", &p).is_err());
}

#[test]
fn vendor_id_form() {
    let p = patterns();
    assert_eq!(VendorIDType::from_str("123AB45", &p).unwrap().value(), "123AB45");
    assert_eq!(VendorIDType::from_str("123ab45", &p).unwrap_err(), rejected(ScalarKind::VendorId, "123ab45"));
}

#[test]
fn email_address_form() {
    let p = patterns();
    assert_eq!(EmailAddressType::from_str("a.b+c@example.org", &p).unwrap().value(), "a.b+c@example.org");
    assert_eq!(
        EmailAddressType::from_str("not-an-address", &p).unwrap_err(),
        rejected(ScalarKind::EmailAddress, "not-an-address")
    );
}

#[test]
fn zip_code_five_or_nine_digits() {
    let p = patterns();
    assert_eq!(ZipCodeType::from_str("02139", &p).unwrap().value(), "02139");
    assert_eq!(ZipCodeType::from_str("02139-4307", &p).unwrap().value(), "02139-4307");
    assert_eq!(ZipCodeType::from_str("2139", &p).unwrap_err(), rejected(ScalarKind::ZipCode, "2139"));
    assert!(ZipCodeType::from_str("02139-43", &p).is_err());
}

#[test]
fn tax_id_and_npi_digit_counts() {
    let p = patterns();
    assert_eq!(TaxIdType::from_str("123456789", &p).unwrap().value(), "123456789");
    assert_eq!(TaxIdType::from_str("12345678", &p).unwrap_err(), rejected(ScalarKind::TaxId, "12345678"));
    assert_eq!(NPIType::from_str("1234567890", &p).unwrap().value(), "1234567890");
    assert_eq!(NPIType::from_str("123456789", &p).unwrap_err(), rejected(ScalarKind::Npi, "123456789"));
}

#[test]
fn cpt_codes_and_modifiers() {
    let p = patterns();
    assert_eq!(CPTValueType::from_str("00790", &p).unwrap().value(), "00790");
    assert_eq!(CPTValueType::from_str("A123b", &p).unwrap().value(), "A123b");
    assert_eq!(CPTValueType::from_str("0A790", &p).unwrap_err(), rejected(ScalarKind::CptValue, "0A790"));
    assert_eq!(CPTModifierType::from_str("QK", &p).unwrap().value(), "QK");
    assert_eq!(CPTModifierType::from_str("QKX", &p).unwrap_err(), rejected(ScalarKind::CptModifier, "QKX"));
}

#[test]
fn quality_measure_codes() {
    let p = patterns();
    assert_eq!(QCDRMeasureType::from_str("AQI48", &p).unwrap().value(), "AQI48");
    assert_eq!(QCDRMeasureType::from_str("PQRS404", &p).unwrap().value(), "PQRS404");
    assert_eq!(QCDRMeasureType::from_str("XYZ", &p).unwrap_err(), rejected(ScalarKind::QcdrMeasure, "XYZ"));
    assert_eq!(QCDRCodeValueType::from_str("4255F", &p).unwrap().value(), "4255F");
    assert_eq!(QCDRCodeValueType::from_str("G9654", &p).unwrap().value(), "G9654");
    assert_eq!(QCDRCodeValueType::from_str("F4255", &p).unwrap_err(), rejected(ScalarKind::QcdrCodeValue, "F4255"));
}

#[test]
fn accepted_values_are_kept_unchanged() {
    let p = patterns();
    let v = EmailAddressType::from_str("Someone@Example.COM", &p).unwrap();
    assert_eq!(v.value(), "Someone@Example.COM");
}

#[test]
fn icd_250_takes_the_first_format_every_time() {
    let p = patterns();
    for _ in 0..3 {
        match ICDValueType::from_str("250", &p).unwrap() {
            ICDValueType::ICDValueType9CM(v) => assert_eq!(v, "250"),
            _ => panic!("250 is an ICD-9-CM code first"),
        }
    }
}

#[test]
fn icd_formats_in_priority_order() {
    let p = patterns();
    assert!(matches!(ICDValueType::from_str("V12.5", &p).unwrap(), ICDValueType::ICDValueType9CM(_)));
    assert!(matches!(ICDValueType::from_str("E11.9", &p).unwrap(), ICDValueType::ICDValueType10CM(_)));
    assert!(matches!(ICDValueType::from_str("1234", &p).unwrap(), ICDValueType::ICDValueType9SG(_)));
    assert!(matches!(ICDValueType::from_str("0DTJ4ZZ", &p).unwrap(), ICDValueType::ICDValueType10SG(_)));
    assert!(matches!(ICDValueType::from_str("x12a34", &p).unwrap(), ICDValueType::NacorRegistryCodeType(_)));
    let code = ICDValueType::from_str("E11.9", &p).unwrap();
    assert_eq!(code.value(), "E11.9");
}

#[test]
fn icd_rejects_what_no_format_matches() {
    let p = patterns();
    assert_eq!(ICDValueType::from_str("xx", &p).unwrap_err(), rejected(ScalarKind::IcdValue, "xx"));
}

#[test]
fn icd_classification_prefers_earlier_formats() {
    assert_eq!(classify_icd(true, true, true, true, true), Some(PatternKind::Icd9Cm));
    assert_eq!(classify_icd(false, true, true, true, true), Some(PatternKind::Icd10Cm));
    assert_eq!(classify_icd(false, false, true, true, true), Some(PatternKind::Icd9Sg));
    assert_eq!(classify_icd(false, false, false, true, true), Some(PatternKind::Icd10Sg));
    assert_eq!(classify_icd(false, false, false, false, true), Some(PatternKind::NacorRegistry));
    assert_eq!(classify_icd(false, false, false, false, false), None);
}

#[test]
fn pattern_registry_matches_by_kind() {
    let p = patterns();
    assert!(p.is_match(PatternKind::Icd9Sg, "250"));
    assert!(p.is_match(PatternKind::Icd9Cm, "250"));
    assert!(!p.is_match(PatternKind::Icd10Sg, "250"));
    assert_eq!(ICDVersionType::Ten.value(), "10");
}
