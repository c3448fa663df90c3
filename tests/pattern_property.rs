use aqi::patterns::{
    SchemaPatterns, CPT_MODIFIER_PATTERN, CPT_VALUE_PATTERN, EMAIL_ADDRESS_PATTERN, NPI_PATTERN,
    PRACTICE_ID_PATTERN, QCDR_CODE_VALUE_PATTERN, QCDR_MEASURE_PATTERN, TAX_ID_PATTERN,
    VENDOR_ID_PATTERN, ZIP_CODE_PATTERN,
};
use aqi::schema::scalars::{
    CPTModifierType, CPTValueType, EmailAddressType, NPIType, PracticeIdType, QCDRCodeValueType,
    QCDRMeasureType, TaxIdType, VendorIDType, ZipCodeType,
};
use aqi::schema::{SchemaRegexInput, SchemaStringType};
use regex::Regex;

const INPUTS: &[&str] = &[
    "", "1", "12", "123", "1234", "12345", "123456", "123456789", "1234567890", "12a",
    "02139-4307", "02139-43", "123AB45", "a@b.c", "x@y", "00790", "A123b", "QK", "Q",
    "AQI48", "PQRS404", "IIM123", "Quantum12", "4255F", "G9654", " 123", "123 ", "١٢٣",
];

fn agrees<T: SchemaRegexInput>(pattern: &str, p: &SchemaPatterns) {
    let re = Regex::new(pattern).unwrap();
    for s in INPUTS {
        match T::from_str(s, p) {
            Ok(v) => {
                assert!(re.is_match(s), "{} accepted {:?}", pattern, s);
                assert_eq!(v.value(), *s);
            }
            Err(_) => assert!(!re.is_match(s), "{} rejected {:?}", pattern, s),
        }
    }
}

#[test]
fn construction_succeeds_exactly_when_the_pattern_matches() {
    let p = SchemaPatterns::new().unwrap();
    agrees::<PracticeIdType>(PRACTICE_ID_PATTERN, &p);
    agrees::<VendorIDType>(VENDOR_ID_PATTERN, &p);
    agrees::<EmailAddressType>(EMAIL_ADDRESS_PATTERN, &p);
    agrees::<ZipCodeType>(ZIP_CODE_PATTERN, &p);
    agrees::<TaxIdType>(TAX_ID_PATTERN, &p);
    agrees::<NPIType>(NPI_PATTERN, &p);
    agrees::<CPTValueType>(CPT_VALUE_PATTERN, &p);
    agrees::<CPTModifierType>(CPT_MODIFIER_PATTERN, &p);
    agrees::<QCDRMeasureType>(QCDR_MEASURE_PATTERN, &p);
    agrees::<QCDRCodeValueType>(QCDR_CODE_VALUE_PATTERN, &p);
}
