use aqi::schema::codes::{
    ASAClassCodeType, LocationTypeCodeType, OutcomeIDType, PatientSexCodeType,
    PaymentMethodCodeType, PostOpDischargeCodeType, QCDRModifierType, RaceCodeType,
    USStateCodeType,
};
use aqi::schema::{SchemaIntType, SchemaStringType};

#[test]
fn string_codes_give_their_literals() {
    assert_eq!(USStateCodeType::AL.value(), "AL");
    assert_eq!(USStateCodeType::UK.value(), "UK");
    assert_eq!(PatientSexCodeType::Female.value(), "Female");
    assert_eq!(RaceCodeType::Black.value(), "Black, not of Hispanic Origin");
    assert_eq!(ASAClassCodeType::IIIE.value(), "IIIE");
    assert_eq!(PaymentMethodCodeType::WorkersCompensation.value(), "Worker's Compensation");
    assert_eq!(
        PostOpDischargeCodeType::ExpiredAtUnknown.value(),
        "Expired (i.e. died) - place unknown"
    );
    assert_eq!(QCDRModifierType::NoModifier.value(), "");
    assert_eq!(QCDRModifierType::EightP.value(), "8P");
}

#[test]
fn number_codes_give_their_numbers() {
    assert_eq!(LocationTypeCodeType::Pharmacy.value(), 1);
    assert_eq!(LocationTypeCodeType::Office.value(), 11);
    assert_eq!(LocationTypeCodeType::Other.value(), 99);
    assert_eq!(OutcomeIDType::Acidemia.value(), 1);
    assert_eq!(OutcomeIDType::WrongSiteSurgery.value(), 101);
}

#[test]
fn members_of_one_code_set_have_distinct_literals() {
    let sexes = [
        PatientSexCodeType::Male,
        PatientSexCodeType::Female,
        PatientSexCodeType::Missing,
        PatientSexCodeType::Unknown,
    ];
    for a in sexes.iter() {
        for b in sexes.iter() {
            assert_eq!(a == b, a.value() == b.value());
        }
    }
    let places = [
        LocationTypeCodeType::Office,
        LocationTypeCodeType::Home,
        LocationTypeCodeType::EmergencyRoom,
        LocationTypeCodeType::Other,
    ];
    for a in places.iter() {
        for b in places.iter() {
            assert_eq!(a == b, a.value() == b.value());
        }
    }
}
