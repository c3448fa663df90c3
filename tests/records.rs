use aqi::markup::XmlSink;
use aqi::patterns::SchemaPatterns;
use aqi::schema::codes::{ICDVersionType, QCDRModifierType};
use aqi::schema::scalars::{
    CommonUnit, ICDValueType, MedicationTypeCodeType, QCDRCodeValueType, QCDRMeasureType,
};
use aqi::schema::writer::WritableSchemaType;
use aqi::schema::{ICDType, MedicationType, MixtureMedicationType, QCDRSetType, SchemaRegexInput};

fn body<T: WritableSchemaType>(value: &T, name: &str) -> String {
    let mut sink = XmlSink::new();
    value.write(name, &mut sink).unwrap();
    let text = String::from_utf8(sink.into_bytes()).unwrap();
    text.trim_start_matches("<?xml version=\"1.0\" encoding=\"UTF-8\"?>").to_string()
}

#[test]
fn largest_number_in_decimal() {
    let code = ICDType {
        icd_rank: Some(u64::MAX),
        icd_value: ICDValueType::from_str("250", &SchemaPatterns::new().unwrap()).unwrap(),
        icd_version: ICDVersionType::Nine,
    };
    assert_eq!(
        body(&code, "ICD"),
        "<ICD><ICDRank>18446744073709551615</ICDRank><ICDValue>250</ICDValue><ICDVersion>9</ICDVersion></ICD>"
    );
}

#[test]
fn empty_code_literal_is_an_empty_element() {
    let p = SchemaPatterns::new().unwrap();
    let measure = QCDRSetType {
        qcdr_measure: QCDRMeasureType::from_str("AQI48", &p).unwrap(),
        qcdr_code_value: QCDRCodeValueType::from_str("G9654", &p).unwrap(),
        qcdr_modifier: Some(QCDRModifierType::NoModifier),
    };
    assert_eq!(
        body(&measure, "QCDR"),
        "<QCDR><QCDRMeasure>AQI48</QCDRMeasure><QCDRCodeValue>G9654</QCDRCodeValue>\
         <QCDRModifier></QCDRModifier></QCDR>"
    );
}

#[test]
fn optional_lists_write_each_item_in_place() {
    let mixture = MixtureMedicationType {
        mixture_medication_name: "fentanyl".to_string(),
        mixture_medication_type: None,
        mixture_med_dose: Some(2),
        mixture_dose_units: Some(CommonUnit("mcg/ml".to_string())),
        mixture_med_concentration: None,
        mixture_med_concentration_unit: None,
    };
    let medication = MedicationType {
        medication_name: "bupivacaine".to_string(),
        medication_type: Some(vec![
            MedicationTypeCodeType("local".to_string()),
            MedicationTypeCodeType("anesthetic".to_string()),
        ]),
        med_dose: Some(10),
        dose_units: Some(CommonUnit("ml".to_string())),
        dose_start: None,
        dose_end: None,
        med_concentration: None,
        med_concentration_unit: None,
        medication_route: Some(Vec::new()),
        mixture_medications: Some(vec![mixture]),
    };
    assert_eq!(
        body(&medication, "Medication"),
        "<Medication><MedicationName>bupivacaine</MedicationName>\
         <MedicationType>local</MedicationType><MedicationType>anesthetic</MedicationType>\
         <MedDose>10</MedDose><DoseUnits>ml</DoseUnits>\
         <MixtureMedication><MixtureMedicationName>fentanyl</MixtureMedicationName>\
         <MixtureMedDose>2</MixtureMedDose><MixtureDoseUnits>mcg/ml</MixtureDoseUnits>\
         </MixtureMedication></Medication>"
    );
}
