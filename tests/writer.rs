use aqi::datetime::{DateTimeValue, DateValue};
use aqi::markup::XmlSink;
use aqi::patterns::SchemaPatterns;
use aqi::schema::codes::{
    AQIXMLVersionType, ASAClassCodeType, OutcomeIDType, PatientSexCodeType, PaymentMethodCodeType,
    USStateCodeType,
};
use aqi::schema::scalars::{EmailAddressType, PracticeIdType, ZipCodeType};
use aqi::schema::writer::{write_value, WritableSchemaType};
use aqi::schema::{
    AnesthesiaRecordsType, DemographicType, EmailNotificationSetType, EmailSetType,
    OutcomeCodeType, PaymentMethodType, PostOpType, PreOpType, RecordHeaderType, SetVendorSetType,
    SchemaRegexInput,
};
use aqi::AQIError;

const DECLARATION: &str = "<?xml version=\"1.0\" encoding=\"UTF-8\"?>";

fn render<T: WritableSchemaType>(value: &T, name: &str) -> String {
    let mut sink = XmlSink::new();
    value.write(name, &mut sink).expect("the writer accepts a balanced document");
    String::from_utf8(sink.into_bytes()).unwrap()
}

fn patient(sex: PatientSexCodeType) -> DemographicType {
    DemographicType {
        patient_id: None,
        dob: None,
        home_zip: None,
        home_state: None,
        home_city: None,
        race: None,
        patient_sex: sex,
    }
}

fn payment(code: PaymentMethodCodeType) -> PaymentMethodType {
    PaymentMethodType {
        payment_code: code,
        payment_description: None,
        payment_description_sec: None,
        payment_description_th: None,
    }
}

fn post_op(payments: Vec<PaymentMethodType>) -> PostOpType {
    PostOpType {
        post_op_disposition: None,
        post_op_disp_date_time: None,
        post_op_discharge: None,
        post_op_discharge_date_time: None,
        length_of_hospital_stay: None,
        payment_method: payments,
        post_op_lab_set: None,
        icd_set: None,
    }
}

fn header(p: &SchemaPatterns, people: Vec<EmailNotificationSetType>) -> RecordHeaderType {
    RecordHeaderType {
        practice_id: PracticeIdType::from_str("123", p).unwrap(),
        created_by: "Registry Export".to_string(),
        create_date: DateTimeValue::new(2018, 6, 1, 14, 30, 0, 0).unwrap(),
        email_set: EmailSetType { email_notification_set: people },
        aqi_xml_version: AQIXMLVersionType::Version2018V10,
        vendor_set: None,
    }
}

#[test]
fn absent_optional_fields_are_left_out() {
    let out = render(&patient(PatientSexCodeType::Female), "Demographic");
    assert_eq!(
        out,
        format!("{}<Demographic><PatientSex>Female</PatientSex></Demographic>", DECLARATION)
    );
}

#[test]
fn present_optional_fields_follow_the_schema_order() {
    let p = SchemaPatterns::new().unwrap();
    let mut d = patient(PatientSexCodeType::Male);
    d.home_city = Some("Salt & <Lake>".to_string());
    d.home_state = Some(USStateCodeType::UT);
    d.home_zip = Some(ZipCodeType::from_str("84101", &p).unwrap());
    d.dob = Some(DateValue::new(1970, 1, 31).unwrap());
    d.patient_id = Some("P-1".to_string());
    let out = render(&d, "Demographic");
    assert_eq!(
        out,
        format!(
            "{}<Demographic><PatientID>P-1</PatientID><DOB>1970-01-31</DOB><HomeZip>84101</HomeZip>\
             <HomeState>UT</HomeState><HomeCity>Salt &amp; &lt;Lake&gt;</HomeCity>\
             <PatientSex>Male</PatientSex></Demographic>",
            DECLARATION
        )
    );
}

#[test]
fn repeated_fields_keep_their_order() {
    let op = post_op(vec![
        payment(PaymentMethodCodeType::Commercial),
        payment(PaymentMethodCodeType::SelfPay),
    ]);
    let out = render(&op, "PostOp");
    assert_eq!(
        out,
        format!(
            "{}<PostOp><PaymentMethod><PaymentCode>Commercial</PaymentCode></PaymentMethod>\
             <PaymentMethod><PaymentCode>Self-Pay</PaymentCode></PaymentMethod></PostOp>",
            DECLARATION
        )
    );
}

#[test]
fn empty_repeated_field_writes_no_element() {
    let out = render(&post_op(Vec::new()), "PostOp");
    assert_eq!(out, format!("{}<PostOp />", DECLARATION));
}

#[test]
fn numbers_and_booleans_as_text() {
    let pre = PreOpType {
        age: 42,
        weight: Some(70),
        weight_in_kg: None,
        height: None,
        height_in_cm: Some(0),
        asa_class: ASAClassCodeType::II,
        pre_anesth_status: None,
        icd_set: None,
        pre_lab_set: None,
    };
    assert_eq!(
        render(&pre, "PreOp"),
        format!(
            "{}<PreOp><Age>42</Age><Weight>70</Weight><HeightInCm>0</HeightInCm><ASAClass>II</ASAClass></PreOp>",
            DECLARATION
        )
    );
    let outcome = OutcomeCodeType {
        outcome_id: OutcomeIDType::Death,
        outcome_occurred: true,
        outcome_time_stamp: None,
        outcome_severity: None,
        outcome_time_frame: None,
    };
    assert_eq!(
        render(&outcome, "Outcome"),
        format!(
            "{}<Outcome><OutcomeID>25</OutcomeID><OutcomeOccurred>true</OutcomeOccurred></Outcome>",
            DECLARATION
        )
    );
    let kinds = SetVendorSetType { vendor_type: vec![1, 4] };
    assert_eq!(
        render(&kinds, "VendorSetType"),
        format!(
            "{}<VendorSetType><VendorType>1</VendorType><VendorType>4</VendorType></VendorSetType>",
            DECLARATION
        )
    );
}

#[test]
fn whole_document_with_header() {
    let p = SchemaPatterns::new().unwrap();
    let person = EmailNotificationSetType {
        email_notification_first_name: "Ada".to_string(),
        email_notification_last_name: "King".to_string(),
        email_notification_address: EmailAddressType::from_str("ada@example.org", &p).unwrap(),
    };
    let records = AnesthesiaRecordsType { record_header: header(&p, vec![person]), anesthesia_records: Vec::new() };
    assert_eq!(
        render(&records, "AnesthesiaRecords"),
        format!(
            "{}<AnesthesiaRecords><RecordHeader><PracticeID>123</PracticeID>\
             <CreatedBy>Registry Export</CreatedBy><CreateDate>2018-06-01T14:30:00</CreateDate>\
             <EmailSet><EmailNotificationSet><EmailNotificationFirstName>Ada</EmailNotificationFirstName>\
             <EmailNotificationLastName>King</EmailNotificationLastName>\
             <EmailNotificationAddress>ada@example.org</EmailNotificationAddress></EmailNotificationSet>\
             </EmailSet><AQIXMLVersion>2018V1.0</AQIXMLVersion></RecordHeader></AnesthesiaRecords>",
            DECLARATION
        )
    );
}

#[test]
fn writing_twice_gives_the_same_bytes() {
    let p = SchemaPatterns::new().unwrap();
    let records = AnesthesiaRecordsType { record_header: header(&p, Vec::new()), anesthesia_records: Vec::new() };
    let first = render(&records, "AnesthesiaRecords");
    let second = render(&records, "AnesthesiaRecords");
    assert_eq!(first, second);
    assert!(first.contains("<EmailSet />"));
}

#[test]
fn write_value_writes_one_element() {
    let mut sink = XmlSink::new();
    write_value("Note", "a < b", &mut sink).unwrap();
    assert_eq!(
        String::from_utf8(sink.into_bytes()).unwrap(),
        format!("{}<Note>a &lt; b</Note>", DECLARATION)
    );
}

#[test]
fn refused_event_is_an_emitter_error() {
    let mut sink = XmlSink::new();
    assert_eq!(sink.end_element(), Err(AQIError::EmitterError));
}
