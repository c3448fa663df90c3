//! The registry's record schema: scalar types and the tree of record sections.
use vstd::prelude::*;

use self::codes::{
    AQIXMLVersionType, ASAClassCodeType, AdmissionStatusCodeType, AnesthesiaCategoryCodeType,
    AnesthesiaDetailsCategoryCodeType, AnesthesiaSubCategoryCodeType, CoverageCodeType,
    ICCategoryCodeType, ICDVersionType, IntakeOutputDirectionCodeType, IntubationApproachCodeType,
    LabDataCategoryCodeType, LocationTypeCodeType, MonitoringSourceCodeType, OutcomeIDType,
    OutcomeSeverityCodeType, OutcomeTimeFrameCodeType, PatientSexCodeType, PaymentMethodCodeType,
    PostOpDischargeCodeType, PreAnesthStatusCodeType, ProcStatusCodeType,
    ProviderCredentialsCodeType, QCDRModifierType, RaceCodeType, StaffResponsibilityCodeType,
    TransferStatusCodeType, USStateCodeType,
};
use self::scalars::{
    AirwayManagementMethodCodeType, AirwayManagementSubMethodCodeType, AnesthesiaInductionCodeType,
    AnesthesiaMaintenanceCodeType, CPTModifierType, CPTValueType, CommonUnit, EmailAddressType,
    ICDValueType, LabDataNameCodeType, MedicationTypeCodeType, MonitorCodeType,
    MonitoringNameCodeType, NPIType, OutputCodeType, PostOpDispositionCodeType, PracticeIdType,
    QCDRCodeValueType, QCDRMeasureType, RouteCodeType, TaxIdType, TimingMilestoneCodeType,
    TypeVendorType, VendorIDType, ZipCodeType,
};
use crate::datetime::{DateTimeValue, DateValue};
use crate::patterns::SchemaPatterns;
use crate::{AQIError, ScalarKind};

pub mod codes;
pub mod scalars;
pub mod writer;

verus! {

/// A scalar whose external form is a string.
pub trait SchemaStringType {
    /// The external literal of the value.
    spec fn spec_value(&self) -> Seq<char>;

    fn value(&self) -> (r: &str)
        ensures
            r@ == self.spec_value(),
    ;
}

/// A scalar whose external form is a small unsigned number.
pub trait SchemaIntType {
    /// The external number of the value.
    spec fn spec_value(&self) -> u64;

    fn value(&self) -> (r: u64)
        ensures
            r == self.spec_value(),
    ;
}

/// A scalar read from text that must have a fixed lexical form.
pub trait SchemaRegexInput: Sized + SchemaStringType {
    /// The scalar type, as reported when a value is rejected.
    spec fn kind() -> ScalarKind;

    /// Whether `text` has the lexical form of this type.
    spec fn accepts(text: Seq<char>) -> bool;

    /// Checks `val` against the type's patterns and keeps it unchanged.
    fn from_str(val: &str, patterns: &SchemaPatterns) -> (r: Result<Self, AQIError>)
        ensures
            r is Ok <==> Self::accepts(val@),
            r matches Ok(v) ==> v.spec_value() == val@,
            r matches Err(e) ==> (e matches AQIError::RegexError { scalar, value }
                && scalar == Self::kind() && value@ == val@),
    ;
}

/// A whole submission: its header and its case records.
pub struct AnesthesiaRecordsType {
    pub record_header: RecordHeaderType,
    pub anesthesia_records: Vec<AnesthesiaRecordType>,
}

/// Who submits the records, and for which practice.
pub struct RecordHeaderType {
    pub practice_id: PracticeIdType,
    pub created_by: String,
    pub create_date: DateTimeValue,
    pub email_set: EmailSetType,
    pub aqi_xml_version: AQIXMLVersionType,
    pub vendor_set: Option<VendorSetType>,
}

/// The people to notify about a submission.
pub struct EmailSetType {
    pub email_notification_set: Vec<EmailNotificationSetType>,
}

/// One person to notify.
pub struct EmailNotificationSetType {
    pub email_notification_first_name: String,
    pub email_notification_last_name: String,
    pub email_notification_address: EmailAddressType,
}

/// The vendors whose systems produced the records.
pub struct VendorSetType {
    pub vendor: Vec<Vendors>,
}

/// One vendor.
pub struct Vendors {
    pub vendor_id: Option<VendorIDType>,
    pub vendor_set_type: SetVendorSetType,
    pub vendor_name: String,
}

/// The kinds of a vendor.
pub struct SetVendorSetType {
    pub vendor_type: Vec<TypeVendorType>,
}

/// One anesthesia case.
pub struct AnesthesiaRecordType {
    pub demographic: DemographicType,
    pub procedure: ProcedureType,
    pub anesthesia_case: AnesthesiaCaseType,
    pub pre_op: PreOpType,
    pub intra_op: IntraOpType,
    pub post_op: PostOpType,
    pub timing_milestones: Option<TimingMilestonesSetType>,
    pub outcomes_events: Option<OutcomesEventsType>,
    pub anesthesia_details: Option<AnesthesiaDetailsType>,
}

/// The patient.
pub struct DemographicType {
    pub patient_id: Option<String>,
    pub dob: Option<DateValue>,
    pub home_zip: Option<ZipCodeType>,
    pub home_state: Option<USStateCodeType>,
    pub home_city: Option<String>,
    pub race: Option<RaceCodeType>,
    pub patient_sex: PatientSexCodeType,
}

/// The procedure performed.
pub struct ProcedureType {
    pub procedure_id: Option<String>,
    pub facility_id: String,
    pub procedure_location: Option<ProcedureLocationType>,
    pub proc_start_time: Option<DateTimeValue>,
    pub proc_end_time: Option<DateTimeValue>,
    pub admission_status: Option<AdmissionStatusCodeType>,
    pub proc_status: ProcStatusCodeType,
    pub transfer_status: Option<TransferStatusCodeType>,
    pub admission_date: Option<DateTimeValue>,
    pub procedure_notes: Option<String>,
    pub cpt_set: Option<CPTSetType>,
}

/// Where the procedure took place.
pub struct ProcedureLocationType {
    pub location_type: LocationTypeCodeType,
    pub location_details: String,
}

/// The procedure codes of a procedure.
pub struct CPTSetType {
    pub cpt: Vec<CPTType>,
}

/// One procedure code.
pub struct CPTType {
    pub cpt_rank: Option<String>,
    pub cpt_value: CPTValueType,
    pub cpt_modifier: Option<CPTModifierType>,
}

/// The anesthesia care given.
pub struct AnesthesiaCaseType {
    pub anesthesia_record_id: String,
    pub anesthesia_coverage: Option<CoverageCodeType>,
    pub anesthesia_staff_set: AnesthesiaStaffSetType,
    pub monitoring_set: Option<MonitoringSetType>,
    pub anesthesia_method_set: AnesthesiaMethodSetType,
    pub airway_management_set: Option<AirwayManagementSetType>,
    pub cpt_anes_set: Option<CPTAnesSetType>,
}

/// The anesthesia staff of a case.
pub struct AnesthesiaStaffSetType {
    pub anesthesia_staff: Vec<AnesthesiaStaffType>,
}

/// One member of the anesthesia staff.
pub struct AnesthesiaStaffType {
    pub tax_id: TaxIdType,
    pub npi: NPIType,
    pub staff_responsibility: Option<StaffResponsibilityCodeType>,
    pub provider_credentials: ProviderCredentialsCodeType,
    pub staff_sign_in: Option<DateTimeValue>,
    pub staff_sign_out: Option<DateTimeValue>,
    pub staff_notes: Option<String>,
}

/// The monitors used in a case.
pub struct MonitoringSetType {
    pub monitor: Vec<MonitorCodeType>,
}

/// The anesthesia methods of a case.
pub struct AnesthesiaMethodSetType {
    pub anesthesia_method: Vec<AnesthesiaMethodType>,
}

/// One anesthesia method.
pub struct AnesthesiaMethodType {
    pub anesthesia_category: AnesthesiaCategoryCodeType,
    pub anesthesia_subcategory: Option<AnesthesiaSubCategoryCodeType>,
    pub anesthesia_start_time: DateTimeValue,
    pub anesthesia_end_time: DateTimeValue,
    pub anesthesia_induction: Option<AnesthesiaInductionCodeType>,
    pub anesthesia_induction_start_time: Option<DateTimeValue>,
    pub anesthesia_maintenance: Option<AnesthesiaMaintenanceCodeType>,
    pub anesthesia_notes: Option<String>,
}

/// The airway management of a case.
pub struct AirwayManagementSetType {
    pub airway_management: Vec<AirwayManagementType>,
}

/// One airway management method.
pub struct AirwayManagementType {
    pub airway_management_method: AirwayManagementMethodCodeType,
    pub airway_sub_management_method: Option<AirwayManagementSubMethodCodeType>,
}

/// The anesthesia procedure codes of a case.
pub struct CPTAnesSetType {
    pub cpt_anes: Vec<CPTAnesType>,
}

/// One anesthesia procedure code.
pub struct CPTAnesType {
    pub cpt_anes_value: CPTValueType,
    pub cpt_anes_modifier: Option<CPTModifierType>,
    pub cpt_anes_description: Option<String>,
}

/// The patient before the procedure.
pub struct PreOpType {
    pub age: u64,
    pub weight: Option<u64>,
    pub weight_in_kg: Option<u64>,
    pub height: Option<u64>,
    pub height_in_cm: Option<u64>,
    pub asa_class: ASAClassCodeType,
    pub pre_anesth_status: Option<PreAnesthStatusCodeType>,
    pub icd_set: Option<ICDSetType>,
    pub pre_lab_set: Option<PreLabDataSetType>,
}

/// Diagnosis codes.
pub struct ICDSetType {
    pub icd: Vec<ICDType>,
}

/// One diagnosis code.
pub struct ICDType {
    pub icd_rank: Option<u64>,
    pub icd_value: ICDValueType,
    pub icd_version: ICDVersionType,
}

/// Lab results before the procedure.
pub struct PreLabDataSetType {
    pub pre_lab_data: Vec<LabDataType>,
}

/// One lab result.
pub struct LabDataType {
    pub lab_name: LabDataNameCodeType,
    pub lab_category_name: Option<LabDataCategoryCodeType>,
    pub lab_unit: CommonUnit,
    pub lab_value: String,
    pub lab_value_text: Option<String>,
    pub lab_range_high: Option<String>,
    pub lab_range_low: Option<String>,
    pub lab_date_time: DateTimeValue,
    pub lab_comments: Option<String>,
}

/// What happened during the procedure.
pub struct IntraOpType {
    pub medications_set: Option<MedicationsSetType>,
    pub monitoring_physiologic_set: Option<MonitoringPhysiologicSetType>,
    pub outputs_set: Option<OutputsSetType>,
}

/// Medications given during the procedure.
pub struct MedicationsSetType {
    pub medication: Vec<MedicationType>,
}

/// One medication.
pub struct MedicationType {
    pub medication_name: String,
    pub medication_type: Option<Vec<MedicationTypeCodeType>>,
    pub med_dose: Option<u64>,
    pub dose_units: Option<CommonUnit>,
    pub dose_start: Option<DateTimeValue>,
    pub dose_end: Option<DateTimeValue>,
    pub med_concentration: Option<u64>,
    pub med_concentration_unit: Option<CommonUnit>,
    pub medication_route: Option<Vec<RouteCodeType>>,
    pub mixture_medications: Option<Vec<MixtureMedicationType>>,
}

/// One medication of a mixture.
pub struct MixtureMedicationType {
    pub mixture_medication_name: String,
    pub mixture_medication_type: Option<Vec<MedicationTypeCodeType>>,
    pub mixture_med_dose: Option<u64>,
    pub mixture_dose_units: Option<CommonUnit>,
    pub mixture_med_concentration: Option<u64>,
    pub mixture_med_concentration_unit: Option<CommonUnit>,
}

/// Physiologic values monitored during the procedure.
pub struct MonitoringPhysiologicSetType {
    pub monitoring: Vec<MonitoringPhysiologicType>,
}

/// One monitored value.
pub struct MonitoringPhysiologicType {
    pub monitoring_name: MonitoringNameCodeType,
    pub monitoring_time: Option<DateTimeValue>,
    pub monitoring_units: Option<CommonUnit>,
    pub monitoring_value_numeric: Option<u64>,
    pub monitoring_value_text: Option<String>,
    pub monitoring_source: Option<MonitoringSourceCodeType>,
}

/// Outputs during the procedure.
pub struct OutputsSetType {
    pub output_event: Vec<OutputEventType>,
}

/// One output.
pub struct OutputEventType {
    pub output_event_name: OutputCodeType,
    pub output_units: Option<CommonUnit>,
    pub output_value_numeric: Option<u64>,
    pub output_value_text: Option<String>,
    pub output_start_date_time: Option<DateTimeValue>,
    pub output_end_date_time: Option<DateTimeValue>,
}

/// The patient after the procedure.
pub struct PostOpType {
    pub post_op_disposition: Option<PostOpDispositionCodeType>,
    pub post_op_disp_date_time: Option<DateTimeValue>,
    pub post_op_discharge: Option<PostOpDischargeCodeType>,
    pub post_op_discharge_date_time: Option<DateTimeValue>,
    pub length_of_hospital_stay: Option<u64>,
    pub payment_method: Vec<PaymentMethodType>,
    pub post_op_lab_set: Option<PostOpLabSetType>,
    pub icd_set: Option<ICDSetType>,
}

/// One method of payment.
pub struct PaymentMethodType {
    pub payment_code: PaymentMethodCodeType,
    pub payment_description: Option<PaymentMethodCodeType>,
    pub payment_description_sec: Option<PaymentMethodCodeType>,
    pub payment_description_th: Option<PaymentMethodCodeType>,
}

/// Lab results after the procedure.
pub struct PostOpLabSetType {
    pub post_lab_data: Vec<LabDataType>,
}

/// The timing milestones of a case.
pub struct TimingMilestonesSetType {
    pub timing_milestone: Vec<TimingMilestoneType>,
}

/// One timing milestone.
pub struct TimingMilestoneType {
    pub tm_type: TimingMilestoneCodeType,
    pub tm_start_time: DateTimeValue,
    pub tm_end_time: Option<DateTimeValue>,
}

/// Events and outcomes of a case.
pub struct OutcomesEventsType {
    pub ic_event_set: Option<ICEventSetType>,
    pub outcome_set: Option<OutcomeSetSetType>,
    pub qcdr_set: Option<QCDRSetTypeSet>,
}

/// Intra-case events.
pub struct ICEventSetType {
    pub ic_event: Vec<ICEventType>,
}

/// One intra-case event.
pub struct ICEventType {
    pub ic_event_time_date: Option<DateTimeValue>,
    pub ic_category: Option<ICCategoryCodeType>,
    pub ic_severity: Option<String>,
    pub ic_name: Option<String>,
    pub ic_description: Option<String>,
    pub ic_value: Option<String>,
    pub ic_notes: Option<String>,
}

/// Outcomes of a case.
pub struct OutcomeSetSetType {
    pub outcome: Vec<OutcomeCodeType>,
}

/// One outcome.
pub struct OutcomeCodeType {
    pub outcome_id: OutcomeIDType,
    pub outcome_occurred: bool,
    pub outcome_time_stamp: Option<DateTimeValue>,
    pub outcome_severity: Option<OutcomeSeverityCodeType>,
    pub outcome_time_frame: Option<OutcomeTimeFrameCodeType>,
}

/// Quality measures of a case.
pub struct QCDRSetTypeSet {
    pub qcdr: Vec<QCDRSetType>,
}

/// One quality measure.
pub struct QCDRSetType {
    pub qcdr_measure: QCDRMeasureType,
    pub qcdr_code_value: QCDRCodeValueType,
    pub qcdr_modifier: Option<QCDRModifierType>,
}

/// Further details of the anesthesia.
pub struct AnesthesiaDetailsType {
    pub intake_output_set: Option<IntakeOutputSetType>,
    pub intubation_details: Option<IntubationDetailsType>,
    pub anesthesia_details_set: Option<AnesthesiaDetailsSetType>,
    pub medications_total_set: Option<MedicationsTotalSetType>,
}

/// Intake and output totals.
pub struct IntakeOutputSetType {
    pub intake_output_total: Vec<IntakeOutputTotalType>,
}

/// One intake or output total.
pub struct IntakeOutputTotalType {
    pub intake_output_direction: Option<IntakeOutputDirectionCodeType>,
    pub input_output_name: Option<OutputCodeType>,
    pub output_units: Option<CommonUnit>,
    pub input_output_total: Option<u64>,
    pub input_output_route: Option<RouteCodeType>,
}

/// Details of the intubation.
pub struct IntubationDetailsType {
    pub intubation_approach: Option<IntubationApproachCodeType>,
    pub intubation_attempts: Option<u64>,
    pub tube_size: Option<u64>,
    pub tube_type: Option<String>,
    pub intubation_details_properties_set: Option<IntubationDetailsPropertiesType>,
}

/// Properties of the intubation.
pub struct IntubationDetailsPropertiesType {
    pub intubation_details_properties: Vec<IntubationDetailsPropertyType>,
}

/// One property of the intubation.
pub struct IntubationDetailsPropertyType {
    pub intubation_property: String,
    pub intubation_details_property_value: Option<String>,
}

/// Anesthesia details by category.
pub struct AnesthesiaDetailsSetType {
    pub anesthesia_details_data: Vec<AnesthesiaDetailsDataType>,
}

/// One anesthesia detail.
pub struct AnesthesiaDetailsDataType {
    pub anesthesia_details_category: AnesthesiaDetailsCategoryCodeType,
    pub anesthesia_details_value: Option<String>,
}

/// Medication totals of a case.
pub struct MedicationsTotalSetType {
    pub medications_totals: Vec<MedicationType>,
}

} // verus!
