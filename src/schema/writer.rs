//! Serialisation of a record tree: every section writes its fields as child elements,
//! in the order the schema fixes, leaving out absent optional fields and writing one
//! element per item of a repeated field.
use vstd::prelude::*;

use super::{SchemaIntType, SchemaStringType};
use super::{
    AnesthesiaRecordsType, RecordHeaderType, EmailSetType, EmailNotificationSetType, VendorSetType,
    Vendors, SetVendorSetType, AnesthesiaRecordType, DemographicType, ProcedureType,
    ProcedureLocationType, CPTSetType, CPTType, AnesthesiaCaseType, AnesthesiaStaffSetType,
    AnesthesiaStaffType, MonitoringSetType, AnesthesiaMethodSetType, AnesthesiaMethodType,
    AirwayManagementSetType, AirwayManagementType, CPTAnesSetType, CPTAnesType, PreOpType,
    ICDSetType, ICDType, PreLabDataSetType, LabDataType, IntraOpType, MedicationsSetType,
    MedicationType, MixtureMedicationType, MonitoringPhysiologicSetType, MonitoringPhysiologicType,
    OutputsSetType, OutputEventType, PostOpType, PaymentMethodType, PostOpLabSetType,
    TimingMilestonesSetType, TimingMilestoneType, OutcomesEventsType, ICEventSetType, ICEventType,
    OutcomeSetSetType, OutcomeCodeType, QCDRSetTypeSet, QCDRSetType, AnesthesiaDetailsType,
    IntakeOutputSetType, IntakeOutputTotalType, IntubationDetailsType,
    IntubationDetailsPropertiesType, IntubationDetailsPropertyType, AnesthesiaDetailsSetType,
    AnesthesiaDetailsDataType, MedicationsTotalSetType,
};
use crate::datetime::{DateTimeValue, DateValue};
use crate::markup::{
    element, leaf, lemma_append_assoc, lemma_wrote_part_append, wrote_part, MarkupEvent, XmlSink,
};
use crate::text::{bool_str, bool_text, decimal, decimal_text};
use crate::AQIError;

verus! {

broadcast use lemma_append_assoc, lemma_wrote_part_append;

/// A section of a record that writes itself as one XML element.
pub trait WritableSchemaType {
    /// The events that `write` hands to the sink for this value written as the element `name`.
    spec fn events(&self, name: Seq<char>) -> Seq<MarkupEvent>;

    /// Writes the value as the element `name`. Fails only when the XML writer refused an
    /// event: it then refused exactly that one, the events accepted before it stay written,
    /// and no event after it was handed to the writer.
    fn write(&self, name: &str, sink: &mut XmlSink) -> (r: Result<(), AQIError>)
        ensures
            r is Ok ==> final(sink).events() == old(sink).events() + self.events(name@),
            r is Ok ==> final(sink).refusals() == old(sink).refusals(),
            r is Err ==> r == Err::<(), AQIError>(AQIError::EmitterError),
            r is Err ==> final(sink).refusals() == old(sink).refusals() + 1,
            r is Err ==> wrote_part(old(sink).events(), final(sink).events(), self.events(name@)),
    ;
}

/// Writing one value twice, under one tag, into two sinks that hold the same events (two
/// fresh sinks, say) leaves both holding the same events: what `write` hands to the XML
/// writer is a function of the value and the tag alone.
pub proof fn lemma_write_twice_same_events<T: WritableSchemaType>(
    value: &T,
    name: Seq<char>,
    first_before: XmlSink,
    first_after: XmlSink,
    second_before: XmlSink,
    second_after: XmlSink,
)
    requires
        first_before.events() == second_before.events(),
        first_after.events() == first_before.events() + value.events(name),
        second_after.events() == second_before.events() + value.events(name),
    ensures
        first_after.events() == second_after.events(),
{
}

/// The element `tag` with the text `text`, if there is one.
pub open spec fn optional_string(tag: Seq<char>, text: Option<String>) -> Seq<MarkupEvent> {
    match text {
        Some(t) => leaf(tag, t@),
        None => Seq::empty(),
    }
}

/// The element `tag` with the literal of `code`, if there is one.
pub open spec fn optional_code<T: SchemaStringType>(
    tag: Seq<char>,
    code: Option<T>,
) -> Seq<MarkupEvent> {
    match code {
        Some(c) => leaf(tag, c.spec_value()),
        None => Seq::empty(),
    }
}

/// The element `tag` with `n` in decimal, if there is one.
pub open spec fn optional_number(tag: Seq<char>, n: Option<u64>) -> Seq<MarkupEvent> {
    match n {
        Some(v) => leaf(tag, decimal_text(v as nat)),
        None => Seq::empty(),
    }
}

/// The element `tag` with the text of `date`, if there is one.
pub open spec fn optional_date(tag: Seq<char>, date: Option<DateValue>) -> Seq<MarkupEvent> {
    match date {
        Some(d) => leaf(tag, d.text()),
        None => Seq::empty(),
    }
}

/// The element `tag` with the text of `time`, if there is one.
pub open spec fn optional_date_time(
    tag: Seq<char>,
    time: Option<DateTimeValue>,
) -> Seq<MarkupEvent> {
    match time {
        Some(t) => leaf(tag, t.text()),
        None => Seq::empty(),
    }
}

/// The section `child` as the element `tag`, if there is one.
pub open spec fn optional_child<T: WritableSchemaType>(
    tag: Seq<char>,
    child: Option<T>,
) -> Seq<MarkupEvent> {
    match child {
        Some(c) => c.events(tag),
        None => Seq::empty(),
    }
}

/// Each of `items` as an element `tag`, in order.
pub open spec fn each_child<T: WritableSchemaType>(
    tag: Seq<char>,
    items: Seq<T>,
) -> Seq<MarkupEvent>
    decreases items.len(),
{
    if items.len() == 0 {
        Seq::empty()
    } else {
        each_child(tag, items.drop_last()) + items.last().events(tag)
    }
}

/// An element `tag` with the literal of each of `codes`, in order.
pub open spec fn each_code<T: SchemaStringType>(tag: Seq<char>, codes: Seq<T>) -> Seq<MarkupEvent>
    decreases codes.len(),
{
    if codes.len() == 0 {
        Seq::empty()
    } else {
        each_code(tag, codes.drop_last()) + leaf(tag, codes.last().spec_value())
    }
}

/// An element `tag` with each of `numbers` in decimal, in order.
pub open spec fn each_number(tag: Seq<char>, numbers: Seq<u8>) -> Seq<MarkupEvent>
    decreases numbers.len(),
{
    if numbers.len() == 0 {
        Seq::empty()
    } else {
        each_number(tag, numbers.drop_last()) + leaf(tag, decimal_text(numbers.last() as nat))
    }
}

/// `each_code`, if the list is there.
pub open spec fn optional_each_code<T: SchemaStringType>(
    tag: Seq<char>,
    codes: Option<Vec<T>>,
) -> Seq<MarkupEvent> {
    match codes {
        Some(c) => each_code(tag, c@),
        None => Seq::empty(),
    }
}

/// `each_child`, if the list is there.
pub open spec fn optional_each_child<T: WritableSchemaType>(
    tag: Seq<char>,
    items: Option<Vec<T>>,
) -> Seq<MarkupEvent> {
    match items {
        Some(c) => each_child(tag, c@),
        None => Seq::empty(),
    }
}

proof fn lemma_each_child_split<T: WritableSchemaType>(tag: Seq<char>, items: Seq<T>, j: int)
    requires
        0 <= j <= items.len(),
    ensures
        each_child(tag, items) == each_child(tag, items.take(j)) + each_child(tag, items.skip(j)),
    decreases items.len(),
{
    if j == items.len() {
        assert(items.take(j) =~= items);
        assert(items.skip(j) =~= Seq::<T>::empty());
        assert(each_child(tag, items) + Seq::<MarkupEvent>::empty() =~= each_child(tag, items));
    } else {
        let rest = items.drop_last();
        lemma_each_child_split(tag, rest, j);
        assert(rest.take(j) =~= items.take(j));
        assert(items.skip(j).drop_last() =~= rest.skip(j));
        assert(items.skip(j).last() == items.last());
    }
}

proof fn lemma_each_code_split<T: SchemaStringType>(tag: Seq<char>, items: Seq<T>, j: int)
    requires
        0 <= j <= items.len(),
    ensures
        each_code(tag, items) == each_code(tag, items.take(j)) + each_code(tag, items.skip(j)),
    decreases items.len(),
{
    if j == items.len() {
        assert(items.take(j) =~= items);
        assert(items.skip(j) =~= Seq::<T>::empty());
        assert(each_code(tag, items) + Seq::<MarkupEvent>::empty() =~= each_code(tag, items));
    } else {
        let rest = items.drop_last();
        lemma_each_code_split(tag, rest, j);
        assert(rest.take(j) =~= items.take(j));
        assert(items.skip(j).drop_last() =~= rest.skip(j));
        assert(items.skip(j).last() == items.last());
    }
}

proof fn lemma_each_number_split(tag: Seq<char>, items: Seq<u8>, j: int)
    requires
        0 <= j <= items.len(),
    ensures
        each_number(tag, items)
            == each_number(tag, items.take(j)) + each_number(tag, items.skip(j)),
    decreases items.len(),
{
    if j == items.len() {
        assert(items.take(j) =~= items);
        assert(items.skip(j) =~= Seq::<u8>::empty());
        assert(each_number(tag, items) + Seq::<MarkupEvent>::empty() =~= each_number(tag, items));
    } else {
        let rest = items.drop_last();
        lemma_each_number_split(tag, rest, j);
        assert(rest.take(j) =~= items.take(j));
        assert(items.skip(j).drop_last() =~= rest.skip(j));
        assert(items.skip(j).last() == items.last());
    }
}

/// Writes the element `<name>value</name>`.
pub fn write_value(name: &str, value: &str, sink: &mut XmlSink) -> (r: Result<(), AQIError>)
    ensures
        r is Ok ==> final(sink).events() == old(sink).events() + leaf(name@, value@),
        r is Ok ==> final(sink).refusals() == old(sink).refusals(),
        r is Err ==> r == Err::<(), AQIError>(AQIError::EmitterError),
        r is Err ==> final(sink).refusals() == old(sink).refusals() + 1,
        r is Err ==> wrote_part(old(sink).events(), final(sink).events(), leaf(name@, value@)),
{
    sink.start_element(name)?;
    sink.characters(value)?;
    sink.end_element()
}

fn write_number(tag: &str, n: u64, sink: &mut XmlSink) -> (r: Result<(), AQIError>)
    ensures
        r is Ok ==> final(sink).events() == old(sink).events() + leaf(tag@, decimal_text(n as nat)),
        r is Ok ==> final(sink).refusals() == old(sink).refusals(),
        r is Err ==> r == Err::<(), AQIError>(AQIError::EmitterError),
        r is Err ==> final(sink).refusals() == old(sink).refusals() + 1,
        r is Err ==> wrote_part(
            old(sink).events(),
            final(sink).events(),
            leaf(tag@, decimal_text(n as nat)),
        ),
{
    let text = decimal(n);
    write_value(tag, text.as_str(), sink)
}

fn write_date_time(tag: &str, time: &DateTimeValue, sink: &mut XmlSink) -> (r: Result<(), AQIError>)
    ensures
        r is Ok ==> final(sink).events() == old(sink).events() + leaf(tag@, time.text()),
        r is Ok ==> final(sink).refusals() == old(sink).refusals(),
        r is Err ==> r == Err::<(), AQIError>(AQIError::EmitterError),
        r is Err ==> final(sink).refusals() == old(sink).refusals() + 1,
        r is Err ==> wrote_part(old(sink).events(), final(sink).events(), leaf(tag@, time.text())),
{
    let text = time.format();
    write_value(tag, text.as_str(), sink)
}

fn write_optional_string(
    tag: &str,
    text: &Option<String>,
    sink: &mut XmlSink,
) -> (r: Result<(), AQIError>)
    ensures
        r is Ok ==> final(sink).events() == old(sink).events() + optional_string(tag@, *text),
        r is Ok ==> final(sink).refusals() == old(sink).refusals(),
        r is Err ==> r == Err::<(), AQIError>(AQIError::EmitterError),
        r is Err ==> final(sink).refusals() == old(sink).refusals() + 1,
        r is Err ==> wrote_part(
            old(sink).events(),
            final(sink).events(),
            optional_string(tag@, *text),
        ),
{
    match text {
        Some(t) => write_value(tag, t.as_str(), sink),
        None => {
            assert(sink.events() + Seq::<MarkupEvent>::empty() =~= sink.events());
            Ok(())
        },
    }
}

fn write_optional_code<T: SchemaStringType>(
    tag: &str,
    code: &Option<T>,
    sink: &mut XmlSink,
) -> (r: Result<(), AQIError>)
    ensures
        r is Ok ==> final(sink).events() == old(sink).events() + optional_code(tag@, *code),
        r is Ok ==> final(sink).refusals() == old(sink).refusals(),
        r is Err ==> r == Err::<(), AQIError>(AQIError::EmitterError),
        r is Err ==> final(sink).refusals() == old(sink).refusals() + 1,
        r is Err ==> wrote_part(
            old(sink).events(),
            final(sink).events(),
            optional_code(tag@, *code),
        ),
{
    match code {
        Some(c) => write_value(tag, c.value(), sink),
        None => {
            assert(sink.events() + Seq::<MarkupEvent>::empty() =~= sink.events());
            Ok(())
        },
    }
}

fn write_optional_number(
    tag: &str,
    n: &Option<u64>,
    sink: &mut XmlSink,
) -> (r: Result<(), AQIError>)
    ensures
        r is Ok ==> final(sink).events() == old(sink).events() + optional_number(tag@, *n),
        r is Ok ==> final(sink).refusals() == old(sink).refusals(),
        r is Err ==> r == Err::<(), AQIError>(AQIError::EmitterError),
        r is Err ==> final(sink).refusals() == old(sink).refusals() + 1,
        r is Err ==> wrote_part(
            old(sink).events(),
            final(sink).events(),
            optional_number(tag@, *n),
        ),
{
    match n {
        Some(v) => write_number(tag, *v, sink),
        None => {
            assert(sink.events() + Seq::<MarkupEvent>::empty() =~= sink.events());
            Ok(())
        },
    }
}

fn write_optional_date(
    tag: &str,
    date: &Option<DateValue>,
    sink: &mut XmlSink,
) -> (r: Result<(), AQIError>)
    ensures
        r is Ok ==> final(sink).events() == old(sink).events() + optional_date(tag@, *date),
        r is Ok ==> final(sink).refusals() == old(sink).refusals(),
        r is Err ==> r == Err::<(), AQIError>(AQIError::EmitterError),
        r is Err ==> final(sink).refusals() == old(sink).refusals() + 1,
        r is Err ==> wrote_part(
            old(sink).events(),
            final(sink).events(),
            optional_date(tag@, *date),
        ),
{
    match date {
        Some(d) => {
            let text = d.format();
            write_value(tag, text.as_str(), sink)
        },
        None => {
            assert(sink.events() + Seq::<MarkupEvent>::empty() =~= sink.events());
            Ok(())
        },
    }
}

fn write_optional_date_time(
    tag: &str,
    time: &Option<DateTimeValue>,
    sink: &mut XmlSink,
) -> (r: Result<(), AQIError>)
    ensures
        r is Ok ==> final(sink).events() == old(sink).events() + optional_date_time(tag@, *time),
        r is Ok ==> final(sink).refusals() == old(sink).refusals(),
        r is Err ==> r == Err::<(), AQIError>(AQIError::EmitterError),
        r is Err ==> final(sink).refusals() == old(sink).refusals() + 1,
        r is Err ==> wrote_part(
            old(sink).events(),
            final(sink).events(),
            optional_date_time(tag@, *time),
        ),
{
    match time {
        Some(t) => write_date_time(tag, t, sink),
        None => {
            assert(sink.events() + Seq::<MarkupEvent>::empty() =~= sink.events());
            Ok(())
        },
    }
}

fn write_optional_child<T: WritableSchemaType>(
    tag: &str,
    child: &Option<T>,
    sink: &mut XmlSink,
) -> (r: Result<(), AQIError>)
    ensures
        r is Ok ==> final(sink).events() == old(sink).events() + optional_child(tag@, *child),
        r is Ok ==> final(sink).refusals() == old(sink).refusals(),
        r is Err ==> r == Err::<(), AQIError>(AQIError::EmitterError),
        r is Err ==> final(sink).refusals() == old(sink).refusals() + 1,
        r is Err ==> wrote_part(
            old(sink).events(),
            final(sink).events(),
            optional_child(tag@, *child),
        ),
{
    match child {
        Some(c) => c.write(tag, sink),
        None => {
            assert(sink.events() + Seq::<MarkupEvent>::empty() =~= sink.events());
            Ok(())
        },
    }
}

fn write_each_child<T: WritableSchemaType>(
    tag: &str,
    items: &Vec<T>,
    sink: &mut XmlSink,
) -> (r: Result<(), AQIError>)
    ensures
        r is Ok ==> final(sink).events() == old(sink).events() + each_child(tag@, items@),
        r is Ok ==> final(sink).refusals() == old(sink).refusals(),
        r is Err ==> r == Err::<(), AQIError>(AQIError::EmitterError),
        r is Err ==> final(sink).refusals() == old(sink).refusals() + 1,
        r is Err ==> wrote_part(old(sink).events(), final(sink).events(), each_child(tag@, items@)),
{
    let ghost start = sink.events();
    let ghost refusals = sink.refusals();
    assert(start + each_child(tag@, items@.take(0)) =~= start);
    let mut i: usize = 0;
    while i < items.len()
        invariant
            i <= items.len(),
            sink.events() == start + each_child(tag@, items@.take(i as int)),
            sink.refusals() == refusals,
            refusals == old(sink).refusals(),
            start == old(sink).events(),
        decreases items.len() - i,
    {
        proof {
            lemma_each_child_split(tag@, items@, i + 1);
            assert(items@.take(i + 1).drop_last() =~= items@.take(i as int));
            assert(items@.take(i + 1).last() == items@[i as int]);
        }
        items[i].write(tag, sink)?;
        i += 1;
    }
    assert(items@.take(items.len() as int) =~= items@);
    Ok(())
}

fn write_each_code<T: SchemaStringType>(
    tag: &str,
    codes: &Vec<T>,
    sink: &mut XmlSink,
) -> (r: Result<(), AQIError>)
    ensures
        r is Ok ==> final(sink).events() == old(sink).events() + each_code(tag@, codes@),
        r is Ok ==> final(sink).refusals() == old(sink).refusals(),
        r is Err ==> r == Err::<(), AQIError>(AQIError::EmitterError),
        r is Err ==> final(sink).refusals() == old(sink).refusals() + 1,
        r is Err ==> wrote_part(old(sink).events(), final(sink).events(), each_code(tag@, codes@)),
{
    let ghost start = sink.events();
    let ghost refusals = sink.refusals();
    assert(start + each_code(tag@, codes@.take(0)) =~= start);
    let mut i: usize = 0;
    while i < codes.len()
        invariant
            i <= codes.len(),
            sink.events() == start + each_code(tag@, codes@.take(i as int)),
            sink.refusals() == refusals,
            refusals == old(sink).refusals(),
            start == old(sink).events(),
        decreases codes.len() - i,
    {
        proof {
            lemma_each_code_split(tag@, codes@, i + 1);
            assert(codes@.take(i + 1).drop_last() =~= codes@.take(i as int));
            assert(codes@.take(i + 1).last() == codes@[i as int]);
        }
        write_value(tag, codes[i].value(), sink)?;
        i += 1;
    }
    assert(codes@.take(codes.len() as int) =~= codes@);
    Ok(())
}

fn write_each_number(tag: &str, numbers: &Vec<u8>, sink: &mut XmlSink) -> (r: Result<(), AQIError>)
    ensures
        r is Ok ==> final(sink).events() == old(sink).events() + each_number(tag@, numbers@),
        r is Ok ==> final(sink).refusals() == old(sink).refusals(),
        r is Err ==> r == Err::<(), AQIError>(AQIError::EmitterError),
        r is Err ==> final(sink).refusals() == old(sink).refusals() + 1,
        r is Err ==> wrote_part(
            old(sink).events(),
            final(sink).events(),
            each_number(tag@, numbers@),
        ),
{
    let ghost start = sink.events();
    let ghost refusals = sink.refusals();
    assert(start + each_number(tag@, numbers@.take(0)) =~= start);
    let mut i: usize = 0;
    while i < numbers.len()
        invariant
            i <= numbers.len(),
            sink.events() == start + each_number(tag@, numbers@.take(i as int)),
            sink.refusals() == refusals,
            refusals == old(sink).refusals(),
            start == old(sink).events(),
        decreases numbers.len() - i,
    {
        proof {
            lemma_each_number_split(tag@, numbers@, i + 1);
            assert(numbers@.take(i + 1).drop_last() =~= numbers@.take(i as int));
            assert(numbers@.take(i + 1).last() == numbers@[i as int]);
        }
        write_number(tag, numbers[i] as u64, sink)?;
        i += 1;
    }
    assert(numbers@.take(numbers.len() as int) =~= numbers@);
    Ok(())
}

fn write_optional_each_code<T: SchemaStringType>(
    tag: &str,
    codes: &Option<Vec<T>>,
    sink: &mut XmlSink,
) -> (r: Result<(), AQIError>)
    ensures
        r is Ok ==> final(sink).events() == old(sink).events() + optional_each_code(tag@, *codes),
        r is Ok ==> final(sink).refusals() == old(sink).refusals(),
        r is Err ==> r == Err::<(), AQIError>(AQIError::EmitterError),
        r is Err ==> final(sink).refusals() == old(sink).refusals() + 1,
        r is Err ==> wrote_part(
            old(sink).events(),
            final(sink).events(),
            optional_each_code(tag@, *codes),
        ),
{
    match codes {
        Some(c) => write_each_code(tag, c, sink),
        None => {
            assert(sink.events() + Seq::<MarkupEvent>::empty() =~= sink.events());
            Ok(())
        },
    }
}

fn write_optional_each_child<T: WritableSchemaType>(
    tag: &str,
    items: &Option<Vec<T>>,
    sink: &mut XmlSink,
) -> (r: Result<(), AQIError>)
    ensures
        r is Ok ==> final(sink).events() == old(sink).events() + optional_each_child(tag@, *items),
        r is Ok ==> final(sink).refusals() == old(sink).refusals(),
        r is Err ==> r == Err::<(), AQIError>(AQIError::EmitterError),
        r is Err ==> final(sink).refusals() == old(sink).refusals() + 1,
        r is Err ==> wrote_part(
            old(sink).events(),
            final(sink).events(),
            optional_each_child(tag@, *items),
        ),
{
    match items {
        Some(c) => write_each_child(tag, c, sink),
        None => {
            assert(sink.events() + Seq::<MarkupEvent>::empty() =~= sink.events());
            Ok(())
        },
    }
}


impl WritableSchemaType for AnesthesiaRecordsType {
    open spec fn events(&self, name: Seq<char>) -> Seq<MarkupEvent> {
        element(
            name,
            self.record_header.events("RecordHeader"@)
                + each_child("AnesthesiaRecord"@, self.anesthesia_records@),
        )
    }

    fn write(&self, name: &str, sink: &mut XmlSink) -> (r: Result<(), AQIError>) {
        sink.start_element(name)?;
        self.record_header.write("RecordHeader", sink)?;
        write_each_child("AnesthesiaRecord", &self.anesthesia_records, sink)?;
        sink.end_element()
    }
}

impl WritableSchemaType for RecordHeaderType {
    open spec fn events(&self, name: Seq<char>) -> Seq<MarkupEvent> {
        element(
            name,
            leaf("PracticeID"@, self.practice_id.spec_value())
                + leaf("CreatedBy"@, self.created_by@)
                + leaf("CreateDate"@, self.create_date.text())
                + self.email_set.events("EmailSet"@)
                + leaf("AQIXMLVersion"@, self.aqi_xml_version.spec_value())
                + optional_child("VendorSet"@, self.vendor_set),
        )
    }

    fn write(&self, name: &str, sink: &mut XmlSink) -> (r: Result<(), AQIError>) {
        sink.start_element(name)?;
        write_value("PracticeID", self.practice_id.value(), sink)?;
        write_value("CreatedBy", self.created_by.as_str(), sink)?;
        write_date_time("CreateDate", &self.create_date, sink)?;
        self.email_set.write("EmailSet", sink)?;
        write_value("AQIXMLVersion", self.aqi_xml_version.value(), sink)?;
        write_optional_child("VendorSet", &self.vendor_set, sink)?;
        sink.end_element()
    }
}

impl WritableSchemaType for EmailSetType {
    open spec fn events(&self, name: Seq<char>) -> Seq<MarkupEvent> {
        element(
            name,
            each_child("EmailNotificationSet"@, self.email_notification_set@),
        )
    }

    fn write(&self, name: &str, sink: &mut XmlSink) -> (r: Result<(), AQIError>) {
        sink.start_element(name)?;
        write_each_child("EmailNotificationSet", &self.email_notification_set, sink)?;
        sink.end_element()
    }
}

impl WritableSchemaType for EmailNotificationSetType {
    open spec fn events(&self, name: Seq<char>) -> Seq<MarkupEvent> {
        element(
            name,
            leaf("EmailNotificationFirstName"@, self.email_notification_first_name@)
                + leaf("EmailNotificationLastName"@, self.email_notification_last_name@)
                + leaf("EmailNotificationAddress"@, self.email_notification_address.spec_value()),
        )
    }

    fn write(&self, name: &str, sink: &mut XmlSink) -> (r: Result<(), AQIError>) {
        sink.start_element(name)?;
        write_value(
            "EmailNotificationFirstName",
            self.email_notification_first_name.as_str(),
            sink,
        )?;
        write_value("EmailNotificationLastName", self.email_notification_last_name.as_str(), sink)?;
        write_value("EmailNotificationAddress", self.email_notification_address.value(), sink)?;
        sink.end_element()
    }
}

impl WritableSchemaType for VendorSetType {
    open spec fn events(&self, name: Seq<char>) -> Seq<MarkupEvent> {
        element(
            name,
            each_child("Vendor"@, self.vendor@),
        )
    }

    fn write(&self, name: &str, sink: &mut XmlSink) -> (r: Result<(), AQIError>) {
        sink.start_element(name)?;
        write_each_child("Vendor", &self.vendor, sink)?;
        sink.end_element()
    }
}

impl WritableSchemaType for Vendors {
    open spec fn events(&self, name: Seq<char>) -> Seq<MarkupEvent> {
        element(
            name,
            optional_code("VendorID"@, self.vendor_id)
                + self.vendor_set_type.events("VendorSetType"@)
                + leaf("VendorName"@, self.vendor_name@),
        )
    }

    fn write(&self, name: &str, sink: &mut XmlSink) -> (r: Result<(), AQIError>) {
        sink.start_element(name)?;
        write_optional_code("VendorID", &self.vendor_id, sink)?;
        self.vendor_set_type.write("VendorSetType", sink)?;
        write_value("VendorName", self.vendor_name.as_str(), sink)?;
        sink.end_element()
    }
}

impl WritableSchemaType for SetVendorSetType {
    open spec fn events(&self, name: Seq<char>) -> Seq<MarkupEvent> {
        element(
            name,
            each_number("VendorType"@, self.vendor_type@),
        )
    }

    fn write(&self, name: &str, sink: &mut XmlSink) -> (r: Result<(), AQIError>) {
        sink.start_element(name)?;
        write_each_number("VendorType", &self.vendor_type, sink)?;
        sink.end_element()
    }
}

impl WritableSchemaType for AnesthesiaRecordType {
    open spec fn events(&self, name: Seq<char>) -> Seq<MarkupEvent> {
        element(
            name,
            self.demographic.events("Demographic"@)
                + self.procedure.events("Procedure"@)
                + self.anesthesia_case.events("AnesthesiaCase"@)
                + self.pre_op.events("PreOp"@)
                + self.intra_op.events("IntraOp"@)
                + self.post_op.events("PostOp"@)
                + optional_child("TimingMilestones"@, self.timing_milestones)
                + optional_child("OutcomesEvents"@, self.outcomes_events)
                + optional_child("AnesthesiaDetails"@, self.anesthesia_details),
        )
    }

    #[verifier::spinoff_prover]
    #[verifier::rlimit(100)]
    fn write(&self, name: &str, sink: &mut XmlSink) -> (r: Result<(), AQIError>) {
        sink.start_element(name)?;
        self.demographic.write("Demographic", sink)?;
        self.procedure.write("Procedure", sink)?;
        self.anesthesia_case.write("AnesthesiaCase", sink)?;
        self.pre_op.write("PreOp", sink)?;
        self.intra_op.write("IntraOp", sink)?;
        self.post_op.write("PostOp", sink)?;
        write_optional_child("TimingMilestones", &self.timing_milestones, sink)?;
        write_optional_child("OutcomesEvents", &self.outcomes_events, sink)?;
        write_optional_child("AnesthesiaDetails", &self.anesthesia_details, sink)?;
        sink.end_element()
    }
}

impl WritableSchemaType for DemographicType {
    open spec fn events(&self, name: Seq<char>) -> Seq<MarkupEvent> {
        element(
            name,
            optional_string("PatientID"@, self.patient_id)
                + optional_date("DOB"@, self.dob)
                + optional_code("HomeZip"@, self.home_zip)
                + optional_code("HomeState"@, self.home_state)
                + optional_string("HomeCity"@, self.home_city)
                + optional_code("Race"@, self.race)
                + leaf("PatientSex"@, self.patient_sex.spec_value()),
        )
    }

    fn write(&self, name: &str, sink: &mut XmlSink) -> (r: Result<(), AQIError>) {
        sink.start_element(name)?;
        write_optional_string("PatientID", &self.patient_id, sink)?;
        write_optional_date("DOB", &self.dob, sink)?;
        write_optional_code("HomeZip", &self.home_zip, sink)?;
        write_optional_code("HomeState", &self.home_state, sink)?;
        write_optional_string("HomeCity", &self.home_city, sink)?;
        write_optional_code("Race", &self.race, sink)?;
        write_value("PatientSex", self.patient_sex.value(), sink)?;
        sink.end_element()
    }
}

impl WritableSchemaType for ProcedureType {
    open spec fn events(&self, name: Seq<char>) -> Seq<MarkupEvent> {
        element(
            name,
            optional_string("ProcedureID"@, self.procedure_id)
                + leaf("FacilityID"@, self.facility_id@)
                + optional_child("ProcedureLocation"@, self.procedure_location)
                + optional_date_time("ProcStartTime"@, self.proc_start_time)
                + optional_date_time("ProcEndTime"@, self.proc_end_time)
                + optional_code("AdmissionStatus"@, self.admission_status)
                + leaf("ProcStatus"@, self.proc_status.spec_value())
                + optional_code("TransferStatus"@, self.transfer_status)
                + optional_date_time("AdmissionDate"@, self.admission_date)
                + optional_string("ProcedureNotes"@, self.procedure_notes)
                + optional_child("CPTSet"@, self.cpt_set),
        )
    }

    fn write(&self, name: &str, sink: &mut XmlSink) -> (r: Result<(), AQIError>) {
        sink.start_element(name)?;
        write_optional_string("ProcedureID", &self.procedure_id, sink)?;
        write_value("FacilityID", self.facility_id.as_str(), sink)?;
        write_optional_child("ProcedureLocation", &self.procedure_location, sink)?;
        write_optional_date_time("ProcStartTime", &self.proc_start_time, sink)?;
        write_optional_date_time("ProcEndTime", &self.proc_end_time, sink)?;
        write_optional_code("AdmissionStatus", &self.admission_status, sink)?;
        write_value("ProcStatus", self.proc_status.value(), sink)?;
        write_optional_code("TransferStatus", &self.transfer_status, sink)?;
        write_optional_date_time("AdmissionDate", &self.admission_date, sink)?;
        write_optional_string("ProcedureNotes", &self.procedure_notes, sink)?;
        write_optional_child("CPTSet", &self.cpt_set, sink)?;
        sink.end_element()
    }
}

impl WritableSchemaType for ProcedureLocationType {
    open spec fn events(&self, name: Seq<char>) -> Seq<MarkupEvent> {
        element(
            name,
            leaf("LocationType"@, decimal_text(self.location_type.spec_value() as nat))
                + leaf("LocationDetails"@, self.location_details@),
        )
    }

    fn write(&self, name: &str, sink: &mut XmlSink) -> (r: Result<(), AQIError>) {
        sink.start_element(name)?;
        write_number("LocationType", self.location_type.value(), sink)?;
        write_value("LocationDetails", self.location_details.as_str(), sink)?;
        sink.end_element()
    }
}

impl WritableSchemaType for CPTSetType {
    open spec fn events(&self, name: Seq<char>) -> Seq<MarkupEvent> {
        element(
            name,
            each_child("CPT"@, self.cpt@),
        )
    }

    fn write(&self, name: &str, sink: &mut XmlSink) -> (r: Result<(), AQIError>) {
        sink.start_element(name)?;
        write_each_child("CPT", &self.cpt, sink)?;
        sink.end_element()
    }
}

impl WritableSchemaType for CPTType {
    open spec fn events(&self, name: Seq<char>) -> Seq<MarkupEvent> {
        element(
            name,
            optional_string("CPTRank"@, self.cpt_rank)
                + leaf("CPTValue"@, self.cpt_value.spec_value())
                + optional_code("CPTModifier"@, self.cpt_modifier),
        )
    }

    fn write(&self, name: &str, sink: &mut XmlSink) -> (r: Result<(), AQIError>) {
        sink.start_element(name)?;
        write_optional_string("CPTRank", &self.cpt_rank, sink)?;
        write_value("CPTValue", self.cpt_value.value(), sink)?;
        write_optional_code("CPTModifier", &self.cpt_modifier, sink)?;
        sink.end_element()
    }
}

impl WritableSchemaType for AnesthesiaCaseType {
    open spec fn events(&self, name: Seq<char>) -> Seq<MarkupEvent> {
        element(
            name,
            leaf("AnesthesiaRecordID"@, self.anesthesia_record_id@)
                + optional_code("AnesthesiaCoverage"@, self.anesthesia_coverage)
                + self.anesthesia_staff_set.events("AnesthesiaStaffSet"@)
                + optional_child("MonitoringSet"@, self.monitoring_set)
                + self.anesthesia_method_set.events("AnesthesiaMethodSet"@)
                + optional_child("AirwayManagementSet"@, self.airway_management_set)
                + optional_child("CPTAnesSet"@, self.cpt_anes_set),
        )
    }

    fn write(&self, name: &str, sink: &mut XmlSink) -> (r: Result<(), AQIError>) {
        sink.start_element(name)?;
        write_value("AnesthesiaRecordID", self.anesthesia_record_id.as_str(), sink)?;
        write_optional_code("AnesthesiaCoverage", &self.anesthesia_coverage, sink)?;
        self.anesthesia_staff_set.write("AnesthesiaStaffSet", sink)?;
        write_optional_child("MonitoringSet", &self.monitoring_set, sink)?;
        self.anesthesia_method_set.write("AnesthesiaMethodSet", sink)?;
        write_optional_child("AirwayManagementSet", &self.airway_management_set, sink)?;
        write_optional_child("CPTAnesSet", &self.cpt_anes_set, sink)?;
        sink.end_element()
    }
}

impl WritableSchemaType for AnesthesiaStaffSetType {
    open spec fn events(&self, name: Seq<char>) -> Seq<MarkupEvent> {
        element(
            name,
            each_child("AnesthesiaStaff"@, self.anesthesia_staff@),
        )
    }

    fn write(&self, name: &str, sink: &mut XmlSink) -> (r: Result<(), AQIError>) {
        sink.start_element(name)?;
        write_each_child("AnesthesiaStaff", &self.anesthesia_staff, sink)?;
        sink.end_element()
    }
}

impl WritableSchemaType for AnesthesiaStaffType {
    open spec fn events(&self, name: Seq<char>) -> Seq<MarkupEvent> {
        element(
            name,
            leaf("TaxID"@, self.tax_id.spec_value())
                + leaf("NPI"@, self.npi.spec_value())
                + optional_code("StaffResponsibility"@, self.staff_responsibility)
                + leaf("ProviderCredentials"@, self.provider_credentials.spec_value())
                + optional_date_time("StaffSignIn"@, self.staff_sign_in)
                + optional_date_time("StaffSignOut"@, self.staff_sign_out)
                + optional_string("StaffNotes"@, self.staff_notes),
        )
    }

    fn write(&self, name: &str, sink: &mut XmlSink) -> (r: Result<(), AQIError>) {
        sink.start_element(name)?;
        write_value("TaxID", self.tax_id.value(), sink)?;
        write_value("NPI", self.npi.value(), sink)?;
        write_optional_code("StaffResponsibility", &self.staff_responsibility, sink)?;
        write_value("ProviderCredentials", self.provider_credentials.value(), sink)?;
        write_optional_date_time("StaffSignIn", &self.staff_sign_in, sink)?;
        write_optional_date_time("StaffSignOut", &self.staff_sign_out, sink)?;
        write_optional_string("StaffNotes", &self.staff_notes, sink)?;
        sink.end_element()
    }
}

impl WritableSchemaType for MonitoringSetType {
    open spec fn events(&self, name: Seq<char>) -> Seq<MarkupEvent> {
        element(
            name,
            each_code("Monitor"@, self.monitor@),
        )
    }

    fn write(&self, name: &str, sink: &mut XmlSink) -> (r: Result<(), AQIError>) {
        sink.start_element(name)?;
        write_each_code("Monitor", &self.monitor, sink)?;
        sink.end_element()
    }
}

impl WritableSchemaType for AnesthesiaMethodSetType {
    open spec fn events(&self, name: Seq<char>) -> Seq<MarkupEvent> {
        element(
            name,
            each_child("AnesthesiaMethod"@, self.anesthesia_method@),
        )
    }

    fn write(&self, name: &str, sink: &mut XmlSink) -> (r: Result<(), AQIError>) {
        sink.start_element(name)?;
        write_each_child("AnesthesiaMethod", &self.anesthesia_method, sink)?;
        sink.end_element()
    }
}

impl WritableSchemaType for AnesthesiaMethodType {
    open spec fn events(&self, name: Seq<char>) -> Seq<MarkupEvent> {
        element(
            name,
            leaf("AnesthesiaCategory"@, self.anesthesia_category.spec_value())
                + optional_code("AnesthesiaSubCategory"@, self.anesthesia_subcategory)
                + leaf("AnesthesiaStartTime"@, self.anesthesia_start_time.text())
                + leaf("AnesthesiaEndTime"@, self.anesthesia_end_time.text())
                + optional_code("AnesthesiaInduction"@, self.anesthesia_induction)
                + optional_date_time(
                    "AnesthesiaInductionStartTime"@,
                    self.anesthesia_induction_start_time,
                )
                + optional_code("AnesthesiaMaintenance"@, self.anesthesia_maintenance)
                + optional_string("AnesthesiaNotes"@, self.anesthesia_notes),
        )
    }

    fn write(&self, name: &str, sink: &mut XmlSink) -> (r: Result<(), AQIError>) {
        sink.start_element(name)?;
        write_value("AnesthesiaCategory", self.anesthesia_category.value(), sink)?;
        write_optional_code("AnesthesiaSubCategory", &self.anesthesia_subcategory, sink)?;
        write_date_time("AnesthesiaStartTime", &self.anesthesia_start_time, sink)?;
        write_date_time("AnesthesiaEndTime", &self.anesthesia_end_time, sink)?;
        write_optional_code("AnesthesiaInduction", &self.anesthesia_induction, sink)?;
        write_optional_date_time(
            "AnesthesiaInductionStartTime",
            &self.anesthesia_induction_start_time,
            sink,
        )?;
        write_optional_code("AnesthesiaMaintenance", &self.anesthesia_maintenance, sink)?;
        write_optional_string("AnesthesiaNotes", &self.anesthesia_notes, sink)?;
        sink.end_element()
    }
}

impl WritableSchemaType for AirwayManagementSetType {
    open spec fn events(&self, name: Seq<char>) -> Seq<MarkupEvent> {
        element(
            name,
            each_child("AirwayManagement"@, self.airway_management@),
        )
    }

    fn write(&self, name: &str, sink: &mut XmlSink) -> (r: Result<(), AQIError>) {
        sink.start_element(name)?;
        write_each_child("AirwayManagement", &self.airway_management, sink)?;
        sink.end_element()
    }
}

impl WritableSchemaType for AirwayManagementType {
    open spec fn events(&self, name: Seq<char>) -> Seq<MarkupEvent> {
        element(
            name,
            leaf("AirwayManagementMethod"@, self.airway_management_method.spec_value())
                + optional_code("AirwaySubManagementMethod"@, self.airway_sub_management_method),
        )
    }

    fn write(&self, name: &str, sink: &mut XmlSink) -> (r: Result<(), AQIError>) {
        sink.start_element(name)?;
        write_value("AirwayManagementMethod", self.airway_management_method.value(), sink)?;
        write_optional_code("AirwaySubManagementMethod", &self.airway_sub_management_method, sink)?;
        sink.end_element()
    }
}

impl WritableSchemaType for CPTAnesSetType {
    open spec fn events(&self, name: Seq<char>) -> Seq<MarkupEvent> {
        element(
            name,
            each_child("CPTAnes"@, self.cpt_anes@),
        )
    }

    fn write(&self, name: &str, sink: &mut XmlSink) -> (r: Result<(), AQIError>) {
        sink.start_element(name)?;
        write_each_child("CPTAnes", &self.cpt_anes, sink)?;
        sink.end_element()
    }
}

impl WritableSchemaType for CPTAnesType {
    open spec fn events(&self, name: Seq<char>) -> Seq<MarkupEvent> {
        element(
            name,
            leaf("CPTAnesValue"@, self.cpt_anes_value.spec_value())
                + optional_code("CPTAnesModifier"@, self.cpt_anes_modifier)
                + optional_string("CPTAnesDescription"@, self.cpt_anes_description),
        )
    }

    fn write(&self, name: &str, sink: &mut XmlSink) -> (r: Result<(), AQIError>) {
        sink.start_element(name)?;
        write_value("CPTAnesValue", self.cpt_anes_value.value(), sink)?;
        write_optional_code("CPTAnesModifier", &self.cpt_anes_modifier, sink)?;
        write_optional_string("CPTAnesDescription", &self.cpt_anes_description, sink)?;
        sink.end_element()
    }
}

impl WritableSchemaType for PreOpType {
    open spec fn events(&self, name: Seq<char>) -> Seq<MarkupEvent> {
        element(
            name,
            leaf("Age"@, decimal_text(self.age as nat))
                + optional_number("Weight"@, self.weight)
                + optional_number("WeightInKg"@, self.weight_in_kg)
                + optional_number("Height"@, self.height)
                + optional_number("HeightInCm"@, self.height_in_cm)
                + leaf("ASAClass"@, self.asa_class.spec_value())
                + optional_code("PreAnesthStatus"@, self.pre_anesth_status)
                + optional_child("ICDSet"@, self.icd_set)
                + optional_child("PreLabSet"@, self.pre_lab_set),
        )
    }

    fn write(&self, name: &str, sink: &mut XmlSink) -> (r: Result<(), AQIError>) {
        sink.start_element(name)?;
        write_number("Age", self.age, sink)?;
        write_optional_number("Weight", &self.weight, sink)?;
        write_optional_number("WeightInKg", &self.weight_in_kg, sink)?;
        write_optional_number("Height", &self.height, sink)?;
        write_optional_number("HeightInCm", &self.height_in_cm, sink)?;
        write_value("ASAClass", self.asa_class.value(), sink)?;
        write_optional_code("PreAnesthStatus", &self.pre_anesth_status, sink)?;
        write_optional_child("ICDSet", &self.icd_set, sink)?;
        write_optional_child("PreLabSet", &self.pre_lab_set, sink)?;
        sink.end_element()
    }
}

impl WritableSchemaType for ICDSetType {
    open spec fn events(&self, name: Seq<char>) -> Seq<MarkupEvent> {
        element(
            name,
            each_child("ICD"@, self.icd@),
        )
    }

    fn write(&self, name: &str, sink: &mut XmlSink) -> (r: Result<(), AQIError>) {
        sink.start_element(name)?;
        write_each_child("ICD", &self.icd, sink)?;
        sink.end_element()
    }
}

impl WritableSchemaType for ICDType {
    open spec fn events(&self, name: Seq<char>) -> Seq<MarkupEvent> {
        element(
            name,
            optional_number("ICDRank"@, self.icd_rank)
                + leaf("ICDValue"@, self.icd_value.spec_value())
                + leaf("ICDVersion"@, self.icd_version.spec_value()),
        )
    }

    fn write(&self, name: &str, sink: &mut XmlSink) -> (r: Result<(), AQIError>) {
        sink.start_element(name)?;
        write_optional_number("ICDRank", &self.icd_rank, sink)?;
        write_value("ICDValue", self.icd_value.value(), sink)?;
        write_value("ICDVersion", self.icd_version.value(), sink)?;
        sink.end_element()
    }
}

impl WritableSchemaType for PreLabDataSetType {
    open spec fn events(&self, name: Seq<char>) -> Seq<MarkupEvent> {
        element(
            name,
            each_child("PreLabData"@, self.pre_lab_data@),
        )
    }

    fn write(&self, name: &str, sink: &mut XmlSink) -> (r: Result<(), AQIError>) {
        sink.start_element(name)?;
        write_each_child("PreLabData", &self.pre_lab_data, sink)?;
        sink.end_element()
    }
}

impl WritableSchemaType for LabDataType {
    open spec fn events(&self, name: Seq<char>) -> Seq<MarkupEvent> {
        element(
            name,
            leaf("LabName"@, self.lab_name.spec_value())
                + optional_code("LabCategoryName"@, self.lab_category_name)
                + leaf("LabUnit"@, self.lab_unit.spec_value())
                + leaf("LabValue"@, self.lab_value@)
                + optional_string("LabValueText"@, self.lab_value_text)
                + optional_string("LabRangeHigh"@, self.lab_range_high)
                + optional_string("LabRangeLow"@, self.lab_range_low)
                + leaf("LabDateTime"@, self.lab_date_time.text())
                + optional_string("LabComments"@, self.lab_comments),
        )
    }

    fn write(&self, name: &str, sink: &mut XmlSink) -> (r: Result<(), AQIError>) {
        sink.start_element(name)?;
        write_value("LabName", self.lab_name.value(), sink)?;
        write_optional_code("LabCategoryName", &self.lab_category_name, sink)?;
        write_value("LabUnit", self.lab_unit.value(), sink)?;
        write_value("LabValue", self.lab_value.as_str(), sink)?;
        write_optional_string("LabValueText", &self.lab_value_text, sink)?;
        write_optional_string("LabRangeHigh", &self.lab_range_high, sink)?;
        write_optional_string("LabRangeLow", &self.lab_range_low, sink)?;
        write_date_time("LabDateTime", &self.lab_date_time, sink)?;
        write_optional_string("LabComments", &self.lab_comments, sink)?;
        sink.end_element()
    }
}

impl WritableSchemaType for IntraOpType {
    open spec fn events(&self, name: Seq<char>) -> Seq<MarkupEvent> {
        element(
            name,
            optional_child("MedicationsSet"@, self.medications_set)
                + optional_child("MonitoringPhysiologicSet"@, self.monitoring_physiologic_set)
                + optional_child("OutputsSet"@, self.outputs_set),
        )
    }

    fn write(&self, name: &str, sink: &mut XmlSink) -> (r: Result<(), AQIError>) {
        sink.start_element(name)?;
        write_optional_child("MedicationsSet", &self.medications_set, sink)?;
        write_optional_child("MonitoringPhysiologicSet", &self.monitoring_physiologic_set, sink)?;
        write_optional_child("OutputsSet", &self.outputs_set, sink)?;
        sink.end_element()
    }
}

impl WritableSchemaType for MedicationsSetType {
    open spec fn events(&self, name: Seq<char>) -> Seq<MarkupEvent> {
        element(
            name,
            each_child("Medication"@, self.medication@),
        )
    }

    fn write(&self, name: &str, sink: &mut XmlSink) -> (r: Result<(), AQIError>) {
        sink.start_element(name)?;
        write_each_child("Medication", &self.medication, sink)?;
        sink.end_element()
    }
}

impl WritableSchemaType for MedicationType {
    open spec fn events(&self, name: Seq<char>) -> Seq<MarkupEvent> {
        element(
            name,
            leaf("MedicationName"@, self.medication_name@)
                + optional_each_code("MedicationType"@, self.medication_type)
                + optional_number("MedDose"@, self.med_dose)
                + optional_code("DoseUnits"@, self.dose_units)
                + optional_date_time("DoseStart"@, self.dose_start)
                + optional_date_time("DoseEnd"@, self.dose_end)
                + optional_number("MedConcentration"@, self.med_concentration)
                + optional_code("MedConcentrationUnit"@, self.med_concentration_unit)
                + optional_each_code("MedicationRoute"@, self.medication_route)
                + optional_each_child("MixtureMedication"@, self.mixture_medications),
        )
    }

    fn write(&self, name: &str, sink: &mut XmlSink) -> (r: Result<(), AQIError>) {
        sink.start_element(name)?;
        write_value("MedicationName", self.medication_name.as_str(), sink)?;
        write_optional_each_code("MedicationType", &self.medication_type, sink)?;
        write_optional_number("MedDose", &self.med_dose, sink)?;
        write_optional_code("DoseUnits", &self.dose_units, sink)?;
        write_optional_date_time("DoseStart", &self.dose_start, sink)?;
        write_optional_date_time("DoseEnd", &self.dose_end, sink)?;
        write_optional_number("MedConcentration", &self.med_concentration, sink)?;
        write_optional_code("MedConcentrationUnit", &self.med_concentration_unit, sink)?;
        write_optional_each_code("MedicationRoute", &self.medication_route, sink)?;
        write_optional_each_child("MixtureMedication", &self.mixture_medications, sink)?;
        sink.end_element()
    }
}

impl WritableSchemaType for MixtureMedicationType {
    open spec fn events(&self, name: Seq<char>) -> Seq<MarkupEvent> {
        element(
            name,
            leaf("MixtureMedicationName"@, self.mixture_medication_name@)
                + optional_each_code("MixtureMedicationType"@, self.mixture_medication_type)
                + optional_number("MixtureMedDose"@, self.mixture_med_dose)
                + optional_code("MixtureDoseUnits"@, self.mixture_dose_units)
                + optional_number("MixtureMedConcentration"@, self.mixture_med_concentration)
                + optional_code("MixtureMedConcentrationUnit"@, self.mixture_med_concentration_unit),
        )
    }

    fn write(&self, name: &str, sink: &mut XmlSink) -> (r: Result<(), AQIError>) {
        sink.start_element(name)?;
        write_value("MixtureMedicationName", self.mixture_medication_name.as_str(), sink)?;
        write_optional_each_code("MixtureMedicationType", &self.mixture_medication_type, sink)?;
        write_optional_number("MixtureMedDose", &self.mixture_med_dose, sink)?;
        write_optional_code("MixtureDoseUnits", &self.mixture_dose_units, sink)?;
        write_optional_number("MixtureMedConcentration", &self.mixture_med_concentration, sink)?;
        write_optional_code(
            "MixtureMedConcentrationUnit",
            &self.mixture_med_concentration_unit,
            sink,
        )?;
        sink.end_element()
    }
}

impl WritableSchemaType for MonitoringPhysiologicSetType {
    open spec fn events(&self, name: Seq<char>) -> Seq<MarkupEvent> {
        element(
            name,
            each_child("Monitoring"@, self.monitoring@),
        )
    }

    fn write(&self, name: &str, sink: &mut XmlSink) -> (r: Result<(), AQIError>) {
        sink.start_element(name)?;
        write_each_child("Monitoring", &self.monitoring, sink)?;
        sink.end_element()
    }
}

impl WritableSchemaType for MonitoringPhysiologicType {
    open spec fn events(&self, name: Seq<char>) -> Seq<MarkupEvent> {
        element(
            name,
            leaf("MonitoringName"@, self.monitoring_name.spec_value())
                + optional_date_time("MonitoringTime"@, self.monitoring_time)
                + optional_code("MonitoringUnits"@, self.monitoring_units)
                + optional_number("MonitoringValueNumeric"@, self.monitoring_value_numeric)
                + optional_string("MonitoringValueText"@, self.monitoring_value_text)
                + optional_code("MonitoringSource"@, self.monitoring_source),
        )
    }

    fn write(&self, name: &str, sink: &mut XmlSink) -> (r: Result<(), AQIError>) {
        sink.start_element(name)?;
        write_value("MonitoringName", self.monitoring_name.value(), sink)?;
        write_optional_date_time("MonitoringTime", &self.monitoring_time, sink)?;
        write_optional_code("MonitoringUnits", &self.monitoring_units, sink)?;
        write_optional_number("MonitoringValueNumeric", &self.monitoring_value_numeric, sink)?;
        write_optional_string("MonitoringValueText", &self.monitoring_value_text, sink)?;
        write_optional_code("MonitoringSource", &self.monitoring_source, sink)?;
        sink.end_element()
    }
}

impl WritableSchemaType for OutputsSetType {
    open spec fn events(&self, name: Seq<char>) -> Seq<MarkupEvent> {
        element(
            name,
            each_child("OutputEvent"@, self.output_event@),
        )
    }

    fn write(&self, name: &str, sink: &mut XmlSink) -> (r: Result<(), AQIError>) {
        sink.start_element(name)?;
        write_each_child("OutputEvent", &self.output_event, sink)?;
        sink.end_element()
    }
}

impl WritableSchemaType for OutputEventType {
    open spec fn events(&self, name: Seq<char>) -> Seq<MarkupEvent> {
        element(
            name,
            leaf("OutputEventName"@, self.output_event_name.spec_value())
                + optional_code("OutputUnits"@, self.output_units)
                + optional_number("OutputValueNumeric"@, self.output_value_numeric)
                + optional_string("OutputValueText"@, self.output_value_text)
                + optional_date_time("OutputStartDateTime"@, self.output_start_date_time)
                + optional_date_time("OutputEndDateTime"@, self.output_end_date_time),
        )
    }

    fn write(&self, name: &str, sink: &mut XmlSink) -> (r: Result<(), AQIError>) {
        sink.start_element(name)?;
        write_value("OutputEventName", self.output_event_name.value(), sink)?;
        write_optional_code("OutputUnits", &self.output_units, sink)?;
        write_optional_number("OutputValueNumeric", &self.output_value_numeric, sink)?;
        write_optional_string("OutputValueText", &self.output_value_text, sink)?;
        write_optional_date_time("OutputStartDateTime", &self.output_start_date_time, sink)?;
        write_optional_date_time("OutputEndDateTime", &self.output_end_date_time, sink)?;
        sink.end_element()
    }
}

impl WritableSchemaType for PostOpType {
    open spec fn events(&self, name: Seq<char>) -> Seq<MarkupEvent> {
        element(
            name,
            optional_code("PostOpDisposition"@, self.post_op_disposition)
                + optional_date_time("PostOpDispDateTime"@, self.post_op_disp_date_time)
                + optional_code("PostOpDischarge"@, self.post_op_discharge)
                + optional_date_time("PostOpDischargeDateTime"@, self.post_op_discharge_date_time)
                + optional_number("LengthOfHospitalStay"@, self.length_of_hospital_stay)
                + each_child("PaymentMethod"@, self.payment_method@)
                + optional_child("PostOpLabSet"@, self.post_op_lab_set)
                + optional_child("ICDSet"@, self.icd_set),
        )
    }

    fn write(&self, name: &str, sink: &mut XmlSink) -> (r: Result<(), AQIError>) {
        sink.start_element(name)?;
        write_optional_code("PostOpDisposition", &self.post_op_disposition, sink)?;
        write_optional_date_time("PostOpDispDateTime", &self.post_op_disp_date_time, sink)?;
        write_optional_code("PostOpDischarge", &self.post_op_discharge, sink)?;
        write_optional_date_time(
            "PostOpDischargeDateTime",
            &self.post_op_discharge_date_time,
            sink,
        )?;
        write_optional_number("LengthOfHospitalStay", &self.length_of_hospital_stay, sink)?;
        write_each_child("PaymentMethod", &self.payment_method, sink)?;
        write_optional_child("PostOpLabSet", &self.post_op_lab_set, sink)?;
        write_optional_child("ICDSet", &self.icd_set, sink)?;
        sink.end_element()
    }
}

impl WritableSchemaType for PaymentMethodType {
    open spec fn events(&self, name: Seq<char>) -> Seq<MarkupEvent> {
        element(
            name,
            leaf("PaymentCode"@, self.payment_code.spec_value())
                + optional_code("PaymentDescription"@, self.payment_description)
                + optional_code("PaymentDescriptionSec"@, self.payment_description_sec)
                + optional_code("PaymentDescriptionTh"@, self.payment_description_th),
        )
    }

    fn write(&self, name: &str, sink: &mut XmlSink) -> (r: Result<(), AQIError>) {
        sink.start_element(name)?;
        write_value("PaymentCode", self.payment_code.value(), sink)?;
        write_optional_code("PaymentDescription", &self.payment_description, sink)?;
        write_optional_code("PaymentDescriptionSec", &self.payment_description_sec, sink)?;
        write_optional_code("PaymentDescriptionTh", &self.payment_description_th, sink)?;
        sink.end_element()
    }
}

impl WritableSchemaType for PostOpLabSetType {
    open spec fn events(&self, name: Seq<char>) -> Seq<MarkupEvent> {
        element(
            name,
            each_child("PostLabData"@, self.post_lab_data@),
        )
    }

    fn write(&self, name: &str, sink: &mut XmlSink) -> (r: Result<(), AQIError>) {
        sink.start_element(name)?;
        write_each_child("PostLabData", &self.post_lab_data, sink)?;
        sink.end_element()
    }
}

impl WritableSchemaType for TimingMilestonesSetType {
    open spec fn events(&self, name: Seq<char>) -> Seq<MarkupEvent> {
        element(
            name,
            each_child("TimingMilestone"@, self.timing_milestone@),
        )
    }

    fn write(&self, name: &str, sink: &mut XmlSink) -> (r: Result<(), AQIError>) {
        sink.start_element(name)?;
        write_each_child("TimingMilestone", &self.timing_milestone, sink)?;
        sink.end_element()
    }
}

impl WritableSchemaType for TimingMilestoneType {
    open spec fn events(&self, name: Seq<char>) -> Seq<MarkupEvent> {
        element(
            name,
            leaf("TMType"@, self.tm_type.spec_value())
                + leaf("TMStartTime"@, self.tm_start_time.text())
                + optional_date_time("TMEndTime"@, self.tm_end_time),
        )
    }

    fn write(&self, name: &str, sink: &mut XmlSink) -> (r: Result<(), AQIError>) {
        sink.start_element(name)?;
        write_value("TMType", self.tm_type.value(), sink)?;
        write_date_time("TMStartTime", &self.tm_start_time, sink)?;
        write_optional_date_time("TMEndTime", &self.tm_end_time, sink)?;
        sink.end_element()
    }
}

impl WritableSchemaType for OutcomesEventsType {
    open spec fn events(&self, name: Seq<char>) -> Seq<MarkupEvent> {
        element(
            name,
            optional_child("ICEventSet"@, self.ic_event_set)
                + optional_child("OutcomeSet"@, self.outcome_set)
                + optional_child("QCDRSet"@, self.qcdr_set),
        )
    }

    fn write(&self, name: &str, sink: &mut XmlSink) -> (r: Result<(), AQIError>) {
        sink.start_element(name)?;
        write_optional_child("ICEventSet", &self.ic_event_set, sink)?;
        write_optional_child("OutcomeSet", &self.outcome_set, sink)?;
        write_optional_child("QCDRSet", &self.qcdr_set, sink)?;
        sink.end_element()
    }
}

impl WritableSchemaType for ICEventSetType {
    open spec fn events(&self, name: Seq<char>) -> Seq<MarkupEvent> {
        element(
            name,
            each_child("ICEvent"@, self.ic_event@),
        )
    }

    fn write(&self, name: &str, sink: &mut XmlSink) -> (r: Result<(), AQIError>) {
        sink.start_element(name)?;
        write_each_child("ICEvent", &self.ic_event, sink)?;
        sink.end_element()
    }
}

impl WritableSchemaType for ICEventType {
    open spec fn events(&self, name: Seq<char>) -> Seq<MarkupEvent> {
        element(
            name,
            optional_date_time("ICEventTimeDate"@, self.ic_event_time_date)
                + optional_code("ICCategory"@, self.ic_category)
                + optional_string("ICSeverity"@, self.ic_severity)
                + optional_string("ICName"@, self.ic_name)
                + optional_string("ICDescription"@, self.ic_description)
                + optional_string("ICValue"@, self.ic_value)
                + optional_string("ICNotes"@, self.ic_notes),
        )
    }

    fn write(&self, name: &str, sink: &mut XmlSink) -> (r: Result<(), AQIError>) {
        sink.start_element(name)?;
        write_optional_date_time("ICEventTimeDate", &self.ic_event_time_date, sink)?;
        write_optional_code("ICCategory", &self.ic_category, sink)?;
        write_optional_string("ICSeverity", &self.ic_severity, sink)?;
        write_optional_string("ICName", &self.ic_name, sink)?;
        write_optional_string("ICDescription", &self.ic_description, sink)?;
        write_optional_string("ICValue", &self.ic_value, sink)?;
        write_optional_string("ICNotes", &self.ic_notes, sink)?;
        sink.end_element()
    }
}

impl WritableSchemaType for OutcomeSetSetType {
    open spec fn events(&self, name: Seq<char>) -> Seq<MarkupEvent> {
        element(
            name,
            each_child("Outcome"@, self.outcome@),
        )
    }

    fn write(&self, name: &str, sink: &mut XmlSink) -> (r: Result<(), AQIError>) {
        sink.start_element(name)?;
        write_each_child("Outcome", &self.outcome, sink)?;
        sink.end_element()
    }
}

impl WritableSchemaType for OutcomeCodeType {
    open spec fn events(&self, name: Seq<char>) -> Seq<MarkupEvent> {
        element(
            name,
            leaf("OutcomeID"@, decimal_text(self.outcome_id.spec_value() as nat))
                + leaf("OutcomeOccurred"@, bool_text(self.outcome_occurred))
                + optional_date_time("OutcomeTimeStamp"@, self.outcome_time_stamp)
                + optional_code("OutcomeSeverity"@, self.outcome_severity)
                + optional_code("OutcomeTimeFrame"@, self.outcome_time_frame),
        )
    }

    fn write(&self, name: &str, sink: &mut XmlSink) -> (r: Result<(), AQIError>) {
        sink.start_element(name)?;
        write_number("OutcomeID", self.outcome_id.value(), sink)?;
        write_value("OutcomeOccurred", bool_str(self.outcome_occurred), sink)?;
        write_optional_date_time("OutcomeTimeStamp", &self.outcome_time_stamp, sink)?;
        write_optional_code("OutcomeSeverity", &self.outcome_severity, sink)?;
        write_optional_code("OutcomeTimeFrame", &self.outcome_time_frame, sink)?;
        sink.end_element()
    }
}

impl WritableSchemaType for QCDRSetTypeSet {
    open spec fn events(&self, name: Seq<char>) -> Seq<MarkupEvent> {
        element(
            name,
            each_child("QCDR"@, self.qcdr@),
        )
    }

    fn write(&self, name: &str, sink: &mut XmlSink) -> (r: Result<(), AQIError>) {
        sink.start_element(name)?;
        write_each_child("QCDR", &self.qcdr, sink)?;
        sink.end_element()
    }
}

impl WritableSchemaType for QCDRSetType {
    open spec fn events(&self, name: Seq<char>) -> Seq<MarkupEvent> {
        element(
            name,
            leaf("QCDRMeasure"@, self.qcdr_measure.spec_value())
                + leaf("QCDRCodeValue"@, self.qcdr_code_value.spec_value())
                + optional_code("QCDRModifier"@, self.qcdr_modifier),
        )
    }

    fn write(&self, name: &str, sink: &mut XmlSink) -> (r: Result<(), AQIError>) {
        sink.start_element(name)?;
        write_value("QCDRMeasure", self.qcdr_measure.value(), sink)?;
        write_value("QCDRCodeValue", self.qcdr_code_value.value(), sink)?;
        write_optional_code("QCDRModifier", &self.qcdr_modifier, sink)?;
        sink.end_element()
    }
}

impl WritableSchemaType for AnesthesiaDetailsType {
    open spec fn events(&self, name: Seq<char>) -> Seq<MarkupEvent> {
        element(
            name,
            optional_child("IntakeOutputSet"@, self.intake_output_set)
                + optional_child("IntubationDetails"@, self.intubation_details)
                + optional_child("AnesthesiaDetailsSet"@, self.anesthesia_details_set)
                + optional_child("MedicationsTotalSet"@, self.medications_total_set),
        )
    }

    fn write(&self, name: &str, sink: &mut XmlSink) -> (r: Result<(), AQIError>) {
        sink.start_element(name)?;
        write_optional_child("IntakeOutputSet", &self.intake_output_set, sink)?;
        write_optional_child("IntubationDetails", &self.intubation_details, sink)?;
        write_optional_child("AnesthesiaDetailsSet", &self.anesthesia_details_set, sink)?;
        write_optional_child("MedicationsTotalSet", &self.medications_total_set, sink)?;
        sink.end_element()
    }
}

impl WritableSchemaType for IntakeOutputSetType {
    open spec fn events(&self, name: Seq<char>) -> Seq<MarkupEvent> {
        element(
            name,
            each_child("IntakeOutputTotal"@, self.intake_output_total@),
        )
    }

    fn write(&self, name: &str, sink: &mut XmlSink) -> (r: Result<(), AQIError>) {
        sink.start_element(name)?;
        write_each_child("IntakeOutputTotal", &self.intake_output_total, sink)?;
        sink.end_element()
    }
}

impl WritableSchemaType for IntakeOutputTotalType {
    open spec fn events(&self, name: Seq<char>) -> Seq<MarkupEvent> {
        element(
            name,
            optional_code("IntakeOutputDirection"@, self.intake_output_direction)
                + optional_code("InputOutputName"@, self.input_output_name)
                + optional_code("OutputUnits"@, self.output_units)
                + optional_number("InputOutputTotal"@, self.input_output_total)
                + optional_code("InputOutputRoute"@, self.input_output_route),
        )
    }

    fn write(&self, name: &str, sink: &mut XmlSink) -> (r: Result<(), AQIError>) {
        sink.start_element(name)?;
        write_optional_code("IntakeOutputDirection", &self.intake_output_direction, sink)?;
        write_optional_code("InputOutputName", &self.input_output_name, sink)?;
        write_optional_code("OutputUnits", &self.output_units, sink)?;
        write_optional_number("InputOutputTotal", &self.input_output_total, sink)?;
        write_optional_code("InputOutputRoute", &self.input_output_route, sink)?;
        sink.end_element()
    }
}

impl WritableSchemaType for IntubationDetailsType {
    open spec fn events(&self, name: Seq<char>) -> Seq<MarkupEvent> {
        element(
            name,
            optional_code("IntubationApproach"@, self.intubation_approach)
                + optional_number("IntubationAttempts"@, self.intubation_attempts)
                + optional_number("TubeSize"@, self.tube_size)
                + optional_string("TubeType"@, self.tube_type)
                + optional_child(
                    "IntubationDetailsPropertiesSet"@,
                    self.intubation_details_properties_set,
                ),
        )
    }

    fn write(&self, name: &str, sink: &mut XmlSink) -> (r: Result<(), AQIError>) {
        sink.start_element(name)?;
        write_optional_code("IntubationApproach", &self.intubation_approach, sink)?;
        write_optional_number("IntubationAttempts", &self.intubation_attempts, sink)?;
        write_optional_number("TubeSize", &self.tube_size, sink)?;
        write_optional_string("TubeType", &self.tube_type, sink)?;
        write_optional_child(
            "IntubationDetailsPropertiesSet",
            &self.intubation_details_properties_set,
            sink,
        )?;
        sink.end_element()
    }
}

impl WritableSchemaType for IntubationDetailsPropertiesType {
    open spec fn events(&self, name: Seq<char>) -> Seq<MarkupEvent> {
        element(
            name,
            each_child("IntubationDetailsProperties"@, self.intubation_details_properties@),
        )
    }

    fn write(&self, name: &str, sink: &mut XmlSink) -> (r: Result<(), AQIError>) {
        sink.start_element(name)?;
        write_each_child("IntubationDetailsProperties", &self.intubation_details_properties, sink)?;
        sink.end_element()
    }
}

impl WritableSchemaType for IntubationDetailsPropertyType {
    open spec fn events(&self, name: Seq<char>) -> Seq<MarkupEvent> {
        element(
            name,
            leaf("IntubationProperty"@, self.intubation_property@)
                + optional_string(
                    "IntubationDetailsPropertyValue"@,
                    self.intubation_details_property_value,
                ),
        )
    }

    fn write(&self, name: &str, sink: &mut XmlSink) -> (r: Result<(), AQIError>) {
        sink.start_element(name)?;
        write_value("IntubationProperty", self.intubation_property.as_str(), sink)?;
        write_optional_string(
            "IntubationDetailsPropertyValue",
            &self.intubation_details_property_value,
            sink,
        )?;
        sink.end_element()
    }
}

impl WritableSchemaType for AnesthesiaDetailsSetType {
    open spec fn events(&self, name: Seq<char>) -> Seq<MarkupEvent> {
        element(
            name,
            each_child("AnesthesiaDetailsData"@, self.anesthesia_details_data@),
        )
    }

    fn write(&self, name: &str, sink: &mut XmlSink) -> (r: Result<(), AQIError>) {
        sink.start_element(name)?;
        write_each_child("AnesthesiaDetailsData", &self.anesthesia_details_data, sink)?;
        sink.end_element()
    }
}

impl WritableSchemaType for AnesthesiaDetailsDataType {
    open spec fn events(&self, name: Seq<char>) -> Seq<MarkupEvent> {
        element(
            name,
            leaf("AnesthesiaDetailsCategory"@, self.anesthesia_details_category.spec_value())
                + optional_string("AnesthesiaDetailsValue"@, self.anesthesia_details_value),
        )
    }

    fn write(&self, name: &str, sink: &mut XmlSink) -> (r: Result<(), AQIError>) {
        sink.start_element(name)?;
        write_value("AnesthesiaDetailsCategory", self.anesthesia_details_category.value(), sink)?;
        write_optional_string("AnesthesiaDetailsValue", &self.anesthesia_details_value, sink)?;
        sink.end_element()
    }
}

impl WritableSchemaType for MedicationsTotalSetType {
    open spec fn events(&self, name: Seq<char>) -> Seq<MarkupEvent> {
        element(
            name,
            each_child("MedicationsTotal"@, self.medications_totals@),
        )
    }

    fn write(&self, name: &str, sink: &mut XmlSink) -> (r: Result<(), AQIError>) {
        sink.start_element(name)?;
        write_each_child("MedicationsTotal", &self.medications_totals, sink)?;
        sink.end_element()
    }
}

} // verus!
