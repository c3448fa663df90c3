//! The event stream that serialisation drives into the XML writer.
use vstd::prelude::*;
use xml::writer::{EventWriter, XmlEvent};

use crate::AQIError;

verus! {

#[verifier::external_type_specification]
#[verifier::external_body]
#[verifier::reject_recursive_types(W)]
pub struct ExEventWriter<W>(EventWriter<W>);

#[verifier::external_type_specification]
#[verifier::external_body]
pub struct ExEmitterError(xml::writer::Error);

/// One event handed to the XML writer.
pub enum MarkupEvent {
    Start(Seq<char>),
    Text(Seq<char>),
    End,
}

/// The element `<tag>text</tag>`.
pub open spec fn leaf(tag: Seq<char>, text: Seq<char>) -> Seq<MarkupEvent> {
    seq![MarkupEvent::Start(tag)] + seq![MarkupEvent::Text(text)] + seq![MarkupEvent::End]
}

/// The element `<tag>` around the events `children`.
pub open spec fn element(tag: Seq<char>, children: Seq<MarkupEvent>) -> Seq<MarkupEvent> {
    seq![MarkupEvent::Start(tag)] + children + seq![MarkupEvent::End]
}

/// Appending event sequences is associative.
pub broadcast proof fn lemma_append_assoc(
    a: Seq<MarkupEvent>,
    b: Seq<MarkupEvent>,
    c: Seq<MarkupEvent>,
)
    ensures
        #[trigger] (a + (b + c)) == (a + b) + c,
{
    assert(a + (b + c) =~= (a + b) + c);
}

/// `after` is `before` followed by a part of `events` that stops short of its end.
#[verifier::opaque]
pub open spec fn wrote_part(
    before: Seq<MarkupEvent>,
    after: Seq<MarkupEvent>,
    events: Seq<MarkupEvent>,
) -> bool {
    exists|k: int| 0 <= k < events.len() && after == before + events.take(k)
}

/// A part of `x`, or `x` whole followed by a part of `y`, is a part of `x + y`.
pub broadcast proof fn lemma_wrote_part_append(
    before: Seq<MarkupEvent>,
    after: Seq<MarkupEvent>,
    x: Seq<MarkupEvent>,
    y: Seq<MarkupEvent>,
)
    requires
        wrote_part(before, after, x) || wrote_part(before + x, after, y),
    ensures
        #[trigger] wrote_part(before, after, x + y),
{
    reveal(wrote_part);
    if wrote_part(before, after, x) {
        let k = choose|k: int| 0 <= k < x.len() && after == before + x.take(k);
        assert((x + y).take(k) =~= x.take(k));
    } else {
        let k = choose|k: int| 0 <= k < y.len() && after == (before + x) + y.take(k);
        assert((x + y).take(x.len() + k) =~= x + y.take(k));
        assert(before + (x + y).take(x.len() + k) =~= (before + x) + y.take(k));
    }
}

/// Nothing written is a part of any single event.
proof fn lemma_wrote_nothing(before: Seq<MarkupEvent>, event: MarkupEvent)
    ensures
        wrote_part(before, before, seq![event]),
{
    reveal(wrote_part);
    assert(before + seq![event].take(0) =~= before);
}

/// Relies on xml::writer::EventWriter::new: a writer over an empty buffer, default configuration.
#[verifier::external_body]
fn new_event_writer() -> EventWriter<Vec<u8>> {
    EventWriter::new(Vec::new())
}

/// Relies on xml::writer::EventWriter::write, given XmlEvent::start_element.
#[verifier::external_body]
fn write_start_element(w: &mut EventWriter<Vec<u8>>, name: &str) -> Result<(), xml::writer::Error> {
    w.write(XmlEvent::start_element(name))
}

/// Relies on xml::writer::EventWriter::write, given XmlEvent::characters.
#[verifier::external_body]
fn write_characters(w: &mut EventWriter<Vec<u8>>, text: &str) -> Result<(), xml::writer::Error> {
    w.write(XmlEvent::characters(text))
}

/// Relies on xml::writer::EventWriter::write, given XmlEvent::end_element.
#[verifier::external_body]
fn write_end_element(w: &mut EventWriter<Vec<u8>>) -> Result<(), xml::writer::Error> {
    w.write(XmlEvent::end_element())
}

/// Relies on xml::writer::EventWriter::into_inner: the buffer the writer wrote into.
#[verifier::external_body]
fn event_writer_into_inner(w: EventWriter<Vec<u8>>) -> Vec<u8> {
    w.into_inner()
}

/// An XML writer over an in-memory buffer, together with the events it accepted and the
/// number of events it refused.
pub struct XmlSink {
    writer: EventWriter<Vec<u8>>,
    log: Ghost<Seq<MarkupEvent>>,
    refused: Ghost<nat>,
}

impl XmlSink {
    /// The events that the writer accepted so far, oldest first.
    pub closed spec fn events(&self) -> Seq<MarkupEvent> {
        self.log@
    }

    /// How many events the writer refused so far.
    pub closed spec fn refusals(&self) -> nat {
        self.refused@
    }

    /// A sink over a fresh writer that has written nothing.
    pub fn new() -> (r: XmlSink)
        ensures
            r.events() == Seq::<MarkupEvent>::empty(),
            r.refusals() == 0,
    {
        XmlSink { writer: new_event_writer(), log: Ghost(Seq::empty()), refused: Ghost(0) }
    }

    /// Hands the start tag `name` to the writer.
    pub fn start_element(&mut self, name: &str) -> (r: Result<(), AQIError>)
        ensures
            r is Ok ==> final(self).events()
                == old(self).events() + seq![MarkupEvent::Start(name@)],
            r is Ok ==> final(self).refusals() == old(self).refusals(),
            r is Err ==> r == Err::<(), AQIError>(AQIError::EmitterError),
            r is Err ==> final(self).events() == old(self).events(),
            r is Err ==> final(self).refusals() == old(self).refusals() + 1,
            r is Err ==> wrote_part(
                old(self).events(),
                final(self).events(),
                seq![MarkupEvent::Start(name@)],
            ),
    {
        match write_start_element(&mut self.writer, name) {
            Ok(()) => {
                self.log = Ghost(self.log@ + seq![MarkupEvent::Start(name@)]);
                Ok(())
            },
            Err(_) => {
                proof {
                    lemma_wrote_nothing(self.log@, MarkupEvent::Start(name@));
                }
                self.refused = Ghost(self.refused@ + 1);
                Err(AQIError::EmitterError)
            },
        }
    }

    /// Hands the text `text` to the writer, which escapes it.
    pub fn characters(&mut self, text: &str) -> (r: Result<(), AQIError>)
        ensures
            r is Ok ==> final(self).events()
                == old(self).events() + seq![MarkupEvent::Text(text@)],
            r is Ok ==> final(self).refusals() == old(self).refusals(),
            r is Err ==> r == Err::<(), AQIError>(AQIError::EmitterError),
            r is Err ==> final(self).events() == old(self).events(),
            r is Err ==> final(self).refusals() == old(self).refusals() + 1,
            r is Err ==> wrote_part(
                old(self).events(),
                final(self).events(),
                seq![MarkupEvent::Text(text@)],
            ),
    {
        match write_characters(&mut self.writer, text) {
            Ok(()) => {
                self.log = Ghost(self.log@ + seq![MarkupEvent::Text(text@)]);
                Ok(())
            },
            Err(_) => {
                proof {
                    lemma_wrote_nothing(self.log@, MarkupEvent::Text(text@));
                }
                self.refused = Ghost(self.refused@ + 1);
                Err(AQIError::EmitterError)
            },
        }
    }

    /// Hands the end tag of the innermost open element to the writer.
    pub fn end_element(&mut self) -> (r: Result<(), AQIError>)
        ensures
            r is Ok ==> final(self).events() == old(self).events() + seq![MarkupEvent::End],
            r is Ok ==> final(self).refusals() == old(self).refusals(),
            r is Err ==> r == Err::<(), AQIError>(AQIError::EmitterError),
            r is Err ==> final(self).events() == old(self).events(),
            r is Err ==> final(self).refusals() == old(self).refusals() + 1,
            r is Err ==> wrote_part(
                old(self).events(),
                final(self).events(),
                seq![MarkupEvent::End],
            ),
    {
        match write_end_element(&mut self.writer) {
            Ok(()) => {
                self.log = Ghost(self.log@ + seq![MarkupEvent::End]);
                Ok(())
            },
            Err(_) => {
                proof {
                    lemma_wrote_nothing(self.log@, MarkupEvent::End);
                }
                self.refused = Ghost(self.refused@ + 1);
                Err(AQIError::EmitterError)
            },
        }
    }

    /// The document bytes written so far.
    pub fn into_bytes(self) -> Vec<u8> {
        event_writer_into_inner(self.writer)
    }
}

} // verus!
