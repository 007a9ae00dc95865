use vstd::prelude::*;

use crate::note::{
    is_note_header, kind_of_type_id, EventHeader, NoteEvent, NoteKind, RawNoteEvent,
};

verus! {

/// One record of an event list: a record in the note layout, or a record of any
/// other layout, of which only the header is read.
#[derive(Clone, Copy, PartialEq, Eq, Hash, Debug, Structural)]
pub enum RawEvent {
    Note(RawNoteEvent),
    Other(EventHeader),
}

impl RawEvent {
    /// The header of the record.
    pub open spec fn spec_header(self) -> EventHeader {
        match self {
            RawEvent::Note(n) => n.header,
            RawEvent::Other(h) => h,
        }
    }

    /// The note event a record holds: a note-layout record whose header names the
    /// core space, a note variant and the note size; `None` for anything else.
    pub open spec fn spec_as_note(self) -> Option<NoteEvent> {
        match self {
            RawEvent::Note(n) => match kind_of_type_id(n.header.type_id) {
                Some(kind) => if is_note_header(n.header, kind) {
                    NoteEvent::spec_from_raw(n, kind).ok()
                } else {
                    None
                },
                None => None,
            },
            RawEvent::Other(_) => None,
        }
    }

    /// The header of the record.
    pub fn header(&self) -> (r: EventHeader)
        ensures
            r == self.spec_header(),
    {
        match self {
            RawEvent::Note(n) => n.header,
            RawEvent::Other(h) => *h,
        }
    }

    /// Decodes the record as a note event; a record of another space, tag or size
    /// yields `None`, so that unknown records are skipped rather than refused.
    pub fn as_note(&self) -> (r: Option<NoteEvent>)
        ensures
            r == self.spec_as_note(),
    {
        match self {
            RawEvent::Note(n) => match NoteKind::from_type_id(n.header.type_id) {
                Some(kind) => match NoteEvent::from_raw(n, kind) {
                    Ok(e) => Some(e),
                    Err(_) => None,
                },
                None => None,
            },
            RawEvent::Other(_) => None,
        }
    }
}

/// The note events among `records`, in order, skipping every record that does not
/// decode as one.
pub open spec fn notes_of(records: Seq<RawEvent>) -> Seq<NoteEvent>
    decreases records.len(),
{
    if records.len() == 0 {
        Seq::empty()
    } else {
        let rest = notes_of(records.drop_last());
        match records.last().spec_as_note() {
            Some(e) => rest.push(e),
            None => rest,
        }
    }
}

/// An ordered, append-only list of event records. Records keep the order in which
/// they were appended; the list does not sort them by time.
pub struct EventList {
    records: Vec<RawEvent>,
}

impl View for EventList {
    type V = Seq<RawEvent>;

    closed spec fn view(&self) -> Seq<RawEvent> {
        self.records@
    }
}

impl EventList {
    /// An empty list.
    pub fn new() -> (r: EventList)
        ensures
            r@ == Seq::<RawEvent>::empty(),
    {
        EventList { records: Vec::new() }
    }

    /// Appends one record at the end.
    pub fn push(&mut self, record: RawEvent)
        ensures
            final(self)@ == old(self)@.push(record),
    {
        self.records.push(record);
    }

    /// Appends a note event, in its raw layout, at the end.
    pub fn push_note(&mut self, event: &NoteEvent)
        ensures
            final(self)@ == old(self)@.push(RawEvent::Note(event.spec_into_raw())),
    {
        let raw = event.into_raw();
        self.records.push(RawEvent::Note(raw));
    }

    /// The number of records.
    pub fn len(&self) -> (r: usize)
        ensures
            r == self@.len(),
    {
        self.records.len()
    }

    /// Whether the list holds no record.
    pub fn is_empty(&self) -> (r: bool)
        ensures
            r == (self@.len() == 0),
    {
        self.records.len() == 0
    }

    /// The record at `index`, or `None` past the end.
    pub fn get(&self, index: usize) -> (r: Option<RawEvent>)
        ensures
            index < self@.len() ==> r == Some(self@[index as int]),
            index >= self@.len() ==> r is None,
    {
        if index < self.records.len() {
            Some(self.records[index])
        } else {
            None
        }
    }

    /// The note events of the list, in order; records that do not decode as a note
    /// event are skipped.
    pub fn note_events(&self) -> (r: Vec<NoteEvent>)
        ensures
            r@ == notes_of(self@),
    {
        let mut out: Vec<NoteEvent> = Vec::new();
        let mut i: usize = 0;
        while i < self.records.len()
            invariant
                i <= self.records@.len(),
                out@ == notes_of(self.records@.take(i as int)),
            decreases self.records@.len() - i,
        {
            let ghost before = self.records@.take(i as int);
            assert(self.records@.take(i as int + 1).drop_last() == before);
            if let Some(e) = self.records[i].as_note() {
                out.push(e);
            }
            i = i + 1;
        }
        assert(self.records@.take(i as int) == self.records@);
        out
    }
}

/// Successive calls of [`EventList::push`] on an empty list, the `i`-th appending
/// `records[i]` and turning the list's contents from `states[i]` into
/// `states[i + 1]`, leave exactly those records: as many as were appended, in the
/// order they were appended, whatever their variants.
pub proof fn lemma_pushes_keep_order(states: Seq<Seq<RawEvent>>, records: Seq<RawEvent>)
    requires
        states.len() == records.len() + 1,
        states[0] == Seq::<RawEvent>::empty(),
        forall|i: int| 0 <= i < records.len() ==> #[trigger] states[i + 1] == states[i].push(records[i]),
    ensures
        states.last() == records,
        states.last().len() == records.len(),
    decreases records.len(),
{
    if records.len() > 0 {
        let n = records.len() - 1;
        assert forall|i: int| 0 <= i < records.drop_last().len() implies #[trigger] states.drop_last()[i + 1]
            == states.drop_last()[i].push(records.drop_last()[i]) by {
            assert(states[i + 1] == states[i].push(records[i]));
        }
        lemma_pushes_keep_order(states.drop_last(), records.drop_last());
        assert(states[n + 1] == states[n].push(records[n]));
        assert(records.drop_last().push(records.last()) == records);
    }
}

/// A note event appended in its raw layout decodes back to itself.
pub proof fn lemma_pushed_note_decodes(e: NoteEvent)
    ensures
        RawEvent::Note(e.spec_into_raw()).spec_as_note() == Some(e),
{
}

/// The raw records of a run of note events, in order.
pub open spec fn raw_notes(events: Seq<NoteEvent>) -> Seq<RawEvent> {
    events.map_values(|e: NoteEvent| RawEvent::Note(e.spec_into_raw()))
}

/// A list built from note events alone decodes to exactly those events, one for
/// each record, in the order they were appended.
pub proof fn lemma_note_list_decodes(events: Seq<NoteEvent>)
    ensures
        notes_of(raw_notes(events)) == events,
        notes_of(raw_notes(events)).len() == raw_notes(events).len(),
    decreases events.len(),
{
    if events.len() > 0 {
        lemma_note_list_decodes(events.drop_last());
        assert(raw_notes(events).drop_last() == raw_notes(events.drop_last()));
        assert(events.drop_last().push(events.last()) == events);
    }
}

} // verus!
