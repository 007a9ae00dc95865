use vstd::prelude::*;

use crate::pckn::{decode16, decode32, encode16, encode32, Match, Pckn};

verus! {

/// The event space that holds the core event types.
pub const CORE_EVENT_SPACE_ID: u16 = 0;

/// Type tag of a note-on event in the core space.
pub const NOTE_ON: u16 = 0;

/// Type tag of a note-off event in the core space.
pub const NOTE_OFF: u16 = 1;

/// Type tag of a note-choke event in the core space.
pub const NOTE_CHOKE: u16 = 2;

/// Type tag of a note-end event in the core space.
pub const NOTE_END: u16 = 3;

/// Size in bytes of a note event record, header included.
pub const NOTE_EVENT_SIZE: u32 = 40;

/// Flag: the event was performed live rather than generated.
pub const EVENT_IS_LIVE: u16 = 1;

/// Flag: the event should not be recorded.
pub const EVENT_DONT_RECORD: u16 = 2;

/// The header that starts every event record.
#[derive(Clone, Copy, PartialEq, Eq, Hash, Debug, Structural)]
pub struct EventHeader {
    /// Size of the whole record in bytes, header included.
    pub size: u32,
    /// Sample offset of the event within the current block.
    pub time: u32,
    /// The tag of the record's variant within its event space.
    pub type_id: u16,
    /// Bit set, e.g. [`EVENT_IS_LIVE`].
    pub flags: u16,
    /// The namespace the type tag belongs to.
    pub space_id: u16,
}

/// The four note event variants of the core space, which share one layout.
#[derive(Clone, Copy, PartialEq, Eq, Hash, Debug, Structural)]
pub enum NoteKind {
    On,
    Off,
    Choke,
    End,
}

/// The type tag of each note variant.
pub open spec fn type_id_of(kind: NoteKind) -> u16 {
    match kind {
        NoteKind::On => NOTE_ON,
        NoteKind::Off => NOTE_OFF,
        NoteKind::Choke => NOTE_CHOKE,
        NoteKind::End => NOTE_END,
    }
}

/// The note variant a type tag names, if any.
pub open spec fn kind_of_type_id(type_id: u16) -> Option<NoteKind> {
    if type_id == NOTE_ON {
        Some(NoteKind::On)
    } else if type_id == NOTE_OFF {
        Some(NoteKind::Off)
    } else if type_id == NOTE_CHOKE {
        Some(NoteKind::Choke)
    } else if type_id == NOTE_END {
        Some(NoteKind::End)
    } else {
        None
    }
}

impl NoteKind {
    /// The type tag of this variant.
    pub fn type_id(&self) -> (r: u16)
        ensures
            r == type_id_of(*self),
    {
        match self {
            NoteKind::On => NOTE_ON,
            NoteKind::Off => NOTE_OFF,
            NoteKind::Choke => NOTE_CHOKE,
            NoteKind::End => NOTE_END,
        }
    }

    /// The note variant a type tag names, or `None` for any other tag.
    pub fn from_type_id(type_id: u16) -> (r: Option<NoteKind>)
        ensures
            r == kind_of_type_id(type_id),
    {
        if type_id == NOTE_ON {
            Some(NoteKind::On)
        } else if type_id == NOTE_OFF {
            Some(NoteKind::Off)
        } else if type_id == NOTE_CHOKE {
            Some(NoteKind::Choke)
        } else if type_id == NOTE_END {
            Some(NoteKind::End)
        } else {
            None
        }
    }
}

/// The fixed layout of a note event record, field for field; the velocity is held
/// as the bit pattern of an IEEE-754 binary64 number.
#[derive(Clone, Copy, PartialEq, Eq, Hash, Debug, Structural)]
pub struct RawNoteEvent {
    pub header: EventHeader,
    pub port_index: i16,
    pub channel: i16,
    pub key: i16,
    pub note_id: i32,
    pub velocity: u64,
}

/// The error of a raw record that is not of the variant the caller asked for.
#[derive(Clone, Copy, PartialEq, Eq, Hash, Debug, Structural)]
pub enum EventError {
    /// The record's space, type tag or size is not the one expected.
    TypeMismatch,
}

/// A note event: one of the [`NoteKind`] variants, addressed by a PCKN tuple.
///
/// Port, channel, key and note id are held in their raw form, where a negative
/// value is the wildcard; the velocity is the bit pattern of a binary64 number.
#[derive(Clone, Copy, Debug)]
pub struct NoteEvent {
    pub kind: NoteKind,
    pub time: u32,
    pub flags: u16,
    pub port_index: i16,
    pub channel: i16,
    pub key: i16,
    pub note_id: i32,
    pub velocity: u64,
}

/// Whether the bits of a binary64 number encode a NaN: all exponent bits set and a
/// non-zero mantissa.
pub open spec fn is_nan_bits(b: u64) -> bool {
    (b >> 52u64) & 0x7ffu64 == 0x7ffu64 && b & 0x000f_ffff_ffff_ffffu64 != 0
}

/// Whether the bits of a binary64 number encode a zero of either sign.
pub open spec fn is_zero_bits(b: u64) -> bool {
    b & 0x7fff_ffff_ffff_ffffu64 == 0
}

/// Numeric equality of two binary64 numbers given by their bits: a NaN equals
/// nothing, not even itself; the two zeros are equal; any other two numbers are
/// equal exactly when their bits are.
pub open spec fn velocity_eq(a: u64, b: u64) -> bool {
    &&& !is_nan_bits(a)
    &&& !is_nan_bits(b)
    &&& (a == b || (is_zero_bits(a) && is_zero_bits(b)))
}

/// Numeric equality of two binary64 numbers given by their bits.
pub fn velocities_equal(a: u64, b: u64) -> (r: bool)
    ensures
        r == velocity_eq(a, b),
{
    let a_nan = (a >> 52u64) & 0x7ffu64 == 0x7ffu64 && a & 0x000f_ffff_ffff_ffffu64 != 0;
    let b_nan = (b >> 52u64) & 0x7ffu64 == 0x7ffu64 && b & 0x000f_ffff_ffff_ffffu64 != 0;
    let both_zero = a & 0x7fff_ffff_ffff_ffffu64 == 0 && b & 0x7fff_ffff_ffff_ffffu64 == 0;
    !a_nan && !b_nan && (a == b || both_zero)
}

/// Whether a header describes a note record of the given variant.
pub open spec fn is_note_header(h: EventHeader, kind: NoteKind) -> bool {
    &&& h.space_id == CORE_EVENT_SPACE_ID
    &&& h.type_id == type_id_of(kind)
    &&& h.size == NOTE_EVENT_SIZE
}

impl NoteEvent {
    /// The header of this event.
    pub open spec fn spec_header(self) -> EventHeader {
        EventHeader {
            size: NOTE_EVENT_SIZE,
            time: self.time,
            type_id: type_id_of(self.kind),
            flags: self.flags,
            space_id: CORE_EVENT_SPACE_ID,
        }
    }

    /// The raw layout of this event.
    pub open spec fn spec_into_raw(self) -> RawNoteEvent {
        RawNoteEvent {
            header: self.spec_header(),
            port_index: self.port_index,
            channel: self.channel,
            key: self.key,
            note_id: self.note_id,
            velocity: self.velocity,
        }
    }

    /// The event read from a raw record asserted to be of variant `kind`.
    pub open spec fn spec_from_raw(raw: RawNoteEvent, kind: NoteKind) -> Result<
        NoteEvent,
        EventError,
    > {
        if is_note_header(raw.header, kind) {
            Ok(
                NoteEvent {
                    kind,
                    time: raw.header.time,
                    flags: raw.header.flags,
                    port_index: raw.port_index,
                    channel: raw.channel,
                    key: raw.key,
                    note_id: raw.note_id,
                    velocity: raw.velocity,
                },
            )
        } else {
            Err(EventError::TypeMismatch)
        }
    }

    /// Two note events are the same note when all but time and flags agree, the
    /// velocities compared as numbers.
    pub open spec fn same_note(self, other: NoteEvent) -> bool {
        &&& self.kind == other.kind
        &&& self.port_index == other.port_index
        &&& self.channel == other.channel
        &&& self.key == other.key
        &&& self.note_id == other.note_id
        &&& velocity_eq(self.velocity, other.velocity)
    }

    /// Constructs a note event with empty flags from its time, PCKN tuple and the bit
    /// pattern of its velocity.
    pub fn new(kind: NoteKind, time: u32, pckn: Pckn, velocity: u64) -> (r: NoteEvent)
        ensures
            r == (NoteEvent {
                kind,
                time,
                flags: 0,
                port_index: encode16(pckn.port),
                channel: encode16(pckn.channel),
                key: encode16(pckn.key),
                note_id: encode32(pckn.note_id),
                velocity,
            }),
    {
        NoteEvent {
            kind,
            time,
            flags: 0,
            port_index: pckn.raw_port(),
            channel: pckn.raw_channel(),
            key: pckn.raw_key(),
            note_id: pckn.raw_note_id(),
            velocity,
        }
    }

    /// The header of this event: its size, time, type tag, flags and the core space.
    pub fn header(&self) -> (r: EventHeader)
        ensures
            r == self.spec_header(),
    {
        EventHeader {
            size: NOTE_EVENT_SIZE,
            time: self.time,
            type_id: self.kind.type_id(),
            flags: self.flags,
            space_id: CORE_EVENT_SPACE_ID,
        }
    }

    /// This event with its flags replaced.
    pub fn with_flags(self, flags: u16) -> (r: NoteEvent)
        ensures
            r == (NoteEvent { flags, ..self }),
    {
        NoteEvent { flags, ..self }
    }

    /// The PCKN tuple of this event, with negative raw parts read as wildcards.
    pub fn pckn(&self) -> (r: Pckn)
        ensures
            r == Pckn::spec_from_raw(self.port_index, self.channel, self.key, self.note_id),
    {
        Pckn::from_raw(self.port_index, self.channel, self.key, self.note_id)
    }

    /// The port, as a [`Match`].
    pub fn port(&self) -> (r: Match<u16>)
        ensures
            r == decode16(self.port_index),
    {
        Match::<u16>::from_raw(self.port_index)
    }

    /// The channel, as a [`Match`].
    pub fn channel(&self) -> (r: Match<u16>)
        ensures
            r == decode16(self.channel),
    {
        Match::<u16>::from_raw(self.channel)
    }

    /// The key, as a [`Match`].
    pub fn key(&self) -> (r: Match<u16>)
        ensures
            r == decode16(self.key),
    {
        Match::<u16>::from_raw(self.key)
    }

    /// The note id, as a [`Match`].
    pub fn note_id(&self) -> (r: Match<u32>)
        ensures
            r == decode32(self.note_id),
    {
        Match::<u32>::from_raw(self.note_id)
    }

    /// The raw layout of this event.
    pub fn into_raw(&self) -> (r: RawNoteEvent)
        ensures
            r == self.spec_into_raw(),
    {
        RawNoteEvent {
            header: self.header(),
            port_index: self.port_index,
            channel: self.channel,
            key: self.key,
            note_id: self.note_id,
            velocity: self.velocity,
        }
    }

    /// Reads a raw record that the caller asserts to be of variant `kind`; fails with
    /// [`EventError::TypeMismatch`] unless the record is in the core space, carries
    /// that variant's tag and has the note record's size.
    pub fn from_raw(raw: &RawNoteEvent, kind: NoteKind) -> (r: Result<NoteEvent, EventError>)
        ensures
            r == NoteEvent::spec_from_raw(*raw, kind),
            r is Ok <==> is_note_header(raw.header, kind),
    {
        let h = raw.header;
        if h.space_id == CORE_EVENT_SPACE_ID && h.type_id == kind.type_id() && h.size
            == NOTE_EVENT_SIZE {
            Ok(
                NoteEvent {
                    kind,
                    time: h.time,
                    flags: h.flags,
                    port_index: raw.port_index,
                    channel: raw.channel,
                    key: raw.key,
                    note_id: raw.note_id,
                    velocity: raw.velocity,
                },
            )
        } else {
            Err(EventError::TypeMismatch)
        }
    }
}

/// Equality of two note events compares variant, port, channel, key, note id and
/// velocity as numbers; time and flags are context, not identity, and are left out.
impl PartialEq for NoteEvent {
    fn eq(&self, other: &NoteEvent) -> (r: bool)
        ensures
            r == self.same_note(*other),
    {
        self.kind == other.kind && self.port_index == other.port_index && self.channel
            == other.channel && self.key == other.key && self.note_id == other.note_id
            && velocities_equal(self.velocity, other.velocity)
    }
}

impl vstd::std_specs::cmp::PartialEqSpecImpl for NoteEvent {
    open spec fn obeys_eq_spec() -> bool {
        true
    }

    open spec fn eq_spec(&self, other: &NoteEvent) -> bool {
        self.same_note(*other)
    }
}

/// Reading back the raw layout of a note event, as the variant it is, gives the
/// event itself, and so an equal one.
pub proof fn lemma_note_raw_round_trip(e: NoteEvent)
    ensures
        NoteEvent::spec_from_raw(e.spec_into_raw(), e.kind) == Ok::<NoteEvent, EventError>(e),
        !is_nan_bits(e.velocity) ==> e.same_note(e),
{
}

/// A raw record read as a variant other than its own is refused.
pub proof fn lemma_note_raw_kind_mismatch(e: NoteEvent, other: NoteKind)
    requires
        other != e.kind,
    ensures
        NoteEvent::spec_from_raw(e.spec_into_raw(), other) == Err::<NoteEvent, EventError>(
            EventError::TypeMismatch,
        ),
{
}

} // verus!
