use vstd::prelude::*;

verus! {

/// Either a specific value, or a wildcard that matches every value of its domain.
#[derive(Clone, Copy, PartialEq, Eq, Hash, Debug, Structural)]
pub enum Match<T> {
    /// Matches a specific value.
    Specific(T),
    /// Matches all values.
    All,
}

impl<T> Match<T> {
    /// A field matches when either side is a wildcard, or both hold the same value.
    pub open spec fn spec_matches(self, other: Match<T>) -> bool {
        match (self, other) {
            (Match::Specific(x), Match::Specific(y)) => x == y,
            _ => true,
        }
    }
}

/// Decodes a raw signed 16-bit field: every negative value is the wildcard.
pub open spec fn decode16(raw: i16) -> Match<u16> {
    if raw < 0 {
        Match::All
    } else {
        Match::Specific(raw as u16)
    }
}

/// Decodes a raw signed 32-bit field: every negative value is the wildcard.
pub open spec fn decode32(raw: i32) -> Match<u32> {
    if raw < 0 {
        Match::All
    } else {
        Match::Specific(raw as u32)
    }
}

/// Encodes a 16-bit field: the wildcard is `-1`, a specific value is reinterpreted
/// as a two's-complement `i16`.
pub open spec fn encode16(m: Match<u16>) -> i16 {
    match m {
        Match::Specific(v) => if v <= 0x7fff {
            v as i16
        } else {
            (v - 0x10000) as i16
        },
        Match::All => -1i16,
    }
}

/// Encodes a 32-bit field: the wildcard is `-1`, a specific value is reinterpreted
/// as a two's-complement `i32`.
pub open spec fn encode32(m: Match<u32>) -> i32 {
    match m {
        Match::Specific(v) => if v <= 0x7fff_ffff {
            v as i32
        } else {
            (v - 0x1_0000_0000) as i32
        },
        Match::All => -1i32,
    }
}

fn encode_u16(m: Match<u16>) -> (r: i16)
    ensures
        r == encode16(m),
{
    match m {
        Match::Specific(v) => if v <= 0x7fff {
            v as i16
        } else {
            (v as i32 - 0x10000) as i16
        },
        Match::All => -1,
    }
}

fn encode_u32(m: Match<u32>) -> (r: i32)
    ensures
        r == encode32(m),
{
    match m {
        Match::Specific(v) => if v <= 0x7fff_ffff {
            v as i32
        } else {
            (v as i64 - 0x1_0000_0000) as i32
        },
        Match::All => -1,
    }
}

impl<T> From<T> for Match<T> {
    fn from(value: T) -> (r: Match<T>)
        ensures
            r == Match::Specific(value),
    {
        Match::Specific(value)
    }
}

impl<T> vstd::std_specs::convert::FromSpecImpl<T> for Match<T> {
    open spec fn obeys_from_spec() -> bool {
        true
    }

    open spec fn from_spec(v: T) -> Match<T> {
        Match::Specific(v)
    }
}

impl From<u8> for Match<u16> {
    fn from(value: u8) -> (r: Match<u16>)
        ensures
            r == Match::Specific(value as u16),
    {
        Match::Specific(value as u16)
    }
}

impl vstd::std_specs::convert::FromSpecImpl<u8> for Match<u16> {
    open spec fn obeys_from_spec() -> bool {
        true
    }

    open spec fn from_spec(v: u8) -> Match<u16> {
        Match::Specific(v as u16)
    }
}

impl From<u8> for Match<u32> {
    fn from(value: u8) -> (r: Match<u32>)
        ensures
            r == Match::Specific(value as u32),
    {
        Match::Specific(value as u32)
    }
}

impl vstd::std_specs::convert::FromSpecImpl<u8> for Match<u32> {
    open spec fn obeys_from_spec() -> bool {
        true
    }

    open spec fn from_spec(v: u8) -> Match<u32> {
        Match::Specific(v as u32)
    }
}

impl From<u16> for Match<u32> {
    fn from(value: u16) -> (r: Match<u32>)
        ensures
            r == Match::Specific(value as u32),
    {
        Match::Specific(value as u32)
    }
}

impl vstd::std_specs::convert::FromSpecImpl<u16> for Match<u32> {
    open spec fn obeys_from_spec() -> bool {
        true
    }

    open spec fn from_spec(v: u16) -> Match<u32> {
        Match::Specific(v as u32)
    }
}

impl Match<u16> {
    /// Returns `true` if either side is [`Match::All`], or both hold equal values.
    pub fn matches(&self, other: &Match<u16>) -> (r: bool)
        ensures
            r == self.spec_matches(*other),
    {
        match (self, other) {
            (Match::Specific(x), Match::Specific(y)) => *x == *y,
            _ => true,
        }
    }

    /// Creates the [`Match`] for a raw `i16`: any negative value is [`Match::All`].
    pub fn from_raw(raw: i16) -> (r: Match<u16>)
        ensures
            r == decode16(raw),
            raw < 0 ==> r == Match::<u16>::All,
            raw >= 0 ==> r == Match::Specific(raw as u16),
    {
        if raw < 0 {
            Match::All
        } else {
            Match::Specific(raw as u16)
        }
    }
}

impl Match<u32> {
    /// Returns `true` if either side is [`Match::All`], or both hold equal values.
    pub fn matches(&self, other: &Match<u32>) -> (r: bool)
        ensures
            r == self.spec_matches(*other),
    {
        match (self, other) {
            (Match::Specific(x), Match::Specific(y)) => *x == *y,
            _ => true,
        }
    }

    /// Creates the [`Match`] for a raw `i32`: any negative value is [`Match::All`].
    pub fn from_raw(raw: i32) -> (r: Match<u32>)
        ensures
            r == decode32(raw),
            raw < 0 ==> r == Match::<u32>::All,
            raw >= 0 ==> r == Match::Specific(raw as u32),
    {
        if raw < 0 {
            Match::All
        } else {
            Match::Specific(raw as u32)
        }
    }
}

/// A Port, Channel, Key, Note-id tuple addressing notes and voices; each part is a
/// specific value or a wildcard.
#[derive(Clone, Copy, PartialEq, Eq, Hash, Debug, Structural)]
pub struct Pckn {
    /// The note port the event arrived on.
    pub port: Match<u16>,
    /// The channel, akin to MIDI 1 channels.
    pub channel: Match<u16>,
    /// The key, as MIDI 1 key numbers (60 is middle C).
    pub key: Match<u16>,
    /// The identifier telling overlapping notes of one key apart.
    pub note_id: Match<u32>,
}

impl Pckn {
    /// Two tuples match when each of the four parts matches.
    pub open spec fn spec_matches(self, other: Pckn) -> bool {
        &&& self.port.spec_matches(other.port)
        &&& self.channel.spec_matches(other.channel)
        &&& self.key.spec_matches(other.key)
        &&& self.note_id.spec_matches(other.note_id)
    }

    /// The tuple decoded from its raw parts.
    pub open spec fn spec_from_raw(port: i16, channel: i16, key: i16, note_id: i32) -> Pckn {
        Pckn {
            port: decode16(port),
            channel: decode16(channel),
            key: decode16(key),
            note_id: decode32(note_id),
        }
    }

    /// The tuple whose four parts are all wildcards.
    pub open spec fn spec_match_all() -> Pckn {
        Pckn { port: Match::All, channel: Match::All, key: Match::All, note_id: Match::All }
    }

    /// Constructs a tuple from its four parts.
    pub fn new(port: Match<u16>, channel: Match<u16>, key: Match<u16>, note_id: Match<u32>) -> (r:
        Pckn)
        ensures
            r == (Pckn { port, channel, key, note_id }),
    {
        Pckn { port, channel, key, note_id }
    }

    /// Returns the tuple that matches every event: all four parts are [`Match::All`].
    pub fn match_all() -> (r: Pckn)
        ensures
            r == Pckn::spec_match_all(),
    {
        Pckn { port: Match::All, channel: Match::All, key: Match::All, note_id: Match::All }
    }

    /// Returns `true` if the tuples match part by part, comparing port, channel, key,
    /// then note id, and stopping at the first part that differs.
    pub fn matches(&self, other: &Pckn) -> (r: bool)
        ensures
            r == self.spec_matches(*other),
    {
        if !self.port.matches(&other.port) {
            return false;
        }
        if !self.channel.matches(&other.channel) {
            return false;
        }
        if !self.key.matches(&other.key) {
            return false;
        }
        self.note_id.matches(&other.note_id)
    }

    /// Constructs a tuple from its raw parts; any negative part is [`Match::All`].
    pub fn from_raw(port: i16, channel: i16, key: i16, note_id: i32) -> (r: Pckn)
        ensures
            r == Pckn::spec_from_raw(port, channel, key, note_id),
    {
        Pckn {
            port: Match::<u16>::from_raw(port),
            channel: Match::<u16>::from_raw(channel),
            key: Match::<u16>::from_raw(key),
            note_id: Match::<u32>::from_raw(note_id),
        }
    }

    /// The raw port: `-1` for [`Match::All`], else the value as an `i16`.
    pub fn raw_port(&self) -> (r: i16)
        ensures
            r == encode16(self.port),
    {
        encode_u16(self.port)
    }

    /// The raw channel: `-1` for [`Match::All`], else the value as an `i16`.
    pub fn raw_channel(&self) -> (r: i16)
        ensures
            r == encode16(self.channel),
    {
        encode_u16(self.channel)
    }

    /// The raw key: `-1` for [`Match::All`], else the value as an `i16`.
    pub fn raw_key(&self) -> (r: i16)
        ensures
            r == encode16(self.key),
    {
        encode_u16(self.key)
    }

    /// The raw note id: `-1` for [`Match::All`], else the value as an `i32`.
    pub fn raw_note_id(&self) -> (r: i32)
        ensures
            r == encode32(self.note_id),
    {
        encode_u32(self.note_id)
    }
}

/// A wildcard matches anything from either side, and two specific values match
/// exactly when they are equal.
pub proof fn lemma_match_wildcard_and_equality<T>(m: Match<T>, x: T, y: T)
    ensures
        Match::<T>::All.spec_matches(m),
        m.spec_matches(Match::All),
        Match::Specific(x).spec_matches(Match::Specific(y)) == (x == y),
{
}

/// For a 16-bit value that fits a non-negative `i16`, decoding its raw encoding gives
/// it back and re-encoding yields the value itself; every negative raw value,
/// `-1` among them, decodes to the wildcard.
pub proof fn lemma_raw16_round_trip(v: u16, negative: i16)
    requires
        v <= 0x7fff,
        negative < 0,
    ensures
        decode16(encode16(Match::Specific(v))) == Match::Specific(v),
        encode16(decode16(encode16(Match::Specific(v)))) == v as int,
        decode16(-1i16) == Match::<u16>::All,
        decode16(negative) == Match::<u16>::All,
{
}

/// For a 32-bit value that fits a non-negative `i32`, decoding its raw encoding gives
/// it back and re-encoding yields the value itself; every negative raw value
/// decodes to the wildcard.
pub proof fn lemma_raw32_round_trip(v: u32, negative: i32)
    requires
        v <= 0x7fff_ffff,
        negative < 0,
    ensures
        decode32(encode32(Match::Specific(v))) == Match::Specific(v),
        encode32(decode32(encode32(Match::Specific(v)))) == v as int,
        decode32(-1i32) == Match::<u32>::All,
        decode32(negative) == Match::<u32>::All,
{
}

/// The all-wildcard tuple matches every tuple, from either side.
pub proof fn lemma_match_all_matches_everything(p: Pckn)
    ensures
        Pckn::spec_match_all().spec_matches(p),
        p.spec_matches(Pckn::spec_match_all()),
{
}

} // verus!
