use clack::list::{EventList, RawEvent};
use clack::note::{
    EventError, EventHeader, NoteEvent, NoteKind, CORE_EVENT_SPACE_ID, EVENT_IS_LIVE, NOTE_EVENT_SIZE,
    NOTE_OFF, NOTE_ON,
};
use clack::pckn::{Match, Pckn};

fn pckn(port: u16, channel: u16, key: u16, note_id: Match<u32>) -> Pckn {
    Pckn::new(Match::Specific(port), Match::Specific(channel), Match::Specific(key), note_id)
}

#[test]
fn note_on_written_and_read_back() {
    let velocity = 0.8f64.to_bits();
    let event = NoteEvent::new(NoteKind::On, 10, pckn(0, 1, 60, Match::Specific(7)), velocity);
    let mut list = EventList::new();
    list.push_note(&event);
    assert_eq!(list.len(), 1);
    let notes = list.note_events();
    assert_eq!(notes.len(), 1);
    let n = notes[0];
    assert_eq!(n.header().time, 10);
    assert_eq!(n.header().type_id, NOTE_ON);
    assert_eq!(n.kind, NoteKind::On);
    assert_eq!(n.port(), Match::Specific(0));
    assert_eq!(n.channel(), Match::Specific(1));
    assert_eq!(n.key(), Match::Specific(60));
    assert_eq!(n.note_id(), Match::Specific(7));
    assert_eq!(f64::from_bits(n.velocity), 0.8);
    assert_eq!(list.get(0).unwrap().header().type_id, NOTE_ON);
}

#[test]
fn note_header_layout() {
    let event = NoteEvent::new(NoteKind::Off, 33, Pckn::match_all(), 0);
    let h = event.header();
    assert_eq!(h, EventHeader { size: NOTE_EVENT_SIZE, time: 33, type_id: NOTE_OFF, flags: 0, space_id: CORE_EVENT_SPACE_ID });
    assert_eq!(NOTE_EVENT_SIZE, 40);
    assert_eq!(event.port_index, -1);
    assert_eq!(event.note_id, -1);
    assert_eq!(event.pckn(), Pckn::match_all());
}

#[test]
fn note_raw_round_trip() {
    let event = NoteEvent::new(NoteKind::Choke, 5, pckn(2, 3, 64, Match::All), 0.5f64.to_bits())
        .with_flags(EVENT_IS_LIVE);
    let raw = event.into_raw();
    assert_eq!(raw.header.flags, EVENT_IS_LIVE);
    let back = NoteEvent::from_raw(&raw, NoteKind::Choke).unwrap();
    assert!(back == event);
    assert_eq!(back.time, 5);
    assert_eq!(back.flags, EVENT_IS_LIVE);
    assert_eq!(back.pckn(), event.pckn());
}

#[test]
fn note_from_raw_refuses_other_variant() {
    let event = NoteEvent::new(NoteKind::On, 0, pckn(0, 0, 60, Match::Specific(1)), 0);
    let raw = event.into_raw();
    assert_eq!(NoteEvent::from_raw(&raw, NoteKind::Off), Err(EventError::TypeMismatch));
    let mut other_space = raw;
    other_space.header.space_id = 7;
    assert_eq!(NoteEvent::from_raw(&other_space, NoteKind::On), Err(EventError::TypeMismatch));
    let mut wrong_size = raw;
    wrong_size.header.size = 16;
    assert_eq!(NoteEvent::from_raw(&wrong_size, NoteKind::On), Err(EventError::TypeMismatch));
}

#[test]
fn note_equality_ignores_time_and_flags() {
    let a = NoteEvent::new(NoteKind::On, 0, pckn(0, 0, 60, Match::Specific(1)), 1);
    let b = NoteEvent::new(NoteKind::On, 99, pckn(0, 0, 60, Match::Specific(1)), 1).with_flags(3);
    let c = NoteEvent::new(NoteKind::On, 0, pckn(0, 0, 61, Match::Specific(1)), 1);
    let d = NoteEvent::new(NoteKind::Off, 0, pckn(0, 0, 60, Match::Specific(1)), 1);
    assert!(a == b);
    assert!(a != c);
    assert!(a != d);
}

#[test]
fn note_kind_tags() {
    assert_eq!(NoteKind::On.type_id(), 0);
    assert_eq!(NoteKind::End.type_id(), 3);
    assert_eq!(NoteKind::from_type_id(2), Some(NoteKind::Choke));
    assert_eq!(NoteKind::from_type_id(4), None);
}

#[test]
fn event_list_keeps_submission_order() {
    let mut list = EventList::new();
    assert!(list.is_empty());
    let first = NoteEvent::new(NoteKind::On, 0, pckn(0, 0, 60, Match::Specific(1)), 0);
    let other = EventHeader { size: 24, time: 4, type_id: 5, flags: 0, space_id: CORE_EVENT_SPACE_ID };
    let last = NoteEvent::new(NoteKind::Off, 2, pckn(0, 0, 60, Match::Specific(1)), 0);
    list.push_note(&first);
    list.push(RawEvent::Other(other));
    list.push_note(&last);
    assert_eq!(list.len(), 3);
    assert_eq!(list.get(0), Some(RawEvent::Note(first.into_raw())));
    assert_eq!(list.get(1), Some(RawEvent::Other(other)));
    assert_eq!(list.get(2), Some(RawEvent::Note(last.into_raw())));
    assert_eq!(list.get(3), None);
    let times: Vec<u32> = (0..3).map(|i| list.get(i).unwrap().header().time).collect();
    assert_eq!(times, vec![0, 4, 2]);
}

#[test]
fn event_list_skips_unknown_records() {
    let mut list = EventList::new();
    let a = NoteEvent::new(NoteKind::On, 0, pckn(0, 0, 60, Match::Specific(1)), 0);
    let b = NoteEvent::new(NoteKind::End, 8, pckn(0, 0, 62, Match::Specific(2)), 0);
    let mut foreign = a.into_raw();
    foreign.header.space_id = 9;
    let mut unknown_tag = a.into_raw();
    unknown_tag.header.type_id = 200;
    list.push_note(&a);
    list.push(RawEvent::Note(foreign));
    list.push(RawEvent::Other(EventHeader { size: 16, time: 1, type_id: 9, flags: 0, space_id: 0 }));
    list.push(RawEvent::Note(unknown_tag));
    list.push_note(&b);
    assert_eq!(list.len(), 5);
    let notes = list.note_events();
    assert_eq!(notes.len(), 2);
    assert!(notes[0] == a);
    assert!(notes[1] == b);
    assert_eq!(notes[1].time, 8);
    assert_eq!(RawEvent::Note(foreign).as_note().map(|n| n.time), None);
}

#[test]
fn event_list_many_notes_in_order() {
    let mut list = EventList::new();
    for i in 0..100u16 {
        let kind = if i % 2 == 0 { NoteKind::On } else { NoteKind::Off };
        list.push_note(&NoteEvent::new(kind, i as u32, pckn(0, 0, i, Match::Specific(i as u32)), 0));
    }
    let notes = list.note_events();
    assert_eq!(notes.len(), 100);
    for (i, n) in notes.iter().enumerate() {
        assert_eq!(n.time, i as u32);
        assert_eq!(n.key(), Match::Specific(i as u16));
    }
}

#[test]
fn note_equality_compares_velocity_as_number() {
    let p = pckn(0, 0, 60, Match::Specific(1));
    let nan = NoteEvent::new(NoteKind::On, 0, p, f64::NAN.to_bits());
    assert!(nan != nan);
    let other_nan = NoteEvent::new(NoteKind::On, 0, p, (-f64::NAN).to_bits());
    assert!(nan != other_nan);
    let pos_zero = NoteEvent::new(NoteKind::On, 0, p, 0.0f64.to_bits());
    let neg_zero = NoteEvent::new(NoteKind::On, 0, p, (-0.0f64).to_bits());
    assert!(pos_zero == neg_zero);
    let inf = NoteEvent::new(NoteKind::On, 0, p, f64::INFINITY.to_bits());
    assert!(inf == inf);
    let half = NoteEvent::new(NoteKind::On, 0, p, 0.5f64.to_bits());
    assert!(half == half);
    assert!(half != pos_zero);
    assert!(NoteEvent::from_raw(&nan.into_raw(), NoteKind::On).is_ok());
}

#[test]
fn constants_agree_with_c_headers() {
    assert_eq!(NOTE_ON, clap_sys::events::CLAP_EVENT_NOTE_ON);
    assert_eq!(NOTE_OFF, clap_sys::events::CLAP_EVENT_NOTE_OFF);
    assert_eq!(clack::note::NOTE_CHOKE, clap_sys::events::CLAP_EVENT_NOTE_CHOKE);
    assert_eq!(clack::note::NOTE_END, clap_sys::events::CLAP_EVENT_NOTE_END);
    assert_eq!(CORE_EVENT_SPACE_ID, clap_sys::events::CLAP_CORE_EVENT_SPACE_ID);
    assert_eq!(EVENT_IS_LIVE as u32, clap_sys::events::CLAP_EVENT_IS_LIVE);
    assert_eq!(clack::note::EVENT_DONT_RECORD as u32, clap_sys::events::CLAP_EVENT_DONT_RECORD);
    assert_eq!(NOTE_EVENT_SIZE as usize, std::mem::size_of::<clap_sys::events::clap_event_note>());
}
