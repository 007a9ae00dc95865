use clack::pckn::{Match, Pckn};

#[test]
fn match_specific_and_wildcard() {
    assert!(Match::Specific(42u16).matches(&Match::Specific(42)));
    assert!(!Match::Specific(42u16).matches(&Match::Specific(21)));
    assert!(Match::Specific(42u16).matches(&Match::All));
    assert!(Match::<u16>::All.matches(&Match::Specific(42u16)));
    assert!(Match::<u16>::All.matches(&Match::All));
    assert!(Match::<u32>::All.matches(&Match::Specific(7)));
    assert!(!Match::Specific(7u32).matches(&Match::Specific(8)));
}

#[test]
fn match_from_value() {
    assert_eq!(Match::from(5u16), Match::Specific(5u16));
    let m: Match<u32> = 9u32.into();
    assert_eq!(m, Match::Specific(9));
}

#[test]
fn match_raw_decoding() {
    assert_eq!(Match::<u16>::from_raw(-1), Match::All);
    assert_eq!(Match::<u16>::from_raw(-2), Match::All);
    assert_eq!(Match::<u16>::from_raw(i16::MIN), Match::All);
    assert_eq!(Match::<u16>::from_raw(0), Match::Specific(0));
    assert_eq!(Match::<u16>::from_raw(i16::MAX), Match::Specific(32767));
    assert_eq!(Match::<u32>::from_raw(-1), Match::All);
    assert_eq!(Match::<u32>::from_raw(-100), Match::All);
    assert_eq!(Match::<u32>::from_raw(12345), Match::Specific(12345));
}

#[test]
fn raw_round_trip_of_specific_values() {
    for v in [0u16, 1, 60, 127, 32767] {
        let p = Pckn::new(Match::Specific(v), Match::Specific(v), Match::Specific(v), Match::Specific(v as u32));
        assert_eq!(p.raw_port(), v as i16);
        let back = Pckn::from_raw(p.raw_port(), p.raw_channel(), p.raw_key(), p.raw_note_id());
        assert_eq!(back, p);
        assert_eq!(back.raw_port(), v as i16);
    }
    let all = Pckn::match_all();
    assert_eq!(all.raw_port(), -1);
    assert_eq!(all.raw_channel(), -1);
    assert_eq!(all.raw_key(), -1);
    assert_eq!(all.raw_note_id(), -1);
}

#[test]
fn raw_encoding_wraps_large_values() {
    let p = Pckn::new(Match::Specific(40000), Match::All, Match::All, Match::Specific(3_000_000_000));
    assert_eq!(p.raw_port(), 40000u16 as i16);
    assert_eq!(p.raw_note_id(), 3_000_000_000u32 as i32);
}

#[test]
fn pckn_match_all_matches_everything() {
    let all = Pckn::match_all();
    let p = Pckn::new(Match::Specific(3), Match::Specific(9), Match::All, Match::Specific(77));
    assert!(all.matches(&p));
    assert!(p.matches(&all));
    assert!(all.matches(&all));
}

#[test]
fn pckn_wildcard_note_id_scenario() {
    let a = Pckn::new(Match::Specific(0), Match::Specific(0), Match::Specific(60), Match::Specific(5));
    let b = Pckn::new(Match::Specific(0), Match::Specific(0), Match::Specific(60), Match::All);
    let c = Pckn::new(Match::Specific(0), Match::Specific(1), Match::Specific(60), Match::All);
    assert!(a.matches(&b));
    assert!(!a.matches(&c));
}

#[test]
fn pckn_each_part_must_match() {
    let base = Pckn::new(Match::Specific(0), Match::Specific(0), Match::Specific(60), Match::Specific(42));
    let other_port = Pckn::new(Match::Specific(1), Match::Specific(0), Match::Specific(60), Match::Specific(42));
    let other_key = Pckn::new(Match::Specific(0), Match::Specific(0), Match::Specific(61), Match::Specific(42));
    let other_id = Pckn::new(Match::Specific(0), Match::Specific(0), Match::Specific(60), Match::Specific(43));
    assert!(base.matches(&base));
    assert!(!base.matches(&other_port));
    assert!(!base.matches(&other_key));
    assert!(!base.matches(&other_id));
}

#[test]
fn match_from_narrower_values() {
    let a: Match<u16> = 200u8.into();
    assert_eq!(a, Match::Specific(200u16));
    let b: Match<u32> = 255u8.into();
    assert_eq!(b, Match::Specific(255u32));
    let c: Match<u32> = 65535u16.into();
    assert_eq!(c, Match::Specific(65535u32));
    let p = Pckn::new(0u8.into(), 3u8.into(), 60u8.into(), 42u16.into());
    assert_eq!(p, Pckn::new(Match::Specific(0), Match::Specific(3), Match::Specific(60), Match::Specific(42)));
}
