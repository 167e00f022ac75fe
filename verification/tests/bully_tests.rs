use raftor::bully::{Id, Role, State};
use raftor::led::Mode;

#[test]
fn id_text_is_colon_separated_lowercase_hex() {
    let id = Id([0xa4, 0xcf, 0x12, 0x00, 0xbe, 0xef]);
    assert_eq!(id.text(), "a4:cf:12:00:be:ef");
    assert_eq!(Id::unknown().text(), "00:00:00:00:00:00");
    assert_eq!(Id::broadcast().text(), "ff:ff:ff:ff:ff:ff");
}

#[test]
fn id_text_has_seventeen_characters_and_tells_ids_apart() {
    let a = Id([1, 2, 3, 4, 5, 6]);
    let b = Id([1, 2, 3, 4, 5, 7]);
    assert_eq!(a.text().len(), 17);
    assert_ne!(a.text(), b.text());
}

#[test]
fn id_converts_to_and_from_bytes() {
    let bytes = [9u8, 8, 7, 6, 5, 4];
    let id = Id::from(bytes);
    assert_eq!(id, Id(bytes));
    let back: [u8; 6] = id.into();
    assert_eq!(back, bytes);
}

#[test]
fn id_order_is_lexicographic() {
    let low = Id([0x00, 0xff, 0xff, 0xff, 0xff, 0xff]);
    let high = Id([0x01, 0x00, 0x00, 0x00, 0x00, 0x00]);
    assert!(low.comes_before(&high));
    assert!(!high.comes_before(&low));
    assert!(!low.comes_before(&low));
    let a = Id([5, 5, 5, 5, 5, 1]);
    let b = Id([5, 5, 5, 5, 5, 2]);
    let c = Id([5, 5, 5, 5, 6, 0]);
    assert!(a.comes_before(&b) && b.comes_before(&c) && a.comes_before(&c));
    assert_eq!(a.comes_before(&b), a < b);
    assert_eq!(c.comes_before(&a), c < a);
}

#[test]
fn role_text_names_the_role() {
    assert_eq!(Role::Initializing.text(), "initializing");
    assert_eq!(Role::Candidate.text(), "candidate");
    assert_eq!(Role::Leader.text(), "leader");
    let leader = Id([0x10, 0x20, 0x30, 0x40, 0x50, 0x60]);
    assert_eq!(Role::Follower { leader }.text(), "follower(10:20:30:40:50:60)");
}

#[test]
fn state_starts_initializing() {
    assert_eq!(State::default().role, Role::Initializing);
}

#[test]
fn each_role_has_its_led_mode() {
    assert_eq!(Mode::from(&Role::Initializing), Mode::SteadyOff);
    assert_eq!(Mode::from(&Role::Follower { leader: Id::unknown() }), Mode::SlowBlink);
    assert_eq!(Mode::from(&Role::Candidate), Mode::QuickBlink);
    assert_eq!(Mode::from(&Role::Leader), Mode::SteadyOn);
}
