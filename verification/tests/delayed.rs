use chess_thing::message::{Message, Message2};

#[test]
fn a_message_acts_when_its_moment_has_come() {
    let mut calls = 0;
    let m = Message::new(7u8, 100);
    let left = m.act(true, || calls += 1, 10);
    assert!(left.is_none());
    assert_eq!(calls, 1);
}

#[test]
fn a_message_ages_while_it_waits() {
    let mut calls = 0;
    let m = Message::new(7u8, 100);
    let left = m.act(false, || calls += 1, 10).unwrap();
    assert_eq!((left.0, left.1), (7, 90));
    let left = left.act(false, || calls += 1, 90).unwrap();
    assert_eq!(left.1, 0);
    assert!(left.act(false, || calls += 1, 1).is_none());
    assert_eq!(calls, 0);
}

#[test]
fn a_message_without_time_still_waits_through_a_tick_of_no_length() {
    let m = Message::new((), 0);
    assert!(m.act(false, || (), 0).is_some());
    assert!(m.act(false, || (), 1).is_none());
}

#[test]
fn dying_messages_carry_their_value() {
    let d = Message2::create_dying(3u8, 9);
    assert!(matches!(d, Message2::Dying(3, 9)));
    assert_eq!(d.get_value(), Some(&3));
    assert_eq!(Message2::Alive(4u8).get_value(), Some(&4));
    assert_eq!(Message2::<u8>::Dead.get_value(), None);
    assert_eq!(Message2::<u8>::default().get_value(), None);
    assert!(matches!(Message2::Alive(1u8).set_dying(2, 5), Message2::Dying(2, 5)));
    assert!(matches!(Message2::<u8>::Dead.set_dying(2, 5), Message2::Dying(2, 5)));
}
