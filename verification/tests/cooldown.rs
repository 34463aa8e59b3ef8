use chess_thing::util::message::Message;

fn remaining(m: &Message<u8>) -> Option<u64> {
    match m {
        Message::ActiveTicking(_, left) => Some(*left),
        _ => None,
    }
}

#[test]
fn constructors_give_the_three_states() {
    assert!(matches!(Message::create_active(3u8), Message::Active(3)));
    assert!(matches!(Message::create_active_ticking(3u8, 9), Message::ActiveTicking(3, 9)));
    assert!(matches!(Message::<u8>::create_inactive(), Message::Inactive));
    assert!(matches!(Message::<u8>::default(), Message::Inactive));
}

#[test]
fn is_active_gives_the_payload_of_both_active_states() {
    assert_eq!(Message::create_active(4u8).is_active(), Some(&4));
    assert_eq!(Message::create_active_ticking(5u8, 1).is_active(), Some(&5));
    assert_eq!(Message::<u8>::create_inactive().is_active(), None);
}

#[test]
fn tick_counts_down_and_lapses_at_zero() {
    let mut m = Message::create_active_ticking(1u8, 10);
    m.tick(3);
    assert_eq!(remaining(&m), Some(7));
    m.tick(6);
    assert_eq!(remaining(&m), Some(1));
    m.tick(1);
    assert!(m.is_active().is_none());
    m.tick(1);
    assert!(matches!(m, Message::Inactive));
}

#[test]
fn tick_past_zero_lapses() {
    let mut m = Message::create_active_ticking(1u8, 10);
    m.tick(11);
    assert!(matches!(m, Message::Inactive));
    let mut long = Message::create_active_ticking(1u8, 10);
    long.tick(u64::MAX);
    assert!(matches!(long, Message::Inactive));
}

#[test]
fn tick_leaves_other_states_alone() {
    let mut a = Message::create_active(2u8);
    a.tick(100);
    assert!(matches!(a, Message::Active(2)));
    let mut i = Message::<u8>::create_inactive();
    i.tick(100);
    assert!(matches!(i, Message::Inactive));
}

#[test]
fn a_tick_of_no_length_keeps_the_time_but_ends_a_message_without_any() {
    let mut m = Message::create_active_ticking(1u8, 5);
    m.tick(0);
    assert_eq!(remaining(&m), Some(5));
    let mut z = Message::create_active_ticking(1u8, 0);
    assert_eq!(z.is_active(), Some(&1));
    z.tick(0);
    assert!(matches!(z, Message::Inactive));
}

#[test]
fn retriggering_restarts_the_time() {
    let mut m = Message::create_active_ticking(1u8, 10);
    m.tick(8);
    m.set_active_ticking(2, 10);
    assert!(matches!(m, Message::ActiveTicking(2, 10)));
    let mut i = Message::<u8>::create_inactive();
    i.set_active_ticking(3, 4);
    assert!(matches!(i, Message::ActiveTicking(3, 4)));
}

#[test]
fn one_second_at_sixty_ticks_lapses_on_the_sixtieth_tick() {
    let mut m = Message::create_active_ticking((), 60);
    for tick in 1..=60u32 {
        assert!(m.is_active().is_some(), "lapsed before tick {}", tick);
        m.tick(1);
        if tick < 60 {
            assert!(matches!(m, Message::ActiveTicking((), left) if left == 60 - tick as u64));
        }
    }
    assert!(m.is_active().is_none());
}

#[test]
fn one_second_in_microseconds_lapses_on_the_sixtieth_tick() {
    let mut m = Message::create_active_ticking((), 1_000_000);
    for _ in 0..59 {
        m.tick(16_667);
    }
    assert!(matches!(m, Message::ActiveTicking((), 16_647)));
    m.tick(16_667);
    assert!(m.is_active().is_none());
}
