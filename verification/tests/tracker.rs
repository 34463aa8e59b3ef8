use chess_thing::game_object::missile::Missile;
use chess_thing::game_object::HasPosition;
use chess_thing::util::hash_map_tracker::{HashMapTracker, Status, TrackerError};
use chess_thing::util::vec_extension::Vec2;

fn missile(n: i64) -> Missile {
    Missile::new(Vec2::new(n, -n), Vec2::new(1, 2))
}

#[test]
fn new_tracker_is_empty() {
    let t: HashMapTracker<Missile, 4> = HashMapTracker::new();
    assert_eq!(t.count(), 0);
    assert!(t.ids().is_empty());
    assert!(!t.contains(0));
    assert!(t.get(0).is_none());
    assert!(t.get_tracker().is_empty());
}

#[test]
fn insert_assigns_consecutive_identities_from_zero() {
    let mut t: HashMapTracker<Missile, 8> = HashMapTracker::new();
    assert_eq!(t.insert(missile(10)), Ok(0));
    assert_eq!(t.insert(missile(11)), Ok(1));
    assert_eq!(t.insert(missile(12)), Ok(2));
    assert_eq!(t.count(), 3);
    let mut ids = t.ids();
    ids.sort();
    assert_eq!(ids, vec![0, 1, 2]);
}

#[test]
fn insert_stores_the_entity_with_its_identity_set() {
    let mut t: HashMapTracker<Missile, 8> = HashMapTracker::new();
    let fresh = missile(7);
    assert_eq!(fresh.id(), None);
    t.insert(missile(5)).unwrap();
    let id = t.insert(fresh).unwrap();
    assert_eq!(id, 1);
    let stored = t.get(id).unwrap();
    assert_eq!(stored.id(), Some(1));
    assert_eq!(stored.position_get(), Vec2::new(7, -7));
    assert_eq!(stored.vel(), Vec2::new(1, 2));
    assert_eq!(t.get_tracker().get(&0).unwrap().position_get(), Vec2::new(5, -5));
}

#[test]
fn one_insert_too_many_fails_once_and_changes_nothing() {
    let mut t: HashMapTracker<Missile, 3> = HashMapTracker::new();
    let mut failures = 0;
    for n in 0..4 {
        let r = t.insert(missile(n));
        assert!(t.count() <= 3);
        if n < 3 {
            assert_eq!(r, Ok(n as u32));
        } else {
            assert_eq!(r, Err(TrackerError::CapacityExceeded));
            failures += 1;
        }
    }
    assert_eq!(failures, 1);
    assert_eq!(t.count(), 3);
    t.remove(1).unwrap();
    assert_eq!(t.insert(missile(9)), Ok(3));
}

#[test]
fn a_tracker_of_capacity_zero_admits_nothing() {
    let mut t: HashMapTracker<Missile, 0> = HashMapTracker::new();
    assert_eq!(t.insert(missile(1)), Err(TrackerError::CapacityExceeded));
    assert_eq!(t.push(missile(1)), Status::Failure);
    assert_eq!(t.count(), 0);
}

#[test]
fn removing_twice_succeeds_then_reports_not_found() {
    let mut t: HashMapTracker<Missile, 4> = HashMapTracker::new();
    let id = t.insert(missile(1)).unwrap();
    assert_eq!(t.remove(id), Ok(()));
    assert_eq!(t.remove(id), Err(TrackerError::NotFound));
    assert_eq!(t.count(), 0);
}

#[test]
fn removing_an_identity_never_issued_reports_not_found() {
    let mut t: HashMapTracker<Missile, 4> = HashMapTracker::new();
    t.insert(missile(1)).unwrap();
    assert_eq!(t.remove(17), Err(TrackerError::NotFound));
    assert_eq!(t.count(), 1);
}

#[test]
fn push_and_delete_report_status() {
    let mut t: HashMapTracker<Missile, 2> = HashMapTracker::new();
    assert_eq!(t.push(missile(1)), Status::Success);
    assert_eq!(t.push(missile(2)), Status::Success);
    assert_eq!(t.push(missile(3)), Status::Failure);
    assert_eq!(t.count(), 2);
    assert_eq!(t.delete(0), Status::Success);
    assert_eq!(t.delete(0), Status::Failure);
    assert_eq!(t.count(), 1);
    assert!(t.contains(1));
}

#[test]
fn identities_stay_distinct_under_churn() {
    let mut t: HashMapTracker<Missile, 4> = HashMapTracker::new();
    let mut issued: Vec<u32> = Vec::new();
    let mut live: Vec<u32> = Vec::new();
    for round in 0..200 {
        if live.len() == 3 || (round % 3 == 2 && !live.is_empty()) {
            let victim = live.remove((round as usize) % live.len());
            assert_eq!(t.remove(victim), Ok(()));
        } else {
            let id = t.insert(missile(round)).unwrap();
            assert!(!issued.contains(&id));
            assert!(!live.contains(&id));
            issued.push(id);
            live.push(id);
        }
        assert_eq!(t.count(), live.len());
    }
    let mut ids = t.ids();
    ids.sort();
    live.sort();
    assert_eq!(ids, live);
}

#[test]
fn removal_does_not_move_the_cursor_back() {
    let mut t: HashMapTracker<Missile, 4> = HashMapTracker::new();
    assert_eq!(t.insert(missile(1)), Ok(0));
    assert_eq!(t.insert(missile(2)), Ok(1));
    assert_eq!(t.remove(0), Ok(()));
    assert_eq!(t.insert(missile(3)), Ok(2));
    assert_eq!(t.remove(2), Ok(()));
    assert_eq!(t.insert(missile(4)), Ok(3));
}

#[test]
fn replace_keeps_the_identity_and_returns_the_old_entity() {
    let mut t: HashMapTracker<Missile, 4> = HashMapTracker::new();
    let id = t.insert(missile(1)).unwrap();
    let old = t.replace(id, missile(50)).unwrap();
    assert_eq!(old.position_get(), Vec2::new(1, -1));
    assert_eq!(t.count(), 1);
    let now = t.get(id).unwrap();
    assert_eq!(now.position_get(), Vec2::new(50, -50));
    assert_eq!(now.id(), Some(id));
}

#[test]
fn replace_of_a_missing_identity_changes_nothing() {
    let mut t: HashMapTracker<Missile, 4> = HashMapTracker::new();
    t.insert(missile(1)).unwrap();
    assert!(t.replace(9, missile(2)).is_none());
    assert_eq!(t.count(), 1);
    assert!(!t.contains(9));
    assert_eq!(t.insert(missile(3)), Ok(1));
}

#[test]
fn identities_go_round_past_the_largest() {
    let mut t: HashMapTracker<Missile, 4> = HashMapTracker::starting_at(u32::MAX - 1);
    assert_eq!(t.insert(missile(1)), Ok(u32::MAX - 1));
    assert_eq!(t.insert(missile(2)), Ok(u32::MAX));
    assert_eq!(t.insert(missile(3)), Ok(0));
    assert_eq!(t.insert(missile(4)), Ok(1));
    assert_eq!(t.insert(missile(5)), Err(TrackerError::CapacityExceeded));
    assert_eq!(t.get(u32::MAX).unwrap().id(), Some(u32::MAX));
    assert_eq!(t.get(0).unwrap().id(), Some(0));
    let mut ids = t.ids();
    ids.sort();
    assert_eq!(ids, vec![0, 1, u32::MAX - 1, u32::MAX]);
}

#[test]
fn an_insertion_passes_over_identities_that_are_live() {
    let mut t: HashMapTracker<Missile, 8> = HashMapTracker::starting_at(u32::MAX);
    assert_eq!(t.restore(missile(1), u32::MAX), Status::Success);
    assert_eq!(t.restore(missile(2), 0), Status::Success);
    assert_eq!(t.restore(missile(3), 2), Status::Success);
    assert_eq!(t.insert(missile(4)), Ok(1));
    assert_eq!(t.insert(missile(5)), Ok(3));
    assert_eq!(t.remove(2), Ok(()));
    assert_eq!(t.insert(missile(6)), Ok(4));
    assert_eq!(t.count(), 5);
    assert_eq!(t.get(1).unwrap().position_get(), Vec2::new(4, -4));
    assert_eq!(t.get(0).unwrap().position_get(), Vec2::new(2, -2));
}

#[test]
fn restore_keeps_the_saved_identity_and_refuses_a_taken_one() {
    let mut t: HashMapTracker<Missile, 2> = HashMapTracker::new();
    assert_eq!(t.restore(missile(1), 40), Status::Success);
    assert_eq!(t.get(40).unwrap().id(), Some(40));
    assert_eq!(t.restore(missile(2), 40), Status::Failure);
    assert_eq!(t.get(40).unwrap().position_get(), Vec2::new(1, -1));
    assert_eq!(t.restore(missile(3), 41), Status::Success);
    assert_eq!(t.restore(missile(4), 42), Status::Failure);
    assert_eq!(t.count(), 2);
    assert_eq!(t.insert(missile(5)), Err(TrackerError::CapacityExceeded));
    assert_eq!(t.remove(41), Ok(()));
    assert_eq!(t.insert(missile(5)), Ok(0));
}
