use chess_thing::game_object::collider_type::Collider;
use chess_thing::game_object::missile::{fixed_update, Missile, PlayArea, MISSILE_HALF_EXTENT};
use chess_thing::game_object::{HasPosition, HasRegion, Region};
use chess_thing::util::hash_map_tracker::{HashMapTracker, WithIndex};
use chess_thing::util::vec_extension::Vec2;

fn area() -> PlayArea {
    PlayArea { x_range: -100_000..900_000, y_range: -100_000..900_000 }
}

#[test]
fn new_missile_has_no_identity_and_the_standard_region() {
    let m = Missile::new(Vec2::new(1, 2), Vec2::new(3, 4));
    assert_eq!(m.position_get(), Vec2::new(1, 2));
    assert_eq!(m.vel(), Vec2::new(3, 4));
    assert_eq!(m.id(), None);
    assert_eq!(m.region_get().p0, Vec2::new(-MISSILE_HALF_EXTENT, -MISSILE_HALF_EXTENT));
    assert_eq!(m.region_get().p1, Vec2::new(400, 400));
}

#[test]
fn with_index_sets_only_the_identity() {
    let m = Missile::new(Vec2::new(1, 2), Vec2::new(3, 4)).with_index(9);
    assert_eq!(m.id(), Some(9));
    assert_eq!(m.position_get(), Vec2::new(1, 2));
    assert_eq!(m.vel(), Vec2::new(3, 4));
    let again = m.clone().with_index(11);
    assert_eq!(again.id(), Some(11));
    assert_eq!(m.id(), Some(9));
}

#[test]
fn setters_change_one_part() {
    let m = Missile::new(Vec2::new(1, 2), Vec2::new(3, 4)).with_index(2);
    let moved = m.position_set(Vec2::new(7, 8));
    assert_eq!(moved.position_get(), Vec2::new(7, 8));
    assert_eq!(moved.vel(), Vec2::new(3, 4));
    assert_eq!(moved.id(), Some(2));
    let wide: Region<Collider> = Region::new(Vec2::new(-1, -2), Vec2::new(3, 4));
    let boxed = moved.region_set(wide);
    assert_eq!(boxed.region_get().p0, Vec2::new(-1, -2));
    assert_eq!(boxed.region_get().p1, Vec2::new(3, 4));
    assert_eq!(boxed.position_get(), Vec2::new(7, 8));
}

#[test]
fn a_missile_is_hit_within_its_region() {
    let m = Missile::new(Vec2::new(10_000, 10_000), Vec2::new(0, 0));
    assert!(m.intersects_region(Vec2::new(10_400, 9_600)));
    assert!(m.intersects_region(Vec2::new(10_000, 10_000)));
    assert!(!m.intersects_region(Vec2::new(10_401, 10_000)));
    assert!(!m.intersects_region(Vec2::new(10_000, 9_599)));
}

#[test]
fn advance_adds_velocity_times_time() {
    let m = Missile::new(Vec2::new(100, 200), Vec2::new(20, -30)).with_index(1);
    let next = m.advance(&area(), 16).unwrap();
    assert_eq!(next.position_get(), Vec2::new(100 + 320, 200 - 480));
    assert_eq!(next.vel(), Vec2::new(20, -30));
    assert_eq!(next.id(), Some(1));
    assert_eq!(m.position_get(), Vec2::new(100, 200));
}

#[test]
fn the_lower_edge_is_inside_and_the_upper_edge_is_outside() {
    let a = area();
    let still = Vec2::new(0, 0);
    assert!(Missile::new(Vec2::new(-100_000, -100_000), still).advance(&a, 1).is_some());
    assert!(Missile::new(Vec2::new(-100_001, 0), still).advance(&a, 1).is_none());
    assert!(Missile::new(Vec2::new(899_999, 899_999), still).advance(&a, 1).is_some());
    assert!(Missile::new(Vec2::new(900_000, 0), still).advance(&a, 1).is_none());
    assert!(Missile::new(Vec2::new(0, 900_000), still).advance(&a, 1).is_none());
}

#[test]
fn a_missile_that_would_leave_the_number_range_is_gone() {
    let a = PlayArea { x_range: i64::MIN..i64::MAX, y_range: i64::MIN..i64::MAX };
    let m = Missile::new(Vec2::new(i64::MAX - 1, 0), Vec2::new(i64::MAX, i64::MIN));
    assert!(m.advance(&a, u32::MAX).is_none());
    let n = Missile::new(Vec2::new(i64::MAX - 1, 0), Vec2::new(0, 0));
    assert!(n.advance(&a, u32::MAX).is_some());
}

#[test]
fn the_tick_moves_those_inside_and_removes_those_that_leave() {
    let mut t: HashMapTracker<Missile, 16> = HashMapTracker::new();
    let stays = t.insert(Missile::new(Vec2::new(0, 0), Vec2::new(1_000, 2_000))).unwrap();
    let leaves = t.insert(Missile::new(Vec2::new(899_000, 0), Vec2::new(1_000, 0))).unwrap();
    let edge = t.insert(Missile::new(Vec2::new(-99_000, 5), Vec2::new(-1_000, 0))).unwrap();
    fixed_update(&mut t, &area(), 1);
    assert_eq!(t.count(), 2);
    assert!(!t.contains(leaves));
    let a = t.get(stays).unwrap();
    assert_eq!(a.position_get(), Vec2::new(1_000, 2_000));
    assert_eq!(a.id(), Some(stays));
    let b = t.get(edge).unwrap();
    assert_eq!(b.position_get(), Vec2::new(-100_000, 5));
    fixed_update(&mut t, &area(), 1);
    assert_eq!(t.ids(), vec![stays]);
    assert_eq!(t.get(stays).unwrap().position_get(), Vec2::new(2_000, 4_000));
    assert_eq!(t.insert(Missile::new(Vec2::new(0, 0), Vec2::new(0, 0))), Ok(3));
}

#[test]
fn the_tick_on_an_empty_tracker_does_nothing() {
    let mut t: HashMapTracker<Missile, 16> = HashMapTracker::new();
    fixed_update(&mut t, &area(), 5);
    assert_eq!(t.count(), 0);
}
