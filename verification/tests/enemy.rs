use chess_thing::game_object::collider_type::{Collider, Selection};
use chess_thing::game_object::enemy::Enemy;
use chess_thing::game_object::{HasPosition, HasRegion, Region};
use chess_thing::util::vec_extension::Vec2;

#[test]
fn default_enemy_is_a_point_at_the_origin() {
    let e = Enemy::default();
    assert_eq!(e.health(), 0);
    assert_eq!(e.position_get(), Vec2::new(0, 0));
    let hit: &Region<Collider> = e.region_get();
    assert_eq!((hit.p0, hit.p1), (Vec2::new(0, 0), Vec2::new(0, 0)));
    let pick: &Region<Selection> = e.region_get();
    assert_eq!((pick.p0, pick.p1), (Vec2::new(0, 0), Vec2::new(0, 0)));
}

#[test]
fn the_two_regions_of_an_enemy_are_set_apart() {
    let hit: Region<Collider> = Region::new(Vec2::new(-750, -750), Vec2::new(750, 750));
    let pick: Region<Selection> = Region::new(Vec2::new(-1_000, -2_000), Vec2::new(1_000, 2_000));
    let e = Enemy::default().position_set(Vec2::new(12_000, 5_000));
    let e = HasRegion::<Collider>::region_set(e, hit);
    let e = HasRegion::<Selection>::region_set(e, pick);
    assert_eq!(e.position_get(), Vec2::new(12_000, 5_000));
    assert_eq!(HasRegion::<Collider>::region_get(&e).p1, Vec2::new(750, 750));
    assert_eq!(HasRegion::<Selection>::region_get(&e).p1, Vec2::new(1_000, 2_000));
    let at = Vec2::new(12_000, 6_500);
    assert!(!HasRegion::<Collider>::intersects_region(&e, at));
    assert!(HasRegion::<Selection>::intersects_region(&e, at));
    assert!(HasRegion::<Collider>::intersects_region(&e, Vec2::new(12_750, 4_250)));
    let copy = e.clone();
    assert_eq!(copy.position_get(), e.position_get());
}
