use zunda_shower::ball::EntityId;
use zunda_shower::camera::{FocusInput, Interest, WaitTimer};
use zunda_shower::decimal::to_decimal;
use zunda_shower::map_file::{artillery_auto_file_name, bare_name, map_file_name, map_file_path, MapFile};
use zunda_shower::motion::{find_exit, trail_step};
use zunda_shower::random::{
    die_cry_at, fullbody_sprite_at, random_die_cry, random_fullbody_sprite, random_index, random_teleport_id,
    random_zombie_sprite, random_zundamon_sprite, zundamon_sprite_at,
};
use zunda_shower::zunda_counter::{system, History};

fn e(i: u32) -> EntityId {
    EntityId { index: i, generation: 0 }
}

#[test]
fn decimal_values() {
    assert_eq!(to_decimal(0), "0");
    assert_eq!(to_decimal(7), "7");
    assert_eq!(to_decimal(10), "10");
    assert_eq!(to_decimal(405), "405");
    assert_eq!(to_decimal(usize::MAX), usize::MAX.to_string());
}

#[test]
fn counter_text_and_record() {
    let mut h = History::new();
    assert_eq!(system(&mut h, 2, 1), "3/3");
    assert_eq!(system(&mut h, 1, 0), "1/3");
    assert_eq!(system(&mut h, 5, 7), "12/12");
    assert_eq!(h.count_max, 12);
    assert_eq!(system(&mut h, 0, 0), "0/12");
}

#[test]
fn map_file_paths() {
    assert_eq!(map_file_path("assets/map", MapFile::Wall), "assets/map/wall.map");
    assert_eq!(map_file_path("", MapFile::GearSorting), "/gear_SORTING.map");
    assert_eq!(map_file_name(MapFile::WallBreakableP2), "/wall_breakable_p2.map");
    assert_eq!(map_file_name(MapFile::RotatingShape), "/rotating_shape.map");
}

#[test]
fn map_file_names_are_distinct() {
    let all = [
        MapFile::BlockZombie, MapFile::BreakableP1, MapFile::BreakableP2, MapFile::GateGeneral, MapFile::GateGeneric,
        MapFile::GateSplitter, MapFile::GateZombie, MapFile::GearSimple, MapFile::GearSorting, MapFile::GearSwirl,
        MapFile::PadVelocity, MapFile::PolygonalShape, MapFile::PrimitiveShape, MapFile::RevoluteJoint,
        MapFile::RotatingShape, MapFile::Shredder, MapFile::SpawnTimer, MapFile::SpriteObject,
        MapFile::VibratingShape, MapFile::Wall, MapFile::WallBreakableP1, MapFile::WallBreakableP2,
    ];
    for (i, a) in all.iter().enumerate() {
        for b in all.iter().skip(i + 1) {
            assert_ne!(map_file_name(*a), map_file_name(*b));
        }
    }
}

#[test]
fn bare_names() {
    assert_eq!(bare_name("zunda::cmp_combat::Player1"), "Player1");
    assert_eq!(bare_name("Player2"), "Player2");
    assert_eq!(bare_name("a::"), "");
    assert_eq!(bare_name("a:::b"), ":b");
    assert_eq!(artillery_auto_file_name("game::cmp_combat::Player2"), "/artillery_auto_Player2.map");
}

#[test]
fn random_choices_stay_in_range() {
    for _ in 0..100 {
        assert!(random_index(3) < 3);
        assert_eq!(random_index(1), 0);
        assert!(random_teleport_id() < u32::MAX);
        assert!(["zun1_handle", "zun2_handle", "zun3_handle"].contains(&random_zundamon_sprite()));
        assert!(["zun1_full_handle", "zun2_full_handle", "zun3_full_handle"].contains(&random_fullbody_sprite()));
        assert_eq!(random_zombie_sprite(), "zombie1_handle");
        let cry = random_die_cry();
        assert!((0..7).any(|i| die_cry_at(i) == cry));
    }
}

#[test]
fn random_choices_vary() {
    let mut seen = [false; 3];
    for _ in 0..300 {
        seen[random_index(3)] = true;
    }
    assert!(seen.iter().all(|s| *s));
}

#[test]
fn sprite_keys() {
    assert_eq!(zundamon_sprite_at(0), "zun1_handle");
    assert_eq!(zundamon_sprite_at(2), "zun3_handle");
    assert_eq!(fullbody_sprite_at(1), "zun2_full_handle");
    assert_eq!(die_cry_at(6), "zundamon_die7_handle");
}

#[test]
fn trail_segments() {
    let mut prev: Option<(i32, i32)> = None;
    assert_eq!(trail_step(&mut prev, (1, 1)), None);
    assert_eq!(trail_step(&mut prev, (2, 3)), Some(((1, 1), (2, 3))));
    assert_eq!(prev, Some((2, 3)));
}

#[test]
fn teleport_exit_is_first_match() {
    assert_eq!(find_exit(&vec![4, 9, 9], 9), Some(1));
    assert_eq!(find_exit(&vec![4, 9, 9], 5), None);
    assert_eq!(find_exit(&vec![], 5), None);
}

#[test]
fn camera_focus_waits_before_switching() {
    let a = (e(1), e(2));
    let b = (e(3), e(4));
    let mut s = Interest::new();
    let (f, t) = s.step(FocusInput { closest: a, curr_present: true, wait_over_after_tick: false });
    assert_eq!((f, t), (a, WaitTimer::Keep));
    let (f, t) = s.step(FocusInput { closest: b, curr_present: true, wait_over_after_tick: false });
    assert_eq!((f, t), (a, WaitTimer::Restart));
    assert_eq!(s.next, Some(b));
    let (f, t) = s.step(FocusInput { closest: b, curr_present: true, wait_over_after_tick: false });
    assert_eq!((f, t), (a, WaitTimer::Tick));
    let (f, t) = s.step(FocusInput { closest: b, curr_present: true, wait_over_after_tick: true });
    assert_eq!((f, t), (b, WaitTimer::Tick));
    assert_eq!(s.next, None);
}

#[test]
fn camera_drops_vanished_pair_at_once() {
    let a = (e(1), e(2));
    let b = (e(3), e(4));
    let mut s = Interest { curr: Some(a), next: None };
    let (f, t) = s.step(FocusInput { closest: b, curr_present: false, wait_over_after_tick: false });
    assert_eq!(f, b);
    assert_eq!(t, WaitTimer::Restart);
    assert_eq!(s.next, Some(b));
}

#[test]
fn camera_interrupted_wait_restarts() {
    let a = (e(1), e(2));
    let b = (e(3), e(4));
    let c = (e(5), e(6));
    let mut s = Interest { curr: Some(a), next: Some(b) };
    let (f, t) = s.step(FocusInput { closest: c, curr_present: true, wait_over_after_tick: true });
    assert_eq!((f, t), (a, WaitTimer::Restart));
    assert_eq!(s.next, Some(c));
}
