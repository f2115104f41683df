use zunda_shower::ball::{BallType, EntityId, SpawnBall};
use zunda_shower::edit_context::{
    artillery_map_object, artillery_tool_step, debug_spawn_signal, edit_step, placed, press, spawn_step,
    spawn_step_with_id, AfterPlace, Attachment, EditContext, EditInput, EditKeys, EditTool, MapObject, Placement,
    PlainKind, Shape, SpawnButton, SpawnInput, SpawnPlan,
};

type Ctx = EditContext<(i32, i32), u8>;

fn e(i: u32) -> EntityId {
    EntityId { index: i, generation: 0 }
}

fn no_keys() -> EditKeys {
    EditKeys { escape: false, key_q: false, key_t: false, key_r: false, key_s: false, key_d: false, delete: false }
}

fn idle() -> EditInput<(i32, i32), u8> {
    EditInput { left_pressed: false, left_released: false, shift: false, keys: no_keys(), clicked: None }
}

fn spawn_in(left: bool, right: bool, over: bool) -> SpawnInput<(i32, i32), u8> {
    SpawnInput { left_pressed: left, right_pressed: right, over_world: over, cursor: (10, 20), color: 7 }
}

fn edit_parts(c: Ctx) -> (MapObject<(i32, i32), u8>, Vec<EntityId>, EditTool) {
    match c {
        EditContext::Edit(m, p, t) => (m, p, t),
        EditContext::Spawn(_) => panic!("not editing"),
    }
}

#[test]
fn default_is_empty_selection() {
    let c: Ctx = EditContext::default();
    let (m, p, t) = edit_parts(c);
    assert!(matches!(m, MapObject::Empty));
    assert!(p.is_empty());
    assert_eq!(t, EditTool::Select);
}

#[test]
fn click_picks_element_when_nothing_selected() {
    let c: Ctx = EditContext::default();
    let mut input = idle();
    input.left_pressed = true;
    input.clicked = Some((e(3), MapObject::Wall));
    let (c2, act) = edit_step(c, input);
    let (m, p, t) = edit_parts(c2);
    assert!(matches!(m, MapObject::Wall));
    assert_eq!(p, vec![e(3)]);
    assert_eq!(t, EditTool::Select);
    assert!(act.despawn.is_empty());
    assert_eq!(act.apply, None);
}

#[test]
fn shift_click_adds_to_selection() {
    let c: Ctx = EditContext::Edit(MapObject::Wall, vec![e(1)], EditTool::Select);
    let mut input = idle();
    input.left_pressed = true;
    input.shift = true;
    input.clicked = Some((e(2), MapObject::GateGeneric));
    let (c2, _) = edit_step(c, input);
    let (m, p, _) = edit_parts(c2);
    assert!(matches!(m, MapObject::Empty));
    assert_eq!(p, vec![e(1), e(2)]);
}

#[test]
fn click_with_selection_and_no_shift_keeps_selection() {
    let c: Ctx = EditContext::Edit(MapObject::Wall, vec![e(1)], EditTool::Select);
    let mut input = idle();
    input.left_pressed = true;
    input.clicked = Some((e(2), MapObject::GateGeneric));
    let (c2, _) = edit_step(c, input);
    let (m, p, _) = edit_parts(c2);
    assert!(matches!(m, MapObject::Wall));
    assert_eq!(p, vec![e(1)]);
}

#[test]
fn keys_choose_tools_and_release_returns_to_select() {
    let mut c: Ctx = EditContext::Edit(MapObject::Wall, vec![e(1)], EditTool::Select);
    let mut input = idle();
    input.keys.key_s = true;
    let (c2, act) = edit_step(c, input);
    assert_eq!(act.apply, None);
    c = c2;
    let mut input = idle();
    input.keys.key_d = true;
    let (c3, act) = edit_step(c, input);
    assert_eq!(act.apply, Some((EditTool::Scale, e(1))));
    let (_, _, t) = edit_parts(c3);
    assert_eq!(t, EditTool::ScaleDistort);
    let c3: Ctx = EditContext::Edit(MapObject::Wall, vec![e(1)], EditTool::ScaleDistort);
    let mut input = idle();
    input.left_released = true;
    let (c4, act) = edit_step(c3, input);
    assert_eq!(act.apply, Some((EditTool::ScaleDistort, e(1))));
    let (_, p, t) = edit_parts(c4);
    assert_eq!(p, vec![e(1)]);
    assert_eq!(t, EditTool::Select);
}

#[test]
fn key_d_alone_does_not_distort_unless_scaling() {
    let c: Ctx = EditContext::Edit(MapObject::Wall, vec![e(1)], EditTool::Translate);
    let mut input = idle();
    input.keys.key_d = true;
    let (c2, act) = edit_step(c, input);
    assert_eq!(act.apply, Some((EditTool::Translate, e(1))));
    let (_, _, t) = edit_parts(c2);
    assert_eq!(t, EditTool::Translate);
}

#[test]
fn escape_drops_and_delete_removes_selection() {
    let c: Ctx = EditContext::Edit(MapObject::Wall, vec![e(1), e(2)], EditTool::Rotate);
    let mut input = idle();
    input.keys.escape = true;
    input.keys.delete = true;
    let (c2, act) = edit_step(c, input);
    assert!(act.despawn.is_empty());
    let (m, p, _) = edit_parts(c2);
    assert!(matches!(m, MapObject::Empty));
    assert!(p.is_empty());

    let c: Ctx = EditContext::Edit(MapObject::Wall, vec![e(1), e(2)], EditTool::Select);
    let mut input = idle();
    input.keys.delete = true;
    let (c2, act) = edit_step(c, input);
    assert_eq!(act.despawn, vec![e(1), e(2)]);
    let (_, p, _) = edit_parts(c2);
    assert!(p.is_empty());
}

#[test]
fn edit_step_leaves_placing_alone() {
    let c: Ctx = EditContext::Spawn(MapObject::Wall);
    let mut input = idle();
    input.keys.delete = true;
    let (c2, act) = edit_step(c, input);
    assert!(matches!(c2, EditContext::Spawn(MapObject::Wall)));
    assert!(act.despawn.is_empty());
}

#[test]
fn wall_is_placed_by_a_click_and_selected() {
    let c: Ctx = EditContext::Spawn(MapObject::Wall);
    let plan = spawn_step_with_id(c, spawn_in(true, false, false), 0);
    match plan {
        SpawnPlan::Place { clear, what, at, after } => {
            assert!(clear.is_empty());
            assert!(matches!(what, Placement::Wall));
            assert_eq!(at, (10, 20));
            let next = placed(after, e(42));
            let (m, p, t) = edit_parts(next);
            assert!(matches!(m, MapObject::Wall));
            assert_eq!(p, vec![e(42)]);
            assert_eq!(t, EditTool::Select);
        }
        _ => panic!("expected a placement"),
    }
}

#[test]
fn breakable_wall_is_edited_as_wall() {
    let c: Ctx = EditContext::Spawn(MapObject::WallBreakableP2);
    match spawn_step_with_id(c, spawn_in(true, false, true), 0) {
        SpawnPlan::Place { what, after, .. } => {
            assert!(matches!(what, Placement::WallBreakableP2));
            assert!(matches!(after, AfterPlace::Select(MapObject::Wall)));
        }
        _ => panic!("expected a placement"),
    }
}

#[test]
fn gear_needs_cursor_over_world() {
    let c: Ctx = EditContext::Spawn(MapObject::GearSwirl);
    match spawn_step_with_id(c, spawn_in(true, false, false), 0) {
        SpawnPlan::Stay { clear, attach, next } => {
            assert!(clear.is_empty());
            assert!(attach.is_none());
            assert!(matches!(next, EditContext::Spawn(MapObject::GearSwirl)));
        }
        _ => panic!("expected no placement"),
    }
}

#[test]
fn primitive_shape_placed_then_edited_as_box() {
    let c: Ctx = EditContext::Spawn(MapObject::PrimitiveShape(Shape::SStar));
    match spawn_step_with_id(c, spawn_in(true, false, true), 0) {
        SpawnPlan::Place { what, after, .. } => {
            assert!(matches!(what, Placement::PrimitiveShape(Shape::SStar)));
            assert!(matches!(after, AfterPlace::Select(MapObject::PrimitiveShape(Shape::SBox))));
        }
        _ => panic!("expected a placement"),
    }
}

#[test]
fn teleport_pair_takes_two_clicks() {
    let c: Ctx = EditContext::Spawn(MapObject::GateTeleport(None));
    let after = match spawn_step_with_id(c, spawn_in(true, false, true), 77) {
        SpawnPlan::Place { what, after, .. } => {
            assert!(matches!(what, Placement::TeleportEntrance(77, 7)));
            after
        }
        _ => panic!("expected an entrance"),
    };
    let c2 = placed(after, e(5));
    assert!(matches!(c2, EditContext::Spawn(MapObject::GateTeleport(Some((77, 7))))));
    match spawn_step_with_id(c2, spawn_in(true, false, true), 1) {
        SpawnPlan::Place { what, after, .. } => {
            assert!(matches!(what, Placement::TeleportExit(77, 7)));
            let (m, p, _) = edit_parts(placed(after, e(6)));
            assert!(matches!(m, MapObject::GateTeleport(None)));
            assert_eq!(p, vec![e(6)]);
        }
        _ => panic!("expected an exit"),
    }
}

#[test]
fn random_teleport_id_is_below_max() {
    for _ in 0..50 {
        let c: Ctx = EditContext::Spawn(MapObject::GateTeleport(None));
        match spawn_step(c, spawn_in(true, false, true)) {
            SpawnPlan::Place { what: Placement::TeleportEntrance(id, _), .. } => assert!(id < u32::MAX),
            _ => panic!("expected an entrance"),
        }
    }
}

#[test]
fn pad_takes_origin_then_direction() {
    let c: Ctx = EditContext::Spawn(MapObject::PadVelocity(None));
    let c2 = match spawn_step_with_id(c, spawn_in(true, false, true), 0) {
        SpawnPlan::Stay { next, .. } => next,
        _ => panic!("expected the origin to be kept"),
    };
    assert!(matches!(c2, EditContext::Spawn(MapObject::PadVelocity(Some((10, 20))))));
    let mut input = spawn_in(true, false, true);
    input.cursor = (30, 40);
    match spawn_step_with_id(c2, input, 0) {
        SpawnPlan::Place { what, at, after, .. } => {
            assert!(matches!(what, Placement::PadVelocity((10, 20))));
            assert_eq!(at, (30, 40));
            assert!(matches!(after, AfterPlace::Select(MapObject::PadVelocity(None))));
        }
        _ => panic!("expected a pad"),
    }
}

#[test]
fn shredder_route_is_built_point_by_point() {
    let c: Ctx = EditContext::Spawn(MapObject::Shredder(vec![], vec![]));
    let c2 = match spawn_step_with_id(c, spawn_in(true, false, true), 0) {
        SpawnPlan::Place { what, after, .. } => {
            assert!(matches!(what, Placement::ShredderMarker));
            placed(after, e(11))
        }
        _ => panic!("expected a marker"),
    };
    match &c2 {
        EditContext::Spawn(MapObject::Shredder(ms, route)) => {
            assert_eq!(ms, &vec![e(11)]);
            assert_eq!(route, &vec![(10, 20)]);
        }
        _ => panic!("expected a route under construction"),
    }
    match spawn_step_with_id(c2, spawn_in(false, true, true), 0) {
        SpawnPlan::Place { clear, what: Placement::Shredder(route), .. } => {
            assert_eq!(clear, vec![e(11)]);
            assert_eq!(route, vec![(10, 20)]);
        }
        _ => panic!("expected a shredder"),
    }
}

#[test]
fn breakable_attaches_to_chosen_entities() {
    let c: Ctx = EditContext::Spawn(MapObject::BreakableP1(vec![e(1), e(2)]));
    match spawn_step_with_id(c, spawn_in(false, false, false), 0) {
        SpawnPlan::Stay { attach: Some((a, es)), next, .. } => {
            assert_eq!(a, Attachment::BreakableP1);
            assert_eq!(es, vec![e(1), e(2)]);
            let (m, p, _) = edit_parts(next);
            assert!(matches!(m, MapObject::Empty));
            assert!(p.is_empty());
        }
        _ => panic!("expected an attachment"),
    }
    let empty: Ctx = EditContext::Spawn(MapObject::BreakableP2(vec![]));
    match spawn_step_with_id(empty, spawn_in(false, false, false), 0) {
        SpawnPlan::Stay { attach, next, .. } => {
            assert!(attach.is_none());
            assert!(matches!(next, EditContext::Spawn(MapObject::BreakableP2(_))));
        }
        _ => panic!("expected nothing"),
    }
}

#[test]
fn vibrator_keeps_selection() {
    let c: Ctx = EditContext::Spawn(MapObject::VibratingShape(vec![e(4)]));
    match spawn_step_with_id(c, spawn_in(false, false, true), 0) {
        SpawnPlan::Stay { attach: Some((a, es)), next, .. } => {
            assert_eq!(a, Attachment::Vibrator);
            assert_eq!(es, vec![e(4)]);
            let (m, p, _) = edit_parts(next);
            assert!(matches!(m, MapObject::VibratingShape(ref v) if v.is_empty()));
            assert_eq!(p, vec![e(4)]);
        }
        _ => panic!("expected an attachment"),
    }
}

#[test]
fn palette_plain_buttons() {
    let c: Ctx = EditContext::default();
    assert!(matches!(press(&c, SpawnButton::Plain(PlainKind::GateTeleport)), Some(EditContext::Spawn(MapObject::GateTeleport(None)))));
    assert!(matches!(press(&c, SpawnButton::Plain(PlainKind::PrimitiveShape(Shape::SDia))),
        Some(EditContext::Spawn(MapObject::PrimitiveShape(Shape::SDia)))));
    let s: Ctx = EditContext::Spawn(MapObject::Wall);
    assert!(matches!(press(&s, SpawnButton::Plain(PlainKind::Wall)), Some(EditContext::Spawn(MapObject::Wall))));
}

#[test]
fn palette_splitter_needs_two_selected() {
    let c: Ctx = EditContext::Edit(MapObject::Empty, vec![e(1), e(2)], EditTool::Select);
    match press(&c, SpawnButton::Splitter { first: BallType::Zundamon, second: BallType::Type2P1, copies: 10 }) {
        Some(EditContext::Spawn(MapObject::GateSplitter(sig))) => {
            assert_eq!(sig.len(), 11);
            assert_eq!(sig[0], SpawnBall(1, BallType::Zundamon));
            assert!(sig[1..].iter().all(|s| *s == SpawnBall(2, BallType::Type2P1)));
        }
        _ => panic!("expected a splitter"),
    }
    let one: Ctx = EditContext::Edit(MapObject::Empty, vec![e(1)], EditTool::Select);
    assert!(press(&one, SpawnButton::Splitter { first: BallType::Zombie, second: BallType::Zombie, copies: 1 }).is_none());
    let moving: Ctx = EditContext::Edit(MapObject::Empty, vec![e(1), e(2)], EditTool::Translate);
    assert!(press(&moving, SpawnButton::Splitter { first: BallType::Zombie, second: BallType::Zombie, copies: 1 }).is_none());
}

#[test]
fn palette_timer_and_attachments() {
    let one: Ctx = EditContext::Edit(MapObject::Empty, vec![e(9)], EditTool::Select);
    match press(&one, SpawnButton::SpawnTimer(BallType::Zombie)) {
        Some(EditContext::Spawn(MapObject::SpawnTimer(sig))) => assert_eq!(sig, vec![SpawnBall(9, BallType::Zombie)]),
        _ => panic!("expected a timer"),
    }
    let none: Ctx = EditContext::Edit(MapObject::Empty, vec![], EditTool::Rotate);
    assert!(press(&none, SpawnButton::Vibrator).is_none());
    assert!(matches!(press(&none, SpawnButton::BreakableP1), Some(EditContext::Spawn(MapObject::BreakableP1(ref v))) if v.is_empty()));
    let placing: Ctx = EditContext::Spawn(MapObject::Wall);
    assert!(press(&placing, SpawnButton::Rotator).is_none());
}

#[test]
fn debug_spawn_targets_selected_gate() {
    let c: Ctx = EditContext::Edit(MapObject::GateGeneric, vec![e(12)], EditTool::Select);
    assert_eq!(debug_spawn_signal(&c, BallType::Type1P2), Some(SpawnBall(12, BallType::Type1P2)));
    let w: Ctx = EditContext::Edit(MapObject::Wall, vec![e(12)], EditTool::Select);
    assert_eq!(debug_spawn_signal(&w, BallType::Type1P2), None);
}

#[test]
fn artillery_aiming_tool() {
    let c: Ctx = EditContext::Edit(artillery_map_object(true), vec![e(3)], EditTool::Select);
    let (c, aim) = artillery_tool_step(c, false);
    assert_eq!(aim, None);
    let (c, aim) = artillery_tool_step(c, true);
    assert_eq!(aim, Some(e(3)));
    let (_, _, t) = edit_parts(c);
    assert_eq!(t, EditTool::Custom1);
    let w: Ctx = EditContext::Edit(MapObject::Wall, vec![e(3)], EditTool::Select);
    let (_, aim) = artillery_tool_step(w, true);
    assert_eq!(aim, None);
    assert!(matches!(artillery_map_object::<(i32, i32), u8>(false), MapObject::ArtilleryAutoP2));
}
