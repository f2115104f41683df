//! The map editor's state: either editing a selection with a tool, or about
//! to place a new map element. Positions (`P`) and colors (`C`) are carried
//! along as they are; the editor's rules never look into them.
use vstd::prelude::*;
use crate::ball::{EntityId, SpawnBall};

verus! {

/// The tool applied to the selection while the mouse moves.
#[derive(Clone, Copy, PartialEq, Eq, Structural, Debug)]
pub enum EditTool {
    Select,
    Translate,
    Rotate,
    Scale,
    ScaleDistort,
    /// The tool of a selected element kind of its own (aiming an artillery).
    Custom1,
}

/// The outline of a primitive shape.
#[derive(Clone, Copy, PartialEq, Eq, Structural, Debug)]
pub enum Shape {
    SBox,
    SCircle,
    SDia,
    SStar,
    STriangle,
}

/// The kind of map element the editor deals with, with what placing it still needs.
#[derive(Debug)]
pub enum MapObject<P, C> {
    Empty,
    Artillery,
    ArtilleryAutoP1,
    ArtilleryAutoP2,
    BlockZombie,
    BreakableP1(Vec<EntityId>),
    BreakableP2(Vec<EntityId>),
    BreakableSyncP1(Vec<EntityId>),
    BreakableSyncP2(Vec<EntityId>),
    ConverterBody,
    GateGeneric,
    GateSplitter(Vec<SpawnBall>),
    /// The pair id and color of a teleport entrance already placed.
    GateTeleport(Option<(u32, C)>),
    GateZombie,
    GateZundamon,
    GearSimple,
    GearSorting,
    GearSwirl,
    /// The origin of a pad already chosen.
    PadAcceleration(Option<P>),
    PadVelocity(Option<P>),
    PrimitiveShape(Shape),
    RevoluteJoint(Vec<EntityId>),
    RotatingShape(Vec<EntityId>),
    /// The markers and points of a shredder route under construction.
    Shredder(Vec<EntityId>, Vec<P>),
    SpawnTimer(Vec<SpawnBall>),
    SpriteObject(String),
    VibratingShape(Vec<EntityId>),
    Wall,
    WallBreakableP1,
    WallBreakableP2,
    Zundamon,
}

/// The editor's state.
#[derive(Debug)]
pub enum EditContext<P, C> {
    /// Editing: the kind of the selection, the selected entities, the active tool.
    Edit(MapObject<P, C>, Vec<EntityId>, EditTool),
    /// About to place (or attach) an element of this kind.
    Spawn(MapObject<P, C>),
}

/// `c` is the editing state with this kind, selection and tool.
pub open spec fn is_edit<P, C>(c: EditContext<P, C>, m: MapObject<P, C>, pick: Seq<EntityId>, tool: EditTool) -> bool {
    c matches EditContext::Edit(m2, p2, t2) && m2 == m && p2@ == pick && t2 == tool
}

impl<P, C> Default for EditContext<P, C> {
    /// Editing, with nothing selected and the select tool.
    fn default() -> (c: Self)
        ensures
            is_edit(c, MapObject::Empty, Seq::empty(), EditTool::Select),
    {
        EditContext::Edit(MapObject::Empty, Vec::new(), EditTool::Select)
    }
}

/// The editing keys held down in this frame.
#[derive(Clone, Copy, Debug)]
pub struct EditKeys {
    pub escape: bool,
    pub key_q: bool,
    pub key_t: bool,
    pub key_r: bool,
    pub key_s: bool,
    pub key_d: bool,
    pub delete: bool,
}

/// What the player did in this frame while editing.
pub struct EditInput<P, C> {
    /// The left button went down.
    pub left_pressed: bool,
    /// The left button went up.
    pub left_released: bool,
    pub shift: bool,
    /// The other keys held down.
    pub keys: EditKeys,
    /// The smallest element under the cursor, with its kind, if any.
    pub clicked: Option<(EntityId, MapObject<P, C>)>,
}

/// What the editor asks of the world in this frame.
pub struct EditAction {
    /// Entities to remove, with their children.
    pub despawn: Vec<EntityId>,
    /// The tool to apply to the entity, as the frame began.
    pub apply: Option<(EditTool, EntityId)>,
}

/// The keys that choose a tool, in order of precedence, when something is
/// selected: Escape drops the selection, Q/T/R/S choose select, translate,
/// rotate, scale, D turns scaling into distorting scaling, Delete removes the selection.
pub open spec fn key_tool(tool: EditTool, keys: EditKeys) -> Option<EditTool> {
    if keys.key_q {
        Some(EditTool::Select)
    } else if keys.key_t {
        Some(EditTool::Translate)
    } else if keys.key_r {
        Some(EditTool::Rotate)
    } else if keys.key_s {
        Some(EditTool::Scale)
    } else if tool == EditTool::Scale && keys.key_d {
        Some(EditTool::ScaleDistort)
    } else {
        None
    }
}

/// A tool that moves or reshapes the selection.
pub open spec fn is_shaping(tool: EditTool) -> bool {
    tool == EditTool::Translate || tool == EditTool::Rotate || tool == EditTool::Scale
        || tool == EditTool::ScaleDistort
}

/// The four tools that move or reshape the selection are applied every
/// frame to its first entity; selecting and aiming apply nothing.
pub proof fn lemma_shaping_tools()
    ensures
        is_shaping(EditTool::Translate),
        is_shaping(EditTool::Rotate),
        is_shaping(EditTool::Scale),
        is_shaping(EditTool::ScaleDistort),
        !is_shaping(EditTool::Select),
        !is_shaping(EditTool::Custom1),
{
}

/// One frame of editing. A left click picks the element under the cursor when
/// nothing is selected or Shift is held (with Shift it is added to the
/// selection, whose kind is then unknown); releasing the button goes back to
/// the select tool; with a selection, the keys choose the tool, drop or remove
/// the selection. The tool active when the frame began is applied to the first
/// selected entity. Placing is not handled here: that state is returned unchanged.
pub fn edit_step<P, C>(ctx: EditContext<P, C>, input: EditInput<P, C>) -> (r: (EditContext<P, C>, EditAction))
    ensures
        ctx is Spawn ==> r.0 == ctx && r.1.despawn@.len() == 0 && r.1.apply is None,
        ctx matches EditContext::Edit(m, pick, tool) ==> {
            let select = input.left_pressed && (pick@.len() == 0 || input.shift);
            &&& select ==> match input.clicked {
                Some((e, em)) => if input.shift {
                    is_edit(r.0, MapObject::Empty, pick@.push(e), EditTool::Select)
                } else {
                    is_edit(r.0, em, seq![e], EditTool::Select)
                },
                None => r.0 == ctx,
            }
            &&& !select && input.left_released ==> is_edit(r.0, m, pick@, EditTool::Select)
            &&& !select && !input.left_released && pick@.len() > 0 ==> {
                if input.keys.escape {
                    is_edit(r.0, MapObject::Empty, Seq::empty(), EditTool::Select)
                } else if key_tool(tool, input.keys) is Some {
                    is_edit(r.0, m, pick@, key_tool(tool, input.keys).unwrap())
                } else if input.keys.delete {
                    is_edit(r.0, MapObject::Empty, Seq::empty(), EditTool::Select)
                } else {
                    r.0 == ctx
                }
            }
            &&& !select && !input.left_released && pick@.len() == 0 ==> r.0 == ctx
            &&& r.1.despawn@ == if !select && !input.left_released && pick@.len() > 0 && !input.keys.escape
                && key_tool(tool, input.keys) is None && input.keys.delete { pick@ } else { Seq::empty() }
            &&& r.1.apply == if pick@.len() > 0 && is_shaping(tool) { Some((tool, pick@[0])) } else { None }
            &&& pick@.len() > 0 && tool == EditTool::Translate ==> r.1.apply == Some((EditTool::Translate, pick@[0]))
            &&& pick@.len() > 0 && tool == EditTool::Rotate ==> r.1.apply == Some((EditTool::Rotate, pick@[0]))
            &&& pick@.len() > 0 && tool == EditTool::Scale ==> r.1.apply == Some((EditTool::Scale, pick@[0]))
            &&& pick@.len() > 0 && tool == EditTool::ScaleDistort ==> r.1.apply == Some((EditTool::ScaleDistort, pick@[0]))
            &&& (pick@.len() == 0 || tool == EditTool::Select || tool == EditTool::Custom1) ==> r.1.apply is None
        },
{
    match ctx {
        EditContext::Spawn(m) => {
            (EditContext::Spawn(m), EditAction { despawn: Vec::new(), apply: None })
        },
        EditContext::Edit(m, pick, tool) => {
            let apply = if pick.len() > 0 && (tool == EditTool::Translate || tool == EditTool::Rotate
                || tool == EditTool::Scale || tool == EditTool::ScaleDistort) {
                Some((tool, pick[0]))
            } else {
                None
            };
            let mut despawn: Vec<EntityId> = Vec::new();
            let next = if input.left_pressed && (pick.len() == 0 || input.shift) {
                match input.clicked {
                    Some((e, em)) => {
                        if input.shift {
                            let mut p2 = pick;
                            p2.push(e);
                            EditContext::Edit(MapObject::Empty, p2, EditTool::Select)
                        } else {
                            let mut p2 = Vec::new();
                            p2.push(e);
                            EditContext::Edit(em, p2, EditTool::Select)
                        }
                    },
                    None => EditContext::Edit(m, pick, tool),
                }
            } else if input.left_released {
                EditContext::Edit(m, pick, EditTool::Select)
            } else if pick.len() > 0 {
                if input.keys.escape {
                    EditContext::Edit(MapObject::Empty, Vec::new(), EditTool::Select)
                } else if input.keys.key_q {
                    EditContext::Edit(m, pick, EditTool::Select)
                } else if input.keys.key_t {
                    EditContext::Edit(m, pick, EditTool::Translate)
                } else if input.keys.key_r {
                    EditContext::Edit(m, pick, EditTool::Rotate)
                } else if input.keys.key_s {
                    EditContext::Edit(m, pick, EditTool::Scale)
                } else if tool == EditTool::Scale && input.keys.key_d {
                    EditContext::Edit(m, pick, EditTool::ScaleDistort)
                } else if input.keys.delete {
                    despawn = pick;
                    EditContext::Edit(MapObject::Empty, Vec::new(), EditTool::Select)
                } else {
                    EditContext::Edit(m, pick, tool)
                }
            } else {
                EditContext::Edit(m, pick, tool)
            };
            (next, EditAction { despawn, apply })
        },
    }
}

/// An element to place at a position.
#[derive(Debug)]
pub enum Placement<P, C> {
    ArtilleryAutoP1,
    ArtilleryAutoP2,
    BlockZombie,
    ConverterBody,
    GateGeneric,
    GateZombie,
    GateZundamon,
    GearSimple,
    GearSorting,
    GearSwirl,
    Wall,
    WallBreakableP1,
    WallBreakableP2,
    Zundamon,
    PrimitiveShape(Shape),
    GateSplitter(Vec<SpawnBall>),
    SpawnTimer(Vec<SpawnBall>),
    SpriteObject(String),
    /// A teleport entrance with this pair id and color.
    TeleportEntrance(u32, C),
    /// A teleport exit with this pair id and color.
    TeleportExit(u32, C),
    /// A velocity pad at this origin, pointing at the position.
    PadVelocity(P),
    /// An acceleration pad at this origin, pointing at the position.
    PadAcceleration(P),
    /// A marker of a shredder route point.
    ShredderMarker,
    /// A shredder following this route.
    Shredder(Vec<P>),
}

/// Components to attach to selected entities.
#[derive(Clone, Copy, PartialEq, Eq, Structural, Debug)]
pub enum Attachment {
    BreakableP1,
    BreakableP2,
    Vibrator,
    Rotator,
    RevoluteJoint,
}

/// How the editor's state follows from the entity just placed.
#[derive(Debug)]
pub enum AfterPlace<P, C> {
    /// Edit the new entity alone, as an element of this kind.
    Select(MapObject<P, C>),
    /// Go on to this state.
    Stay(EditContext<P, C>),
    /// The new entity is one more shredder route marker: keep building the
    /// route with these markers and points.
    AddMarker(Vec<EntityId>, Vec<P>),
}

/// What placing asks of the world in this frame.
#[derive(Debug)]
pub enum SpawnPlan<P, C> {
    /// Place nothing: remove `clear`, attach components, and go on to `next`.
    Stay { clear: Vec<EntityId>, attach: Option<(Attachment, Vec<EntityId>)>, next: EditContext<P, C> },
    /// Remove `clear`, place `what` at `at`, then let `after` give the next state.
    Place { clear: Vec<EntityId>, what: Placement<P, C>, at: P, after: AfterPlace<P, C> },
}

/// What the player did in this frame while placing.
pub struct SpawnInput<P, C> {
    pub left_pressed: bool,
    pub right_pressed: bool,
    /// The cursor is over the world (inside the window, not on a tool window).
    pub over_world: bool,
    /// The cursor's position in the world.
    pub cursor: P,
    /// A fresh color for a new teleport pair.
    pub color: C,
}

/// The element kinds placed by a single click, without anything more to
/// give: what is placed, the kind the new entity is then edited as, and
/// whether the cursor must be over the world.
pub open spec fn simple_placement<P, C>(m: MapObject<P, C>) -> Option<(Placement<P, C>, MapObject<P, C>, bool)> {
    match m {
        MapObject::ArtilleryAutoP1 => Some((Placement::ArtilleryAutoP1, MapObject::ArtilleryAutoP1, false)),
        MapObject::ArtilleryAutoP2 => Some((Placement::ArtilleryAutoP2, MapObject::ArtilleryAutoP2, false)),
        MapObject::BlockZombie => Some((Placement::BlockZombie, MapObject::BlockZombie, true)),
        MapObject::ConverterBody => Some((Placement::ConverterBody, MapObject::ConverterBody, true)),
        MapObject::GateGeneric => Some((Placement::GateGeneric, MapObject::GateGeneric, false)),
        MapObject::GateZombie => Some((Placement::GateZombie, MapObject::GateZombie, true)),
        MapObject::GateZundamon => Some((Placement::GateZundamon, MapObject::GateZundamon, true)),
        MapObject::GearSimple => Some((Placement::GearSimple, MapObject::GearSimple, true)),
        MapObject::GearSorting => Some((Placement::GearSorting, MapObject::GearSorting, true)),
        MapObject::GearSwirl => Some((Placement::GearSwirl, MapObject::GearSwirl, true)),
        MapObject::Wall => Some((Placement::Wall, MapObject::Wall, false)),
        MapObject::WallBreakableP1 => Some((Placement::WallBreakableP1, MapObject::Wall, false)),
        MapObject::WallBreakableP2 => Some((Placement::WallBreakableP2, MapObject::Wall, false)),
        MapObject::Zundamon => Some((Placement::Zundamon, MapObject::Zundamon, true)),
        MapObject::PrimitiveShape(sh) => Some((Placement::PrimitiveShape(sh), MapObject::PrimitiveShape(Shape::SBox), true)),
        _ => None,
    }
}

/// The plan leaves everything as it is.
pub open spec fn stays<P, C>(plan: SpawnPlan<P, C>, ctx: EditContext<P, C>) -> bool {
    plan matches SpawnPlan::Stay { clear, attach, next } && clear@.len() == 0 && attach is None && next == ctx
}

/// The plan places `what` at `at` without removing anything, then goes on as `after` says.
pub open spec fn places<P, C>(plan: SpawnPlan<P, C>, what: Placement<P, C>, at: P, after: AfterPlace<P, C>) -> bool {
    plan matches SpawnPlan::Place { clear, what: w, at: a, after: f } && clear@.len() == 0 && w == what
        && a == at && f == after
}

/// The plan attaches `att` to `to` and goes on to a state that `next_pred` accepts.
pub open spec fn attaches<P, C>(plan: SpawnPlan<P, C>, att: Attachment, to: Seq<EntityId>, next_pred: spec_fn(EditContext<P, C>) -> bool) -> bool {
    plan matches SpawnPlan::Stay { clear, attach: Some((a, es)), next } && clear@.len() == 0 && a == att
        && es@ == to && next_pred(next)
}

/// The editor's state once the entity `e` has been placed.
pub fn placed<P, C>(after: AfterPlace<P, C>, e: EntityId) -> (c: EditContext<P, C>)
    ensures
        after matches AfterPlace::Select(m) ==> is_edit(c, m, seq![e], EditTool::Select),
        after matches AfterPlace::Stay(next) ==> c == next,
        after matches AfterPlace::AddMarker(ms, route) ==> c matches EditContext::Spawn(MapObject::Shredder(ms2, route2))
            && ms2@ == ms@.push(e) && route2@ == route@,
{
    match after {
        AfterPlace::Select(m) => {
            let mut pick = Vec::new();
            pick.push(e);
            EditContext::Edit(m, pick, EditTool::Select)
        },
        AfterPlace::Stay(next) => next,
        AfterPlace::AddMarker(ms, route) => {
            let mut ms2 = ms;
            ms2.push(e);
            EditContext::Spawn(MapObject::Shredder(ms2, route))
        },
    }
}

/// One frame of placing, with `fresh_id` the pair id a new teleport entrance gets.
/// A click places the element being placed at the cursor (teleport gates and
/// pads take two clicks: entrance then exit, origin then direction; a shredder
/// route takes a click per point and a right click to finish it), and the new
/// element is then edited alone. Breakables, vibrators, rotators and joints are
/// attached to the entities chosen beforehand. Kinds placed from the main
/// view need the cursor over the world. Editing is not handled here: that
/// state is returned unchanged.
/// The plan `plan` is what one frame of placing asks for, from the state
/// `ctx`, with `input` and `fresh_id` the pair id a new teleport entrance gets.
pub open spec fn spawn_plan_ok<P, C>(ctx: EditContext<P, C>, input: SpawnInput<P, C>, fresh_id: u32, plan: SpawnPlan<P, C>) -> bool {
    &&& ctx is Edit ==> stays(plan, ctx)
    &&& ctx matches EditContext::Spawn(m) ==> {
        let click = input.left_pressed;
        let world_click = input.left_pressed && input.over_world;
        &&& simple_placement(m) matches Some((what, tag, main)) ==> if click && (!main || input.over_world) {
            places(plan, what, input.cursor, AfterPlace::Select(tag))
        } else {
            stays(plan, ctx)
        }
        &&& m matches MapObject::GateSplitter(sig) ==> if click {
            plan matches SpawnPlan::Place { clear, what: Placement::GateSplitter(s2), at, after: AfterPlace::Select(MapObject::GateSplitter(e2)) }
                && clear@.len() == 0 && s2@ == sig@ && at == input.cursor && e2@.len() == 0
        } else {
            stays(plan, ctx)
        }
        &&& m matches MapObject::SpawnTimer(sig) ==> if click {
            plan matches SpawnPlan::Place { clear, what: Placement::SpawnTimer(s2), at, after: AfterPlace::Select(MapObject::SpawnTimer(e2)) }
                && clear@.len() == 0 && s2@ == sig@ && at == input.cursor && e2@.len() == 0
        } else {
            stays(plan, ctx)
        }
        &&& m matches MapObject::SpriteObject(h) ==> if click {
            plan matches SpawnPlan::Place { clear, what: Placement::SpriteObject(h2), at, after: AfterPlace::Select(MapObject::SpriteObject(e2)) }
                && clear@.len() == 0 && h2@ == h@ && at == input.cursor && e2@.len() == 0
        } else {
            stays(plan, ctx)
        }
        &&& m matches MapObject::GateTeleport(pair) ==> if world_click {
            match pair {
                None => places(plan, Placement::TeleportEntrance(fresh_id, input.color), input.cursor,
                    AfterPlace::Stay(EditContext::Spawn(MapObject::GateTeleport(Some((fresh_id, input.color)))))),
                Some((id, col)) => places(plan, Placement::TeleportExit(id, col), input.cursor,
                    AfterPlace::Select(MapObject::GateTeleport(None))),
            }
        } else {
            stays(plan, ctx)
        }
        &&& m matches MapObject::PadVelocity(origin) ==> if world_click {
            match origin {
                None => stays(plan, EditContext::Spawn(MapObject::PadVelocity(Some(input.cursor)))),
                Some(o) => places(plan, Placement::PadVelocity(o), input.cursor, AfterPlace::Select(MapObject::PadVelocity(None))),
            }
        } else {
            stays(plan, ctx)
        }
        &&& m matches MapObject::PadAcceleration(origin) ==> if world_click {
            match origin {
                None => stays(plan, EditContext::Spawn(MapObject::PadAcceleration(Some(input.cursor)))),
                Some(o) => places(plan, Placement::PadAcceleration(o), input.cursor, AfterPlace::Select(MapObject::PadAcceleration(None))),
            }
        } else {
            stays(plan, ctx)
        }
        &&& m matches MapObject::Shredder(ms, route) ==> if world_click {
            plan matches SpawnPlan::Place { clear, what: Placement::ShredderMarker, at, after: AfterPlace::AddMarker(ms2, route2) }
                && clear@.len() == 0 && at == input.cursor && ms2@ == ms@ && route2@ == route@.push(input.cursor)
        } else if input.over_world && input.right_pressed {
            if route@.len() > 0 {
                plan matches SpawnPlan::Place { clear, what: Placement::Shredder(r2), at, after: AfterPlace::Select(MapObject::Shredder(e1, e2)) }
                    && clear@ == ms@ && r2@ == route@ && at == input.cursor && e1@.len() == 0 && e2@.len() == 0
            } else {
                plan matches SpawnPlan::Stay { clear, attach, next } && clear@ == ms@ && attach is None && next == ctx
            }
        } else {
            stays(plan, ctx)
        }
        &&& m matches MapObject::BreakableP1(es) ==> if es@.len() > 0 {
            attaches(plan, Attachment::BreakableP1, es@, |n: EditContext<P, C>| is_edit(n, MapObject::Empty, Seq::empty(), EditTool::Select))
        } else {
            stays(plan, ctx)
        }
        &&& m matches MapObject::BreakableP2(es) ==> if es@.len() > 0 {
            attaches(plan, Attachment::BreakableP2, es@, |n: EditContext<P, C>| is_edit(n, MapObject::Empty, Seq::empty(), EditTool::Select))
        } else {
            stays(plan, ctx)
        }
        &&& m matches MapObject::VibratingShape(es) ==> if input.over_world {
            attaches(plan, Attachment::Vibrator, es@, |n: EditContext<P, C>|
                n matches EditContext::Edit(MapObject::VibratingShape(e0), p, t) && e0@.len() == 0 && p@ == es@ && t == EditTool::Select)
        } else {
            stays(plan, ctx)
        }
        &&& m matches MapObject::RotatingShape(es) ==> if input.over_world {
            attaches(plan, Attachment::Rotator, es@, |n: EditContext<P, C>|
                n matches EditContext::Edit(MapObject::RotatingShape(e0), p, t) && e0@.len() == 0 && p@ == es@ && t == EditTool::Select)
        } else {
            stays(plan, ctx)
        }
        &&& m matches MapObject::RevoluteJoint(es) ==> if click {
            attaches(plan, Attachment::RevoluteJoint, es@, |n: EditContext<P, C>|
                n matches EditContext::Edit(MapObject::RevoluteJoint(e0), p, t) && e0@.len() == 0 && p@ == es@ && t == EditTool::Select)
        } else {
            stays(plan, ctx)
        }
        &&& (m is Empty || m is Artillery || m is BreakableSyncP1 || m is BreakableSyncP2) ==> stays(plan, ctx)
    }
}

pub fn spawn_step_with_id<P: Copy, C: Copy>(ctx: EditContext<P, C>, input: SpawnInput<P, C>, fresh_id: u32) -> (plan: SpawnPlan<P, C>)
    ensures
        spawn_plan_ok(ctx, input, fresh_id, plan),
{
    let click = input.left_pressed;
    let world_click = input.left_pressed && input.over_world;
    match ctx {
        EditContext::Edit(m, pick, tool) => SpawnPlan::Stay {
            clear: Vec::new(),
            attach: None,
            next: EditContext::Edit(m, pick, tool),
        },
        EditContext::Spawn(m) => {
            match m {
                MapObject::ArtilleryAutoP1 => simple(click, Placement::ArtilleryAutoP1, MapObject::ArtilleryAutoP1, input.cursor),
                MapObject::ArtilleryAutoP2 => simple(click, Placement::ArtilleryAutoP2, MapObject::ArtilleryAutoP2, input.cursor),
                MapObject::BlockZombie => simple(world_click, Placement::BlockZombie, MapObject::BlockZombie, input.cursor),
                MapObject::ConverterBody => simple(world_click, Placement::ConverterBody, MapObject::ConverterBody, input.cursor),
                MapObject::GateGeneric => simple(click, Placement::GateGeneric, MapObject::GateGeneric, input.cursor),
                MapObject::GateZombie => simple(world_click, Placement::GateZombie, MapObject::GateZombie, input.cursor),
                MapObject::GateZundamon => simple(world_click, Placement::GateZundamon, MapObject::GateZundamon, input.cursor),
                MapObject::GearSimple => simple(world_click, Placement::GearSimple, MapObject::GearSimple, input.cursor),
                MapObject::GearSorting => simple(world_click, Placement::GearSorting, MapObject::GearSorting, input.cursor),
                MapObject::GearSwirl => simple(world_click, Placement::GearSwirl, MapObject::GearSwirl, input.cursor),
                MapObject::Wall => simple(click, Placement::Wall, MapObject::Wall, input.cursor),
                MapObject::WallBreakableP1 => {
                    if click {
                        SpawnPlan::Place { clear: Vec::new(), what: Placement::WallBreakableP1, at: input.cursor, after: AfterPlace::Select(MapObject::Wall) }
                    } else {
                        stay(EditContext::Spawn(MapObject::WallBreakableP1))
                    }
                },
                MapObject::WallBreakableP2 => {
                    if click {
                        SpawnPlan::Place { clear: Vec::new(), what: Placement::WallBreakableP2, at: input.cursor, after: AfterPlace::Select(MapObject::Wall) }
                    } else {
                        stay(EditContext::Spawn(MapObject::WallBreakableP2))
                    }
                },
                MapObject::Zundamon => simple(world_click, Placement::Zundamon, MapObject::Zundamon, input.cursor),
                MapObject::PrimitiveShape(sh) => {
                    if world_click {
                        SpawnPlan::Place { clear: Vec::new(), what: Placement::PrimitiveShape(sh), at: input.cursor,
                            after: AfterPlace::Select(MapObject::PrimitiveShape(Shape::SBox)) }
                    } else {
                        stay(EditContext::Spawn(MapObject::PrimitiveShape(sh)))
                    }
                },
                MapObject::GateSplitter(sig) => {
                    if click {
                        SpawnPlan::Place { clear: Vec::new(), what: Placement::GateSplitter(sig), at: input.cursor,
                            after: AfterPlace::Select(MapObject::GateSplitter(Vec::new())) }
                    } else {
                        stay(EditContext::Spawn(MapObject::GateSplitter(sig)))
                    }
                },
                MapObject::SpawnTimer(sig) => {
                    if click {
                        SpawnPlan::Place { clear: Vec::new(), what: Placement::SpawnTimer(sig), at: input.cursor,
                            after: AfterPlace::Select(MapObject::SpawnTimer(Vec::new())) }
                    } else {
                        stay(EditContext::Spawn(MapObject::SpawnTimer(sig)))
                    }
                },
                MapObject::SpriteObject(h) => {
                    if click {
                        SpawnPlan::Place { clear: Vec::new(), what: Placement::SpriteObject(h), at: input.cursor,
                            after: AfterPlace::Select(MapObject::SpriteObject(String::new())) }
                    } else {
                        stay(EditContext::Spawn(MapObject::SpriteObject(h)))
                    }
                },
                MapObject::GateTeleport(pair) => {
                    if world_click {
                        match pair {
                            None => SpawnPlan::Place { clear: Vec::new(), what: Placement::TeleportEntrance(fresh_id, input.color),
                                at: input.cursor,
                                after: AfterPlace::Stay(EditContext::Spawn(MapObject::GateTeleport(Some((fresh_id, input.color))))) },
                            Some((id, col)) => SpawnPlan::Place { clear: Vec::new(), what: Placement::TeleportExit(id, col),
                                at: input.cursor, after: AfterPlace::Select(MapObject::GateTeleport(None)) },
                        }
                    } else {
                        stay(EditContext::Spawn(MapObject::GateTeleport(pair)))
                    }
                },
                MapObject::PadVelocity(origin) => {
                    if world_click {
                        match origin {
                            None => stay(EditContext::Spawn(MapObject::PadVelocity(Some(input.cursor)))),
                            Some(o) => SpawnPlan::Place { clear: Vec::new(), what: Placement::PadVelocity(o), at: input.cursor,
                                after: AfterPlace::Select(MapObject::PadVelocity(None)) },
                        }
                    } else {
                        stay(EditContext::Spawn(MapObject::PadVelocity(origin)))
                    }
                },
                MapObject::PadAcceleration(origin) => {
                    if world_click {
                        match origin {
                            None => stay(EditContext::Spawn(MapObject::PadAcceleration(Some(input.cursor)))),
                            Some(o) => SpawnPlan::Place { clear: Vec::new(), what: Placement::PadAcceleration(o), at: input.cursor,
                                after: AfterPlace::Select(MapObject::PadAcceleration(None)) },
                        }
                    } else {
                        stay(EditContext::Spawn(MapObject::PadAcceleration(origin)))
                    }
                },
                MapObject::Shredder(ms, route) => {
                    if world_click {
                        let mut r2 = route;
                        r2.push(input.cursor);
                        SpawnPlan::Place { clear: Vec::new(), what: Placement::ShredderMarker, at: input.cursor,
                            after: AfterPlace::AddMarker(ms, r2) }
                    } else if input.over_world && input.right_pressed {
                        if route.len() > 0 {
                            SpawnPlan::Place { clear: ms, what: Placement::Shredder(route), at: input.cursor,
                                after: AfterPlace::Select(MapObject::Shredder(Vec::new(), Vec::new())) }
                        } else {
                            let cleared = ms.clone();
                            SpawnPlan::Stay { clear: cleared, attach: None, next: EditContext::Spawn(MapObject::Shredder(ms, route)) }
                        }
                    } else {
                        stay(EditContext::Spawn(MapObject::Shredder(ms, route)))
                    }
                },
                MapObject::BreakableP1(es) => {
                    if es.len() > 0 {
                        SpawnPlan::Stay { clear: Vec::new(), attach: Some((Attachment::BreakableP1, es)),
                            next: EditContext::Edit(MapObject::Empty, Vec::new(), EditTool::Select) }
                    } else {
                        stay(EditContext::Spawn(MapObject::BreakableP1(es)))
                    }
                },
                MapObject::BreakableP2(es) => {
                    if es.len() > 0 {
                        SpawnPlan::Stay { clear: Vec::new(), attach: Some((Attachment::BreakableP2, es)),
                            next: EditContext::Edit(MapObject::Empty, Vec::new(), EditTool::Select) }
                    } else {
                        stay(EditContext::Spawn(MapObject::BreakableP2(es)))
                    }
                },
                MapObject::VibratingShape(es) => {
                    if input.over_world {
                        let sel = es.clone();
                        SpawnPlan::Stay { clear: Vec::new(), attach: Some((Attachment::Vibrator, es)),
                            next: EditContext::Edit(MapObject::VibratingShape(Vec::new()), sel, EditTool::Select) }
                    } else {
                        stay(EditContext::Spawn(MapObject::VibratingShape(es)))
                    }
                },
                MapObject::RotatingShape(es) => {
                    if input.over_world {
                        let sel = es.clone();
                        SpawnPlan::Stay { clear: Vec::new(), attach: Some((Attachment::Rotator, es)),
                            next: EditContext::Edit(MapObject::RotatingShape(Vec::new()), sel, EditTool::Select) }
                    } else {
                        stay(EditContext::Spawn(MapObject::RotatingShape(es)))
                    }
                },
                MapObject::RevoluteJoint(es) => {
                    if click {
                        let sel = es.clone();
                        SpawnPlan::Stay { clear: Vec::new(), attach: Some((Attachment::RevoluteJoint, es)),
                            next: EditContext::Edit(MapObject::RevoluteJoint(Vec::new()), sel, EditTool::Select) }
                    } else {
                        stay(EditContext::Spawn(MapObject::RevoluteJoint(es)))
                    }
                },
                MapObject::Empty => stay(EditContext::Spawn(MapObject::Empty)),
                MapObject::Artillery => stay(EditContext::Spawn(MapObject::Artillery)),
                MapObject::BreakableSyncP1(es) => stay(EditContext::Spawn(MapObject::BreakableSyncP1(es))),
                MapObject::BreakableSyncP2(es) => stay(EditContext::Spawn(MapObject::BreakableSyncP2(es))),
            }
        },
    }
}

/// The plan places `what` at `at`, removing nothing, and then edits the new
/// entity alone, with the select tool, as an element of kind `kind`.
pub open spec fn click_places<P, C>(plan: SpawnPlan<P, C>, what: Placement<P, C>, at: P, kind: MapObject<P, C>) -> bool {
    plan matches SpawnPlan::Place { clear, what: w, at: a, after: AfterPlace::Select(k) }
        && clear@.len() == 0 && w == what && a == at && k == kind
}

/// A click over the world, while placing an element that needs a single
/// click, places an element of that very kind at the cursor and then edits
/// it alone: a zombie gate state places a zombie gate, a zundamon gate state
/// a zundamon gate, and so on. Breakable walls are then edited as walls,
/// primitive shapes as boxes.
pub proof fn lemma_click_places_own_kind<P, C>(ctx: EditContext<P, C>, input: SpawnInput<P, C>, fresh_id: u32, plan: SpawnPlan<P, C>)
    requires
        spawn_plan_ok(ctx, input, fresh_id, plan),
        input.left_pressed,
        input.over_world,
    ensures
        ctx == EditContext::<P, C>::Spawn(MapObject::ArtilleryAutoP1)
            ==> click_places(plan, Placement::ArtilleryAutoP1, input.cursor, MapObject::ArtilleryAutoP1),
        ctx == EditContext::<P, C>::Spawn(MapObject::ArtilleryAutoP2)
            ==> click_places(plan, Placement::ArtilleryAutoP2, input.cursor, MapObject::ArtilleryAutoP2),
        ctx == EditContext::<P, C>::Spawn(MapObject::BlockZombie)
            ==> click_places(plan, Placement::BlockZombie, input.cursor, MapObject::BlockZombie),
        ctx == EditContext::<P, C>::Spawn(MapObject::ConverterBody)
            ==> click_places(plan, Placement::ConverterBody, input.cursor, MapObject::ConverterBody),
        ctx == EditContext::<P, C>::Spawn(MapObject::GateGeneric)
            ==> click_places(plan, Placement::GateGeneric, input.cursor, MapObject::GateGeneric),
        ctx == EditContext::<P, C>::Spawn(MapObject::GateZombie)
            ==> click_places(plan, Placement::GateZombie, input.cursor, MapObject::GateZombie),
        ctx == EditContext::<P, C>::Spawn(MapObject::GateZundamon)
            ==> click_places(plan, Placement::GateZundamon, input.cursor, MapObject::GateZundamon),
        ctx == EditContext::<P, C>::Spawn(MapObject::GearSimple)
            ==> click_places(plan, Placement::GearSimple, input.cursor, MapObject::GearSimple),
        ctx == EditContext::<P, C>::Spawn(MapObject::GearSorting)
            ==> click_places(plan, Placement::GearSorting, input.cursor, MapObject::GearSorting),
        ctx == EditContext::<P, C>::Spawn(MapObject::GearSwirl)
            ==> click_places(plan, Placement::GearSwirl, input.cursor, MapObject::GearSwirl),
        ctx == EditContext::<P, C>::Spawn(MapObject::Wall)
            ==> click_places(plan, Placement::Wall, input.cursor, MapObject::Wall),
        ctx == EditContext::<P, C>::Spawn(MapObject::WallBreakableP1)
            ==> click_places(plan, Placement::WallBreakableP1, input.cursor, MapObject::Wall),
        ctx == EditContext::<P, C>::Spawn(MapObject::WallBreakableP2)
            ==> click_places(plan, Placement::WallBreakableP2, input.cursor, MapObject::Wall),
        ctx == EditContext::<P, C>::Spawn(MapObject::Zundamon)
            ==> click_places(plan, Placement::Zundamon, input.cursor, MapObject::Zundamon),
        ctx matches EditContext::Spawn(MapObject::PrimitiveShape(sh))
            ==> click_places(plan, Placement::PrimitiveShape(sh), input.cursor, MapObject::PrimitiveShape(Shape::SBox)),
{
}

/// Without a click, placing a one-click element leaves everything as it is.
pub proof fn lemma_no_click_no_placement<P, C>(ctx: EditContext<P, C>, input: SpawnInput<P, C>, fresh_id: u32, plan: SpawnPlan<P, C>)
    requires
        spawn_plan_ok(ctx, input, fresh_id, plan),
        !input.left_pressed,
        ctx matches EditContext::Spawn(m) && (m is ArtilleryAutoP1 || m is ArtilleryAutoP2 || m is BlockZombie
            || m is ConverterBody || m is GateGeneric || m is GateZombie || m is GateZundamon || m is GearSimple
            || m is GearSorting || m is GearSwirl || m is Wall || m is WallBreakableP1 || m is WallBreakableP2
            || m is Zundamon || m is PrimitiveShape),
    ensures
        plan matches SpawnPlan::Stay { clear, attach, next } && clear@.len() == 0 && attach is None && next == ctx,
{
}

/// Leave everything as it is, in the state `next`.
fn stay<P, C>(next: EditContext<P, C>) -> (plan: SpawnPlan<P, C>)
    ensures
        stays(plan, next),
{
    SpawnPlan::Stay { clear: Vec::new(), attach: None, next }
}

/// Place a one-click element when `go` holds, else stay placing it.
fn simple<P, C>(go: bool, what: Placement<P, C>, kind: MapObject<P, C>, at: P) -> (plan: SpawnPlan<P, C>)
    requires
        kind is ArtilleryAutoP1 || kind is ArtilleryAutoP2 || kind is BlockZombie || kind is ConverterBody
            || kind is GateGeneric || kind is GateZombie || kind is GateZundamon || kind is GearSimple
            || kind is GearSorting || kind is GearSwirl || kind is Wall || kind is Zundamon,
    ensures
        go ==> places(plan, what, at, AfterPlace::Select(kind)),
        !go ==> stays(plan, EditContext::Spawn(kind)),
{
    if go {
        SpawnPlan::Place { clear: Vec::new(), what, at, after: AfterPlace::Select(kind) }
    } else {
        let again = match kind {
            MapObject::ArtilleryAutoP1 => MapObject::ArtilleryAutoP1,
            MapObject::ArtilleryAutoP2 => MapObject::ArtilleryAutoP2,
            MapObject::BlockZombie => MapObject::BlockZombie,
            MapObject::ConverterBody => MapObject::ConverterBody,
            MapObject::GateGeneric => MapObject::GateGeneric,
            MapObject::GateZombie => MapObject::GateZombie,
            MapObject::GateZundamon => MapObject::GateZundamon,
            MapObject::GearSimple => MapObject::GearSimple,
            MapObject::GearSorting => MapObject::GearSorting,
            MapObject::GearSwirl => MapObject::GearSwirl,
            MapObject::Wall => MapObject::Wall,
            _ => MapObject::Zundamon,
        };
        stay(EditContext::Spawn(again))
    }
}

/// One frame of placing: as `spawn_step_with_id`, where a new teleport
/// entrance gets a random pair id below `u32::MAX`, drawn only when one is placed.
pub fn spawn_step<P: Copy, C: Copy>(ctx: EditContext<P, C>, input: SpawnInput<P, C>) -> (plan: SpawnPlan<P, C>)
    ensures
        exists|id: u32| id < u32::MAX && spawn_plan_ok(ctx, input, id, plan),
{
    let needs_id = match &ctx {
        EditContext::Spawn(MapObject::GateTeleport(None)) => input.left_pressed && input.over_world,
        _ => false,
    };
    let id = if needs_id { crate::random::random_teleport_id() } else { 0 };
    spawn_step_with_id(ctx, input, id)
}

/// A button of the element palette.
#[derive(Clone, Copy, Debug)]
pub enum SpawnButton {
    /// Start placing an element of a kind needing nothing chosen beforehand.
    Plain(PlainKind),
    /// A splitter between the two selected gates: one `first` ball for the
    /// first gate, then `copies` balls of kind `second` for the second gate.
    Splitter { first: crate::ball::BallType, second: crate::ball::BallType, copies: u32 },
    /// A spawn timer for the one selected gate, releasing a ball of this kind.
    SpawnTimer(crate::ball::BallType),
    BreakableP1,
    BreakableP2,
    BreakableSyncP1,
    BreakableSyncP2,
    Vibrator,
    Rotator,
    RevoluteJoint,
}

/// The kinds the palette places without anything chosen beforehand.
#[derive(Clone, Copy, PartialEq, Eq, Structural, Debug)]
pub enum PlainKind {
    Artillery,
    BlockZombie,
    ConverterBody,
    GearSimple,
    GearSorting,
    GearSwirl,
    GateGeneric,
    GateTeleport,
    GateZombie,
    GateZundamon,
    PadVelocity,
    PadAcceleration,
    PrimitiveShape(Shape),
    Shredder,
    Zundamon,
    Wall,
}

/// The placing state a plain palette button starts.
pub open spec fn plain_state<P, C>(k: PlainKind, c: EditContext<P, C>) -> bool {
    match k {
        PlainKind::Artillery => c == EditContext::<P, C>::Spawn(MapObject::Artillery),
        PlainKind::BlockZombie => c == EditContext::<P, C>::Spawn(MapObject::BlockZombie),
        PlainKind::ConverterBody => c == EditContext::<P, C>::Spawn(MapObject::ConverterBody),
        PlainKind::GearSimple => c == EditContext::<P, C>::Spawn(MapObject::GearSimple),
        PlainKind::GearSorting => c == EditContext::<P, C>::Spawn(MapObject::GearSorting),
        PlainKind::GearSwirl => c == EditContext::<P, C>::Spawn(MapObject::GearSwirl),
        PlainKind::GateGeneric => c == EditContext::<P, C>::Spawn(MapObject::GateGeneric),
        PlainKind::GateTeleport => c == EditContext::<P, C>::Spawn(MapObject::GateTeleport(None)),
        PlainKind::GateZombie => c == EditContext::<P, C>::Spawn(MapObject::GateZombie),
        PlainKind::GateZundamon => c == EditContext::<P, C>::Spawn(MapObject::GateZundamon),
        PlainKind::PadVelocity => c == EditContext::<P, C>::Spawn(MapObject::PadVelocity(None)),
        PlainKind::PadAcceleration => c == EditContext::<P, C>::Spawn(MapObject::PadAcceleration(None)),
        PlainKind::PrimitiveShape(sh) => c == EditContext::<P, C>::Spawn(MapObject::PrimitiveShape(sh)),
        PlainKind::Shredder => c matches EditContext::Spawn(MapObject::Shredder(ms, route)) && ms@.len() == 0 && route@.len() == 0,
        PlainKind::Zundamon => c == EditContext::<P, C>::Spawn(MapObject::Zundamon),
        PlainKind::Wall => c == EditContext::<P, C>::Spawn(MapObject::Wall),
    }
}

/// Each plain palette button starts placing an element of its own kind: no
/// two plain kinds lead to the same placing state.
pub proof fn lemma_plain_kinds_distinct<P, C>(k1: PlainKind, k2: PlainKind, c: EditContext<P, C>)
    requires
        plain_state(k1, c),
        plain_state(k2, c),
    ensures
        k1 == k2,
{
}

/// The placing state of each plain palette button, kind by kind.
pub proof fn lemma_plain_state_of_kind<P, C>(k: PlainKind, c: EditContext<P, C>)
    requires
        plain_state(k, c),
    ensures
        k == PlainKind::PadAcceleration ==> c == EditContext::<P, C>::Spawn(MapObject::PadAcceleration(None)),
        k == PlainKind::PadVelocity ==> c == EditContext::<P, C>::Spawn(MapObject::PadVelocity(None)),
        k == PlainKind::GateTeleport ==> c == EditContext::<P, C>::Spawn(MapObject::GateTeleport(None)),
        k == PlainKind::GateZombie ==> c == EditContext::<P, C>::Spawn(MapObject::GateZombie),
        k == PlainKind::GateZundamon ==> c == EditContext::<P, C>::Spawn(MapObject::GateZundamon),
        k == PlainKind::GateGeneric ==> c == EditContext::<P, C>::Spawn(MapObject::GateGeneric),
        k == PlainKind::Artillery ==> c == EditContext::<P, C>::Spawn(MapObject::Artillery),
        k == PlainKind::BlockZombie ==> c == EditContext::<P, C>::Spawn(MapObject::BlockZombie),
        k == PlainKind::ConverterBody ==> c == EditContext::<P, C>::Spawn(MapObject::ConverterBody),
        k == PlainKind::GearSimple ==> c == EditContext::<P, C>::Spawn(MapObject::GearSimple),
        k == PlainKind::GearSorting ==> c == EditContext::<P, C>::Spawn(MapObject::GearSorting),
        k == PlainKind::GearSwirl ==> c == EditContext::<P, C>::Spawn(MapObject::GearSwirl),
        k == PlainKind::Zundamon ==> c == EditContext::<P, C>::Spawn(MapObject::Zundamon),
        k == PlainKind::Wall ==> c == EditContext::<P, C>::Spawn(MapObject::Wall),
        k matches PlainKind::PrimitiveShape(sh) ==> c == EditContext::<P, C>::Spawn(MapObject::PrimitiveShape(sh)),
        k == PlainKind::Shredder ==> (c matches EditContext::Spawn(MapObject::Shredder(ms, route)) && ms@.len() == 0
            && route@.len() == 0),
{
}

/// The signals of a splitter between gates `g1` and `g2`: one `first` ball
/// for `g1`, then `copies` balls of kind `second` for `g2`.
pub open spec fn splitter_signals(g1: EntityId, g2: EntityId, first: crate::ball::BallType, second: crate::ball::BallType, copies: nat) -> Seq<SpawnBall> {
    seq![SpawnBall(g1.index, first)] + Seq::new(copies, |i: int| SpawnBall(g2.index, second))
}

/// The selection, when editing with any tool.
pub open spec fn selection<P, C>(c: EditContext<P, C>) -> Option<Seq<EntityId>> {
    match c {
        EditContext::Edit(_, pick, _) => Some(pick@),
        EditContext::Spawn(_) => None,
    }
}

/// The selection, when editing with the select tool.
pub open spec fn plain_selection<P, C>(c: EditContext<P, C>) -> Option<Seq<EntityId>> {
    match c {
        EditContext::Edit(_, pick, tool) => if tool == EditTool::Select { Some(pick@) } else { None },
        EditContext::Spawn(_) => None,
    }
}

/// The state a palette button leads to from `ctx`, if it applies there: plain
/// kinds always; a splitter when exactly two entities are selected with the
/// select tool, a spawn timer when exactly one is; breakables with any
/// selection; vibrators, rotators and joints with a selection that is not empty.
pub fn press<P, C>(ctx: &EditContext<P, C>, button: SpawnButton) -> (r: Option<EditContext<P, C>>)
    ensures
        button matches SpawnButton::Plain(k) ==> r matches Some(c) && plain_state(k, c),
        button == SpawnButton::Plain(PlainKind::Artillery) ==> r == Some(EditContext::<P, C>::Spawn(MapObject::Artillery)),
        button == SpawnButton::Plain(PlainKind::BlockZombie) ==> r == Some(EditContext::<P, C>::Spawn(MapObject::BlockZombie)),
        button == SpawnButton::Plain(PlainKind::ConverterBody) ==> r == Some(EditContext::<P, C>::Spawn(MapObject::ConverterBody)),
        button == SpawnButton::Plain(PlainKind::GearSimple) ==> r == Some(EditContext::<P, C>::Spawn(MapObject::GearSimple)),
        button == SpawnButton::Plain(PlainKind::GearSorting) ==> r == Some(EditContext::<P, C>::Spawn(MapObject::GearSorting)),
        button == SpawnButton::Plain(PlainKind::GearSwirl) ==> r == Some(EditContext::<P, C>::Spawn(MapObject::GearSwirl)),
        button == SpawnButton::Plain(PlainKind::GateGeneric) ==> r == Some(EditContext::<P, C>::Spawn(MapObject::GateGeneric)),
        button == SpawnButton::Plain(PlainKind::GateZombie) ==> r == Some(EditContext::<P, C>::Spawn(MapObject::GateZombie)),
        button == SpawnButton::Plain(PlainKind::GateZundamon) ==> r == Some(EditContext::<P, C>::Spawn(MapObject::GateZundamon)),
        button == SpawnButton::Plain(PlainKind::Zundamon) ==> r == Some(EditContext::<P, C>::Spawn(MapObject::Zundamon)),
        button == SpawnButton::Plain(PlainKind::Wall) ==> r == Some(EditContext::<P, C>::Spawn(MapObject::Wall)),
        button == SpawnButton::Plain(PlainKind::GateTeleport) ==> r == Some(EditContext::<P, C>::Spawn(MapObject::GateTeleport(None))),
        button == SpawnButton::Plain(PlainKind::PadVelocity) ==> r == Some(EditContext::<P, C>::Spawn(MapObject::PadVelocity(None))),
        button == SpawnButton::Plain(PlainKind::PadAcceleration) ==> r == Some(EditContext::<P, C>::Spawn(MapObject::PadAcceleration(None))),
        button matches SpawnButton::Plain(PlainKind::PrimitiveShape(sh)) ==> r == Some(EditContext::<P, C>::Spawn(MapObject::PrimitiveShape(sh))),
        button == SpawnButton::Plain(PlainKind::Shredder) ==> (r matches Some(EditContext::Spawn(MapObject::Shredder(ms, route)))
            && ms@.len() == 0 && route@.len() == 0),
        button matches SpawnButton::Splitter { first, second, copies } ==> match plain_selection(*ctx) {
            Some(pick) => if pick.len() == 2 {
                r matches Some(EditContext::Spawn(MapObject::GateSplitter(sig)))
                    && sig@ == splitter_signals(pick[0], pick[1], first, second, copies as nat)
            } else {
                r is None
            },
            None => r is None,
        },
        button matches SpawnButton::SpawnTimer(ball) ==> match plain_selection(*ctx) {
            Some(pick) => if pick.len() == 1 {
                r matches Some(EditContext::Spawn(MapObject::SpawnTimer(sig))) && sig@ == seq![SpawnBall(pick[0].index, ball)]
            } else {
                r is None
            },
            None => r is None,
        },
        button is BreakableP1 ==> match selection(*ctx) {
            Some(pick) => r matches Some(EditContext::Spawn(MapObject::BreakableP1(es))) && es@ == pick,
            None => r is None,
        },
        button is BreakableP2 ==> match selection(*ctx) {
            Some(pick) => r matches Some(EditContext::Spawn(MapObject::BreakableP2(es))) && es@ == pick,
            None => r is None,
        },
        button is BreakableSyncP1 ==> match selection(*ctx) {
            Some(pick) => r matches Some(EditContext::Spawn(MapObject::BreakableSyncP1(es))) && es@ == pick,
            None => r is None,
        },
        button is BreakableSyncP2 ==> match selection(*ctx) {
            Some(pick) => r matches Some(EditContext::Spawn(MapObject::BreakableSyncP2(es))) && es@ == pick,
            None => r is None,
        },
        button is Vibrator ==> match selection(*ctx) {
            Some(pick) => if pick.len() > 0 {
                r matches Some(EditContext::Spawn(MapObject::VibratingShape(es))) && es@ == pick
            } else {
                r is None
            },
            None => r is None,
        },
        button is Rotator ==> match selection(*ctx) {
            Some(pick) => if pick.len() > 0 {
                r matches Some(EditContext::Spawn(MapObject::RotatingShape(es))) && es@ == pick
            } else {
                r is None
            },
            None => r is None,
        },
        button is RevoluteJoint ==> match selection(*ctx) {
            Some(pick) => if pick.len() > 0 {
                r matches Some(EditContext::Spawn(MapObject::RevoluteJoint(es))) && es@ == pick
            } else {
                r is None
            },
            None => r is None,
        },
{
    match button {
        SpawnButton::Plain(k) => Some(EditContext::Spawn(match k {
            PlainKind::Artillery => MapObject::Artillery,
            PlainKind::BlockZombie => MapObject::BlockZombie,
            PlainKind::ConverterBody => MapObject::ConverterBody,
            PlainKind::GearSimple => MapObject::GearSimple,
            PlainKind::GearSorting => MapObject::GearSorting,
            PlainKind::GearSwirl => MapObject::GearSwirl,
            PlainKind::GateGeneric => MapObject::GateGeneric,
            PlainKind::GateTeleport => MapObject::GateTeleport(None),
            PlainKind::GateZombie => MapObject::GateZombie,
            PlainKind::GateZundamon => MapObject::GateZundamon,
            PlainKind::PadVelocity => MapObject::PadVelocity(None),
            PlainKind::PadAcceleration => MapObject::PadAcceleration(None),
            PlainKind::PrimitiveShape(sh) => MapObject::PrimitiveShape(sh),
            PlainKind::Shredder => MapObject::Shredder(Vec::new(), Vec::new()),
            PlainKind::Zundamon => MapObject::Zundamon,
            PlainKind::Wall => MapObject::Wall,
        })),
        SpawnButton::Splitter { first, second, copies } => {
            match ctx {
                EditContext::Edit(_, pick, tool) => {
                    if *tool == EditTool::Select && pick.len() == 2 {
                        let mut sig: Vec<SpawnBall> = Vec::new();
                        sig.push(SpawnBall(pick[0].index, first));
                        let mut i: u32 = 0;
                        while i < copies
                            invariant
                                i <= copies,
                                pick@.len() == 2,
                                sig@ == splitter_signals(pick@[0], pick@[1], first, second, i as nat),
                            decreases copies - i,
                        {
                            sig.push(SpawnBall(pick[1].index, second));
                            i = i + 1;
                            assert(sig@ =~= splitter_signals(pick@[0], pick@[1], first, second, i as nat));
                        }
                        Some(EditContext::Spawn(MapObject::GateSplitter(sig)))
                    } else {
                        None
                    }
                },
                EditContext::Spawn(_) => None,
            }
        },
        SpawnButton::SpawnTimer(ball) => {
            match ctx {
                EditContext::Edit(_, pick, tool) => {
                    if *tool == EditTool::Select && pick.len() == 1 {
                        let mut sig: Vec<SpawnBall> = Vec::new();
                        sig.push(SpawnBall(pick[0].index, ball));
                        Some(EditContext::Spawn(MapObject::SpawnTimer(sig)))
                    } else {
                        None
                    }
                },
                EditContext::Spawn(_) => None,
            }
        },
        SpawnButton::BreakableP1 => match ctx {
            EditContext::Edit(_, pick, _) => Some(EditContext::Spawn(MapObject::BreakableP1(pick.clone()))),
            EditContext::Spawn(_) => None,
        },
        SpawnButton::BreakableP2 => match ctx {
            EditContext::Edit(_, pick, _) => Some(EditContext::Spawn(MapObject::BreakableP2(pick.clone()))),
            EditContext::Spawn(_) => None,
        },
        SpawnButton::BreakableSyncP1 => match ctx {
            EditContext::Edit(_, pick, _) => Some(EditContext::Spawn(MapObject::BreakableSyncP1(pick.clone()))),
            EditContext::Spawn(_) => None,
        },
        SpawnButton::BreakableSyncP2 => match ctx {
            EditContext::Edit(_, pick, _) => Some(EditContext::Spawn(MapObject::BreakableSyncP2(pick.clone()))),
            EditContext::Spawn(_) => None,
        },
        SpawnButton::Vibrator => match ctx {
            EditContext::Edit(_, pick, _) => if pick.len() > 0 {
                Some(EditContext::Spawn(MapObject::VibratingShape(pick.clone())))
            } else {
                None
            },
            EditContext::Spawn(_) => None,
        },
        SpawnButton::Rotator => match ctx {
            EditContext::Edit(_, pick, _) => if pick.len() > 0 {
                Some(EditContext::Spawn(MapObject::RotatingShape(pick.clone())))
            } else {
                None
            },
            EditContext::Spawn(_) => None,
        },
        SpawnButton::RevoluteJoint => match ctx {
            EditContext::Edit(_, pick, _) => if pick.len() > 0 {
                Some(EditContext::Spawn(MapObject::RevoluteJoint(pick.clone())))
            } else {
                None
            },
            EditContext::Spawn(_) => None,
        },
    }
}

/// The debugging palette: while a generic gate is selected, ask it to release
/// a ball of this kind. A generic gate selection always holds its entity.
pub fn debug_spawn_signal<P, C>(ctx: &EditContext<P, C>, ball: crate::ball::BallType) -> (r: Option<SpawnBall>)
    requires
        ctx matches EditContext::Edit(MapObject::GateGeneric, pick, _) ==> pick@.len() > 0,
    ensures
        match *ctx {
            EditContext::Edit(MapObject::GateGeneric, pick, _) => r == Some(SpawnBall(pick@[0].index, ball)),
            _ => r is None,
        },
{
    match ctx {
        EditContext::Edit(MapObject::GateGeneric, pick, _) => Some(SpawnBall(pick[0].index, ball)),
        _ => None,
    }
}

/// One frame of the automatic artillery's aiming tool: with an automatic
/// artillery selected, key 1 switches from the select tool to aiming; while
/// aiming, the first selected artillery is aimed at the cursor.
pub fn artillery_tool_step<P, C>(ctx: EditContext<P, C>, key_1: bool) -> (r: (EditContext<P, C>, Option<EntityId>))
    requires
        match ctx {
            EditContext::Edit(m, pick, tool) => (m is ArtilleryAutoP1 || m is ArtilleryAutoP2)
                && (tool == EditTool::Custom1 || (tool == EditTool::Select && key_1)) ==> pick@.len() > 0,
            EditContext::Spawn(_) => true,
        },
    ensures
        match ctx {
            EditContext::Edit(m, pick, tool) => if (m is ArtilleryAutoP1 || m is ArtilleryAutoP2)
                && (tool == EditTool::Custom1 || (tool == EditTool::Select && key_1)) {
                is_edit(r.0, m, pick@, EditTool::Custom1) && r.1 == Some(pick@[0])
            } else {
                r.0 == ctx && r.1 is None
            },
            EditContext::Spawn(_) => r.0 == ctx && r.1 is None,
        },
{
    match ctx {
        EditContext::Edit(m, pick, tool) => {
            let artillery = match &m {
                MapObject::ArtilleryAutoP1 => true,
                MapObject::ArtilleryAutoP2 => true,
                _ => false,
            };
            if artillery && (tool == EditTool::Custom1 || (tool == EditTool::Select && key_1)) {
                let target = pick[0];
                (EditContext::Edit(m, pick, EditTool::Custom1), Some(target))
            } else {
                (EditContext::Edit(m, pick, tool), None)
            }
        },
        EditContext::Spawn(m) => (EditContext::Spawn(m), None),
    }
}

/// The kind an automatic artillery of the first or the second player is edited as.
pub fn artillery_map_object<P, C>(player1: bool) -> (m: MapObject<P, C>)
    ensures
        player1 ==> m is ArtilleryAutoP1,
        !player1 ==> m is ArtilleryAutoP2,
{
    if player1 { MapObject::ArtilleryAutoP1 } else { MapObject::ArtilleryAutoP2 }
}

} // verus!
