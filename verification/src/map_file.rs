//! Where each kind of map element is saved: a file of its own in the map directory.
use vstd::prelude::*;
use vstd::string::*;

verus! {

/// The kinds of map element saved to a file of their own.
#[derive(Clone, Copy, PartialEq, Eq, Structural, Debug)]
pub enum MapFile {
    BlockZombie,
    BreakableP1,
    BreakableP2,
    GateGeneral,
    GateGeneric,
    GateSplitter,
    GateZombie,
    GearSimple,
    GearSorting,
    GearSwirl,
    PadVelocity,
    PolygonalShape,
    PrimitiveShape,
    RevoluteJoint,
    RotatingShape,
    Shredder,
    SpawnTimer,
    SpriteObject,
    VibratingShape,
    Wall,
    WallBreakableP1,
    WallBreakableP2,
}

/// The file name, with its leading slash, of each kind of map element.
pub open spec fn file_name(f: MapFile) -> Seq<char> {
    match f {
        MapFile::BlockZombie => "/block_zombie.map"@,
        MapFile::BreakableP1 => "/breakable_p1.map"@,
        MapFile::BreakableP2 => "/breakable_p2.map"@,
        MapFile::GateGeneral => "/gate_general.map"@,
        MapFile::GateGeneric => "/gate_generic.map"@,
        MapFile::GateSplitter => "/gate_splitter.map"@,
        MapFile::GateZombie => "/gate_zombie.map"@,
        MapFile::GearSimple => "/gear_simple.map"@,
        MapFile::GearSorting => "/gear_SORTING.map"@,
        MapFile::GearSwirl => "/gear_SWIRL.map"@,
        MapFile::PadVelocity => "/pad_velocity.map"@,
        MapFile::PolygonalShape => "/polygonal_shape.map"@,
        MapFile::PrimitiveShape => "/primitive_shape.map"@,
        MapFile::RevoluteJoint => "/revolute_joint.map"@,
        MapFile::RotatingShape => "/rotating_shape.map"@,
        MapFile::Shredder => "/shredder.map"@,
        MapFile::SpawnTimer => "/spawn_timer.map"@,
        MapFile::SpriteObject => "/sprite_object.map"@,
        MapFile::VibratingShape => "/vibrating_shape.map"@,
        MapFile::Wall => "/wall.map"@,
        MapFile::WallBreakableP1 => "/wall_breakable_p1.map"@,
        MapFile::WallBreakableP2 => "/wall_breakable_p2.map"@,
    }
}

/// The file name of a kind of map element.
pub fn map_file_name(f: MapFile) -> (s: &'static str)
    ensures
        s@ == file_name(f),
{
    match f {
        MapFile::BlockZombie => "/block_zombie.map",
        MapFile::BreakableP1 => "/breakable_p1.map",
        MapFile::BreakableP2 => "/breakable_p2.map",
        MapFile::GateGeneral => "/gate_general.map",
        MapFile::GateGeneric => "/gate_generic.map",
        MapFile::GateSplitter => "/gate_splitter.map",
        MapFile::GateZombie => "/gate_zombie.map",
        MapFile::GearSimple => "/gear_simple.map",
        MapFile::GearSorting => "/gear_SORTING.map",
        MapFile::GearSwirl => "/gear_SWIRL.map",
        MapFile::PadVelocity => "/pad_velocity.map",
        MapFile::PolygonalShape => "/polygonal_shape.map",
        MapFile::PrimitiveShape => "/primitive_shape.map",
        MapFile::RevoluteJoint => "/revolute_joint.map",
        MapFile::RotatingShape => "/rotating_shape.map",
        MapFile::Shredder => "/shredder.map",
        MapFile::SpawnTimer => "/spawn_timer.map",
        MapFile::SpriteObject => "/sprite_object.map",
        MapFile::VibratingShape => "/vibrating_shape.map",
        MapFile::Wall => "/wall.map",
        MapFile::WallBreakableP1 => "/wall_breakable_p1.map",
        MapFile::WallBreakableP2 => "/wall_breakable_p2.map",
    }
}

/// The path of the file in the map directory `dir` where elements of kind `f` are saved.
pub fn map_file_path(dir: &str, f: MapFile) -> (p: String)
    ensures
        p@ == dir@ + file_name(f),
{
    let mut p = String::from_str(dir);
    p.append(map_file_name(f));
    p
}

/// A few characters of a file name that tell the names apart: its length,
/// its second to fourth characters, and the last character before the extension.
spec fn name_marks(s: Seq<char>) -> (int, char, char, char, char) {
    (s.len() as int, s[1], s[2], s[3], s[s.len() - 5])
}

spec fn expected_marks(f: MapFile) -> (int, char, char, char, char) {
    match f {
        MapFile::BlockZombie => (17, 'b', 'l', 'o', 'e'),
        MapFile::BreakableP1 => (17, 'b', 'r', 'e', '1'),
        MapFile::BreakableP2 => (17, 'b', 'r', 'e', '2'),
        MapFile::GateGeneral => (17, 'g', 'a', 't', 'l'),
        MapFile::GateGeneric => (17, 'g', 'a', 't', 'c'),
        MapFile::GateSplitter => (18, 'g', 'a', 't', 'r'),
        MapFile::GateZombie => (16, 'g', 'a', 't', 'e'),
        MapFile::GearSimple => (16, 'g', 'e', 'a', 'e'),
        MapFile::GearSorting => (17, 'g', 'e', 'a', 'G'),
        MapFile::GearSwirl => (15, 'g', 'e', 'a', 'L'),
        MapFile::PadVelocity => (17, 'p', 'a', 'd', 'y'),
        MapFile::PolygonalShape => (20, 'p', 'o', 'l', 'e'),
        MapFile::PrimitiveShape => (20, 'p', 'r', 'i', 'e'),
        MapFile::RevoluteJoint => (19, 'r', 'e', 'v', 't'),
        MapFile::RotatingShape => (19, 'r', 'o', 't', 'e'),
        MapFile::Shredder => (13, 's', 'h', 'r', 'r'),
        MapFile::SpawnTimer => (16, 's', 'p', 'a', 'r'),
        MapFile::SpriteObject => (18, 's', 'p', 'r', 't'),
        MapFile::VibratingShape => (20, 'v', 'i', 'b', 'e'),
        MapFile::Wall => (9, 'w', 'a', 'l', 'l'),
        MapFile::WallBreakableP1 => (22, 'w', 'a', 'l', '1'),
        MapFile::WallBreakableP2 => (22, 'w', 'a', 'l', '2'),
    }
}

proof fn lemma_name_marks(f: MapFile)
    ensures
        name_marks(file_name(f)) == expected_marks(f),
{
    match f {
        MapFile::BlockZombie => {
            reveal_strlit("/block_zombie.map");
        },
        MapFile::BreakableP1 => {
            reveal_strlit("/breakable_p1.map");
        },
        MapFile::BreakableP2 => {
            reveal_strlit("/breakable_p2.map");
        },
        MapFile::GateGeneral => {
            reveal_strlit("/gate_general.map");
        },
        MapFile::GateGeneric => {
            reveal_strlit("/gate_generic.map");
        },
        MapFile::GateSplitter => {
            reveal_strlit("/gate_splitter.map");
        },
        MapFile::GateZombie => {
            reveal_strlit("/gate_zombie.map");
        },
        MapFile::GearSimple => {
            reveal_strlit("/gear_simple.map");
        },
        MapFile::GearSorting => {
            reveal_strlit("/gear_SORTING.map");
        },
        MapFile::GearSwirl => {
            reveal_strlit("/gear_SWIRL.map");
        },
        MapFile::PadVelocity => {
            reveal_strlit("/pad_velocity.map");
        },
        MapFile::PolygonalShape => {
            reveal_strlit("/polygonal_shape.map");
        },
        MapFile::PrimitiveShape => {
            reveal_strlit("/primitive_shape.map");
        },
        MapFile::RevoluteJoint => {
            reveal_strlit("/revolute_joint.map");
        },
        MapFile::RotatingShape => {
            reveal_strlit("/rotating_shape.map");
        },
        MapFile::Shredder => {
            reveal_strlit("/shredder.map");
        },
        MapFile::SpawnTimer => {
            reveal_strlit("/spawn_timer.map");
        },
        MapFile::SpriteObject => {
            reveal_strlit("/sprite_object.map");
        },
        MapFile::VibratingShape => {
            reveal_strlit("/vibrating_shape.map");
        },
        MapFile::Wall => {
            reveal_strlit("/wall.map");
        },
        MapFile::WallBreakableP1 => {
            reveal_strlit("/wall_breakable_p1.map");
        },
        MapFile::WallBreakableP2 => {
            reveal_strlit("/wall_breakable_p2.map");
        },
    }
}

/// Each kind of map element has a file of its own: two different kinds never
/// share a file name, so in a given directory saving one never overwrites another.
pub proof fn lemma_file_names_distinct(dir: Seq<char>, f1: MapFile, f2: MapFile)
    requires
        f1 != f2,
    ensures
        file_name(f1) != file_name(f2),
        dir + file_name(f1) != dir + file_name(f2),
{
    lemma_name_marks(f1);
    lemma_name_marks(f2);
    if dir + file_name(f1) == dir + file_name(f2) {
        assert((dir + file_name(f1)).skip(dir.len() as int) =~= file_name(f1));
        assert((dir + file_name(f2)).skip(dir.len() as int) =~= file_name(f2));
    }
}

/// Where the piece after the last `::` begins, as a left-to-right scan for
/// `::` from position `i` finds it, the last piece so far beginning at `start`.
pub open spec fn last_piece_start(s: Seq<char>, i: int, start: int) -> int
    decreases s.len() - i,
{
    if i >= s.len() {
        start
    } else if i + 1 < s.len() && s[i] == ':' && s[i + 1] == ':' {
        last_piece_start(s, i + 2, i + 2)
    } else {
        last_piece_start(s, i + 1, start)
    }
}

/// The last piece of `s` split at `::`: for a type path, the bare type name.
pub open spec fn last_path_segment(s: Seq<char>) -> Seq<char> {
    s.subrange(last_piece_start(s, 0, 0), s.len() as int)
}

/// The bare type name at the end of a type path such as `crate::module::Type`.
pub fn bare_name(path: &str) -> (r: String)
    ensures
        r@ == last_path_segment(path@),
{
    let n = path.unicode_len();
    let mut i: usize = 0;
    let mut start: usize = 0;
    while i < n
        invariant
            n == path@.len(),
            start <= i <= n,
            last_piece_start(path@, i as int, start as int) == last_piece_start(path@, 0, 0),
        decreases n - i,
    {
        if i + 1 < n && path.get_char(i) == ':' && path.get_char(i + 1) == ':' {
            i = i + 2;
            start = i;
        } else {
            i = i + 1;
        }
    }
    String::from_str(path.substring_char(start, n))
}

/// The file where the automatic artilleries of the player whose type path is
/// `path` are saved: `/artillery_auto_` and the bare type name, then `.map`.
pub fn artillery_auto_file_name(path: &str) -> (r: String)
    ensures
        r@ == "/artillery_auto_"@ + last_path_segment(path@) + ".map"@,
{
    let mut r = String::from_str("/artillery_auto_");
    let bare = bare_name(path);
    r.append(bare.as_str());
    r.append(".map");
    r
}

} // verus!
