//! Random choices: which sprite a new ball wears, which cry a dying zundamon
//! gives, and the id of a new teleport gate pair.
use vstd::prelude::*;

verus! {

/// Draws from `rand::Rng::gen_range` on the thread-local generator
/// (`rand::thread_rng()`) with the range `0..bound`. rand asserts that the
/// range is not empty and returns a value inside it; which value is chance,
/// and nothing more is claimed of it.
#[verifier::external_body]
fn random_below(bound: u32) -> (r: u32)
    requires
        0 < bound,
    ensures
        r < bound,
{
    rand::Rng::gen_range(&mut rand::thread_rng(), 0..bound)
}

/// A random index into a list of `len` items.
pub fn random_index(len: usize) -> (i: usize)
    requires
        0 < len <= u32::MAX,
    ensures
        i < len,
{
    let r = random_below(len as u32);
    r as usize
}

/// A random id for a new pair of teleport gates, below `u32::MAX`.
pub fn random_teleport_id() -> (id: u32)
    ensures
        id < u32::MAX,
{
    random_below(u32::MAX)
}

/// The image keys a zundamon ball may wear.
pub open spec fn zundamon_sprite(i: int) -> Seq<char> {
    if i == 0 { "zun1_handle"@ } else if i == 1 { "zun2_handle"@ } else { "zun3_handle"@ }
}

/// The image key a zombie ball wears.
pub open spec fn zombie_sprite() -> Seq<char> {
    "zombie1_handle"@
}

/// The image keys a converted, full-body zundamon may wear.
pub open spec fn fullbody_sprite(i: int) -> Seq<char> {
    if i == 0 { "zun1_full_handle"@ } else if i == 1 { "zun2_full_handle"@ } else { "zun3_full_handle"@ }
}

/// The audio keys of a zundamon's dying cry.
pub open spec fn die_cry(i: int) -> Seq<char> {
    if i == 0 {
        "zundamon_die1_handle"@
    } else if i == 1 {
        "zundamon_die2_handle"@
    } else if i == 2 {
        "zundamon_die3_handle"@
    } else if i == 3 {
        "zundamon_die4_handle"@
    } else if i == 4 {
        "zundamon_die5_handle"@
    } else if i == 5 {
        "zundamon_die6_handle"@
    } else {
        "zundamon_die7_handle"@
    }
}

/// The `i`-th zundamon ball image key.
pub fn zundamon_sprite_at(i: usize) -> (s: &'static str)
    requires
        i < 3,
    ensures
        s@ == zundamon_sprite(i as int),
{
    if i == 0 { "zun1_handle" } else if i == 1 { "zun2_handle" } else { "zun3_handle" }
}

/// The `i`-th full-body zundamon image key.
pub fn fullbody_sprite_at(i: usize) -> (s: &'static str)
    requires
        i < 3,
    ensures
        s@ == fullbody_sprite(i as int),
{
    if i == 0 { "zun1_full_handle" } else if i == 1 { "zun2_full_handle" } else { "zun3_full_handle" }
}

/// The `i`-th dying cry audio key.
pub fn die_cry_at(i: usize) -> (s: &'static str)
    requires
        i < 7,
    ensures
        s@ == die_cry(i as int),
{
    if i == 0 {
        "zundamon_die1_handle"
    } else if i == 1 {
        "zundamon_die2_handle"
    } else if i == 2 {
        "zundamon_die3_handle"
    } else if i == 3 {
        "zundamon_die4_handle"
    } else if i == 4 {
        "zundamon_die5_handle"
    } else if i == 5 {
        "zundamon_die6_handle"
    } else {
        "zundamon_die7_handle"
    }
}

/// A random zundamon ball image key.
pub fn random_zundamon_sprite() -> (s: &'static str)
    ensures
        exists|i: int| 0 <= i < 3 && s@ == zundamon_sprite(i),
{
    let i = random_index(3);
    zundamon_sprite_at(i)
}

/// A random zombie ball image key (there is a single one).
pub fn random_zombie_sprite() -> (s: &'static str)
    ensures
        s@ == zombie_sprite(),
{
    let _i = random_index(1);
    "zombie1_handle"
}

/// A random full-body zundamon image key.
pub fn random_fullbody_sprite() -> (s: &'static str)
    ensures
        exists|i: int| 0 <= i < 3 && s@ == fullbody_sprite(i),
{
    let i = random_index(3);
    fullbody_sprite_at(i)
}

/// A random dying cry audio key.
pub fn random_die_cry() -> (s: &'static str)
    ensures
        exists|i: int| 0 <= i < 7 && s@ == die_cry(i),
{
    let i = random_index(7);
    die_cry_at(i)
}

} // verus!
