//! Small rules of moving balls: the trail a ball leaves behind, and where a
//! teleport entrance sends a ball.
use vstd::prelude::*;

verus! {

/// One frame of a ball's trail: the segment from where the ball was in the
/// previous frame to where it is now, if it was seen before; the ball's last
/// known position becomes its current one.
pub fn trail_step<P: Copy>(previous: &mut Option<P>, current: P) -> (segment: Option<(P, P)>)
    ensures
        *final(previous) == Some(current),
        segment == match *old(previous) {
            Some(p) => Some((p, current)),
            None => None,
        },
{
    let segment = match *previous {
        Some(p) => Some((p, current)),
        None => None,
    };
    *previous = Some(current);
    segment
}

/// The exit a teleport entrance with pair id `id` sends balls to: the first
/// exit, in the order given, with the same pair id.
pub fn find_exit(exit_ids: &Vec<u32>, id: u32) -> (r: Option<usize>)
    ensures
        match r {
            Some(i) => i < exit_ids@.len() && exit_ids@[i as int] == id
                && forall|j: int| 0 <= j < i ==> exit_ids@[j] != id,
            None => forall|j: int| 0 <= j < exit_ids@.len() ==> exit_ids@[j] != id,
        },
{
    let mut i: usize = 0;
    while i < exit_ids.len()
        invariant
            i <= exit_ids@.len(),
            forall|j: int| 0 <= j < i ==> exit_ids@[j] != id,
        decreases exit_ids@.len() - i,
    {
        if exit_ids[i] == id {
            return Some(i);
        }
        i = i + 1;
    }
    None
}

} // verus!
