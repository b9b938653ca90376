use vstd::prelude::*;
use core::cmp::Ordering;

verus! {

/// What becomes of a packet after it has been moved along its direction.
#[derive(Debug, Clone, Copy, PartialEq, Eq, Structural)]
pub enum MoveOutcome {
    /// It has left through the near boundary (`z < 0`): a fresh packet is
    /// emitted at the origin in its place.
    ReEmit,
    /// It has left through the far boundary (`z > 1`): its walk is over.
    Escape,
    /// It is still inside the slab (`0 <= z <= 1`): it meets the medium.
    Interact,
}

/// The outcome of a move, from the comparisons (`partial_cmp`) of the new
/// height `z` with the near boundary `0` and with the far boundary `1`.
pub open spec fn outcome_of(z_vs_floor: Option<Ordering>, z_vs_ceiling: Option<Ordering>) -> MoveOutcome {
    if z_vs_floor == Some(Ordering::Less) {
        MoveOutcome::ReEmit
    } else if z_vs_ceiling == Some(Ordering::Greater) {
        MoveOutcome::Escape
    } else {
        MoveOutcome::Interact
    }
}

/// Classifies a packet's height after a move. Both boundaries are strict:
/// a height equal to `0` or to `1` leaves the packet inside the slab, and so
/// does a height that compares with neither (a NaN).
pub fn classify_move(z_vs_floor: Option<Ordering>, z_vs_ceiling: Option<Ordering>) -> (r: MoveOutcome)
    ensures
        r == outcome_of(z_vs_floor, z_vs_ceiling),
        (r == MoveOutcome::ReEmit) <==> z_vs_floor == Some(Ordering::Less),
        (r == MoveOutcome::Escape) <==> (z_vs_floor != Some(Ordering::Less) && z_vs_ceiling
            == Some(Ordering::Greater)),
{
    match z_vs_floor {
        Some(Ordering::Less) => MoveOutcome::ReEmit,
        _ => match z_vs_ceiling {
            Some(Ordering::Greater) => MoveOutcome::Escape,
            _ => MoveOutcome::Interact,
        },
    }
}

/// Decides an interaction inside the slab from the comparison of a uniform
/// draw with the single-scattering albedo: the packet is given a new
/// direction exactly when the draw lies below the albedo; otherwise it keeps
/// its direction and walks on.
pub fn scatters(draw_vs_albedo: Option<Ordering>) -> (r: bool)
    ensures
        r == (draw_vs_albedo == Some(Ordering::Less)),
{
    match draw_vs_albedo {
        Some(Ordering::Less) => true,
        _ => false,
    }
}

/// Absolute value of an integer.
pub open spec fn abs(x: int) -> int {
    if x < 0 { -x } else { x }
}

/// The bin of an escaping packet, from its scaled escape cosine truncated to
/// an integer (`cos * n_bins`): its absolute value, clamped to the last bin.
pub open spec fn bin_of(scaled: int, n_bins: nat) -> int {
    if abs(scaled) >= n_bins { n_bins - 1 } else { abs(scaled) }
}

/// The histogram bin for a packet whose escape cosine, times `n_bins` and
/// truncated toward zero, is `scaled`.
pub fn bin_index(scaled: i32, n_bins: usize) -> (r: usize)
    requires
        n_bins >= 1,
    ensures
        r == bin_of(scaled as int, n_bins as nat),
        r < n_bins,
{
    let magnitude: u64 = if scaled < 0 {
        (-(scaled as i64)) as u64
    } else {
        scaled as u64
    };
    if magnitude >= n_bins as u64 {
        n_bins - 1
    } else {
        magnitude as usize
    }
}

} // verus!
