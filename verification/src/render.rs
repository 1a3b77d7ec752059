//! The computational half of presentation: which color the frame background
//! takes in each simulation state, and where on the surface a grid point's
//! square is painted. The drawing calls themselves live outside the library.

use vstd::prelude::*;
use crate::sim::Point;
use crate::sim::SimulationState;

verus! {

/// Side, in pixels, of the square that renders one grid cell.
pub const DOT_SIZE_IN_PXS: u32 = 5;

/// The flat background color (red, green, blue) keyed by the simulation
/// state: near-black while playing, dark gray while paused — the visual
/// pause indicator.
pub fn background_color(state: SimulationState) -> (c: (u8, u8, u8))
    ensures
        state is Playing ==> c == (0u8, 0u8, 0u8),
        state is Paused ==> c == (30u8, 30u8, 30u8),
{
    match state {
        SimulationState::Playing => (0, 0, 0),
        SimulationState::Paused => (30, 30, 30),
    }
}

/// Top-left pixel of the square that renders grid point `p`, at
/// `DOT_SIZE_IN_PXS` pixels per cell.
pub fn dot_origin(p: &Point) -> (o: (i32, i32))
    requires
        i32::MIN <= p.0 * DOT_SIZE_IN_PXS <= i32::MAX,
        i32::MIN <= p.1 * DOT_SIZE_IN_PXS <= i32::MAX,
    ensures
        o.0 == p.0 * DOT_SIZE_IN_PXS,
        o.1 == p.1 * DOT_SIZE_IN_PXS,
{
    (p.0 * (DOT_SIZE_IN_PXS as i32), p.1 * (DOT_SIZE_IN_PXS as i32))
}

} // verus!
