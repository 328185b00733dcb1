//! The discrete events that snapshot diffing emits.

use vstd::prelude::*;
use crate::axis::AxisBits;

verus! {

/// Which physical analog stick a compound stick event describes.
#[derive(Clone, Copy, Debug, PartialEq, Eq, Structural)]
pub enum Side {
    Left,
    Right,
}

/// One discrete input event, paired by the synthesizer with the device
/// handle it originated from.
#[derive(Clone, Copy, Debug, PartialEq, Eq, Structural)]
pub enum GamepadEvent {
    /// A button crossed an edge: newly pressed or newly released.
    ButtonChanged { button_index: usize, pressed: bool },
    /// An axis value changed (exact floating-point inequality, no
    /// deadband); carries the new value.
    AxisChanged { axis_index: usize, value: AxisBits },
    /// Either component of a two-axis stick changed; carries both current
    /// components, not just the delta.
    StickChanged {
        x_axis_index: usize,
        y_axis_index: usize,
        x: AxisBits,
        y: AxisBits,
        side: Side,
    },
}

} // verus!
