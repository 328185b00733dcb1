//! The normalized representation of one controller's instantaneous state.
//!
//! A mapping is either `Standard` — a recognized fixed layout with exactly
//! 17 buttons and 4 axes at conventional positions — or `NoMapping`, a
//! variable-length layout whose shape is whatever the hardware reports.
//! The tag is decided once, when a device's raw state is first wrapped,
//! and hardware keeps it fixed for the device's lifetime.

use vstd::prelude::*;
use crate::axis::AxisBits;

verus! {

/// Number of button states in a standard-layout mapping.
pub const STANDARD_BUTTON_COUNT: usize = 17;

/// Number of axis values in a standard-layout mapping.
pub const STANDARD_AXIS_COUNT: usize = 4;

/// One controller's button and axis state at an instant.
#[derive(Debug)]
pub enum Mapping {
    /// A recognized standard layout: 17 buttons, 4 axes. Axes 0 and 1 are
    /// the left stick's X and Y; axes 2 and 3 the right stick's.
    Standard { buttons: Vec<bool>, axes: Vec<AxisBits> },
    /// An unrecognized layout of hardware-determined shape.
    NoMapping { buttons: Vec<bool>, axes: Vec<AxisBits> },
}

/// The mathematical model of a `Mapping`.
pub enum MappingView {
    Standard { buttons: Seq<bool>, axes: Seq<AxisBits> },
    NoMapping { buttons: Seq<bool>, axes: Seq<AxisBits> },
}

impl MappingView {
    /// Whether the mapping carries the standard-layout tag.
    pub open spec fn is_standard(self) -> bool {
        self is Standard
    }

    /// The ordered button states, whatever the tag.
    pub open spec fn buttons(self) -> Seq<bool> {
        match self {
            MappingView::Standard { buttons, .. } => buttons,
            MappingView::NoMapping { buttons, .. } => buttons,
        }
    }

    /// The ordered axis values, whatever the tag.
    pub open spec fn axes(self) -> Seq<AxisBits> {
        match self {
            MappingView::Standard { axes, .. } => axes,
            MappingView::NoMapping { axes, .. } => axes,
        }
    }

    /// A standard mapping has exactly 17 buttons and exactly 4 axes.
    pub open spec fn wf(self) -> bool {
        self.is_standard() ==> self.buttons().len() == STANDARD_BUTTON_COUNT
            && self.axes().len() == STANDARD_AXIS_COUNT
    }
}

impl View for Mapping {
    type V = MappingView;

    open spec fn view(&self) -> MappingView {
        match self {
            Mapping::Standard { buttons, axes } => MappingView::Standard {
                buttons: buttons@,
                axes: axes@,
            },
            Mapping::NoMapping { buttons, axes } => MappingView::NoMapping {
                buttons: buttons@,
                axes: axes@,
            },
        }
    }
}

/// Copies a list of plain values element by element.
pub(crate) fn copy_vec<T: Copy>(v: &Vec<T>) -> (r: Vec<T>)
    ensures
        r@ == v@,
{
    let mut r: Vec<T> = Vec::new();
    let mut i: usize = 0;
    while i < v.len()
        invariant
            i <= v.len(),
            r@.len() == i,
            forall|j: int| 0 <= j < i ==> r@[j] == v@[j],
        decreases v.len() - i,
    {
        r.push(v[i]);
        i = i + 1;
    }
    proof {
        assert(r@ =~= v@);
    }
    r
}

impl Clone for Mapping {
    /// The copy models the same state as the value cloned.
    fn clone(&self) -> (r: Self)
        ensures
            r@ == self@,
    {
        match self {
            Mapping::Standard { buttons, axes } => Mapping::Standard {
                buttons: copy_vec(buttons),
                axes: copy_vec(axes),
            },
            Mapping::NoMapping { buttons, axes } => Mapping::NoMapping {
                buttons: copy_vec(buttons),
                axes: copy_vec(axes),
            },
        }
    }
}

impl Mapping {
    /// Whether this mapping carries the standard-layout tag.
    pub fn is_standard(&self) -> (r: bool)
        ensures
            r == self@.is_standard(),
    {
        match self {
            Mapping::Standard { .. } => true,
            Mapping::NoMapping { .. } => false,
        }
    }

    /// The ordered button states.
    pub fn buttons(&self) -> (r: &Vec<bool>)
        ensures
            r@ == self@.buttons(),
    {
        match self {
            Mapping::Standard { buttons, .. } => buttons,
            Mapping::NoMapping { buttons, .. } => buttons,
        }
    }

    /// The ordered axis values.
    pub fn axes(&self) -> (r: &Vec<AxisBits>)
        ensures
            r@ == self@.axes(),
    {
        match self {
            Mapping::Standard { axes, .. } => axes,
            Mapping::NoMapping { axes, .. } => axes,
        }
    }
}

} // verus!
