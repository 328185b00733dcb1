//! Device handles and mapping extraction.
//!
//! A `RawGamepad` carries, as plain values, everything one poll of a
//! controller yields: the stable index, the identifier string, the
//! connection flag, the hardware's layout tag, and the raw button and axis
//! readings (an axis that could not be read is `None`). The host shell
//! performs the actual poll and hands the values in; `Gamepad::new` wraps
//! them into a handle with a normalized `Mapping`.

use vstd::prelude::*;
use crate::axis::{AxisBits, AXIS_ZERO};
use crate::mapping::{Mapping, MappingView, STANDARD_AXIS_COUNT, STANDARD_BUTTON_COUNT};
use vstd::std_specs::cmp::{PartialEqSpec, PartialEqSpecImpl};

verus! {

/// One freshly polled reading of a controller, as plain values.
#[derive(Debug)]
pub struct RawGamepad {
    /// Stable index, unique among currently connected devices.
    pub index: i32,
    /// Vendor/product descriptor string.
    pub id: String,
    /// Whether the device is still connected.
    pub connected: bool,
    /// Whether the hardware reports the recognized standard layout.
    pub standard: bool,
    /// Raw button-pressed readings, in hardware order.
    pub buttons: Vec<bool>,
    /// Raw axis readings; `None` for a value that could not be read.
    pub axes: Vec<Option<AxisBits>>,
}

/// The mathematical model of a `RawGamepad`.
pub struct RawGamepadView {
    pub index: i32,
    pub id: Seq<char>,
    pub connected: bool,
    pub standard: bool,
    pub buttons: Seq<bool>,
    pub axes: Seq<Option<AxisBits>>,
}

impl View for RawGamepad {
    type V = RawGamepadView;

    open spec fn view(&self) -> RawGamepadView {
        RawGamepadView {
            index: self.index,
            id: self.id@,
            connected: self.connected,
            standard: self.standard,
            buttons: self.buttons@,
            axes: self.axes@,
        }
    }
}

impl Clone for RawGamepad {
    /// The copy models the same reading as the value cloned.
    fn clone(&self) -> (r: Self)
        ensures
            r@ == self@,
    {
        RawGamepad {
            index: self.index,
            id: self.id.clone(),
            connected: self.connected,
            standard: self.standard,
            buttons: crate::mapping::copy_vec(&self.buttons),
            axes: crate::mapping::copy_vec(&self.axes),
        }
    }
}

/// The raw button reading at a position, or unpressed where the hardware
/// reported fewer buttons.
pub open spec fn raw_button_or_default(buttons: Seq<bool>, i: int) -> bool {
    if 0 <= i < buttons.len() {
        buttons[i]
    } else {
        false
    }
}

/// The raw axis reading at a position, or zero where the value was missing
/// or unreadable.
pub open spec fn raw_axis_or_default(axes: Seq<Option<AxisBits>>, i: int) -> AxisBits {
    if 0 <= i < axes.len() {
        match axes[i] {
            Some(v) => v,
            None => AXIS_ZERO,
        }
    } else {
        AXIS_ZERO
    }
}

/// The mapping that one raw reading normalizes to: a standard layout is
/// padded or cut to exactly 17 buttons and 4 axes; any other layout keeps
/// the hardware's shape. Unreadable axes default to zero in either case.
pub open spec fn spec_create_mapping(raw: RawGamepadView) -> MappingView {
    if raw.standard {
        MappingView::Standard {
            buttons: Seq::new(
                STANDARD_BUTTON_COUNT as nat,
                |i: int| raw_button_or_default(raw.buttons, i),
            ),
            axes: Seq::new(STANDARD_AXIS_COUNT as nat, |i: int| raw_axis_or_default(raw.axes, i)),
        }
    } else {
        MappingView::NoMapping {
            buttons: raw.buttons,
            axes: Seq::new(raw.axes.len(), |i: int| raw_axis_or_default(raw.axes, i)),
        }
    }
}

/// Every mapping that extraction produces is well formed: the standard
/// variant always holds exactly 17 buttons and 4 axes.
pub proof fn lemma_create_mapping_wf(raw: RawGamepadView)
    ensures
        spec_create_mapping(raw).wf(),
{
}

/// Normalizes one raw reading into a `Mapping`. Extraction never fails:
/// missing or unreadable values degrade to defaults.
pub fn create_mapping(raw: &RawGamepad) -> (m: Mapping)
    ensures
        m@ == spec_create_mapping(raw@),
        m@.wf(),
{
    if raw.standard {
        let mut buttons: Vec<bool> = Vec::new();
        let mut i: usize = 0;
        while i < STANDARD_BUTTON_COUNT
            invariant
                i <= STANDARD_BUTTON_COUNT,
                buttons@.len() == i,
                forall|j: int| 0 <= j < i ==> buttons@[j] == raw_button_or_default(raw@.buttons, j),
            decreases STANDARD_BUTTON_COUNT - i,
        {
            let pressed: bool = if i < raw.buttons.len() {
                raw.buttons[i]
            } else {
                false
            };
            buttons.push(pressed);
            i = i + 1;
        }
        let mut axes: Vec<AxisBits> = Vec::new();
        let mut i: usize = 0;
        while i < STANDARD_AXIS_COUNT
            invariant
                i <= STANDARD_AXIS_COUNT,
                axes@.len() == i,
                forall|j: int| 0 <= j < i ==> axes@[j] == raw_axis_or_default(raw@.axes, j),
            decreases STANDARD_AXIS_COUNT - i,
        {
            let value: AxisBits = if i < raw.axes.len() {
                match raw.axes[i] {
                    Some(v) => v,
                    None => AXIS_ZERO,
                }
            } else {
                AXIS_ZERO
            };
            axes.push(value);
            i = i + 1;
        }
        let m = Mapping::Standard { buttons, axes };
        proof {
            assert(m@.buttons() =~= spec_create_mapping(raw@).buttons());
            assert(m@.axes() =~= spec_create_mapping(raw@).axes());
        }
        m
    } else {
        let mut buttons: Vec<bool> = Vec::new();
        let mut i: usize = 0;
        while i < raw.buttons.len()
            invariant
                i <= raw.buttons@.len(),
                buttons@.len() == i,
                forall|j: int| 0 <= j < i ==> buttons@[j] == raw@.buttons[j],
            decreases raw.buttons@.len() - i,
        {
            buttons.push(raw.buttons[i]);
            i = i + 1;
        }
        let mut axes: Vec<AxisBits> = Vec::new();
        let mut i: usize = 0;
        while i < raw.axes.len()
            invariant
                i <= raw.axes@.len(),
                axes@.len() == i,
                forall|j: int| 0 <= j < i ==> axes@[j] == raw_axis_or_default(raw@.axes, j),
            decreases raw.axes@.len() - i,
        {
            let value: AxisBits = match raw.axes[i] {
                Some(v) => v,
                None => AXIS_ZERO,
            };
            axes.push(value);
            i = i + 1;
        }
        let m = Mapping::NoMapping { buttons, axes };
        proof {
            assert(m@.buttons() =~= spec_create_mapping(raw@).buttons());
            assert(m@.axes() =~= spec_create_mapping(raw@).axes());
        }
        m
    }
}

/// One connected controller: identity plus its current mapping.
#[derive(Debug)]
pub struct Gamepad {
    /// Stable index, unique among currently connected devices.
    pub index: i32,
    /// Vendor/product descriptor string.
    pub id: String,
    /// Whether the device is still connected.
    pub connected: bool,
    /// The normalized state captured when this handle was made.
    pub mapping: Mapping,
}

/// The mathematical model of a `Gamepad`.
pub struct GamepadView {
    pub index: i32,
    pub id: Seq<char>,
    pub connected: bool,
    pub mapping: MappingView,
}

impl View for Gamepad {
    type V = GamepadView;

    open spec fn view(&self) -> GamepadView {
        GamepadView {
            index: self.index,
            id: self.id@,
            connected: self.connected,
            mapping: self.mapping@,
        }
    }
}

/// The handle that wrapping one raw reading yields.
pub open spec fn spec_wrap(raw: RawGamepadView) -> GamepadView {
    GamepadView {
        index: raw.index,
        id: raw.id,
        connected: raw.connected,
        mapping: spec_create_mapping(raw),
    }
}

impl Gamepad {
    /// Wraps one raw reading into a device handle, normalizing its state.
    pub fn new(raw: RawGamepad) -> (g: Gamepad)
        ensures
            g@ == spec_wrap(raw@),
            g@.mapping.wf(),
    {
        let mapping = create_mapping(&raw);
        Gamepad { index: raw.index, id: raw.id, connected: raw.connected, mapping }
    }

    /// The stable device index.
    pub fn index(&self) -> (r: i32)
        ensures
            r == self@.index,
    {
        self.index
    }

    /// The vendor/product descriptor string.
    pub fn id(&self) -> (r: String)
        ensures
            r@ == self@.id,
    {
        self.id.clone()
    }

    /// Whether the device is still connected.
    pub fn connected(&self) -> (r: bool)
        ensures
            r == self@.connected,
    {
        self.connected
    }
}

impl Clone for Gamepad {
    /// The copy models the same device and state as the value cloned.
    fn clone(&self) -> (r: Self)
        ensures
            r@ == self@,
    {
        Gamepad {
            index: self.index,
            id: self.id.clone(),
            connected: self.connected,
            mapping: self.mapping.clone(),
        }
    }
}

impl PartialEq for Gamepad {
    /// Two handles are the same device exactly when their indices match.
    fn eq(&self, other: &Gamepad) -> bool {
        self.index == other.index
    }
}

impl PartialEqSpecImpl for Gamepad {
    open spec fn obeys_eq_spec() -> bool {
        true
    }

    open spec fn eq_spec(&self, other: &Gamepad) -> bool {
        self.index == other.index
    }
}

/// Identity is by index alone: two handles with equal indices are equal
/// under `==`, however much their mapping contents differ.
pub proof fn lemma_identity_by_index(a: &Gamepad, b: &Gamepad)
    requires
        a.index == b.index,
    ensures
        PartialEqSpec::eq_spec(a, b),
{
}

} // verus!
