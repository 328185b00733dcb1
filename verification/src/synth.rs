//! Diff and event synthesis.
//!
//! Given a previous and a current snapshot (each an ordered list of device
//! handles), synthesis compares the first device of each list — the design
//! diffs a single controller per tick — and emits, in this fixed order:
//! button edge events by ascending button index, axis change events by
//! ascending axis index, then the left stick and the right stick. Button
//! events are edge-triggered; axis comparison is exact floating-point
//! inequality; a stick event carries both current components and is only
//! emitted when both are present. Sequences of unequal length are paired
//! positionally up to the shorter length. A device with no matching prior
//! entry yields no events.

use vstd::prelude::*;
use crate::axis::{axis_eq, axis_value_eq, is_nan_bits, AxisBits};
use crate::event::{GamepadEvent, Side};
use crate::gamepad::{Gamepad, GamepadView};
use crate::mapping::MappingView;

verus! {

/// The length up to which two sequences are paired positionally.
pub open spec fn min_len<T>(a: Seq<T>, b: Seq<T>) -> int {
    if a.len() <= b.len() {
        a.len() as int
    } else {
        b.len() as int
    }
}

/// The model of a snapshot: the views of its handles, in order.
pub open spec fn snapshot_view(s: Seq<Gamepad>) -> Seq<GamepadView> {
    s.map_values(|g: Gamepad| g@)
}

/// The model of an event list: each handle replaced by its view.
pub open spec fn events_view(s: Seq<(Gamepad, GamepadEvent)>) -> Seq<(GamepadView, GamepadEvent)> {
    s.map_values(|p: (Gamepad, GamepadEvent)| (p.0@, p.1))
}

/// The button events that positions `0 .. n` of a device's previous and
/// current button states yield: one edge-triggered event per transition,
/// by ascending index, carrying the new state.
pub open spec fn button_events_upto(
    dev: GamepadView,
    prev: Seq<bool>,
    curr: Seq<bool>,
    n: int,
) -> Seq<(GamepadView, GamepadEvent)>
    decreases n,
{
    if n <= 0 {
        Seq::empty()
    } else {
        let rest = button_events_upto(dev, prev, curr, n - 1);
        if prev[n - 1] != curr[n - 1] {
            rest.push(
                (
                    dev,
                    GamepadEvent::ButtonChanged {
                        button_index: (n - 1) as usize,
                        pressed: curr[n - 1],
                    },
                ),
            )
        } else {
            rest
        }
    }
}

/// All button events of one device pair.
pub open spec fn button_events(dev: GamepadView, prev: Seq<bool>, curr: Seq<bool>) -> Seq<
    (GamepadView, GamepadEvent),
> {
    button_events_upto(dev, prev, curr, min_len(prev, curr))
}

/// The axis events that positions `0 .. n` yield: one event per position
/// whose value differs under exact floating-point comparison, by ascending
/// index, carrying the new value.
pub open spec fn axis_events_upto(
    dev: GamepadView,
    prev: Seq<AxisBits>,
    curr: Seq<AxisBits>,
    n: int,
) -> Seq<(GamepadView, GamepadEvent)>
    decreases n,
{
    if n <= 0 {
        Seq::empty()
    } else {
        let rest = axis_events_upto(dev, prev, curr, n - 1);
        if !axis_eq(prev[n - 1], curr[n - 1]) {
            rest.push(
                (
                    dev,
                    GamepadEvent::AxisChanged { axis_index: (n - 1) as usize, value: curr[n - 1] },
                ),
            )
        } else {
            rest
        }
    }
}

/// All axis events of one device pair.
pub open spec fn axis_events(dev: GamepadView, prev: Seq<AxisBits>, curr: Seq<AxisBits>) -> Seq<
    (GamepadView, GamepadEvent),
> {
    axis_events_upto(dev, prev, curr, min_len(prev, curr))
}

/// The axis value at a position, where the mapping has one.
pub open spec fn opt_axis(axes: Seq<AxisBits>, i: int) -> Option<AxisBits> {
    if 0 <= i < axes.len() {
        Some(axes[i])
    } else {
        None
    }
}

/// Equality of two possibly-missing axis values: both missing counts as
/// equal, present values compare as floating point.
pub open spec fn opt_axis_eq(a: Option<AxisBits>, b: Option<AxisBits>) -> bool {
    match (a, b) {
        (Some(x), Some(y)) => axis_eq(x, y),
        (None, None) => true,
        _ => false,
    }
}

/// Whether either component of the stick at axis positions `(xi, yi)`
/// differs between the previous and current axis sequences.
pub open spec fn stick_pair_changed(
    prev: Seq<AxisBits>,
    curr: Seq<AxisBits>,
    xi: int,
    yi: int,
) -> bool {
    !(opt_axis_eq(opt_axis(prev, xi), opt_axis(curr, xi)) && opt_axis_eq(
        opt_axis(prev, yi),
        opt_axis(curr, yi),
    ))
}

/// The stick event of one side: emitted when either component changed and
/// both current components are present, carrying both current components.
pub open spec fn stick_events(
    dev: GamepadView,
    prev: Seq<AxisBits>,
    curr: Seq<AxisBits>,
    xi: int,
    yi: int,
    side: Side,
) -> Seq<(GamepadView, GamepadEvent)> {
    match (opt_axis(curr, xi), opt_axis(curr, yi)) {
        (Some(x), Some(y)) => if stick_pair_changed(prev, curr, xi, yi) {
            seq![
                (
                    dev,
                    GamepadEvent::StickChanged {
                        x_axis_index: xi as usize,
                        y_axis_index: yi as usize,
                        x,
                        y,
                        side,
                    },
                ),
            ]
        } else {
            Seq::empty()
        },
        _ => Seq::empty(),
    }
}

/// All events of one matched device pair, in the guaranteed order:
/// buttons, axes, left stick, right stick. The handle paired with each
/// event is the current one.
pub open spec fn device_events(dev: GamepadView, prev: MappingView, curr: MappingView) -> Seq<
    (GamepadView, GamepadEvent),
> {
    button_events(dev, prev.buttons(), curr.buttons()) + axis_events(
        dev,
        prev.axes(),
        curr.axes(),
    ) + stick_events(dev, prev.axes(), curr.axes(), 0, 1, Side::Left) + stick_events(
        dev,
        prev.axes(),
        curr.axes(),
        2,
        3,
        Side::Right,
    )
}

/// The events one tick yields: the first device of each snapshot is
/// diffed; an empty previous or current snapshot yields nothing.
pub open spec fn spec_synthesize(prev: Seq<GamepadView>, curr: Seq<GamepadView>) -> Seq<
    (GamepadView, GamepadEvent),
> {
    if prev.len() > 0 && curr.len() > 0 {
        device_events(curr[0], prev[0].mapping, curr[0].mapping)
    } else {
        Seq::empty()
    }
}

/// Viewing an event list commutes with appending one event.
proof fn lemma_events_view_push(s: Seq<(Gamepad, GamepadEvent)>, p: (Gamepad, GamepadEvent))
    ensures
        events_view(s.push(p)) == events_view(s).push((p.0@, p.1)),
{
    assert(events_view(s.push(p)) =~= events_view(s).push((p.0@, p.1)));
}

/// Appending one element to the second part of a concatenation.
proof fn lemma_concat_push<T>(a: Seq<T>, b: Seq<T>, x: T)
    ensures
        (a + b).push(x) == a + b.push(x),
{
    assert((a + b).push(x) =~= a + b.push(x));
}

/// Compares two possibly-missing axis values.
fn opt_axis_value_eq(a: Option<AxisBits>, b: Option<AxisBits>) -> (r: bool)
    ensures
        r == opt_axis_eq(a, b),
{
    match (a, b) {
        (Some(x), Some(y)) => axis_value_eq(x, y),
        (None, None) => true,
        _ => false,
    }
}

/// The axis value at a position, where there is one.
fn axis_at(axes: &Vec<AxisBits>, i: usize) -> (r: Option<AxisBits>)
    ensures
        r == opt_axis(axes@, i as int),
{
    if i < axes.len() {
        Some(axes[i])
    } else {
        None
    }
}

/// Synthesizes the ordered event list that the step from snapshot `prev`
/// to snapshot `curr` yields, each event paired with the current device
/// handle it originated from.
pub fn synthesize(prev: &Vec<Gamepad>, curr: &Vec<Gamepad>) -> (events: Vec<
    (Gamepad, GamepadEvent),
>)
    ensures
        events_view(events@) == spec_synthesize(snapshot_view(prev@), snapshot_view(curr@)),
{
    let mut events: Vec<(Gamepad, GamepadEvent)> = Vec::new();
    if prev.len() == 0 || curr.len() == 0 {
        proof {
            assert(events_view(events@) =~= spec_synthesize(
                snapshot_view(prev@),
                snapshot_view(curr@),
            ));
        }
        return events;
    }
    let old_pad = &prev[0];
    let new_pad = &curr[0];
    let ghost dev = new_pad@;
    let ghost pm = old_pad@.mapping;
    let ghost cm = new_pad@.mapping;
    proof {
        assert(snapshot_view(prev@)[0] == old_pad@);
        assert(snapshot_view(curr@)[0] == new_pad@);
    }

    // Button events, by ascending button index.
    let prev_buttons = old_pad.mapping.buttons();
    let curr_buttons = new_pad.mapping.buttons();
    let nb: usize = if prev_buttons.len() <= curr_buttons.len() {
        prev_buttons.len()
    } else {
        curr_buttons.len()
    };
    let mut i: usize = 0;
    while i < nb
        invariant
            i <= nb,
            nb == min_len(pm.buttons(), cm.buttons()),
            prev_buttons@ == pm.buttons(),
            curr_buttons@ == cm.buttons(),
            new_pad@ == dev,
            events_view(events@) == button_events_upto(dev, pm.buttons(), cm.buttons(), i as int),
        decreases nb - i,
    {
        let was_pressed = prev_buttons[i];
        let is_pressed = curr_buttons[i];
        if was_pressed != is_pressed {
            let pad = new_pad.clone();
            let ghost padv = pad;
            let ev = GamepadEvent::ButtonChanged { button_index: i, pressed: is_pressed };
            let ghost pre = events@;
            events.push((pad, ev));
            proof {
                lemma_events_view_push(pre, (padv, ev));
            }
        }
        i = i + 1;
    }

    // Axis events, by ascending axis index.
    let prev_axes = old_pad.mapping.axes();
    let curr_axes = new_pad.mapping.axes();
    let ghost base_b = button_events(dev, pm.buttons(), cm.buttons());
    let na: usize = if prev_axes.len() <= curr_axes.len() {
        prev_axes.len()
    } else {
        curr_axes.len()
    };
    let mut i: usize = 0;
    while i < na
        invariant
            i <= na,
            na == min_len(pm.axes(), cm.axes()),
            prev_axes@ == pm.axes(),
            curr_axes@ == cm.axes(),
            new_pad@ == dev,
            events_view(events@) == base_b + axis_events_upto(dev, pm.axes(), cm.axes(), i as int),
            base_b == button_events(dev, pm.buttons(), cm.buttons()),
        decreases na - i,
    {
        let before = prev_axes[i];
        let now = curr_axes[i];
        if !axis_value_eq(before, now) {
            let pad = new_pad.clone();
            let ghost padv = pad;
            let ev = GamepadEvent::AxisChanged { axis_index: i, value: now };
            let ghost pre = events@;
            events.push((pad, ev));
            proof {
                lemma_events_view_push(pre, (padv, ev));
                lemma_concat_push(
                    base_b,
                    axis_events_upto(dev, pm.axes(), cm.axes(), i as int),
                    (dev, ev),
                );
            }
        }
        i = i + 1;
    }
    let ghost base_ba = base_b + axis_events(dev, pm.axes(), cm.axes());

    // Stick events: left stick (axes 0 and 1), then right stick (2 and 3).
    let plx = axis_at(prev_axes, 0);
    let ply = axis_at(prev_axes, 1);
    let clx = axis_at(curr_axes, 0);
    let cly = axis_at(curr_axes, 1);
    if !(opt_axis_value_eq(plx, clx) && opt_axis_value_eq(ply, cly)) {
        match (clx, cly) {
            (Some(x), Some(y)) => {
                let pad = new_pad.clone();
                let ghost padv = pad;
                let ev = GamepadEvent::StickChanged {
                    x_axis_index: 0,
                    y_axis_index: 1,
                    x,
                    y,
                    side: Side::Left,
                };
                let ghost pre = events@;
                events.push((pad, ev));
                proof {
                    lemma_events_view_push(pre, (padv, ev));
                    assert(events_view(events@) =~= base_ba + stick_events(
                        dev,
                        pm.axes(),
                        cm.axes(),
                        0,
                        1,
                        Side::Left,
                    ));
                }
            },
            _ => {
                proof {
                    assert(events_view(events@) =~= base_ba + stick_events(
                        dev,
                        pm.axes(),
                        cm.axes(),
                        0,
                        1,
                        Side::Left,
                    ));
                }
            },
        }
    } else {
        proof {
            assert(events_view(events@) =~= base_ba + stick_events(
                dev,
                pm.axes(),
                cm.axes(),
                0,
                1,
                Side::Left,
            ));
        }
    }
    let ghost base_bal = base_ba + stick_events(dev, pm.axes(), cm.axes(), 0, 1, Side::Left);

    let prx = axis_at(prev_axes, 2);
    let pry = axis_at(prev_axes, 3);
    let crx = axis_at(curr_axes, 2);
    let cry = axis_at(curr_axes, 3);
    if !(opt_axis_value_eq(prx, crx) && opt_axis_value_eq(pry, cry)) {
        match (crx, cry) {
            (Some(x), Some(y)) => {
                let pad = new_pad.clone();
                let ghost padv = pad;
                let ev = GamepadEvent::StickChanged {
                    x_axis_index: 2,
                    y_axis_index: 3,
                    x,
                    y,
                    side: Side::Right,
                };
                let ghost pre = events@;
                events.push((pad, ev));
                proof {
                    lemma_events_view_push(pre, (padv, ev));
                    assert(events_view(events@) =~= base_bal + stick_events(
                        dev,
                        pm.axes(),
                        cm.axes(),
                        2,
                        3,
                        Side::Right,
                    ));
                }
            },
            _ => {
                proof {
                    assert(events_view(events@) =~= base_bal + stick_events(
                        dev,
                        pm.axes(),
                        cm.axes(),
                        2,
                        3,
                        Side::Right,
                    ));
                }
            },
        }
    } else {
        proof {
            assert(events_view(events@) =~= base_bal + stick_events(
                dev,
                pm.axes(),
                cm.axes(),
                2,
                3,
                Side::Right,
            ));
        }
    }
    proof {
        assert(events_view(events@) == spec_synthesize(snapshot_view(prev@), snapshot_view(curr@)));
    }
    events
}

/// Unchanged buttons yield no button events.
proof fn lemma_button_events_upto_self(dev: GamepadView, buttons: Seq<bool>, n: int)
    ensures
        button_events_upto(dev, buttons, buttons, n) == Seq::<(GamepadView, GamepadEvent)>::empty(),
    decreases n,
{
    if n > 0 {
        lemma_button_events_upto_self(dev, buttons, n - 1);
    }
}

/// Axes that hold no NaN yield no axis events when diffed against
/// themselves.
proof fn lemma_axis_events_upto_self(dev: GamepadView, axes: Seq<AxisBits>, n: int)
    requires
        forall|i: int| 0 <= i < n ==> !is_nan_bits(#[trigger] axes[i]),
    ensures
        axis_events_upto(dev, axes, axes, n) == Seq::<(GamepadView, GamepadEvent)>::empty(),
    decreases n,
{
    if n > 0 {
        lemma_axis_events_upto_self(dev, axes, n - 1);
    }
}

/// Whether a mapping's axes are all ordinary numbers (no NaN). Hardware
/// reports axes in `[-1, 1]`, so this holds of every real reading.
pub open spec fn no_nan_axes(m: MappingView) -> bool {
    forall|i: int| 0 <= i < m.axes().len() ==> !is_nan_bits(#[trigger] m.axes()[i])
}

/// Idempotence: diffing a snapshot against itself yields no events, for
/// every snapshot whose diffed device holds no NaN axis value. (A NaN is
/// unequal to itself under floating-point comparison, so a NaN axis would
/// re-emit an axis event every tick; hardware never reports one.)
pub proof fn lemma_synthesize_self(s: Seq<GamepadView>)
    requires
        s.len() > 0 ==> no_nan_axes(s[0].mapping),
    ensures
        spec_synthesize(s, s) == Seq::<(GamepadView, GamepadEvent)>::empty(),
{
    if s.len() > 0 {
        let dev = s[0];
        let m = dev.mapping;
        lemma_button_events_upto_self(dev, m.buttons(), min_len(m.buttons(), m.buttons()));
        lemma_axis_events_upto_self(dev, m.axes(), min_len(m.axes(), m.axes()));
        assert(!stick_pair_changed(m.axes(), m.axes(), 0, 1));
        assert(!stick_pair_changed(m.axes(), m.axes(), 2, 3));
        assert(spec_synthesize(s, s) =~= Seq::<(GamepadView, GamepadEvent)>::empty());
    }
}

} // verus!
