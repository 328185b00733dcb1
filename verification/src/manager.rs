//! The device registry.
//!
//! The registry owns the ordered set of currently known devices. It
//! deduplicates registration by stable index, re-derives a fresh snapshot
//! from fresh raw readings on demand, and advances its baseline to the new
//! snapshot once per tick after diffing. The host drives it under
//! single-threaded cooperative scheduling: it performs the polls and hands
//! the raw readings in as plain values.

use vstd::prelude::*;
use crate::event::GamepadEvent;
use crate::gamepad::{spec_wrap, Gamepad, GamepadView, RawGamepad, RawGamepadView};
use crate::synth::{events_view, snapshot_view, spec_synthesize, synthesize};

verus! {

/// The model of a raw-reading list: the views of its readings, in order.
pub open spec fn raws_view(s: Seq<RawGamepad>) -> Seq<RawGamepadView> {
    s.map_values(|r: RawGamepad| r@)
}

/// Whether some tracked handle carries the given device index.
pub open spec fn has_index(s: Seq<GamepadView>, index: i32) -> bool {
    exists|i: int| 0 <= i < s.len() && s[i].index == index
}

/// The tracked-set transition registration makes: an index already
/// tracked adds nothing; a new one is appended at the end.
pub open spec fn spec_register(s: Seq<GamepadView>, g: GamepadView) -> Seq<GamepadView> {
    if has_index(s, g.index) {
        s
    } else {
        s.push(g)
    }
}

/// The snapshot that a list of fresh raw readings re-derives: each
/// reading wrapped into a handle, in order.
pub open spec fn spec_collect_new(reads: Seq<RawGamepadView>) -> Seq<GamepadView> {
    reads.map_values(|r: RawGamepadView| spec_wrap(r))
}

/// Every mapping in a re-derived snapshot is well formed: a standard
/// mapping always holds exactly 17 buttons and 4 axes.
pub proof fn lemma_collect_new_wf(reads: Seq<RawGamepadView>)
    ensures
        forall|i: int| 0 <= i < spec_collect_new(reads).len() ==> (
        #[trigger] spec_collect_new(reads)[i]).mapping.wf(),
{
}

/// Registering the same device index twice tracks it once: the second
/// registration adds nothing to any tracked set that already went through
/// the first, and from an empty registry exactly one device is tracked.
pub proof fn lemma_register_dedup(s: Seq<GamepadView>, g1: GamepadView, g2: GamepadView)
    requires
        g1.index == g2.index,
    ensures
        spec_register(spec_register(s, g1), g2) == spec_register(s, g1),
        s.len() == 0 ==> spec_register(spec_register(s, g1), g2).len() == 1,
{
    let s1 = spec_register(s, g1);
    if has_index(s, g1.index) {
        let i = choose|i: int| 0 <= i < s.len() && s[i].index == g1.index;
        assert(s1[i].index == g2.index);
    } else {
        assert(s1[s.len() as int].index == g2.index);
    }
    assert(has_index(s1, g2.index));
}

/// Owns the ordered list of currently tracked devices.
pub struct GamepadManager {
    /// The tracked devices, in registration order.
    pub gamepads: Vec<Gamepad>,
}

impl View for GamepadManager {
    type V = Seq<GamepadView>;

    open spec fn view(&self) -> Seq<GamepadView> {
        snapshot_view(self.gamepads@)
    }
}

impl GamepadManager {
    /// Wraps one raw reading into a handle and tracks it, unless a device
    /// with the same index is already tracked (registration is
    /// idempotent). The returned handle always reflects the just-wrapped
    /// reading.
    pub fn register(&mut self, raw: RawGamepad) -> (g: Gamepad)
        ensures
            g@ == spec_wrap(raw@),
            final(self)@ == spec_register(old(self)@, g@),
    {
        let g = Gamepad::new(raw);
        let mut found = false;
        let mut i: usize = 0;
        while i < self.gamepads.len()
            invariant
                i <= self.gamepads@.len(),
                self == old(self),
                g.index == g@.index,
                found <==> exists|j: int| 0 <= j < i && snapshot_view(self.gamepads@)[j].index
                    == g@.index,
            decreases self.gamepads@.len() - i,
        {
            proof {
                assert(snapshot_view(self.gamepads@)[i as int] == self.gamepads@[i as int]@);
            }
            if self.gamepads[i].index == g.index {
                found = true;
            }
            i = i + 1;
        }
        proof {
            assert(found <==> has_index(old(self)@, g@.index));
        }
        if !found {
            let ghost pre = self.gamepads@;
            self.gamepads.push(g.clone());
            proof {
                assert(snapshot_view(self.gamepads@) =~= snapshot_view(pre).push(g@));
            }
        }
        g
    }

    /// Re-derives a fresh handle for every currently tracked device from
    /// its fresh raw reading (one reading per tracked device, in tracked
    /// order). A pure read: the tracked set is not changed.
    pub fn collect_new(&self, reads: &Vec<RawGamepad>) -> (snap: Vec<Gamepad>)
        requires
            reads@.len() == self.gamepads@.len(),
        ensures
            snapshot_view(snap@) == spec_collect_new(raws_view(reads@)),
    {
        let mut snap: Vec<Gamepad> = Vec::new();
        let mut i: usize = 0;
        while i < reads.len()
            invariant
                i <= reads@.len(),
                snap@.len() == i,
                forall|j: int| 0 <= j < i ==> snapshot_view(snap@)[j] == spec_wrap(
                    #[trigger] raws_view(reads@)[j],
                ),
            decreases reads@.len() - i,
        {
            snap.push(Gamepad::new(reads[i].clone()));
            i = i + 1;
        }
        proof {
            assert(snapshot_view(snap@) =~= spec_collect_new(raws_view(reads@)));
        }
        snap
    }

    /// Atomically replaces the tracked set with a new snapshot,
    /// establishing the baseline for the next tick.
    pub fn advance(&mut self, snapshot: Vec<Gamepad>)
        ensures
            final(self)@ == snapshot_view(snapshot@),
    {
        self.gamepads = snapshot;
    }

    /// One polling tick: re-derives the current snapshot from the fresh
    /// raw readings, appends the events that the diff against the
    /// previous snapshot yields, and advances the baseline to the new
    /// snapshot.
    pub fn collect_events(
        &mut self,
        reads: &Vec<RawGamepad>,
        events: &mut Vec<(Gamepad, GamepadEvent)>,
    )
        requires
            reads@.len() == old(self).gamepads@.len(),
        ensures
            final(self)@ == spec_collect_new(raws_view(reads@)),
            events_view(final(events)@) == events_view(old(events)@) + spec_synthesize(
                old(self)@,
                final(self)@,
            ),
    {
        let new_gamepads = self.collect_new(reads);
        let mut fresh = synthesize(&self.gamepads, &new_gamepads);
        let ghost pre = events@;
        let ghost freshv = fresh@;
        events.append(&mut fresh);
        proof {
            assert(events_view(pre + freshv) =~= events_view(pre) + events_view(freshv));
        }
        self.advance(new_gamepads);
    }
}

/// The shared handle through which the host reaches the one registry.
pub struct Shared(pub GamepadManager);

impl Shared {
    /// Creates a registry that tracks no devices yet.
    pub fn create() -> (s: Shared)
        ensures
            s.0@ == Seq::<GamepadView>::empty(),
    {
        let s = Shared(GamepadManager { gamepads: Vec::new() });
        proof {
            assert(s.0@ =~= Seq::<GamepadView>::empty());
        }
        s
    }

    /// Read access to the registry. The host mutates through the public
    /// field, serializing access itself under its cooperative scheduling.
    pub fn manager(&self) -> (m: &GamepadManager)
        ensures
            m == &self.0,
    {
        &self.0
    }
}

} // verus!
