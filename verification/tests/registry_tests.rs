use gamepad_events::event::{GamepadEvent, Side};
use gamepad_events::gamepad::{Gamepad, RawGamepad};
use gamepad_events::manager::Shared;

fn bits(x: f64) -> u64 {
    x.to_bits()
}

fn standard_raw(index: i32, buttons: Vec<bool>, axes: Vec<Option<u64>>) -> RawGamepad {
    RawGamepad {
        index,
        id: String::from("Test Pad"),
        connected: true,
        standard: true,
        buttons,
        axes,
    }
}

fn idle_raw(index: i32) -> RawGamepad {
    standard_raw(index, vec![false; 17], vec![Some(bits(0.0)); 4])
}

#[test]
fn create_starts_empty() {
    let shared = Shared::create();
    assert!(shared.manager().gamepads.is_empty());
}

#[test]
fn register_twice_with_same_index_tracks_once() {
    let mut shared = Shared::create();
    shared.0.register(idle_raw(0));
    shared.0.register(standard_raw(0, vec![true; 17], vec![Some(bits(1.0)); 4]));
    assert_eq!(shared.manager().gamepads.len(), 1);
}

#[test]
fn register_returns_the_just_wrapped_state() {
    let mut shared = Shared::create();
    shared.0.register(idle_raw(0));
    // Re-registering a tracked index is a no-op addition, but the handle
    // handed back reflects the fresh reading.
    let g = shared.0.register(standard_raw(0, vec![true; 17], vec![Some(bits(1.0)); 4]));
    assert_eq!(g.mapping.buttons()[0], true);
    assert_eq!(shared.manager().gamepads.len(), 1);
    // The tracked entry still holds the first reading.
    assert_eq!(shared.manager().gamepads[0].mapping.buttons()[0], false);
}

#[test]
fn register_tracks_distinct_indices_in_order() {
    let mut shared = Shared::create();
    shared.0.register(idle_raw(2));
    shared.0.register(idle_raw(0));
    shared.0.register(idle_raw(2));
    shared.0.register(idle_raw(1));
    let indices: Vec<i32> = shared.manager().gamepads.iter().map(|g| g.index()).collect();
    assert_eq!(indices, vec![2, 0, 1]);
}

#[test]
fn collect_new_is_a_pure_read() {
    let mut shared = Shared::create();
    shared.0.register(idle_raw(0));
    let reads = vec![standard_raw(0, vec![true; 17], vec![Some(bits(0.5)); 4])];
    let snap: Vec<Gamepad> = shared.0.collect_new(&reads);
    assert_eq!(snap.len(), 1);
    assert_eq!(snap[0].mapping.buttons()[0], true);
    // The tracked baseline is untouched by the read.
    assert_eq!(shared.manager().gamepads[0].mapping.buttons()[0], false);
}

#[test]
fn advance_replaces_the_tracked_set() {
    let mut shared = Shared::create();
    shared.0.register(idle_raw(0));
    shared.0.advance(Vec::new());
    assert!(shared.manager().gamepads.is_empty());
}

#[test]
fn end_to_end_tick_scenario() {
    // Tick 1: one standard device appears, fully idle.
    let mut shared = Shared::create();
    shared.0.register(idle_raw(0));

    // Tick 2: button 3 is now pressed and axis 2 reads -0.8.
    let mut axes = vec![Some(bits(0.0)); 4];
    axes[2] = Some(bits(-0.8));
    let mut buttons = vec![false; 17];
    buttons[3] = true;
    let reads = vec![standard_raw(0, buttons, axes)];

    let mut events: Vec<(Gamepad, GamepadEvent)> = Vec::new();
    shared.0.collect_events(&reads, &mut events);

    let kinds: Vec<&GamepadEvent> = events.iter().map(|e| &e.1).collect();
    assert_eq!(
        kinds,
        vec![
            &GamepadEvent::ButtonChanged { button_index: 3, pressed: true },
            &GamepadEvent::AxisChanged { axis_index: 2, value: bits(-0.8) },
            &GamepadEvent::StickChanged {
                x_axis_index: 2,
                y_axis_index: 3,
                x: bits(-0.8),
                y: bits(0.0),
                side: Side::Right,
            },
        ]
    );
    // Every event is paired with the device it originated from.
    assert!(events.iter().all(|e| e.0.index() == 0));

    // The baseline advanced: the same reading again yields nothing.
    let mut more: Vec<(Gamepad, GamepadEvent)> = Vec::new();
    let mut axes = vec![Some(bits(0.0)); 4];
    axes[2] = Some(bits(-0.8));
    let mut buttons = vec![false; 17];
    buttons[3] = true;
    shared.0.collect_events(&vec![standard_raw(0, buttons, axes)], &mut more);
    assert!(more.is_empty());
}

#[test]
fn collect_events_appends_to_the_given_list() {
    let mut shared = Shared::create();
    shared.0.register(standard_raw(0, vec![false; 17], vec![Some(bits(0.0)); 4]));
    let mut buttons = vec![false; 17];
    buttons[0] = true;
    let reads = vec![standard_raw(0, buttons, vec![Some(bits(0.0)); 4])];

    let sentinel_pad = Gamepad::new(idle_raw(9));
    let sentinel = GamepadEvent::ButtonChanged { button_index: 16, pressed: false };
    let mut events = vec![(sentinel_pad, sentinel)];
    shared.0.collect_events(&reads, &mut events);
    assert_eq!(events.len(), 2);
    assert_eq!(events[0].1, sentinel);
    assert_eq!(events[1].1, GamepadEvent::ButtonChanged { button_index: 0, pressed: true });
}
