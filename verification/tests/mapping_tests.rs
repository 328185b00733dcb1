use gamepad_events::axis::axis_value_eq;
use gamepad_events::gamepad::{create_mapping, Gamepad, RawGamepad};
use gamepad_events::mapping::Mapping;

fn bits(x: f64) -> u64 {
    x.to_bits()
}

fn standard_raw(index: i32, buttons: Vec<bool>, axes: Vec<Option<u64>>) -> RawGamepad {
    RawGamepad {
        index,
        id: String::from("Test Pad (Vendor: 0000 Product: 0000)"),
        connected: true,
        standard: true,
        buttons,
        axes,
    }
}

#[test]
fn standard_mapping_has_17_buttons_and_4_axes() {
    let raw = standard_raw(0, vec![true; 20], vec![Some(bits(0.25)); 6]);
    let m = create_mapping(&raw);
    match m {
        Mapping::Standard { buttons, axes } => {
            assert_eq!(buttons.len(), 17);
            assert_eq!(axes.len(), 4);
            assert!(buttons.iter().all(|&b| b));
            assert!(axes.iter().all(|&a| a == bits(0.25)));
        }
        Mapping::NoMapping { .. } => panic!("expected a standard mapping"),
    }
}

#[test]
fn standard_mapping_pads_missing_values_with_defaults() {
    // Hardware claims the standard layout but reports fewer values.
    let raw = standard_raw(0, vec![true, true], vec![Some(bits(0.5)), None]);
    let m = create_mapping(&raw);
    match m {
        Mapping::Standard { buttons, axes } => {
            assert_eq!(buttons.len(), 17);
            assert_eq!(axes.len(), 4);
            assert_eq!(buttons[0], true);
            assert_eq!(buttons[1], true);
            assert!(buttons[2..].iter().all(|&b| !b));
            // An unreadable axis defaults to 0.0, and so does a missing one.
            assert_eq!(axes[0], bits(0.5));
            assert_eq!(axes[1], bits(0.0));
            assert_eq!(axes[2], bits(0.0));
            assert_eq!(axes[3], bits(0.0));
        }
        Mapping::NoMapping { .. } => panic!("expected a standard mapping"),
    }
}

#[test]
fn no_mapping_keeps_the_reported_shape() {
    let raw = RawGamepad {
        index: 2,
        id: String::from("Exotic Pad"),
        connected: true,
        standard: false,
        buttons: vec![true, false, true],
        axes: vec![Some(bits(-1.0)), None],
    };
    let m = create_mapping(&raw);
    match m {
        Mapping::NoMapping { buttons, axes } => {
            assert_eq!(buttons, vec![true, false, true]);
            assert_eq!(axes, vec![bits(-1.0), bits(0.0)]);
        }
        Mapping::Standard { .. } => panic!("expected an unmapped layout"),
    }
}

#[test]
fn wrapping_keeps_identity_fields() {
    let raw = standard_raw(7, vec![false; 17], vec![Some(bits(0.0)); 4]);
    let g = Gamepad::new(raw);
    assert_eq!(g.index(), 7);
    assert_eq!(g.id(), "Test Pad (Vendor: 0000 Product: 0000)");
    assert!(g.connected());
    assert!(g.mapping.is_standard());
}

#[test]
fn identity_is_by_index_alone() {
    let a = Gamepad::new(standard_raw(3, vec![false; 17], vec![Some(bits(0.0)); 4]));
    let b = Gamepad::new(standard_raw(3, vec![true; 17], vec![Some(bits(1.0)); 4]));
    let c = Gamepad::new(standard_raw(4, vec![false; 17], vec![Some(bits(0.0)); 4]));
    // Same index, entirely different mapping contents: the same device.
    assert!(a == b);
    // Same contents, different index: not the same device.
    assert!(a != c);
}

#[test]
fn clones_compare_equal_and_keep_state() {
    let g = Gamepad::new(standard_raw(1, vec![true; 17], vec![Some(bits(0.5)); 4]));
    let h = g.clone();
    assert!(g == h);
    assert_eq!(h.index(), 1);
    assert_eq!(h.mapping.buttons(), g.mapping.buttons());
    assert_eq!(h.mapping.axes(), g.mapping.axes());
}

#[test]
fn axis_comparison_is_exact_floating_point_equality() {
    assert!(axis_value_eq(bits(0.5), bits(0.5)));
    assert!(!axis_value_eq(bits(0.5), bits(0.5 + f64::EPSILON)));
    // The two zeros are equal under floating-point comparison.
    assert!(axis_value_eq(bits(0.0), bits(-0.0)));
    // A NaN is equal to nothing, not even itself.
    assert!(!axis_value_eq(bits(f64::NAN), bits(f64::NAN)));
    assert!(!axis_value_eq(bits(f64::NAN), bits(0.0)));
    // Infinities are equal to themselves.
    assert!(axis_value_eq(bits(f64::INFINITY), bits(f64::INFINITY)));
    assert!(!axis_value_eq(bits(f64::INFINITY), bits(f64::NEG_INFINITY)));
}
