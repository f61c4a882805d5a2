use passinglink::input::{
    clean_horizontal, clean_vertical, hat_of, Axis, AxisType, Button, ButtonType, DeviceInputs,
    Direction, Hat, HatType, InputPins,
};

fn released() -> InputPins {
    InputPins {
        stick_down: false,
        stick_up: false,
        stick_left: false,
        stick_right: false,
        button_north: false,
        button_east: false,
        button_south: false,
        button_west: false,
        button_l1: false,
        button_r1: false,
        button_l2: false,
        button_r2: false,
        button_l3: false,
        button_r3: false,
        button_home: false,
        button_start: false,
        button_select: false,
        button_trackpad: false,
        mode_lock: false,
        mode_ls: false,
        mode_rs: false,
        mode_ps3: false,
    }
}

fn stick(left: bool, right: bool, up: bool, down: bool) -> InputPins {
    InputPins { stick_left: left, stick_right: right, stick_up: up, stick_down: down, ..released() }
}

fn polled(pins: &InputPins) -> DeviceInputs {
    let mut inputs = DeviceInputs::default();
    inputs.poll(pins);
    inputs
}

#[test]
fn axis_holds_its_value() {
    let mut axis = Axis::new(128);
    assert_eq!(axis.get(), 128);
    axis.set_value(0);
    assert_eq!(axis.get(), 0);
    axis.set_value(255);
    assert_eq!(axis.get(), 255);
}

#[test]
fn button_is_pressed_and_released() {
    let mut button = Button::default();
    assert!(!button.get());
    button.set();
    assert!(button.get());
    button.clear();
    assert!(!button.get());
    button.set_value(true);
    assert!(button.get());
    button.set_value(false);
    assert!(!button.get());
}

#[test]
fn hat_rests_by_default() {
    assert_eq!(Hat::default(), Hat::Neutral);
}

#[test]
fn kinds_are_distinct() {
    assert_ne!(AxisType::LeftStickX, AxisType::LeftStickY);
    assert_ne!(AxisType::RightStickX, AxisType::RightStickY);
    assert_ne!(AxisType::LeftTrigger, AxisType::RightTrigger);
    assert_ne!(ButtonType::Start, ButtonType::Select);
    assert_ne!(ButtonType::Home, ButtonType::Trackpad);
    assert_ne!(ButtonType::North, ButtonType::South);
    assert_ne!(ButtonType::East, ButtonType::West);
    assert_ne!(ButtonType::L1, ButtonType::R1);
    assert_ne!(ButtonType::L2, ButtonType::R2);
    assert_ne!(ButtonType::L3, ButtonType::R3);
    assert_eq!(HatType::DPad, HatType::DPad);
}

#[test]
fn default_inputs() {
    let inputs = DeviceInputs::default();
    assert_eq!(inputs.counter, 0);
    assert_eq!(inputs.axis_left_stick_x.get(), 128);
    assert_eq!(inputs.axis_left_stick_y.get(), 128);
    assert_eq!(inputs.axis_right_stick_x.get(), 128);
    assert_eq!(inputs.axis_right_stick_y.get(), 128);
    assert_eq!(inputs.axis_left_trigger.get(), 128);
    assert_eq!(inputs.axis_right_trigger.get(), 128);
    assert_eq!(inputs.hat_dpad, Hat::Neutral);
    assert!(!inputs.button_start.get());
    assert!(!inputs.button_select.get());
    assert!(!inputs.button_home.get());
    assert!(!inputs.button_north.get());
    assert!(!inputs.button_east.get());
    assert!(!inputs.button_south.get());
    assert!(!inputs.button_west.get());
    assert!(!inputs.button_l1.get());
    assert!(!inputs.button_l2.get());
    assert!(!inputs.button_l3.get());
    assert!(!inputs.button_r1.get());
    assert!(!inputs.button_r2.get());
    assert!(!inputs.button_r3.get());
    assert!(!inputs.button_trackpad.get());
}

#[test]
fn horizontal_cleaning() {
    assert_eq!(clean_horizontal(false, false), Direction::Neutral);
    assert_eq!(clean_horizontal(true, false), Direction::Negative);
    assert_eq!(clean_horizontal(false, true), Direction::Positive);
    assert_eq!(clean_horizontal(true, true), Direction::Neutral);
}

#[test]
fn vertical_cleaning() {
    assert_eq!(clean_vertical(false, false), Direction::Neutral);
    assert_eq!(clean_vertical(true, false), Direction::Positive);
    assert_eq!(clean_vertical(false, true), Direction::Negative);
    assert_eq!(clean_vertical(true, true), Direction::Positive);
}

#[test]
fn hat_for_every_pair_of_directions() {
    assert_eq!(hat_of(Direction::Neutral, Direction::Neutral), Hat::Neutral);
    assert_eq!(hat_of(Direction::Positive, Direction::Neutral), Hat::East);
    assert_eq!(hat_of(Direction::Positive, Direction::Negative), Hat::SouthEast);
    assert_eq!(hat_of(Direction::Neutral, Direction::Negative), Hat::South);
    assert_eq!(hat_of(Direction::Negative, Direction::Negative), Hat::SouthWest);
    assert_eq!(hat_of(Direction::Negative, Direction::Neutral), Hat::West);
    assert_eq!(hat_of(Direction::Negative, Direction::Positive), Hat::NorthWest);
    assert_eq!(hat_of(Direction::Neutral, Direction::Positive), Hat::North);
    assert_eq!(hat_of(Direction::Positive, Direction::Positive), Hat::NorthEast);
}

#[test]
fn socd() {
    let inputs = polled(&stick(true, true, true, false));
    assert_eq!(inputs.hat_dpad, Hat::North);
    assert_eq!(inputs.axis_left_stick_x.get(), 127);
}

#[test]
fn opposing_horizontal_cancels_in_every_combination() {
    for up in [false, true] {
        for down in [false, true] {
            let inputs = polled(&stick(true, true, up, down));
            assert_eq!(inputs.axis_left_stick_x.get(), 127);
            assert!(matches!(inputs.hat_dpad, Hat::North | Hat::South | Hat::Neutral));
            let left_stick =
                polled(&InputPins { mode_ls: true, ..stick(true, true, up, down) });
            assert_eq!(left_stick.axis_left_stick_x.get(), 127);
            assert_eq!(left_stick.hat_dpad, Hat::Neutral);
        }
    }
}

#[test]
fn opposing_vertical_goes_up_in_every_combination() {
    for left in [false, true] {
        for right in [false, true] {
            let inputs = polled(&stick(left, right, true, true));
            assert!(matches!(inputs.hat_dpad, Hat::North | Hat::NorthEast | Hat::NorthWest));
            let left_stick =
                polled(&InputPins { mode_ls: true, ..stick(left, right, true, true) });
            assert_eq!(left_stick.axis_left_stick_y.get(), 0);
        }
    }
}

#[test]
fn hat_follows_the_stick_outside_left_stick_mode() {
    assert_eq!(polled(&stick(false, false, false, false)).hat_dpad, Hat::Neutral);
    assert_eq!(polled(&stick(true, false, false, false)).hat_dpad, Hat::West);
    assert_eq!(polled(&stick(false, true, false, false)).hat_dpad, Hat::East);
    assert_eq!(polled(&stick(false, false, true, false)).hat_dpad, Hat::North);
    assert_eq!(polled(&stick(false, false, false, true)).hat_dpad, Hat::South);
    assert_eq!(polled(&stick(true, false, true, false)).hat_dpad, Hat::NorthWest);
    assert_eq!(polled(&stick(false, true, true, false)).hat_dpad, Hat::NorthEast);
    assert_eq!(polled(&stick(true, false, false, true)).hat_dpad, Hat::SouthWest);
    assert_eq!(polled(&stick(false, true, false, true)).hat_dpad, Hat::SouthEast);
    let inputs = polled(&stick(true, false, false, true));
    assert_eq!(inputs.axis_left_stick_x.get(), 127);
    assert_eq!(inputs.axis_left_stick_y.get(), 127);
}

#[test]
fn left_stick_mode_moves_the_axes_and_rests_the_hat() {
    let at = |left: bool, right: bool, up: bool, down: bool| {
        let inputs = polled(&InputPins { mode_ls: true, ..stick(left, right, up, down) });
        assert_eq!(inputs.hat_dpad, Hat::Neutral);
        (inputs.axis_left_stick_x.get(), inputs.axis_left_stick_y.get())
    };
    assert_eq!(at(false, false, false, false), (127, 127));
    assert_eq!(at(true, false, false, false), (0, 127));
    assert_eq!(at(false, true, false, false), (255, 127));
    assert_eq!(at(false, false, true, false), (127, 0));
    assert_eq!(at(false, false, false, true), (127, 255));
    assert_eq!(at(true, false, false, true), (0, 255));
    assert_eq!(at(false, true, true, false), (255, 0));
}

#[test]
fn buttons_follow_their_lines() {
    let pins = InputPins {
        button_north: true,
        button_west: true,
        button_l1: true,
        button_r3: true,
        button_trackpad: true,
        button_home: true,
        button_select: true,
        ..released()
    };
    let inputs = polled(&pins);
    assert!(inputs.button_north.get());
    assert!(!inputs.button_east.get());
    assert!(!inputs.button_south.get());
    assert!(inputs.button_west.get());
    assert!(inputs.button_l1.get());
    assert!(!inputs.button_r1.get());
    assert!(!inputs.button_l3.get());
    assert!(inputs.button_r3.get());
    assert!(inputs.button_trackpad.get());
    assert!(inputs.button_home.get());
    assert!(!inputs.button_start.get());
    assert!(inputs.button_select.get());
}

#[test]
fn triggers_follow_l2_and_r2() {
    let inputs = polled(&InputPins { button_l2: true, ..released() });
    assert!(inputs.button_l2.get());
    assert!(!inputs.button_r2.get());
    assert_eq!(inputs.axis_left_trigger.get(), 255);
    assert_eq!(inputs.axis_right_trigger.get(), 0);
    let inputs = polled(&InputPins { button_r2: true, ..released() });
    assert_eq!(inputs.axis_left_trigger.get(), 0);
    assert_eq!(inputs.axis_right_trigger.get(), 255);
}

#[test]
fn lock_keeps_home_start_and_select() {
    let mut inputs = DeviceInputs::default();
    inputs.poll(&InputPins { button_home: true, button_start: true, ..released() });
    assert!(inputs.button_home.get());
    assert!(inputs.button_start.get());
    inputs.poll(&InputPins { mode_lock: true, button_select: true, ..released() });
    assert!(inputs.button_home.get());
    assert!(inputs.button_start.get());
    assert!(!inputs.button_select.get());
    inputs.poll(&released());
    assert!(!inputs.button_home.get());
    assert!(!inputs.button_start.get());
}

#[test]
fn poll_leaves_counter_and_right_stick_alone() {
    let mut inputs = DeviceInputs::default();
    inputs.counter = 41;
    inputs.axis_right_stick_x.set_value(3);
    inputs.axis_right_stick_y.set_value(250);
    inputs.poll(&InputPins { mode_rs: true, mode_ps3: true, ..stick(true, false, true, false) });
    assert_eq!(inputs.counter, 41);
    assert_eq!(inputs.axis_right_stick_x.get(), 3);
    assert_eq!(inputs.axis_right_stick_y.get(), 250);
    assert_eq!(inputs.hat_dpad, Hat::NorthWest);
}
