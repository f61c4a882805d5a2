//! The controller's inputs: axes, buttons and the D-pad hat, the levels read
//! from the input lines, and the cleaning of contradictory directions.

use vstd::prelude::*;

verus! {

/// An analog axis, 0 to 255, at rest near the middle.
#[derive(Clone, Copy, Debug, PartialEq, Eq, Structural)]
pub struct Axis(pub u8);

impl Axis {
    /// The position of the axis.
    pub open spec fn spec_get(self) -> u8 {
        self.0
    }

    /// An axis at `value`.
    pub fn new(value: u8) -> (axis: Axis)
        ensures
            axis.get() == value,
    {
        Axis(value)
    }

    /// The position of the axis.
    #[verifier::when_used_as_spec(spec_get)]
    pub fn get(self) -> (value: u8)
        ensures
            value == self.get(),
    {
        self.0
    }

    /// Moves the axis to `value`.
    pub fn set_value(&mut self, value: u8)
        ensures
            final(self).get() == value,
    {
        self.0 = value;
    }
}

/// The axes of the controller.
#[derive(Clone, Copy, Debug, PartialEq, Eq, Structural)]
pub enum AxisType {
    LeftStickX,
    LeftStickY,
    RightStickX,
    RightStickY,
    LeftTrigger,
    RightTrigger,
}

/// A button: pressed or not.
#[derive(Clone, Copy, Debug, PartialEq, Eq, Structural)]
pub struct Button(pub bool);

impl Button {
    /// Whether the button is pressed.
    pub open spec fn spec_get(self) -> bool {
        self.0
    }

    /// Whether the button is pressed.
    #[verifier::when_used_as_spec(spec_get)]
    pub fn get(self) -> (pressed: bool)
        ensures
            pressed == self.get(),
    {
        self.0
    }

    /// Presses or releases the button.
    pub fn set_value(&mut self, value: bool)
        ensures
            final(self).get() == value,
    {
        self.0 = value;
    }

    /// Presses the button.
    pub fn set(&mut self)
        ensures
            final(self).get(),
    {
        self.set_value(true);
    }

    /// Releases the button.
    pub fn clear(&mut self)
        ensures
            !final(self).get(),
    {
        self.set_value(false);
    }

    /// A released button.
    pub fn default() -> (button: Button)
        ensures
            !button.get(),
    {
        Button(false)
    }
}

/// The buttons of the controller.
#[derive(Clone, Copy, Debug, PartialEq, Eq, Structural)]
pub enum ButtonType {
    Start,
    Select,
    Home,
    North,
    East,
    South,
    West,
    L1,
    L2,
    L3,
    R1,
    R2,
    R3,
    Trackpad,
}

/// The position of the D-pad: one of eight compass points, or none.
#[derive(Clone, Copy, Debug, PartialEq, Eq, Structural)]
pub enum Hat {
    Neutral,
    North,
    NorthEast,
    East,
    SouthEast,
    South,
    SouthWest,
    West,
    NorthWest,
}

impl Hat {
    /// A hat at rest.
    pub fn default() -> (hat: Hat)
        ensures
            hat == Hat::Neutral,
    {
        Hat::Neutral
    }
}

/// The hats of the controller.
#[derive(Clone, Copy, Debug, PartialEq, Eq, Structural)]
pub enum HatType {
    DPad,
}

/// A snapshot of the controller's state.
#[derive(Clone, Copy, Debug, PartialEq, Eq, Structural)]
pub struct DeviceInputs {
    pub counter: u8,
    pub axis_left_stick_x: Axis,
    pub axis_left_stick_y: Axis,
    pub axis_right_stick_x: Axis,
    pub axis_right_stick_y: Axis,
    pub axis_left_trigger: Axis,
    pub axis_right_trigger: Axis,
    pub hat_dpad: Hat,
    /// Start/Options
    pub button_start: Button,
    /// Back/Share
    pub button_select: Button,
    /// Xbox/PS
    pub button_home: Button,
    /// Y/triangle
    pub button_north: Button,
    /// B/circle
    pub button_east: Button,
    /// A/cross
    pub button_south: Button,
    /// X/square
    pub button_west: Button,
    pub button_l1: Button,
    pub button_l2: Button,
    pub button_l3: Button,
    pub button_r1: Button,
    pub button_r2: Button,
    pub button_r3: Button,
    pub button_trackpad: Button,
}

/// One direction of a cleaned pair of opposing inputs.
#[derive(Clone, Copy, Debug, PartialEq, Eq, Structural)]
pub enum Direction {
    Neutral,
    Negative,
    Positive,
}

/// What the input lines read: `true` where a line is pulled low, that is
/// where a button is pressed, the stick is pushed, or a mode switch is on.
#[derive(Clone, Copy, Debug, PartialEq, Eq, Structural)]
pub struct InputPins {
    pub stick_down: bool,
    pub stick_up: bool,
    pub stick_left: bool,
    pub stick_right: bool,
    pub button_north: bool,
    pub button_east: bool,
    pub button_south: bool,
    pub button_west: bool,
    pub button_l1: bool,
    pub button_r1: bool,
    pub button_l2: bool,
    pub button_r2: bool,
    pub button_l3: bool,
    pub button_r3: bool,
    pub button_home: bool,
    pub button_start: bool,
    pub button_select: bool,
    pub button_trackpad: bool,
    pub mode_lock: bool,
    pub mode_ls: bool,
    pub mode_rs: bool,
    pub mode_ps3: bool,
}

/// Left and right: pressed together they cancel. Left is negative.
pub open spec fn spec_clean_horizontal(left: bool, right: bool) -> Direction {
    if left == right {
        Direction::Neutral
    } else if left {
        Direction::Negative
    } else {
        Direction::Positive
    }
}

/// Up and down: pressed together, up wins. Up is positive.
pub open spec fn spec_clean_vertical(up: bool, down: bool) -> Direction {
    if up {
        Direction::Positive
    } else if down {
        Direction::Negative
    } else {
        Direction::Neutral
    }
}

/// The hat position for a pair of cleaned directions.
pub open spec fn spec_hat_of(horizontal: Direction, vertical: Direction) -> Hat {
    match (horizontal, vertical) {
        (Direction::Neutral, Direction::Neutral) => Hat::Neutral,
        (Direction::Positive, Direction::Neutral) => Hat::East,
        (Direction::Positive, Direction::Negative) => Hat::SouthEast,
        (Direction::Neutral, Direction::Negative) => Hat::South,
        (Direction::Negative, Direction::Negative) => Hat::SouthWest,
        (Direction::Negative, Direction::Neutral) => Hat::West,
        (Direction::Negative, Direction::Positive) => Hat::NorthWest,
        (Direction::Neutral, Direction::Positive) => Hat::North,
        (Direction::Positive, Direction::Positive) => Hat::NorthEast,
    }
}

/// The position of the horizontal stick axis for a cleaned direction.
pub open spec fn spec_axis_x(horizontal: Direction) -> u8 {
    match horizontal {
        Direction::Positive => 255,
        Direction::Neutral => 127,
        Direction::Negative => 0,
    }
}

/// The position of the vertical stick axis for a cleaned direction; the
/// axis grows downwards.
pub open spec fn spec_axis_y(vertical: Direction) -> u8 {
    match vertical {
        Direction::Positive => 0,
        Direction::Neutral => 127,
        Direction::Negative => 255,
    }
}

/// The position of a trigger axis: fully pulled or fully released.
pub open spec fn spec_trigger(pressed: bool) -> u8 {
    if pressed {
        255
    } else {
        0
    }
}

/// Cleans left against right.
#[verifier::when_used_as_spec(spec_clean_horizontal)]
pub fn clean_horizontal(left: bool, right: bool) -> (r: Direction)
    ensures
        r == spec_clean_horizontal(left, right),
{
    match (left, right) {
        (true, true) => Direction::Neutral,
        (true, false) => Direction::Negative,
        (false, true) => Direction::Positive,
        (false, false) => Direction::Neutral,
    }
}

/// Cleans up against down.
#[verifier::when_used_as_spec(spec_clean_vertical)]
pub fn clean_vertical(up: bool, down: bool) -> (r: Direction)
    ensures
        r == spec_clean_vertical(up, down),
{
    match (up, down) {
        (true, true) => Direction::Positive,
        (true, false) => Direction::Positive,
        (false, true) => Direction::Negative,
        (false, false) => Direction::Neutral,
    }
}

/// The hat position for a pair of cleaned directions.
#[verifier::when_used_as_spec(spec_hat_of)]
pub fn hat_of(horizontal: Direction, vertical: Direction) -> (r: Hat)
    ensures
        r == spec_hat_of(horizontal, vertical),
{
    match (horizontal, vertical) {
        (Direction::Neutral, Direction::Neutral) => Hat::Neutral,
        (Direction::Positive, Direction::Neutral) => Hat::East,
        (Direction::Positive, Direction::Negative) => Hat::SouthEast,
        (Direction::Neutral, Direction::Negative) => Hat::South,
        (Direction::Negative, Direction::Negative) => Hat::SouthWest,
        (Direction::Negative, Direction::Neutral) => Hat::West,
        (Direction::Negative, Direction::Positive) => Hat::NorthWest,
        (Direction::Neutral, Direction::Positive) => Hat::North,
        (Direction::Positive, Direction::Positive) => Hat::NorthEast,
    }
}

impl DeviceInputs {
    /// The snapshot after the input lines were read.
    ///
    /// Every button follows its line, except that home, start and select
    /// keep their value while the lock switch is on. The triggers follow L2
    /// and R2. In left-stick mode the cleaned directions move the left stick
    /// and the hat rests; otherwise they set the hat and the left stick
    /// rests. Counter and right stick are not touched.
    pub open spec fn polled(self, pins: InputPins) -> DeviceInputs {
        let horizontal = spec_clean_horizontal(pins.stick_left, pins.stick_right);
        let vertical = spec_clean_vertical(pins.stick_up, pins.stick_down);
        DeviceInputs {
            counter: self.counter,
            axis_left_stick_x: Axis(
                if pins.mode_ls {
                    spec_axis_x(horizontal)
                } else {
                    127
                },
            ),
            axis_left_stick_y: Axis(
                if pins.mode_ls {
                    spec_axis_y(vertical)
                } else {
                    127
                },
            ),
            axis_right_stick_x: self.axis_right_stick_x,
            axis_right_stick_y: self.axis_right_stick_y,
            axis_left_trigger: Axis(spec_trigger(pins.button_l2)),
            axis_right_trigger: Axis(spec_trigger(pins.button_r2)),
            hat_dpad: if pins.mode_ls {
                Hat::Neutral
            } else {
                spec_hat_of(horizontal, vertical)
            },
            button_start: if pins.mode_lock {
                self.button_start
            } else {
                Button(pins.button_start)
            },
            button_select: if pins.mode_lock {
                self.button_select
            } else {
                Button(pins.button_select)
            },
            button_home: if pins.mode_lock {
                self.button_home
            } else {
                Button(pins.button_home)
            },
            button_north: Button(pins.button_north),
            button_east: Button(pins.button_east),
            button_south: Button(pins.button_south),
            button_west: Button(pins.button_west),
            button_l1: Button(pins.button_l1),
            button_l2: Button(pins.button_l2),
            button_l3: Button(pins.button_l3),
            button_r1: Button(pins.button_r1),
            button_r2: Button(pins.button_r2),
            button_r3: Button(pins.button_r3),
            button_trackpad: Button(pins.button_trackpad),
        }
    }

    /// The snapshot of an untouched controller: every axis at 128, the hat at
    /// rest, no button pressed, the counter at zero.
    pub fn default() -> (inputs: DeviceInputs)
        ensures
            inputs.counter == 0,
            inputs.axis_left_stick_x.get() == 128,
            inputs.axis_left_stick_y.get() == 128,
            inputs.axis_right_stick_x.get() == 128,
            inputs.axis_right_stick_y.get() == 128,
            inputs.axis_left_trigger.get() == 128,
            inputs.axis_right_trigger.get() == 128,
            inputs.hat_dpad == Hat::Neutral,
            !inputs.button_start.get(),
            !inputs.button_select.get(),
            !inputs.button_home.get(),
            !inputs.button_north.get(),
            !inputs.button_east.get(),
            !inputs.button_south.get(),
            !inputs.button_west.get(),
            !inputs.button_l1.get(),
            !inputs.button_l2.get(),
            !inputs.button_l3.get(),
            !inputs.button_r1.get(),
            !inputs.button_r2.get(),
            !inputs.button_r3.get(),
            !inputs.button_trackpad.get(),
    {
        DeviceInputs {
            counter: 0,
            axis_left_stick_x: Axis(128),
            axis_left_stick_y: Axis(128),
            axis_right_stick_x: Axis(128),
            axis_right_stick_y: Axis(128),
            axis_left_trigger: Axis(128),
            axis_right_trigger: Axis(128),
            hat_dpad: Hat::default(),
            button_start: Button::default(),
            button_select: Button::default(),
            button_home: Button::default(),
            button_north: Button::default(),
            button_east: Button::default(),
            button_south: Button::default(),
            button_west: Button::default(),
            button_l1: Button::default(),
            button_l2: Button::default(),
            button_l3: Button::default(),
            button_r1: Button::default(),
            button_r2: Button::default(),
            button_r3: Button::default(),
            button_trackpad: Button::default(),
        }
    }

    /// Takes over what the input lines read.
    pub fn poll(&mut self, pins: &InputPins)
        ensures
            *final(self) == old(self).polled(*pins),
    {
        let l2 = pins.button_l2;
        let r2 = pins.button_r2;
        let horizontal = clean_horizontal(pins.stick_left, pins.stick_right);
        let vertical = clean_vertical(pins.stick_up, pins.stick_down);
        let locked = pins.mode_lock;
        let left_stick = pins.mode_ls;
        let stick_x: u8 = match horizontal {
            Direction::Positive => 255,
            Direction::Neutral => 127,
            Direction::Negative => 0,
        };
        let stick_y: u8 = match vertical {
            Direction::Positive => 0,
            Direction::Neutral => 127,
            Direction::Negative => 255,
        };
        *self = DeviceInputs {
            counter: self.counter,
            axis_left_stick_x: Axis(if left_stick { stick_x } else { 127 }),
            axis_left_stick_y: Axis(if left_stick { stick_y } else { 127 }),
            axis_right_stick_x: self.axis_right_stick_x,
            axis_right_stick_y: self.axis_right_stick_y,
            axis_left_trigger: Axis(if l2 { 255 } else { 0 }),
            axis_right_trigger: Axis(if r2 { 255 } else { 0 }),
            hat_dpad: if left_stick { Hat::Neutral } else { hat_of(horizontal, vertical) },
            button_start: if locked { self.button_start } else { Button(pins.button_start) },
            button_select: if locked { self.button_select } else { Button(pins.button_select) },
            button_home: if locked { self.button_home } else { Button(pins.button_home) },
            button_north: Button(pins.button_north),
            button_east: Button(pins.button_east),
            button_south: Button(pins.button_south),
            button_west: Button(pins.button_west),
            button_l1: Button(pins.button_l1),
            button_l2: Button(l2),
            button_l3: Button(pins.button_l3),
            button_r1: Button(pins.button_r1),
            button_r2: Button(r2),
            button_r3: Button(pins.button_r3),
            button_trackpad: Button(pins.button_trackpad),
        };
    }
}

/// With left and right pressed together the horizontal direction is
/// neutral, whatever else is pressed: outside left-stick mode the left stick
/// rests at 127 and the hat points straight up, straight down or nowhere.
pub proof fn lemma_opposing_horizontal_cancels(inputs: DeviceInputs, pins: InputPins)
    requires
        pins.stick_left,
        pins.stick_right,
    ensures
        inputs.polled(pins).axis_left_stick_x.get() == 127,
        inputs.polled(pins).hat_dpad == Hat::North || inputs.polled(pins).hat_dpad == Hat::South
            || inputs.polled(pins).hat_dpad == Hat::Neutral,
{
}

/// With up and down pressed together up wins: the hat never points south,
/// and in left-stick mode the vertical axis is at its upper end.
pub proof fn lemma_opposing_vertical_goes_up(inputs: DeviceInputs, pins: InputPins)
    requires
        pins.stick_up,
        pins.stick_down,
    ensures
        !pins.mode_ls ==> inputs.polled(pins).hat_dpad == Hat::North || inputs.polled(
            pins,
        ).hat_dpad == Hat::NorthEast || inputs.polled(pins).hat_dpad == Hat::NorthWest,
        pins.mode_ls ==> inputs.polled(pins).axis_left_stick_y.get() == 0,
{
}

} // verus!
