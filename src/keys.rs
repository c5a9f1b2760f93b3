use vstd::prelude::*;
use vstd::wrapping::i32_specs;
use crate::canvas::ScreenOrientation;
use crate::time::Duration;

verus! {

/// The state of one button: whether it is down, how long since it last
/// changed, and how long the state before lasted.
#[derive(Clone, Copy, PartialEq, Eq, Structural, Debug)]
pub struct KeyStatus {
    pub from_last_event: Duration,
    pub last_state_duration: Duration,
    pub pressed: bool,
}

impl KeyStatus {
    pub fn new() -> (r: Self)
        ensures
            r.from_last_event.ticks == 0,
            r.last_state_duration.ticks == 0,
            !r.pressed,
    {
        Self { from_last_event: Duration::zero(), last_state_duration: Duration::zero(), pressed: false }
    }

    /// Records a sample of the button taken `delta` after the last one.
    pub fn update(&mut self, pressed: bool, delta: Duration)
        ensures
            *final(self) == old(self).updated(pressed, delta),
    {
        if self.pressed == pressed {
            self.from_last_event = self.from_last_event + delta;
        } else {
            self.pressed = pressed;
            self.last_state_duration = self.from_last_event;
            self.from_last_event = Duration::zero();
        }
    }

    pub fn is_pressed(&self) -> (r: bool)
        ensures
            r == self.pressed,
    {
        self.pressed
    }

    pub fn is_released(&self) -> (r: bool)
        ensures
            r == !self.pressed,
    {
        !self.pressed
    }

    /// How long the button has been down; zero while it is up.
    pub fn since_pressed(&self) -> (r: Duration)
        ensures
            r.ticks == if self.pressed {
                self.from_last_event.ticks
            } else {
                0
            },
    {
        if self.pressed {
            self.from_last_event
        } else {
            Duration::zero()
        }
    }

    /// How long the button has been up; zero while it is down.
    pub fn since_released(&self) -> (r: Duration)
        ensures
            r.ticks == if !self.pressed {
                self.from_last_event.ticks
            } else {
                0
            },
    {
        if !self.pressed {
            self.from_last_event
        } else {
            Duration::zero()
        }
    }

    pub fn last_state_duration(&self) -> (r: Duration)
        ensures
            r == self.last_state_duration,
    {
        self.last_state_duration
    }

    /// The button went down at the last sample.
    pub fn press_event(&self) -> (r: bool)
        ensures
            r == (self.pressed && self.from_last_event.ticks == 0),
    {
        self.is_pressed() && self.from_last_event.ticks == 0
    }

    /// The button went up at the last sample.
    pub fn release_event(&self) -> (r: bool)
        ensures
            r == (!self.pressed && self.from_last_event.ticks == 0),
    {
        self.is_released() && self.from_last_event.ticks == 0
    }
}

/// The six buttons, the four arrows named as the screen shows them.
pub struct Keys {
    pub up: KeyStatus,
    pub down: KeyStatus,
    pub left: KeyStatus,
    pub right: KeyStatus,
    pub enter: KeyStatus,
    pub back: KeyStatus,
}

/// The physical arrow buttons `(up, right, down, left)` renamed for a
/// screen mounted in orientation `or`.
pub open spec fn oriented_arrows(or: ScreenOrientation, up: bool, right: bool, down: bool, left: bool) -> (
    bool,
    bool,
    bool,
    bool,
) {
    match or {
        ScreenOrientation::Up => (up, right, down, left),
        ScreenOrientation::Right => (right, down, left, up),
        ScreenOrientation::Down => (down, left, up, right),
        ScreenOrientation::Left => (left, up, right, down),
    }
}

impl Keys {
    pub fn new() -> (r: Self)
        ensures
            r.up == KeyStatus::new_spec() && r.down == KeyStatus::new_spec() && r.left
                == KeyStatus::new_spec() && r.right == KeyStatus::new_spec() && r.enter
                == KeyStatus::new_spec() && r.back == KeyStatus::new_spec(),
    {
        Self {
            up: KeyStatus::new(),
            down: KeyStatus::new(),
            left: KeyStatus::new(),
            right: KeyStatus::new(),
            enter: KeyStatus::new(),
            back: KeyStatus::new(),
        }
    }

    /// Records one sample of the six physical buttons, taken `delta` after
    /// the last, with the arrows renamed for orientation `or`.
    pub fn read(
        &mut self,
        up: bool,
        down: bool,
        left: bool,
        right: bool,
        enter: bool,
        back: bool,
        delta: Duration,
        or: ScreenOrientation,
    )
        ensures
            ({
                let (u, r, d, l) = oriented_arrows(or, up, right, down, left);
                &&& final(self).up == old(self).up.updated(u, delta)
                &&& final(self).right == old(self).right.updated(r, delta)
                &&& final(self).down == old(self).down.updated(d, delta)
                &&& final(self).left == old(self).left.updated(l, delta)
                &&& final(self).enter == old(self).enter.updated(enter, delta)
                &&& final(self).back == old(self).back.updated(back, delta)
            }),
    {
        let (up, right, down, left) = match or {
            ScreenOrientation::Up => (up, right, down, left),
            ScreenOrientation::Right => (right, down, left, up),
            ScreenOrientation::Down => (down, left, up, right),
            ScreenOrientation::Left => (left, up, right, down),
        };
        self.up.update(up, delta);
        self.down.update(down, delta);
        self.left.update(left, delta);
        self.right.update(right, delta);
        self.enter.update(enter, delta);
        self.back.update(back, delta);
    }
}

impl KeyStatus {
    pub open spec fn new_spec() -> KeyStatus {
        KeyStatus {
            from_last_event: Duration { ticks: 0 },
            last_state_duration: Duration { ticks: 0 },
            pressed: false,
        }
    }

    /// The status after a sample `pressed` taken `delta` after the last.
    pub open spec fn updated(self, pressed: bool, delta: Duration) -> KeyStatus {
        if self.pressed == pressed {
            KeyStatus {
                from_last_event: Duration {
                    ticks: i32_specs::wrapping_add(self.from_last_event.ticks, delta.ticks),
                },
                ..self
            }
        } else {
            KeyStatus {
                pressed,
                last_state_duration: self.from_last_event,
                from_last_event: Duration { ticks: 0 },
            }
        }
    }
}

} // verus!
