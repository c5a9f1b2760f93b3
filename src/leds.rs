use vstd::prelude::*;

verus! {

/// The colours of the two-colour status light.
#[derive(Clone, Copy, PartialEq, Eq, Structural, Debug)]
pub enum LedColor {
    Off,
    Red,
    Green,
    Orange,
}

/// The colour that lights exactly the red and green elements asked for.
pub open spec fn led_color(red: bool, green: bool) -> LedColor {
    if red && green {
        LedColor::Orange
    } else if red {
        LedColor::Red
    } else if green {
        LedColor::Green
    } else {
        LedColor::Off
    }
}

/// The status light: the red and green elements wanted, and those last
/// sent to the hardware.
#[derive(Clone, Copy, PartialEq, Eq, Structural, Debug)]
pub struct Leds {
    pub todo_red: bool,
    pub todo_green: bool,
    pub done_red: bool,
    pub done_green: bool,
}

impl Leds {
    pub open spec fn is_cleared(self) -> bool {
        !self.todo_red && !self.todo_green && !self.done_red && !self.done_green
    }

    /// Everything off, and recorded as off.
    pub fn new() -> (r: Self)
        ensures
            r.is_cleared(),
    {
        Leds { todo_red: false, todo_green: false, done_red: false, done_green: false }
    }

    pub fn red(&self) -> (r: bool)
        ensures
            r == self.todo_red,
    {
        self.todo_red
    }

    pub fn green(&self) -> (r: bool)
        ensures
            r == self.todo_green,
    {
        self.todo_green
    }

    pub fn set_red(&mut self, v: bool)
        ensures
            *final(self) == (Leds { todo_red: v, ..*old(self) }),
    {
        self.todo_red = v;
    }

    pub fn set_green(&mut self, v: bool)
        ensures
            *final(self) == (Leds { todo_green: v, ..*old(self) }),
    {
        self.todo_green = v;
    }

    /// Asks for colour `c`.
    pub fn set_color(&mut self, c: LedColor)
        ensures
            led_color(final(self).todo_red, final(self).todo_green) == c,
            final(self).done_red == old(self).done_red,
            final(self).done_green == old(self).done_green,
    {
        let (r, g) = match c {
            LedColor::Off => (false, false),
            LedColor::Red => (true, false),
            LedColor::Green => (false, true),
            LedColor::Orange => (true, true),
        };
        self.todo_red = r;
        self.todo_green = g;
    }

    /// Clears both what is wanted and what is recorded as sent.
    pub fn reset(&mut self)
        ensures
            final(self).is_cleared(),
    {
        *self = Self::new();
    }

    /// The colour to send, if what is wanted differs from what was last
    /// sent; it is then recorded as sent.
    pub fn apply(&mut self) -> (r: Option<LedColor>)
        ensures
            final(self).todo_red == old(self).todo_red,
            final(self).todo_green == old(self).todo_green,
            final(self).done_red == old(self).todo_red,
            final(self).done_green == old(self).todo_green,
            r == if old(self).todo_red != old(self).done_red || old(self).todo_green
                != old(self).done_green {
                Some(led_color(old(self).todo_red, old(self).todo_green))
            } else {
                None
            },
    {
        if self.todo_red != self.done_red || self.todo_green != self.done_green {
            let c = match (self.todo_red, self.todo_green) {
                (false, false) => LedColor::Off,
                (false, true) => LedColor::Green,
                (true, false) => LedColor::Red,
                (true, true) => LedColor::Orange,
            };
            self.done_red = self.todo_red;
            self.done_green = self.todo_green;
            Some(c)
        } else {
            None
        }
    }
}

} // verus!
