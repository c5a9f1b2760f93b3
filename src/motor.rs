use vstd::prelude::*;
use vstd::wrapping::i32_specs;
use crate::trig::tdiv;
use crate::time::Duration;

verus! {

/// The four motor outputs.
#[derive(Clone, Copy, PartialEq, Eq, Structural, Debug)]
pub enum MotorPort {
    A,
    B,
    C,
    D,
}

/// What is plugged into a motor output.
#[derive(Clone, Copy, PartialEq, Eq, Structural, Debug)]
pub enum MotorType {
    NONE,
    MEDIUM,
    LARGE,
    UNREGULATED,
}

/// The motor types that count their rotation.
pub open spec fn has_encoder(t: MotorType) -> bool {
    t == MotorType::MEDIUM || t == MotorType::LARGE
}

/// `v` limited to `-limit..=limit`.
pub open spec fn clamp(v: int, limit: int) -> int {
    if v > limit {
        limit
    } else if v < -limit {
        -limit
    } else {
        v
    }
}

/// Power for a position error `diff` of the zoned controller: full power
/// outside 12 degrees, double the error between 8 and 12, the error within 8.
pub open spec fn fixed_zone_power(diff: int) -> int {
    if diff > 12 {
        60
    } else if diff > 8 {
        diff * 2
    } else if diff < -12 {
        -60
    } else if diff < -8 {
        -diff * 2
    } else {
        diff
    }
}

/// Proportional power of the integrating controller for a clamped error:
/// gain 2 within 10 degrees, gain 4 beyond, continuous at the boundary.
pub open spec fn proportional_power(diff: int) -> int {
    if diff >= 10 {
        20 + (diff - 10) * 4
    } else if diff <= -10 {
        -20 + (diff + 10) * 4
    } else {
        diff * 2
    }
}

/// Largest error the integrating controller acts on.
pub const DIFF_MAX: i32 = 80;

/// Bound of the accumulated error.
pub const POS_I_MAX: i32 = 400000;

/// Actions that follow a configuration attempt.
#[derive(Clone, Copy, PartialEq, Eq, Structural, Debug)]
pub struct MotorFollowUp {
    /// Stop the motor, without braking.
    pub stop: bool,
    /// Zero the motor's rotation counter.
    pub reset_counts: bool,
}

/// A motor output: its configuration, the power to apply and the position
/// controller's state.
pub struct MotorData {
    pub port_idx: MotorPort,
    pub cfg: MotorType,
    pub cfg_applied: bool,
    pub pwr: i8,
    pub pos: i32,
    pub pos_target: i32,
    pub pos_i: i32,
}

impl MotorData {
    pub open spec fn wf(self) -> bool {
        -100 <= self.pwr <= 100 && -POS_I_MAX <= self.pos_i <= POS_I_MAX
    }

    fn clear_data(&mut self)
        ensures
            final(self).pwr == 0,
            final(self).pos == 0,
            final(self).port_idx == old(self).port_idx,
            final(self).cfg == old(self).cfg,
            final(self).cfg_applied == old(self).cfg_applied,
            final(self).pos_target == old(self).pos_target,
            final(self).pos_i == old(self).pos_i,
    {
        self.pwr = 0;
        self.pos = 0;
    }

    /// An unconfigured output.
    pub fn new(port: MotorPort) -> (r: MotorData)
        ensures
            r.wf(),
            r.port_idx == port,
            r.cfg == MotorType::NONE,
            !r.cfg_applied,
            r.pwr == 0 && r.pos == 0 && r.pos_target == 0 && r.pos_i == 0,
    {
        MotorData {
            port_idx: port,
            cfg: MotorType::NONE,
            cfg_applied: false,
            pwr: 0,
            pos: 0,
            pos_target: 0,
            pos_i: 0,
        }
    }

    pub fn port(&self) -> (r: MotorPort)
        ensures
            r == self.port_idx,
    {
        self.port_idx
    }

    /// The power to apply, in percent.
    pub fn power(&self) -> (r: i32)
        ensures
            r == self.pwr,
    {
        self.pwr as i32
    }

    /// Sets the power, limited to `-100..=100`.
    pub fn set_power(&mut self, power: i32)
        ensures
            final(self).pwr == clamp(power as int, 100),
            *final(self) == (MotorData { pwr: final(self).pwr, ..*old(self) }),
    {
        self.pwr = if power > 100 {
            100
        } else if power < -100 {
            -100
        } else {
            power as i8
        };
    }

    /// Sets the power that drives the motor toward `target` degrees with
    /// the zoned controller.
    pub fn set_power_to_position_fixed(&mut self, target: i32)
        ensures
            final(self).pwr == fixed_zone_power(
                i32_specs::wrapping_sub(target, old(self).pos) as int,
            ),
            *final(self) == (MotorData { pwr: final(self).pwr, ..*old(self) }),
    {
        let diff = target.wrapping_sub(self.pos);
        let pwr = if diff > 12 {
            60
        } else if diff > 8 {
            diff * 2
        } else if diff < -12 {
            -60
        } else if diff < -8 {
            -diff * 2
        } else {
            diff
        };
        self.pwr = pwr as i8;
    }

    /// Sets the power that drives the motor toward `target` degrees with the
    /// integrating controller, `dt` after its last step. A new target
    /// restarts the accumulated error.
    pub fn set_power_to_position(&mut self, target: i32, dt: Duration)
        ensures
            ({
                let diff = clamp(i32_specs::wrapping_sub(target, old(self).pos) as int, 80);
                let acc = if old(self).pos_target != target {
                    0i32
                } else {
                    old(self).pos_i
                };
                let pos_i = clamp(
                    i32_specs::wrapping_add(acc, i32_specs::wrapping_mul(diff as i32, dt.ticks))
                        as int,
                    POS_I_MAX as int,
                );
                &&& final(self).pos_i == pos_i
                &&& final(self).pwr == clamp(
                    proportional_power(diff) + tdiv(pos_i, 40000),
                    100,
                )
            }),
            final(self).pos_target == target,
            final(self).port_idx == old(self).port_idx,
            final(self).cfg == old(self).cfg,
            final(self).cfg_applied == old(self).cfg_applied,
            final(self).pos == old(self).pos,
    {
        let dt = dt.usec();
        if self.pos_target != target {
            self.pos_target = target;
            self.pos_i = 0;
        }
        let diff = target.wrapping_sub(self.pos);
        let diff = if diff > DIFF_MAX {
            DIFF_MAX
        } else if diff < -DIFF_MAX {
            -DIFF_MAX
        } else {
            diff
        };
        let pwr = if diff >= 10 {
            20 + ((diff - 10) * 4)
        } else if diff <= -10 {
            -20 + ((diff + 10) * 4)
        } else {
            diff * 2
        };
        self.pos_i = self.pos_i.wrapping_add(diff.wrapping_mul(dt));
        if self.pos_i > POS_I_MAX {
            self.pos_i = POS_I_MAX;
        } else if self.pos_i < -POS_I_MAX {
            self.pos_i = -POS_I_MAX;
        }
        let integral = if self.pos_i >= 0 {
            self.pos_i / 40000
        } else {
            -((-self.pos_i) / 40000)
        };
        self.set_power(pwr + integral);
    }

    /// The last rotation count read, in degrees.
    pub fn position(&self) -> (r: i32)
        ensures
            r == self.pos,
    {
        self.pos
    }

    pub fn configuration_applied(&self) -> (r: bool)
        ensures
            r == self.cfg_applied,
    {
        self.cfg_applied
    }

    /// Asks for motor type `cfg`; it is applied by the next attempt.
    pub fn configure(&mut self, cfg: MotorType)
        ensures
            final(self).cfg == cfg,
            !final(self).cfg_applied,
            final(self).pwr == 0 && final(self).pos == 0,
            final(self).port_idx == old(self).port_idx,
            final(self).pos_target == old(self).pos_target,
            final(self).pos_i == old(self).pos_i,
    {
        self.cfg = cfg;
        self.cfg_applied = false;
        self.clear_data();
    }

    /// Records the outcome of configuring the output as `cfg`, `config_ok`
    /// when the hardware accepted it, and says what must follow.
    pub fn attempt_cfg_apply(&mut self, config_ok: bool) -> (r: MotorFollowUp)
        ensures
            final(self).cfg_applied == (config_ok || old(self).cfg_applied),
            final(self).pwr == 0 && final(self).pos == 0,
            final(self).cfg == old(self).cfg,
            final(self).port_idx == old(self).port_idx,
            r.stop == config_ok,
            r.reset_counts == (config_ok && has_encoder(old(self).cfg)),
    {
        self.clear_data();
        if config_ok {
            self.cfg_applied = true;
            let reset_counts = match self.cfg {
                MotorType::LARGE | MotorType::MEDIUM => true,
                _ => false,
            };
            MotorFollowUp { stop: true, reset_counts }
        } else {
            MotorFollowUp { stop: false, reset_counts: false }
        }
    }

    /// Stops driving the motor.
    pub fn stop(&mut self)
        ensures
            *final(self) == (MotorData { pwr: 0, ..*old(self) }),
    {
        self.pwr = 0;
    }

    /// Takes a reading of the rotation counter; only motors with an encoder
    /// keep it.
    pub fn read(&mut self, counts: i32)
        ensures
            final(self).pos == if has_encoder(old(self).cfg) {
                counts
            } else {
                old(self).pos
            },
            *final(self) == (MotorData { pos: final(self).pos, ..*old(self) }),
    {
        match self.cfg {
            MotorType::LARGE | MotorType::MEDIUM => self.pos = counts,
            _ => {},
        }
    }

    /// The rotation counter was zeroed.
    pub fn reset_position(&mut self)
        ensures
            *final(self) == (MotorData { pos: 0, ..*old(self) }),
    {
        self.pos = 0;
    }
}

/// The power of the start-up motor check `elapsed_millis` into a motor's
/// second: four back-and-forth swings at 30% over the first 800 ms, then
/// rest.
pub open spec fn test_power_spec(elapsed_millis: int) -> int {
    if elapsed_millis < 800 {
        let phase = tdiv(elapsed_millis, 25) % 4;
        if phase == 0 || phase == 3 {
            30
        } else {
            -30
        }
    } else {
        0
    }
}

pub fn motor_test_power(elapsed_millis: i32) -> (r: i32)
    requires
        elapsed_millis >= 0,
    ensures
        r == test_power_spec(elapsed_millis as int),
{
    if elapsed_millis < 800 {
        let phase = (elapsed_millis / 25) % 4;
        match phase {
            0 | 3 => 30,
            _ => -30,
        }
    } else {
        0
    }
}

} // verus!
