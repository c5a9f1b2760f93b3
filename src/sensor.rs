use vstd::prelude::*;

verus! {

/// The four sensor inputs.
#[derive(Clone, Copy, PartialEq, Eq, Structural, Debug)]
pub enum SensorPort {
    S1,
    S2,
    S3,
    S4,
}

#[derive(Clone, Copy, PartialEq, Eq, Structural, Debug)]
pub enum ColorSensorMode {
    NONE,
    COLOR,
    REFLECT,
    AMBIENT,
    RGB,
}

#[derive(Clone, Copy, PartialEq, Eq, Structural, Debug)]
pub enum IrSensorMode {
    NONE,
    DISTANCE,
    SEEK,
    REMOTE,
}

#[derive(Clone, Copy, PartialEq, Eq, Structural, Debug)]
pub enum UsSensorMode {
    NONE,
    DISTANCE,
}

#[derive(Clone, Copy, PartialEq, Eq, Structural, Debug)]
pub enum GyroSensorMode {
    NONE,
    ANGLE,
    RATE,
}

/// What a sensor input is configured as, with its mode.
#[derive(Clone, Copy, PartialEq, Eq, Structural, Debug)]
pub enum SensorConfiguration {
    NoSensor,
    Ultrasonic(UsSensorMode),
    Gyro(GyroSensorMode),
    Touch,
    Color(ColorSensorMode),
    Ir(IrSensorMode),
    NxtAccel,
    NxtColor,
    NxtTemp,
    NxtUltrasonic(UsSensorMode),
}

/// The sensor type an input is set up as in the hardware.
#[derive(Clone, Copy, PartialEq, Eq, Structural, Debug)]
pub enum SensorKind {
    NONE,
    ULTRASONIC,
    GYRO,
    TOUCH,
    COLOR,
    INFRARED,
    NXT_ULTRASONIC,
}

/// A reading to take from a sensor.
#[derive(Clone, Copy, PartialEq, Eq, Structural, Debug)]
pub enum SensorProbe {
    NoProbe,
    UltrasonicDistance,
    NxtUltrasonicDistance,
    ColorAmbient,
    ColorCode,
    ColorReflect,
    ColorRgb,
    IrDistance,
    GyroAngle,
    GyroRate,
}

/// A value read from a sensor.
#[derive(Clone, Copy, PartialEq, Eq, Structural, Debug)]
pub enum SensorReading {
    Nothing,
    /// An 8-bit reading; 0xff means no reading.
    Byte(u8),
    /// A 16-bit signed reading; -1 means no reading for distances.
    Signed(i16),
    /// A colour code; 0 means no colour.
    Code(u8),
    Rgb(u16, u16, u16),
}

/// The marker of a data slot that holds no reading.
pub const NO_DATA: u16 = 0xffff;

/// A data slot read as a signed 16-bit value.
pub open spec fn as_signed(v: u16) -> int {
    if v < 0x8000 {
        v as int
    } else {
        v - 0x10000
    }
}

/// A signed 16-bit reading stored in a data slot, two's complement.
pub open spec fn as_slot(v: i16) -> u16 {
    if v < 0 {
        (v + 0x10000) as u16
    } else {
        v as u16
    }
}

fn slot_of(v: i16) -> (r: u16)
    ensures
        r == as_slot(v),
{
    if v < 0 {
        (v as i32 + 0x10000) as u16
    } else {
        v as u16
    }
}

/// A distance reading that shows the sensor works: present and not zero.
pub open spec fn distance_ok(r: SensorReading) -> bool {
    match r {
        SensorReading::Signed(v) => v != -1 && v != 0,
        _ => false,
    }
}

/// An 8-bit reading that shows the sensor works: present and not zero.
pub open spec fn byte_ok(r: SensorReading) -> bool {
    match r {
        SensorReading::Byte(v) => v != 0xff && v != 0,
        _ => false,
    }
}

/// Whether a configuration counts as applied, once the hardware accepted it
/// (`config_ok`) and the confirming reading was taken.
pub open spec fn cfg_accepted(cfg: SensorConfiguration, config_ok: bool, r: SensorReading) -> bool {
    match cfg {
        SensorConfiguration::NoSensor => true,
        SensorConfiguration::Ultrasonic(m) | SensorConfiguration::NxtUltrasonic(m) => config_ok
            && m == UsSensorMode::DISTANCE && distance_ok(r),
        SensorConfiguration::Gyro(_) => config_ok,
        SensorConfiguration::Touch => false,
        SensorConfiguration::Color(m) => config_ok && match m {
            ColorSensorMode::AMBIENT | ColorSensorMode::REFLECT => byte_ok(r),
            ColorSensorMode::COLOR => match r {
                SensorReading::Code(c) => c != 0,
                _ => false,
            },
            ColorSensorMode::RGB => match r {
                SensorReading::Rgb(red, green, blue) => red != 0xffff && green != 0xffff && blue
                    != 0xffff && !(red == 0 && green == 0 && blue == 0),
                _ => false,
            },
            ColorSensorMode::NONE => true,
        },
        SensorConfiguration::Ir(m) => config_ok && match m {
            IrSensorMode::DISTANCE => byte_ok(r),
            IrSensorMode::NONE => true,
            _ => false,
        },
        _ => false,
    }
}

/// An 8-bit reading stored in a data slot.
pub open spec fn byte_slot(r: SensorReading) -> u16 {
    match r {
        SensorReading::Byte(v) => if v == 0xff {
            NO_DATA
        } else {
            v as u16
        },
        _ => NO_DATA,
    }
}

/// The data slots after a reading `r` of a sensor configured as `cfg`.
pub open spec fn read_data(cfg: SensorConfiguration, r: SensorReading) -> Seq<u16> {
    let empty = seq![NO_DATA, NO_DATA, NO_DATA, NO_DATA];
    match cfg {
        SensorConfiguration::Color(ColorSensorMode::AMBIENT)
        | SensorConfiguration::Color(ColorSensorMode::REFLECT)
        | SensorConfiguration::Ir(IrSensorMode::DISTANCE) => empty.update(0, byte_slot(r)),
        SensorConfiguration::Color(ColorSensorMode::RGB) => match r {
            SensorReading::Rgb(red, green, blue) => seq![red, green, blue, NO_DATA],
            _ => empty,
        },
        SensorConfiguration::Ultrasonic(UsSensorMode::DISTANCE) => match r {
            SensorReading::Signed(v) => empty.update(
                0,
                if v == -1 {
                    NO_DATA
                } else {
                    as_slot(v)
                },
            ),
            _ => empty,
        },
        SensorConfiguration::Gyro(GyroSensorMode::ANGLE)
        | SensorConfiguration::Gyro(GyroSensorMode::RATE) => match r {
            SensorReading::Signed(v) => empty.update(0, as_slot(v)),
            _ => empty,
        },
        _ => empty,
    }
}

/// A sensor input: its configuration and its last reading, in four 16-bit
/// slots.
pub struct SensorData {
    pub port_idx: SensorPort,
    pub cfg: SensorConfiguration,
    pub cfg_applied: bool,
    pub data: [u16; 4],
}

impl SensorData {
    fn clear_data(&mut self)
        ensures
            final(self).data@ == seq![NO_DATA, NO_DATA, NO_DATA, NO_DATA],
            final(self).port_idx == old(self).port_idx,
            final(self).cfg == old(self).cfg,
            final(self).cfg_applied == old(self).cfg_applied,
    {
        self.data = [NO_DATA; 4];
        assert(self.data@ =~= seq![NO_DATA, NO_DATA, NO_DATA, NO_DATA]);
    }

    /// An input with no sensor configured.
    pub fn new(port: SensorPort) -> (r: Self)
        ensures
            r.port_idx == port,
            r.cfg == SensorConfiguration::NoSensor,
            !r.cfg_applied,
            r.data@ == seq![NO_DATA, NO_DATA, NO_DATA, NO_DATA],
    {
        let r = Self {
            port_idx: port,
            cfg: SensorConfiguration::NoSensor,
            cfg_applied: false,
            data: [NO_DATA; 4],
        };
        assert(r.data@ =~= seq![NO_DATA, NO_DATA, NO_DATA, NO_DATA]);
        r
    }

    pub fn port(&self) -> (r: SensorPort)
        ensures
            r == self.port_idx,
    {
        self.port_idx
    }

    fn val_conversion(v: u16) -> (r: i32)
        ensures
            r == as_signed(v),
    {
        if v < 0x8000 {
            v as i32
        } else {
            v as i32 - 0x10000
        }
    }

    /// The first slot, signed.
    pub fn val(&self) -> (r: i32)
        ensures
            r == as_signed(self.data@[0]),
    {
        Self::val_conversion(self.data[0])
    }

    pub fn v1(&self) -> (r: i32)
        ensures
            r == as_signed(self.data@[0]),
    {
        Self::val_conversion(self.data[0])
    }

    pub fn v2(&self) -> (r: i32)
        ensures
            r == as_signed(self.data@[1]),
    {
        Self::val_conversion(self.data[1])
    }

    pub fn v3(&self) -> (r: i32)
        ensures
            r == as_signed(self.data@[2]),
    {
        Self::val_conversion(self.data[2])
    }

    pub fn v4(&self) -> (r: i32)
        ensures
            r == as_signed(self.data@[3]),
    {
        Self::val_conversion(self.data[3])
    }

    pub fn configuration_applied(&self) -> (r: bool)
        ensures
            r == self.cfg_applied,
    {
        self.cfg_applied
    }

    /// Asks for configuration `cfg`; it is applied by a later attempt.
    pub fn configure(&mut self, cfg: SensorConfiguration)
        ensures
            final(self).cfg == cfg,
            !final(self).cfg_applied,
            final(self).port_idx == old(self).port_idx,
            final(self).data@ == seq![NO_DATA, NO_DATA, NO_DATA, NO_DATA],
    {
        self.cfg = cfg;
        self.cfg_applied = false;
        self.clear_data();
    }

    /// The sensor type to set the input up as, if the configuration is one
    /// that is set up.
    pub fn cfg_kind(&self) -> (r: Option<SensorKind>)
        ensures
            r == match self.cfg {
                SensorConfiguration::NoSensor => Some(SensorKind::NONE),
                SensorConfiguration::Ultrasonic(_) => Some(SensorKind::ULTRASONIC),
                SensorConfiguration::Gyro(_) => Some(SensorKind::GYRO),
                SensorConfiguration::Touch => Some(SensorKind::TOUCH),
                SensorConfiguration::Color(_) => Some(SensorKind::COLOR),
                SensorConfiguration::Ir(_) => Some(SensorKind::INFRARED),
                SensorConfiguration::NxtUltrasonic(_) => Some(SensorKind::NXT_ULTRASONIC),
                _ => None,
            },
    {
        match self.cfg {
            SensorConfiguration::NoSensor => Some(SensorKind::NONE),
            SensorConfiguration::Ultrasonic(_) => Some(SensorKind::ULTRASONIC),
            SensorConfiguration::Gyro(_) => Some(SensorKind::GYRO),
            SensorConfiguration::Touch => Some(SensorKind::TOUCH),
            SensorConfiguration::Color(_) => Some(SensorKind::COLOR),
            SensorConfiguration::Ir(_) => Some(SensorKind::INFRARED),
            SensorConfiguration::NxtUltrasonic(_) => Some(SensorKind::NXT_ULTRASONIC),
            _ => None,
        }
    }

    /// The reading that confirms a configuration once the hardware
    /// accepted it.
    pub fn cfg_probe(&self) -> (r: SensorProbe)
        ensures
            r == match self.cfg {
                SensorConfiguration::Ultrasonic(UsSensorMode::DISTANCE) => SensorProbe::UltrasonicDistance,
                SensorConfiguration::NxtUltrasonic(UsSensorMode::DISTANCE) => SensorProbe::NxtUltrasonicDistance,
                SensorConfiguration::Color(ColorSensorMode::AMBIENT) => SensorProbe::ColorAmbient,
                SensorConfiguration::Color(ColorSensorMode::COLOR) => SensorProbe::ColorCode,
                SensorConfiguration::Color(ColorSensorMode::REFLECT) => SensorProbe::ColorReflect,
                SensorConfiguration::Color(ColorSensorMode::RGB) => SensorProbe::ColorRgb,
                SensorConfiguration::Ir(IrSensorMode::DISTANCE) => SensorProbe::IrDistance,
                _ => SensorProbe::NoProbe,
            },
    {
        match self.cfg {
            SensorConfiguration::Ultrasonic(UsSensorMode::DISTANCE) => SensorProbe::UltrasonicDistance,
            SensorConfiguration::NxtUltrasonic(UsSensorMode::DISTANCE) => SensorProbe::NxtUltrasonicDistance,
            SensorConfiguration::Color(ColorSensorMode::AMBIENT) => SensorProbe::ColorAmbient,
            SensorConfiguration::Color(ColorSensorMode::COLOR) => SensorProbe::ColorCode,
            SensorConfiguration::Color(ColorSensorMode::REFLECT) => SensorProbe::ColorReflect,
            SensorConfiguration::Color(ColorSensorMode::RGB) => SensorProbe::ColorRgb,
            SensorConfiguration::Ir(IrSensorMode::DISTANCE) => SensorProbe::IrDistance,
            _ => SensorProbe::NoProbe,
        }
    }

    /// Records the outcome of a configuration attempt: `config_ok` when the
    /// hardware accepted the sensor type, and the confirming reading. The
    /// data slots are cleared.
    pub fn attempt_cfg_apply(&mut self, config_ok: bool, reading: SensorReading) -> (r: bool)
        ensures
            r == cfg_accepted(old(self).cfg, config_ok, reading),
            final(self).cfg_applied == r,
            final(self).cfg == old(self).cfg,
            final(self).port_idx == old(self).port_idx,
            final(self).data@ == seq![NO_DATA, NO_DATA, NO_DATA, NO_DATA],
    {
        self.clear_data();
        let distance_ok = match reading {
            SensorReading::Signed(v) => v != -1 && v != 0,
            _ => false,
        };
        let byte_ok = match reading {
            SensorReading::Byte(v) => v != 0xff && v != 0,
            _ => false,
        };
        let applied = match self.cfg {
            SensorConfiguration::NoSensor => true,
            SensorConfiguration::Ultrasonic(m) | SensorConfiguration::NxtUltrasonic(m) => config_ok
                && m == UsSensorMode::DISTANCE && distance_ok,
            SensorConfiguration::Gyro(_) => config_ok,
            SensorConfiguration::Touch => false,
            SensorConfiguration::Color(m) => config_ok && match m {
                ColorSensorMode::AMBIENT | ColorSensorMode::REFLECT => byte_ok,
                ColorSensorMode::COLOR => match reading {
                    SensorReading::Code(c) => c != 0,
                    _ => false,
                },
                ColorSensorMode::RGB => match reading {
                    SensorReading::Rgb(red, green, blue) => red != 0xffff && green != 0xffff
                        && blue != 0xffff && !(red == 0 && green == 0 && blue == 0),
                    _ => false,
                },
                ColorSensorMode::NONE => true,
            },
            SensorConfiguration::Ir(m) => config_ok && match m {
                IrSensorMode::DISTANCE => byte_ok,
                IrSensorMode::NONE => true,
                _ => false,
            },
            _ => false,
        };
        self.cfg_applied = applied;
        applied
    }

    /// The reading to take for the data slots; none until the configuration
    /// is applied.
    pub fn read_probe(&self) -> (r: SensorProbe)
        ensures
            !self.cfg_applied ==> r == SensorProbe::NoProbe,
            self.cfg_applied ==> r == match self.cfg {
                SensorConfiguration::Color(ColorSensorMode::AMBIENT) => SensorProbe::ColorAmbient,
                SensorConfiguration::Color(ColorSensorMode::REFLECT) => SensorProbe::ColorReflect,
                SensorConfiguration::Color(ColorSensorMode::RGB) => SensorProbe::ColorRgb,
                SensorConfiguration::Ir(IrSensorMode::DISTANCE) => SensorProbe::IrDistance,
                SensorConfiguration::Ultrasonic(UsSensorMode::DISTANCE) => SensorProbe::UltrasonicDistance,
                SensorConfiguration::Gyro(GyroSensorMode::ANGLE) => SensorProbe::GyroAngle,
                SensorConfiguration::Gyro(GyroSensorMode::RATE) => SensorProbe::GyroRate,
                _ => SensorProbe::NoProbe,
            },
    {
        if !self.cfg_applied {
            return SensorProbe::NoProbe;
        }
        match self.cfg {
            SensorConfiguration::Color(ColorSensorMode::AMBIENT) => SensorProbe::ColorAmbient,
            SensorConfiguration::Color(ColorSensorMode::REFLECT) => SensorProbe::ColorReflect,
            SensorConfiguration::Color(ColorSensorMode::RGB) => SensorProbe::ColorRgb,
            SensorConfiguration::Ir(IrSensorMode::DISTANCE) => SensorProbe::IrDistance,
            SensorConfiguration::Ultrasonic(UsSensorMode::DISTANCE) => SensorProbe::UltrasonicDistance,
            SensorConfiguration::Gyro(GyroSensorMode::ANGLE) => SensorProbe::GyroAngle,
            SensorConfiguration::Gyro(GyroSensorMode::RATE) => SensorProbe::GyroRate,
            _ => SensorProbe::NoProbe,
        }
    }

    /// Stores a reading in the data slots; with the configuration not
    /// applied, or for a reading this configuration does not take, the
    /// slots hold no data.
    pub fn read(&mut self, reading: SensorReading)
        ensures
            final(self).data@ == if old(self).cfg_applied {
                read_data(old(self).cfg, reading)
            } else {
                seq![NO_DATA, NO_DATA, NO_DATA, NO_DATA]
            },
            final(self).cfg == old(self).cfg,
            final(self).cfg_applied == old(self).cfg_applied,
            final(self).port_idx == old(self).port_idx,
    {
        self.clear_data();
        if !self.cfg_applied {
            return;
        }
        let byte = match reading {
            SensorReading::Byte(v) => if v == 0xff {
                NO_DATA
            } else {
                v as u16
            },
            _ => NO_DATA,
        };
        match self.cfg {
            SensorConfiguration::Color(ColorSensorMode::AMBIENT)
            | SensorConfiguration::Color(ColorSensorMode::REFLECT)
            | SensorConfiguration::Ir(IrSensorMode::DISTANCE) => {
                self.data[0] = byte;
            },
            SensorConfiguration::Color(ColorSensorMode::RGB) => {
                if let SensorReading::Rgb(red, green, blue) = reading {
                    self.data[0] = red;
                    self.data[1] = green;
                    self.data[2] = blue;
                }
            },
            SensorConfiguration::Ultrasonic(UsSensorMode::DISTANCE) => {
                if let SensorReading::Signed(v) = reading {
                    self.data[0] = if v == -1 {
                        NO_DATA
                    } else {
                        slot_of(v)
                    };
                }
            },
            SensorConfiguration::Gyro(GyroSensorMode::ANGLE)
            | SensorConfiguration::Gyro(GyroSensorMode::RATE) => {
                if let SensorReading::Signed(v) = reading {
                    self.data[0] = slot_of(v);
                }
            },
            _ => {},
        }
        assert(self.data@ =~= read_data(old(self).cfg, reading));
    }
}

} // verus!
