use ev3_display::canvas::ScreenOrientation;
use ev3_display::keys::{KeyStatus, Keys};
use ev3_display::leds::{LedColor, Leds};
use ev3_display::motor::{motor_test_power, MotorData, MotorPort, MotorType};
use ev3_display::sensor::{
    ColorSensorMode, GyroSensorMode, IrSensorMode, SensorConfiguration, SensorData, SensorKind,
    SensorPort, SensorProbe, SensorReading, UsSensorMode,
};
use ev3_display::time::{Duration, Time};

#[test]
fn duration_units_and_arithmetic() {
    let d = Duration::from_msec(2500);
    assert_eq!(d.usec(), 2_500_000);
    assert_eq!(d.msec(), 2500);
    assert_eq!(d.sec(), 2);
    assert_eq!(Duration::from_usec(-1500).msec(), -1);
    assert_eq!((d + Duration::new(7)).usec(), 2_500_007);
    assert_eq!((d - Duration::new(7)).usec(), 2_499_993);
    let mut e = Duration::zero();
    e += Duration::new(5);
    e -= Duration::new(2);
    assert_eq!(e.usec(), 3);
    assert_eq!((Duration::new(i32::MAX) + Duration::new(1)).usec(), i32::MIN);
}

#[test]
fn time_advances_only_after_interval() {
    let mut t = Time::new(1000);
    assert!(!t.advance(1500));
    assert_eq!(t.ticks, 1000);
    assert!(t.advance(1900));
    assert_eq!(t.from_last_read().usec(), 900);
    assert!(t.advance(3000));
    assert_eq!(t.from_last_reset().usec(), 2000);
    t.reset();
    assert_eq!(t.from_last_reset().usec(), 0);
    assert_eq!(t.from_last_read().usec(), 1100);
}

#[test]
fn key_status_tracks_events() {
    let mut k = KeyStatus::new();
    assert!(k.is_released());
    k.update(false, Duration::new(10));
    assert_eq!(k.since_released().usec(), 10);
    assert!(!k.release_event());
    k.update(true, Duration::new(10));
    assert!(k.press_event());
    assert_eq!(k.last_state_duration().usec(), 10);
    k.update(true, Duration::new(30));
    assert!(!k.press_event());
    assert_eq!(k.since_pressed().usec(), 30);
    assert_eq!(k.since_released().usec(), 0);
    k.update(false, Duration::new(5));
    assert!(k.release_event());
    assert_eq!(k.last_state_duration().usec(), 30);
}

#[test]
fn keys_follow_orientation() {
    let mut k = Keys::new();
    // Physical up pressed, screen mounted to the right: it reads as left.
    k.read(true, false, false, false, false, false, Duration::new(1), ScreenOrientation::Right);
    assert!(k.left.is_pressed());
    assert!(!k.up.is_pressed());
    let mut k = Keys::new();
    k.read(true, false, false, false, true, false, Duration::new(1), ScreenOrientation::Down);
    assert!(k.down.is_pressed());
    assert!(k.enter.is_pressed());
}

#[test]
fn leds_send_only_changes() {
    let mut l = Leds::new();
    assert_eq!(l.apply(), None);
    l.set_color(LedColor::Orange);
    assert!(l.red() && l.green());
    assert_eq!(l.apply(), Some(LedColor::Orange));
    assert_eq!(l.apply(), None);
    l.set_green(false);
    assert_eq!(l.apply(), Some(LedColor::Red));
    l.set_red(false);
    l.set_green(true);
    assert_eq!(l.apply(), Some(LedColor::Green));
    l.reset();
    assert_eq!(l.apply(), None);
}

#[test]
fn motor_power_is_clamped() {
    let mut m = MotorData::new(MotorPort::B);
    assert_eq!(m.port(), MotorPort::B);
    m.set_power(150);
    assert_eq!(m.power(), 100);
    m.set_power(-101);
    assert_eq!(m.power(), -100);
    m.set_power(42);
    assert_eq!(m.power(), 42);
}

#[test]
fn motor_fixed_zones() {
    let mut m = MotorData::new(MotorPort::A);
    m.set_power_to_position_fixed(20);
    assert_eq!(m.power(), 60);
    m.set_power_to_position_fixed(10);
    assert_eq!(m.power(), 20);
    m.set_power_to_position_fixed(5);
    assert_eq!(m.power(), 5);
    m.set_power_to_position_fixed(-10);
    assert_eq!(m.power(), 20);
    m.set_power_to_position_fixed(-30);
    assert_eq!(m.power(), -60);
}

#[test]
fn motor_integrating_controller() {
    let mut m = MotorData::new(MotorPort::A);
    m.set_power_to_position(5, Duration::new(1000));
    // 2 * 5, and 5 * 1000 accumulated gives no integral power yet.
    assert_eq!(m.power(), 10);
    assert_eq!(m.pos_i, 5000);
    m.set_power_to_position(5, Duration::new(8000));
    assert_eq!(m.pos_i, 45000);
    assert_eq!(m.power(), 11);
    m.set_power_to_position(200, Duration::new(100_000));
    // A new target restarts the integral; the error is limited to 80.
    assert_eq!(m.pos_i, 400_000);
    assert_eq!(m.power(), 100);
    m.set_power_to_position(-15, Duration::new(0));
    assert_eq!(m.power(), -40);
}

#[test]
fn motor_configuration_and_reading() {
    let mut m = MotorData::new(MotorPort::C);
    m.configure(MotorType::LARGE);
    assert!(!m.configuration_applied());
    let f = m.attempt_cfg_apply(true);
    assert!(f.stop && f.reset_counts);
    assert!(m.configuration_applied());
    m.read(123);
    assert_eq!(m.position(), 123);
    m.reset_position();
    assert_eq!(m.position(), 0);
    let mut u = MotorData::new(MotorPort::D);
    u.configure(MotorType::UNREGULATED);
    let f = u.attempt_cfg_apply(true);
    assert!(f.stop && !f.reset_counts);
    u.read(50);
    assert_eq!(u.position(), 0);
    let f = u.attempt_cfg_apply(false);
    assert!(!f.stop);
    u.set_power(30);
    u.stop();
    assert_eq!(u.power(), 0);
}

#[test]
fn motor_test_power_swings() {
    assert_eq!(motor_test_power(0), 30);
    assert_eq!(motor_test_power(30), -30);
    assert_eq!(motor_test_power(60), -30);
    assert_eq!(motor_test_power(80), 30);
    assert_eq!(motor_test_power(799), 30);
    assert_eq!(motor_test_power(800), 0);
}

#[test]
fn sensor_defaults() {
    let s = SensorData::new(SensorPort::S2);
    assert_eq!(s.port(), SensorPort::S2);
    assert_eq!(s.val(), -1);
    assert_eq!((s.v1(), s.v2(), s.v3(), s.v4()), (-1, -1, -1, -1));
    assert!(!s.configuration_applied());
    assert_eq!(s.cfg_kind(), Some(SensorKind::NONE));
}

#[test]
fn sensor_configuration_decisions() {
    let mut s = SensorData::new(SensorPort::S1);
    assert!(s.attempt_cfg_apply(false, SensorReading::Nothing));

    s.configure(SensorConfiguration::Ultrasonic(UsSensorMode::DISTANCE));
    assert_eq!(s.cfg_kind(), Some(SensorKind::ULTRASONIC));
    assert_eq!(s.cfg_probe(), SensorProbe::UltrasonicDistance);
    assert!(!s.attempt_cfg_apply(true, SensorReading::Signed(-1)));
    assert!(!s.attempt_cfg_apply(true, SensorReading::Signed(0)));
    assert!(!s.attempt_cfg_apply(false, SensorReading::Signed(40)));
    assert!(s.attempt_cfg_apply(true, SensorReading::Signed(40)));

    s.configure(SensorConfiguration::Touch);
    assert!(!s.attempt_cfg_apply(true, SensorReading::Nothing));

    s.configure(SensorConfiguration::Gyro(GyroSensorMode::ANGLE));
    assert!(s.attempt_cfg_apply(true, SensorReading::Nothing));

    s.configure(SensorConfiguration::Color(ColorSensorMode::RGB));
    assert!(!s.attempt_cfg_apply(true, SensorReading::Rgb(0, 0, 0)));
    assert!(!s.attempt_cfg_apply(true, SensorReading::Rgb(0xffff, 3, 3)));
    assert!(s.attempt_cfg_apply(true, SensorReading::Rgb(1, 0, 0)));

    s.configure(SensorConfiguration::Color(ColorSensorMode::COLOR));
    assert!(!s.attempt_cfg_apply(true, SensorReading::Code(0)));
    assert!(s.attempt_cfg_apply(true, SensorReading::Code(5)));

    s.configure(SensorConfiguration::Ir(IrSensorMode::SEEK));
    assert!(!s.attempt_cfg_apply(true, SensorReading::Nothing));
    s.configure(SensorConfiguration::Ir(IrSensorMode::DISTANCE));
    assert!(!s.attempt_cfg_apply(true, SensorReading::Byte(0xff)));
    assert!(s.attempt_cfg_apply(true, SensorReading::Byte(17)));

    s.configure(SensorConfiguration::NxtTemp);
    assert_eq!(s.cfg_kind(), None);
    assert!(!s.attempt_cfg_apply(true, SensorReading::Nothing));
}

#[test]
fn sensor_reading_decoding() {
    let mut s = SensorData::new(SensorPort::S3);
    s.configure(SensorConfiguration::Gyro(GyroSensorMode::RATE));
    assert_eq!(s.read_probe(), SensorProbe::NoProbe);
    s.read(SensorReading::Signed(-20));
    assert_eq!(s.val(), -1);
    s.attempt_cfg_apply(true, SensorReading::Nothing);
    assert_eq!(s.read_probe(), SensorProbe::GyroRate);
    s.read(SensorReading::Signed(-20));
    assert_eq!(s.val(), -20);
    assert_eq!(s.data[0], 0xffec);

    s.configure(SensorConfiguration::Color(ColorSensorMode::RGB));
    s.attempt_cfg_apply(true, SensorReading::Rgb(10, 20, 30));
    s.read(SensorReading::Rgb(10, 20, 30));
    assert_eq!((s.v1(), s.v2(), s.v3(), s.v4()), (10, 20, 30, -1));

    s.configure(SensorConfiguration::Color(ColorSensorMode::REFLECT));
    s.attempt_cfg_apply(true, SensorReading::Byte(9));
    s.read(SensorReading::Byte(0xff));
    assert_eq!(s.data[0], 0xffff);
    s.read(SensorReading::Byte(77));
    assert_eq!(s.val(), 77);

    s.configure(SensorConfiguration::Ultrasonic(UsSensorMode::DISTANCE));
    s.attempt_cfg_apply(true, SensorReading::Signed(100));
    s.read(SensorReading::Signed(-1));
    assert_eq!(s.data[0], 0xffff);
    s.read(SensorReading::Signed(250));
    assert_eq!(s.val(), 250);
}
