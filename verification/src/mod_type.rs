//! Hardware categories a module can declare.

use vstd::prelude::*;

verus! {

/// Hardware category of a module. The numeric encoding is used on the
/// wire by `TargetMode::Type` frames, so the order is frozen.
#[derive(Clone, Copy, Debug, PartialEq, Eq, Structural)]
pub enum ModuleType {
    Gate,
    Servo,
    RgbLed,
    Potentiometer,
    Button,
    DistanceSensor,
    Relay,
    DynamixelMotor,
    Stepper,
    HomeMadeServo,
    Ledstrip,
    Rtc,
    Encoder,
    GenericMotor,
    Sniffer,
    GenericIO,
    L0GPIO,
    L0Servo,
    L0DCmotor,
}

impl ModuleType {
    /// Numeric encoding of this type, matched against `target` by
    /// type-addressed frames.
    pub open spec fn code_spec(self) -> u16 {
        match self {
            ModuleType::Gate => 0,
            ModuleType::Servo => 1,
            ModuleType::RgbLed => 2,
            ModuleType::Potentiometer => 3,
            ModuleType::Button => 4,
            ModuleType::DistanceSensor => 5,
            ModuleType::Relay => 6,
            ModuleType::DynamixelMotor => 7,
            ModuleType::Stepper => 8,
            ModuleType::HomeMadeServo => 9,
            ModuleType::Ledstrip => 10,
            ModuleType::Rtc => 11,
            ModuleType::Encoder => 12,
            ModuleType::GenericMotor => 13,
            ModuleType::Sniffer => 14,
            ModuleType::GenericIO => 15,
            ModuleType::L0GPIO => 16,
            ModuleType::L0Servo => 17,
            ModuleType::L0DCmotor => 18,
        }
    }

    /// Numeric encoding of this type.
    pub fn code(&self) -> (r: u16)
        ensures
            r == self.code_spec(),
    {
        match self {
            ModuleType::Gate => 0,
            ModuleType::Servo => 1,
            ModuleType::RgbLed => 2,
            ModuleType::Potentiometer => 3,
            ModuleType::Button => 4,
            ModuleType::DistanceSensor => 5,
            ModuleType::Relay => 6,
            ModuleType::DynamixelMotor => 7,
            ModuleType::Stepper => 8,
            ModuleType::HomeMadeServo => 9,
            ModuleType::Ledstrip => 10,
            ModuleType::Rtc => 11,
            ModuleType::Encoder => 12,
            ModuleType::GenericMotor => 13,
            ModuleType::Sniffer => 14,
            ModuleType::GenericIO => 15,
            ModuleType::L0GPIO => 16,
            ModuleType::L0Servo => 17,
            ModuleType::L0DCmotor => 18,
        }
    }

    /// The types that report a measurement rather than drive an output.
    pub open spec fn is_sensor_spec(self) -> bool {
        match self {
            ModuleType::Potentiometer => true,
            ModuleType::Button => true,
            ModuleType::DistanceSensor => true,
            ModuleType::DynamixelMotor => true,
            ModuleType::Encoder => true,
            ModuleType::GenericIO => true,
            ModuleType::L0GPIO => true,
            _ => false,
        }
    }

    /// Whether a module of this type reports a measurement.
    pub fn is_sensor(&self) -> (r: bool)
        ensures
            r == self.is_sensor_spec(),
    {
        match self {
            ModuleType::Potentiometer
            | ModuleType::Button
            | ModuleType::DistanceSensor
            | ModuleType::DynamixelMotor
            | ModuleType::Encoder
            | ModuleType::GenericIO
            | ModuleType::L0GPIO => true,
            _ => false,
        }
    }

    /// The name returned for each type.
    pub open spec fn as_str_spec(self) -> Seq<char> {
        match self {
            ModuleType::Gate => "gate"@,
            ModuleType::Servo => "servo"@,
            ModuleType::RgbLed => "led"@,
            ModuleType::Ledstrip => "led_strip"@,
            ModuleType::Potentiometer => "potard"@,
            ModuleType::Button => "button"@,
            ModuleType::DistanceSensor => "distance"@,
            ModuleType::Relay => "relay"@,
            ModuleType::DynamixelMotor => "dynamixel"@,
            ModuleType::Stepper => "stepper"@,
            ModuleType::Encoder => "encoder"@,
            ModuleType::Rtc => "rtc"@,
            ModuleType::Sniffer => "sniffer"@,
            ModuleType::GenericMotor => "generic_motor"@,
            ModuleType::HomeMadeServo => "home_made_servo"@,
            ModuleType::GenericIO => "GenericIO"@,
            ModuleType::L0GPIO => "l0_gpio"@,
            ModuleType::L0Servo => "l0_servo"@,
            ModuleType::L0DCmotor => "l0_dc_motor"@,
        }
    }

    /// Human-readable name of the type.
    pub fn as_str(&self) -> (r: &'static str)
        ensures
            r@ == self.as_str_spec(),
    {
        match self {
            ModuleType::Gate => "gate",
            ModuleType::Servo => "servo",
            ModuleType::RgbLed => "led",
            ModuleType::Ledstrip => "led_strip",
            ModuleType::Potentiometer => "potard",
            ModuleType::Button => "button",
            ModuleType::DistanceSensor => "distance",
            ModuleType::Relay => "relay",
            ModuleType::DynamixelMotor => "dynamixel",
            ModuleType::Stepper => "stepper",
            ModuleType::Encoder => "encoder",
            ModuleType::Rtc => "rtc",
            ModuleType::Sniffer => "sniffer",
            ModuleType::GenericMotor => "generic_motor",
            ModuleType::HomeMadeServo => "home_made_servo",
            ModuleType::GenericIO => "GenericIO",
            ModuleType::L0GPIO => "l0_gpio",
            ModuleType::L0Servo => "l0_servo",
            ModuleType::L0DCmotor => "l0_dc_motor",
        }
    }

    /// The sensor types that publish a named state field.
    pub open spec fn has_field(self) -> bool {
        match self {
            ModuleType::DistanceSensor => true,
            ModuleType::Button => true,
            ModuleType::GenericIO => true,
            ModuleType::L0GPIO => true,
            ModuleType::L0Servo => true,
            ModuleType::Potentiometer => true,
            ModuleType::Encoder => true,
            ModuleType::DynamixelMotor => true,
            ModuleType::HomeMadeServo => true,
            ModuleType::Stepper => true,
            _ => false,
        }
    }

    /// The field name returned for each type that has one.
    pub open spec fn as_field_spec(self) -> Seq<char> {
        match self {
            ModuleType::DistanceSensor => "distance"@,
            ModuleType::Button => "state"@,
            ModuleType::GenericIO => "state"@,
            ModuleType::L0GPIO => "state"@,
            ModuleType::L0Servo => "state"@,
            _ => "position"@,
        }
    }

    /// Name of the state field a module of this type publishes. Only the
    /// types with `has_field` publish one.
    pub fn as_field(&self) -> (r: &'static str)
        requires
            self.has_field(),
        ensures
            r@ == self.as_field_spec(),
    {
        match self {
            ModuleType::DistanceSensor => "distance",
            ModuleType::Button | ModuleType::GenericIO | ModuleType::L0GPIO
            | ModuleType::L0Servo => "state",
            _ => "position",
        }
    }
}

} // verus!
