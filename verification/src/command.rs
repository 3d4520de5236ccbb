//! Command identifiers carried in the fifth header byte.
//!
//! The numeric values are on the wire, so both enumerations are frozen:
//! bus commands start at an offset of 30 above the internal protocol
//! commands, and new entries may only be appended.

use vstd::prelude::*;

verus! {

/// Internal protocol commands, numbered from 0.
#[derive(Clone, Copy, Debug, PartialEq, Eq, Structural)]
pub enum ProtocolCommand {
    GetId,
    WriteId,
    WriteAlias,
    GetModuleType,
    GetStatus,
    GetFirmRevision,
    GetComRevision,
    _OffsetNumber,
}

impl ProtocolCommand {
    /// Wire value of this protocol command.
    pub open spec fn code_spec(self) -> u8 {
        match self {
            ProtocolCommand::GetId => 0,
            ProtocolCommand::WriteId => 1,
            ProtocolCommand::WriteAlias => 2,
            ProtocolCommand::GetModuleType => 3,
            ProtocolCommand::GetStatus => 4,
            ProtocolCommand::GetFirmRevision => 5,
            ProtocolCommand::GetComRevision => 6,
            ProtocolCommand::_OffsetNumber => 30,
        }
    }

    /// Wire value of this protocol command.
    pub fn code(&self) -> (r: u8)
        ensures
            r == self.code_spec(),
    {
        match self {
            ProtocolCommand::GetId => 0,
            ProtocolCommand::WriteId => 1,
            ProtocolCommand::WriteAlias => 2,
            ProtocolCommand::GetModuleType => 3,
            ProtocolCommand::GetStatus => 4,
            ProtocolCommand::GetFirmRevision => 5,
            ProtocolCommand::GetComRevision => 6,
            ProtocolCommand::_OffsetNumber => 30,
        }
    }
}

/// Commands available for a `Message`, numbered from
/// `ProtocolCommand::_OffsetNumber` upward.
#[derive(Clone, Copy, Debug, PartialEq, Eq, Structural)]
pub enum Command {
    /// Asks a module to identify itself.
    Identify,
    /// A module answers with its alias and type.
    Introduction,
    /// Asks a sensor module to publish its data.
    GetState,
    /// A module publishes its data.
    PublishState,
    /// Led color; payload R, G, B.
    LedColor,
    /// Servo position in degrees.
    ServoPosition,
    /// Servo speed in degrees per second.
    ServoSpeed,
    /// Set servo wheel mode.
    WheelMode,
    /// Set servo compliant.
    SetCompliant,
    /// Enable relay.
    EnableRelay,
    /// Get stepper position in steps.
    StepperPosition,
    /// Get stepper speed in steps per second.
    StepperSpeed,
    /// Send stepper to its home position.
    StepperHomePosition,
    /// Stop stepper.
    StepperStop,
    /// Led brightness.
    LedPower,
    /// Asserv P, I, D and target.
    SetAsservStep,
    /// Read asserv settings back.
    GetAsservStep,
    /// Send encoder to its home position.
    EncoderHome,
    /// Power ratio.
    PowerRatio,
    _GateProtocolOffsetNumber,
}

impl Command {
    /// Wire value of this command.
    pub open spec fn code_spec(self) -> u8 {
        match self {
            Command::Identify => 30,
            Command::Introduction => 31,
            Command::GetState => 32,
            Command::PublishState => 33,
            Command::LedColor => 34,
            Command::ServoPosition => 35,
            Command::ServoSpeed => 36,
            Command::WheelMode => 37,
            Command::SetCompliant => 38,
            Command::EnableRelay => 39,
            Command::StepperPosition => 40,
            Command::StepperSpeed => 41,
            Command::StepperHomePosition => 42,
            Command::StepperStop => 43,
            Command::LedPower => 44,
            Command::SetAsservStep => 45,
            Command::GetAsservStep => 46,
            Command::EncoderHome => 47,
            Command::PowerRatio => 48,
            Command::_GateProtocolOffsetNumber => 49,
        }
    }

    /// Command decoded from a wire value, if the value names one.
    pub open spec fn from_code_spec(b: u8) -> Option<Command> {
        if b == 30 {
            Some(Command::Identify)
        } else if b == 31 {
            Some(Command::Introduction)
        } else if b == 32 {
            Some(Command::GetState)
        } else if b == 33 {
            Some(Command::PublishState)
        } else if b == 34 {
            Some(Command::LedColor)
        } else if b == 35 {
            Some(Command::ServoPosition)
        } else if b == 36 {
            Some(Command::ServoSpeed)
        } else if b == 37 {
            Some(Command::WheelMode)
        } else if b == 38 {
            Some(Command::SetCompliant)
        } else if b == 39 {
            Some(Command::EnableRelay)
        } else if b == 40 {
            Some(Command::StepperPosition)
        } else if b == 41 {
            Some(Command::StepperSpeed)
        } else if b == 42 {
            Some(Command::StepperHomePosition)
        } else if b == 43 {
            Some(Command::StepperStop)
        } else if b == 44 {
            Some(Command::LedPower)
        } else if b == 45 {
            Some(Command::SetAsservStep)
        } else if b == 46 {
            Some(Command::GetAsservStep)
        } else if b == 47 {
            Some(Command::EncoderHome)
        } else if b == 48 {
            Some(Command::PowerRatio)
        } else if b == 49 {
            Some(Command::_GateProtocolOffsetNumber)
        } else {
            None
        }
    }

    /// Wire value of this command.
    pub fn code(&self) -> (r: u8)
        ensures
            r == self.code_spec(),
    {
        match self {
            Command::Identify => 30,
            Command::Introduction => 31,
            Command::GetState => 32,
            Command::PublishState => 33,
            Command::LedColor => 34,
            Command::ServoPosition => 35,
            Command::ServoSpeed => 36,
            Command::WheelMode => 37,
            Command::SetCompliant => 38,
            Command::EnableRelay => 39,
            Command::StepperPosition => 40,
            Command::StepperSpeed => 41,
            Command::StepperHomePosition => 42,
            Command::StepperStop => 43,
            Command::LedPower => 44,
            Command::SetAsservStep => 45,
            Command::GetAsservStep => 46,
            Command::EncoderHome => 47,
            Command::PowerRatio => 48,
            Command::_GateProtocolOffsetNumber => 49,
        }
    }

    /// Command decoded from a wire value, if the value names one.
    pub fn from_code(b: u8) -> (r: Option<Command>)
        ensures
            r == Command::from_code_spec(b),
    {
        if b < 30 || b > 49 {
            None
        } else if b == 30 {
            Some(Command::Identify)
        } else if b == 31 {
            Some(Command::Introduction)
        } else if b == 32 {
            Some(Command::GetState)
        } else if b == 33 {
            Some(Command::PublishState)
        } else if b == 34 {
            Some(Command::LedColor)
        } else if b == 35 {
            Some(Command::ServoPosition)
        } else if b == 36 {
            Some(Command::ServoSpeed)
        } else if b == 37 {
            Some(Command::WheelMode)
        } else if b == 38 {
            Some(Command::SetCompliant)
        } else if b == 39 {
            Some(Command::EnableRelay)
        } else if b == 40 {
            Some(Command::StepperPosition)
        } else if b == 41 {
            Some(Command::StepperSpeed)
        } else if b == 42 {
            Some(Command::StepperHomePosition)
        } else if b == 43 {
            Some(Command::StepperStop)
        } else if b == 44 {
            Some(Command::LedPower)
        } else if b == 45 {
            Some(Command::SetAsservStep)
        } else if b == 46 {
            Some(Command::GetAsservStep)
        } else if b == 47 {
            Some(Command::EncoderHome)
        } else if b == 48 {
            Some(Command::PowerRatio)
        } else {
            Some(Command::_GateProtocolOffsetNumber)
        }
    }

    /// Decoding a command's wire value gives the command back.
    pub proof fn lemma_code_round_trip(c: Command)
        ensures
            Command::from_code_spec(c.code_spec()) == Some(c),
    {
    }
}

} // verus!
