//! The catalog of commands that the brick understands, and the byte body of
//! each.

use vstd::prelude::*;

verus! {

/// Operation codes known to the brick.
#[derive(Debug, Clone, Copy, PartialEq, Eq, Structural)]
pub enum OpCodes {
    Alive,
    PlaySound(Sound),
    UnlockFirmware,
    GetBatteryPower,
    GetMemoryMap,
    PowerOff,
    SetMotorDirection(Motor, Direction),
    SetMotorOnOff(Motor, State),
    SetMotorPower(Motor, Power),
    /// Wait for some time. The argument is the delay in 1/100 of a second.
    Wait(u8),
}

/// Possible sounds for the opcode `PlaySound`.
#[derive(Debug, Clone, Copy, PartialEq, Eq, Structural)]
pub enum Sound {
    Blip,
    BeepBeep,
    DownwardTones,
    UpwardTones,
    LowBuzz,
    FastUpwardTones,
}

/// Motor selection for all motor commands.
#[derive(Debug, Clone, Copy, PartialEq, Eq, Structural)]
pub enum Motor {
    MotorA,
    MotorB,
    MotorC,
    MotorAB,
    MotorBC,
    MotorABC,
}

/// Direction for motor commands.
#[derive(Debug, Clone, Copy, PartialEq, Eq, Structural)]
pub enum Direction {
    Forward,
    Backward,
    FlipDirection,
}

/// Motor state: on, off (braking) or floating.
#[derive(Debug, Clone, Copy, PartialEq, Eq, Structural)]
pub enum State {
    On,
    Off,
    Float,
}

/// Motor power levels.
#[derive(Debug, Clone, Copy, PartialEq, Eq, Structural)]
pub enum Power {
    Coasting,
    Power1,
    Power2,
    Power3,
    Power4,
    Power5,
    Power6,
    Power7,
}

/// Source code of an immediate operand: the value follows in the body.
pub const SOURCE_IMMEDIATE: u8 = 0x02;

pub open spec fn sound_code(sound: Sound) -> u8 {
    match sound {
        Sound::Blip => 0,
        Sound::BeepBeep => 1,
        Sound::DownwardTones => 2,
        Sound::UpwardTones => 3,
        Sound::LowBuzz => 4,
        Sound::FastUpwardTones => 5,
    }
}

/// Motor bits; a group of motors is the bitwise OR of the single motors
/// A (0x01), B (0x02) and C (0x04).
pub open spec fn motor_bits(motor: Motor) -> u8 {
    match motor {
        Motor::MotorA => 0x01,
        Motor::MotorB => 0x02,
        Motor::MotorC => 0x04,
        Motor::MotorAB => 0x03,
        Motor::MotorBC => 0x06,
        Motor::MotorABC => 0x07,
    }
}

pub open spec fn direction_bits(direction: Direction) -> u8 {
    match direction {
        Direction::Forward => 0x08,
        Direction::Backward => 0x00,
        Direction::FlipDirection => 0x04,
    }
}

/// State bits of `SetMotorOnOff`. Of the two encodings that have been used
/// for this command (On 0x80 / Off 0x40 / Float 0x00, and On 0x08 / Off 0x04
/// / Float 0x0C) this catalog uses the first one only.
pub open spec fn state_bits(state: State) -> u8 {
    match state {
        State::On => 0x80,
        State::Off => 0x40,
        State::Float => 0x00,
    }
}

pub open spec fn power_level(power: Power) -> u8 {
    match power {
        Power::Coasting => 0,
        Power::Power1 => 1,
        Power::Power2 => 2,
        Power::Power3 => 3,
        Power::Power4 => 4,
        Power::Power5 => 5,
        Power::Power6 => 6,
        Power::Power7 => 7,
    }
}

/// The body of `UnlockFirmware`: 0xA5 followed by the ASCII text
/// "Do you, byte, when I knock?".
pub open spec fn unlock_key() -> Seq<u8> {
    seq![
        0xa5u8, 0x44, 0x6f, 0x20, 0x79, 0x6f, 0x75, 0x2c, 0x20, 0x62, 0x79, 0x74, 0x65, 0x2c,
        0x20, 0x77, 0x68, 0x65, 0x6e, 0x20, 0x49, 0x20, 0x6b, 0x6e, 0x6f, 0x63, 0x6b, 0x3f,
    ]
}

/// The raw byte body of an opcode, before any framing.
pub open spec fn body_of(op: OpCodes) -> Seq<u8> {
    match op {
        OpCodes::Alive => seq![0x10u8],
        OpCodes::PlaySound(s) => seq![0x51u8, sound_code(s)],
        OpCodes::UnlockFirmware => unlock_key(),
        OpCodes::GetBatteryPower => seq![0x30u8],
        OpCodes::GetMemoryMap => seq![0x20u8],
        OpCodes::PowerOff => seq![0x60u8],
        OpCodes::SetMotorDirection(m, d) => seq![0xe1u8, motor_bits(m) | direction_bits(d)],
        OpCodes::SetMotorOnOff(m, s) => seq![0x21u8, motor_bits(m) | state_bits(s)],
        OpCodes::SetMotorPower(m, p) => seq![0x13u8, motor_bits(m), SOURCE_IMMEDIATE, power_level(p)],
        OpCodes::Wait(ticks) => seq![0x43u8, SOURCE_IMMEDIATE, ticks],
    }
}

/// No body is empty, so framing can always read the first byte.
pub proof fn lemma_body_nonempty(op: OpCodes)
    ensures
        body_of(op).len() >= 1,
{
}

impl OpCodes {
    /// Whether the opcode can be sent as a direct command to the brick.
    pub fn is_request(&self) -> (r: bool)
        ensures
            r == !(*self is Wait),
    {
        match self {
            OpCodes::Alive => true,
            OpCodes::PlaySound(_) => true,
            OpCodes::UnlockFirmware => true,
            OpCodes::GetBatteryPower => true,
            OpCodes::GetMemoryMap => true,
            OpCodes::PowerOff => true,
            OpCodes::SetMotorDirection(_, _) => true,
            OpCodes::SetMotorOnOff(_, _) => true,
            OpCodes::SetMotorPower(_, _) => true,
            OpCodes::Wait(_) => false,
        }
    }

    /// Whether the opcode can be used as byte code in a program for the brick.
    pub fn is_bytecode(&self) -> (r: bool)
        ensures
            r == !(*self is Alive || *self is UnlockFirmware || *self is GetBatteryPower
                || *self is GetMemoryMap),
    {
        match self {
            OpCodes::Alive => false,
            OpCodes::PlaySound(_) => true,
            OpCodes::UnlockFirmware => false,
            OpCodes::GetBatteryPower => false,
            OpCodes::GetMemoryMap => false,
            OpCodes::PowerOff => true,
            OpCodes::SetMotorDirection(_, _) => true,
            OpCodes::SetMotorOnOff(_, _) => true,
            OpCodes::SetMotorPower(_, _) => true,
            OpCodes::Wait(_) => true,
        }
    }
}

impl From<Sound> for u8 {
    fn from(sound: Sound) -> (r: u8) {
        match sound {
            Sound::Blip => 0,
            Sound::BeepBeep => 1,
            Sound::DownwardTones => 2,
            Sound::UpwardTones => 3,
            Sound::LowBuzz => 4,
            Sound::FastUpwardTones => 5,
        }
    }
}

impl vstd::std_specs::convert::FromSpecImpl<Sound> for u8 {
    open spec fn obeys_from_spec() -> bool {
        true
    }

    open spec fn from_spec(v: Sound) -> u8 {
        sound_code(v)
    }
}

impl From<Motor> for u8 {
    fn from(motor: Motor) -> (r: u8) {
        match motor {
            Motor::MotorA => 0x01,
            Motor::MotorB => 0x02,
            Motor::MotorC => 0x04,
            Motor::MotorAB => 0x03,
            Motor::MotorBC => 0x06,
            Motor::MotorABC => 0x07,
        }
    }
}

impl vstd::std_specs::convert::FromSpecImpl<Motor> for u8 {
    open spec fn obeys_from_spec() -> bool {
        true
    }

    open spec fn from_spec(v: Motor) -> u8 {
        motor_bits(v)
    }
}

impl From<Direction> for u8 {
    fn from(direction: Direction) -> (r: u8) {
        match direction {
            Direction::Forward => 0x08,
            Direction::Backward => 0x00,
            Direction::FlipDirection => 0x04,
        }
    }
}

impl vstd::std_specs::convert::FromSpecImpl<Direction> for u8 {
    open spec fn obeys_from_spec() -> bool {
        true
    }

    open spec fn from_spec(v: Direction) -> u8 {
        direction_bits(v)
    }
}

impl From<State> for u8 {
    fn from(state: State) -> (r: u8) {
        match state {
            State::On => 0x80,
            State::Off => 0x40,
            State::Float => 0x00,
        }
    }
}

impl vstd::std_specs::convert::FromSpecImpl<State> for u8 {
    open spec fn obeys_from_spec() -> bool {
        true
    }

    open spec fn from_spec(v: State) -> u8 {
        state_bits(v)
    }
}

impl From<Power> for u8 {
    fn from(power: Power) -> (r: u8) {
        match power {
            Power::Coasting => 0,
            Power::Power1 => 1,
            Power::Power2 => 2,
            Power::Power3 => 3,
            Power::Power4 => 4,
            Power::Power5 => 5,
            Power::Power6 => 6,
            Power::Power7 => 7,
        }
    }
}

impl vstd::std_specs::convert::FromSpecImpl<Power> for u8 {
    open spec fn obeys_from_spec() -> bool {
        true
    }

    open spec fn from_spec(v: Power) -> u8 {
        power_level(v)
    }
}

impl OpCodes {
    /// Serializes the opcode into its byte body; the body is never empty.
    pub fn serialize(self) -> (r: Vec<u8>)
        ensures
            r@ == body_of(self),
            r@.len() >= 1,
    {
        let op = self;
        match op {
            OpCodes::Alive => vec![0x10],
            OpCodes::PlaySound(sound) => vec![0x51, u8::from(sound)],
            OpCodes::UnlockFirmware => vec![
                0xa5, 0x44, 0x6f, 0x20, 0x79, 0x6f, 0x75, 0x2c, 0x20, 0x62, 0x79, 0x74, 0x65,
                0x2c, 0x20, 0x77, 0x68, 0x65, 0x6e, 0x20, 0x49, 0x20, 0x6b, 0x6e, 0x6f, 0x63,
                0x6b, 0x3f,
            ],
            OpCodes::GetBatteryPower => vec![0x30],
            OpCodes::GetMemoryMap => vec![0x20],
            OpCodes::PowerOff => vec![0x60],
            OpCodes::SetMotorDirection(motor, direction) => {
                vec![0xe1, u8::from(motor) | u8::from(direction)]
            },
            OpCodes::SetMotorOnOff(motor, state) => vec![0x21, u8::from(motor) | u8::from(state)],
            OpCodes::SetMotorPower(motor, power) => {
                vec![0x13, u8::from(motor), SOURCE_IMMEDIATE, u8::from(power)]
            },
            OpCodes::Wait(delay) => vec![0x43, SOURCE_IMMEDIATE, delay],
        }
    }
}

/// Serializes an opcode into its byte body.
impl From<OpCodes> for Vec<u8> {
    fn from(op: OpCodes) -> (r: Vec<u8>)
        ensures
            r@ == body_of(op),
    {
        op.serialize()
    }
}

/// The trait's equality clause stays off: the result is stated by the view
/// of the `Vec` (`r@ == body_of(op)`) in the `ensures` of `from` above.
impl vstd::std_specs::convert::FromSpecImpl<OpCodes> for Vec<u8> {
    open spec fn obeys_from_spec() -> bool {
        false
    }

    open spec fn from_spec(v: OpCodes) -> Vec<u8> {
        arbitrary()
    }
}

} // verus!
