use brick_protocol::opcodes::{Direction, Motor, OpCodes, Power, Sound, State};

#[test]
fn serialization_is_repeatable() {
    let op = OpCodes::SetMotorOnOff(Motor::MotorAB, State::Off);
    assert_eq!(op.serialize(), op.serialize());
    assert_eq!(Vec::<u8>::from(op), vec![0x21, 0x43]);
}

#[test]
fn fixed_bodies() {
    assert_eq!(OpCodes::Alive.serialize(), vec![0x10]);
    assert_eq!(OpCodes::GetBatteryPower.serialize(), vec![0x30]);
    assert_eq!(OpCodes::GetMemoryMap.serialize(), vec![0x20]);
    assert_eq!(OpCodes::PowerOff.serialize(), vec![0x60]);
    let key = OpCodes::UnlockFirmware.serialize();
    assert_eq!(key[0], 0xa5);
    assert_eq!(&key[1..], b"Do you, byte, when I knock?");
}

#[test]
fn parameterized_bodies() {
    assert_eq!(OpCodes::PlaySound(Sound::Blip).serialize(), vec![0x51, 0x00]);
    assert_eq!(OpCodes::PlaySound(Sound::LowBuzz).serialize(), vec![0x51, 0x04]);
    assert_eq!(
        OpCodes::SetMotorDirection(Motor::MotorB, Direction::FlipDirection).serialize(),
        vec![0xe1, 0x06]
    );
    assert_eq!(
        OpCodes::SetMotorDirection(Motor::MotorABC, Direction::Backward).serialize(),
        vec![0xe1, 0x07]
    );
    assert_eq!(
        OpCodes::SetMotorOnOff(Motor::MotorB, State::Float).serialize(),
        vec![0x21, 0x02]
    );
    assert_eq!(
        OpCodes::SetMotorPower(Motor::MotorA, Power::Power7).serialize(),
        vec![0x13, 0x01, 0x02, 0x07]
    );
    assert_eq!(OpCodes::Wait(0).serialize(), vec![0x43, 0x02, 0x00]);
    assert_eq!(OpCodes::Wait(255).serialize(), vec![0x43, 0x02, 0xff]);
}

#[test]
fn enum_codes() {
    assert_eq!(u8::from(Sound::BeepBeep), 1);
    assert_eq!(u8::from(Sound::FastUpwardTones), 5);
    assert_eq!(u8::from(Motor::MotorAB), 0x01 | 0x02);
    assert_eq!(u8::from(Motor::MotorBC), 0x02 | 0x04);
    assert_eq!(u8::from(Motor::MotorABC), 0x01 | 0x02 | 0x04);
    assert_eq!(u8::from(Direction::Forward), 0x08);
    assert_eq!(u8::from(State::On), 0x80);
    assert_eq!(u8::from(State::Off), 0x40);
    assert_eq!(u8::from(Power::Coasting), 0);
    assert_eq!(u8::from(Power::Power3), 3);
}

#[test]
fn request_and_bytecode_classes() {
    assert!(OpCodes::Alive.is_request());
    assert!(!OpCodes::Alive.is_bytecode());
    assert!(OpCodes::UnlockFirmware.is_request());
    assert!(!OpCodes::UnlockFirmware.is_bytecode());
    assert!(!OpCodes::GetBatteryPower.is_bytecode());
    assert!(!OpCodes::GetMemoryMap.is_bytecode());
    assert!(OpCodes::PowerOff.is_request());
    assert!(OpCodes::PowerOff.is_bytecode());
    assert!(OpCodes::PlaySound(Sound::Blip).is_bytecode());
    assert!(OpCodes::SetMotorPower(Motor::MotorA, Power::Power1).is_request());
    assert!(!OpCodes::Wait(10).is_request());
    assert!(OpCodes::Wait(10).is_bytecode());
}

#[test]
fn from_gives_the_catalog_bodies() {
    assert_eq!(Vec::<u8>::from(OpCodes::Alive), vec![0x10]);
    assert_eq!(Vec::<u8>::from(OpCodes::GetBatteryPower), vec![0x30]);
    assert_eq!(Vec::<u8>::from(OpCodes::GetMemoryMap), vec![0x20]);
    assert_eq!(Vec::<u8>::from(OpCodes::PowerOff), vec![0x60]);
    assert_eq!(Vec::<u8>::from(OpCodes::UnlockFirmware).len(), 28);
    assert_eq!(Vec::<u8>::from(OpCodes::PlaySound(Sound::UpwardTones)), vec![0x51, 0x03]);
    assert_eq!(
        Vec::<u8>::from(OpCodes::SetMotorDirection(Motor::MotorC, Direction::Backward)),
        vec![0xe1, 0x04]
    );
    assert_eq!(
        Vec::<u8>::from(OpCodes::SetMotorOnOff(Motor::MotorABC, State::On)),
        vec![0x21, 0x87]
    );
    assert_eq!(
        Vec::<u8>::from(OpCodes::SetMotorPower(Motor::MotorB, Power::Power7)),
        vec![0x13, 0x02, 0x02, 0x07]
    );
    assert_eq!(Vec::<u8>::from(OpCodes::Wait(0x7f)), vec![0x43, 0x02, 0x7f]);
}
