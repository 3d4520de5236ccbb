use robus::Command;
use robus::Module;
use robus::ModuleType;
use robus::ParsingError;
use robus::ProtocolCommand;

#[test]
fn module_setup() {
    let alias = "fire_button";
    let mod_type = ModuleType::Button;

    let module = Module::new(alias, mod_type).unwrap();

    assert_eq!(module.alias, alias.as_bytes().to_vec());
    assert_eq!(module.id, 0);
    assert_eq!(module.mod_type, mod_type);
}

#[test]
fn alias_too_long() {
    let alias = "a_very_long_alias_over_the_limit";

    assert!(alias.len() > 15);
    match Module::new(alias, ModuleType::Button) {
        Err(ParsingError::AliasTooLong(n)) => assert_eq!(n, alias.len()),
        other => panic!("expected the alias to be rejected, got {:?}", other),
    }
}

#[test]
fn alias_limit_is_inclusive() {
    let alias = "exactly_15bytes";

    assert_eq!(alias.len(), 15);
    assert!(Module::new(alias, ModuleType::Button).is_ok());
}

#[test]
fn sensor_types() {
    assert!(ModuleType::Button.is_sensor());
    assert!(ModuleType::Potentiometer.is_sensor());
    assert!(ModuleType::Encoder.is_sensor());
    assert!(!ModuleType::RgbLed.is_sensor());
    assert!(!ModuleType::Sniffer.is_sensor());
    assert!(!ModuleType::Gate.is_sensor());
}

#[test]
fn type_names() {
    assert_eq!(ModuleType::Gate.as_str(), "gate");
    assert_eq!(ModuleType::Button.as_str(), "button");
    assert_eq!(ModuleType::RgbLed.as_str(), "led");
    assert_eq!(ModuleType::Sniffer.as_str(), "sniffer");
    assert_eq!(ModuleType::L0DCmotor.as_str(), "l0_dc_motor");
}

#[test]
fn field_names() {
    assert_eq!(ModuleType::Button.as_field(), "state");
    assert_eq!(ModuleType::DistanceSensor.as_field(), "distance");
    assert_eq!(ModuleType::Potentiometer.as_field(), "position");
    assert_eq!(ModuleType::Stepper.as_field(), "position");
}

#[test]
fn command_codes() {
    assert_eq!(Command::Identify.code(), 30);
    assert_eq!(Command::Identify.code(), ProtocolCommand::_OffsetNumber.code());
    assert_eq!(Command::Introduction.code(), 31);
    assert_eq!(Command::GetState.code(), 32);
    assert_eq!(Command::PublishState.code(), 33);
    assert_eq!(ProtocolCommand::GetId.code(), 0);
    assert_eq!(ProtocolCommand::GetComRevision.code(), 6);
    assert_eq!(Command::from_code(33), Some(Command::PublishState));
    assert_eq!(Command::from_code(29), None);
    assert_eq!(Command::from_code(50), None);
}
