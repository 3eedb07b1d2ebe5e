//! Bridge support matrix and translation behaviour.

use ferredge::bridge::{ProtocolBridge, ReferenceBridge};
use ferredge::command::{Command, CommandType};
use ferredge::device::DeviceProtocol;
use ferredge::error::RouterError;

fn command(resource: &str) -> Command {
    Command {
        id: "c1".to_string(),
        target_device_id: "dev".to_string(),
        command_type: CommandType::Action,
        resource: resource.to_string(),
        payload: Some(vec![1, 2, 3]),
    }
}

const ALL: [DeviceProtocol; 4] =
    [DeviceProtocol::MQTT, DeviceProtocol::HTTP, DeviceProtocol::Modbus, DeviceProtocol::CoAP];

#[test]
fn identity_pairs_are_always_supported() {
    let b = ReferenceBridge {};
    for p in ALL {
        assert!(b.supports_translation(&p, &p));
    }
}

#[test]
fn modbus_crosses_no_protocol_boundary() {
    let b = ReferenceBridge {};
    for p in [DeviceProtocol::MQTT, DeviceProtocol::HTTP, DeviceProtocol::CoAP] {
        assert!(!b.supports_translation(&DeviceProtocol::Modbus, &p));
        assert!(!b.supports_translation(&p, &DeviceProtocol::Modbus));
    }
}

#[test]
fn unsupported_pairs_always_fail_with_unsupported_translation() {
    let b = ReferenceBridge {};
    let got = b.translate_command(command("temp"), DeviceProtocol::Modbus, DeviceProtocol::HTTP);
    assert_eq!(got.unwrap_err(), RouterError::UnsupportedTranslation);
    let got = b.translate_command(command("/temp"), DeviceProtocol::HTTP, DeviceProtocol::Modbus);
    assert_eq!(got.unwrap_err(), RouterError::UnsupportedTranslation);
}

#[test]
fn identity_translation_returns_the_command_unchanged() {
    let b = ReferenceBridge {};
    let got =
        b.translate_command(command("temp"), DeviceProtocol::MQTT, DeviceProtocol::MQTT).unwrap();
    assert_eq!(got.id, "c1");
    assert_eq!(got.target_device_id, "dev");
    assert_eq!(got.resource, "temp");
    assert_eq!(got.payload, Some(vec![1, 2, 3]));
}

#[test]
fn http_naming_strips_and_restores_the_path_prefix() {
    let b = ReferenceBridge {};
    let there =
        b.translate_command(command("/temp"), DeviceProtocol::HTTP, DeviceProtocol::MQTT).unwrap();
    assert_eq!(there.resource, "temp");
    assert_eq!(there.command_type, CommandType::Action);
    let back = b.translate_command(there, DeviceProtocol::MQTT, DeviceProtocol::HTTP).unwrap();
    assert_eq!(back.resource, "/temp");
    assert_eq!(back.id, "c1");
    assert_eq!(back.target_device_id, "dev");
    assert_eq!(back.command_type, CommandType::Action);
    assert_eq!(back.payload, Some(vec![1, 2, 3]));
}

#[test]
fn translation_is_deterministic() {
    let b = ReferenceBridge {};
    let one =
        b.translate_command(command("/x/y"), DeviceProtocol::HTTP, DeviceProtocol::CoAP).unwrap();
    let two =
        b.translate_command(command("/x/y"), DeviceProtocol::HTTP, DeviceProtocol::CoAP).unwrap();
    assert_eq!(one.resource, two.resource);
    assert_eq!(one.id, two.id);
    assert_eq!(one.payload, two.payload);
}

#[test]
fn http_source_without_path_prefix_fails_translation() {
    let b = ReferenceBridge {};
    let got = b.translate_command(command("temp"), DeviceProtocol::HTTP, DeviceProtocol::MQTT);
    assert_eq!(got.unwrap_err(), RouterError::TranslationFailed);
}

#[test]
fn non_http_pairs_keep_resource_names() {
    let b = ReferenceBridge {};
    let got =
        b.translate_command(command("temp"), DeviceProtocol::MQTT, DeviceProtocol::CoAP).unwrap();
    assert_eq!(got.resource, "temp");
}
