//! Registry, routing and event fan-in behaviour of the gateway router.

use ferredge::bridge::ReferenceBridge;
use ferredge::command::{Command, CommandType};
use ferredge::device::{
    Device, DeviceEndpoint, DeviceResource, DeviceResourceAccessPermission, DeviceStatus,
};
use ferredge::driver::{Driver, InProcessDriver};
use ferredge::error::RouterError;
use ferredge::http::HttpResourceAttributes;
use ferredge::router::{GatewayRouter, Message, Router};

fn attrs(slug: &str) -> HttpResourceAttributes {
    HttpResourceAttributes { slug: slug.to_string(), method: "GET".to_string(), headers: None }
}

fn resource(
    name: &str,
    permission: Option<DeviceResourceAccessPermission>,
) -> DeviceResource<HttpResourceAttributes> {
    DeviceResource {
        name: name.to_string(),
        resource_attributes: attrs("/api"),
        unit: None,
        permission,
    }
}

fn device(
    id: &str,
    endpoint: DeviceEndpoint,
    resources: Vec<DeviceResource<HttpResourceAttributes>>,
) -> Device<HttpResourceAttributes> {
    Device {
        id: id.to_string(),
        name: id.to_string(),
        status: DeviceStatus::Unknown,
        endpoint,
        metadata: None,
        max_connections: None,
        resources: Some(resources),
    }
}

fn http_endpoint() -> DeviceEndpoint {
    DeviceEndpoint::Http { url: "127.0.0.1:8080".to_string() }
}

fn router() -> GatewayRouter<HttpResourceAttributes, InProcessDriver, ReferenceBridge> {
    GatewayRouter::new(InProcessDriver::new(), ReferenceBridge {})
}

fn command(id: &str, target: &str, ct: CommandType, res: &str) -> Command {
    Command {
        id: id.to_string(),
        target_device_id: target.to_string(),
        command_type: ct,
        resource: res.to_string(),
        payload: None,
    }
}

#[test]
fn register_duplicate_id_conflicts() {
    let mut r = router();
    let first = device("sensor-1", http_endpoint(), vec![resource(
        "temp",
        Some(DeviceResourceAccessPermission::read()),
    )]);
    assert!(r.register_device(first).is_ok());
    let mut second = device("sensor-1", http_endpoint(), vec![]);
    second.status = DeviceStatus::Online;
    let outcome = r.register_device(second);
    assert_eq!(outcome, Err(RouterError::RegistrationConflict));
    assert_eq!(r.device_count(), 1);
    // the original record is untouched
    assert_eq!(r.device_status(&"sensor-1".to_string()), Some(DeviceStatus::Unknown));
}

#[test]
fn absent_permission_denies_every_command_type() {
    let mut r = router();
    let d = device("sensor-1", http_endpoint(), vec![resource("temp", None)]);
    r.register_device(d).unwrap();
    for ct in [CommandType::Get, CommandType::Write, CommandType::Action] {
        let outcome = r.route_command(command("c", "sensor-1", ct, "temp"));
        assert!(matches!(outcome, Err(RouterError::PermissionDenied)));
    }
}

#[test]
fn unknown_resource_is_rejected_for_every_command_type() {
    let mut r = router();
    let d = device("sensor-1", http_endpoint(), vec![resource(
        "temp",
        Some(DeviceResourceAccessPermission::read()),
    )]);
    r.register_device(d).unwrap();
    for ct in [CommandType::Get, CommandType::Write, CommandType::Action] {
        let mut c = command("c", "sensor-1", ct, "humidity");
        c.payload = Some(vec![1, 2, 3]);
        let outcome = r.route_command(c);
        assert!(matches!(outcome, Err(RouterError::UnknownResource)));
    }
}

#[test]
fn same_protocol_device_to_device_matches_direct_routing() {
    let perm = Some(DeviceResourceAccessPermission::read());
    let make = || {
        let mut r = router();
        r.register_device(device("a", http_endpoint(), vec![])).unwrap();
        r.register_device(device("b", http_endpoint(), vec![resource("temp", perm)])).unwrap();
        r
    };
    let mut direct = make();
    let mut bridged = make();
    let got_direct = direct.route_command(command("c1", "b", CommandType::Get, "temp")).unwrap();
    let got_bridged = bridged
        .route_device_to_device("a".to_string(), command("c1", "b", CommandType::Get, "temp"))
        .unwrap();
    assert_eq!(got_direct.command_id, got_bridged.command_id);
    assert_eq!(got_direct.device_id, got_bridged.device_id);
    assert_eq!(got_direct.res, got_bridged.res);
}

#[test]
fn cross_protocol_device_to_device_translates_resource_names() {
    let mut r = router();
    r.register_device(device(
        "panel",
        DeviceEndpoint::Mqtt { broker: "tcp://broker:1883".to_string() },
        vec![],
    ))
    .unwrap();
    r.register_device(device("web", http_endpoint(), vec![resource(
        "/temp",
        Some(DeviceResourceAccessPermission::read()),
    )]))
    .unwrap();
    // the MQTT-side name "temp" becomes the HTTP-side name "/temp"
    let got = r
        .route_device_to_device("panel".to_string(), command("c7", "web", CommandType::Get, "temp"))
        .unwrap();
    assert_eq!(got.command_id, "c7");
    assert_eq!(got.device_id, "web");
    assert_eq!(got.res, Ok(None));
}

#[test]
fn unsupported_pair_fails_before_any_dispatch() {
    let mut r = router();
    r.register_device(device(
        "plc",
        DeviceEndpoint::ModbusTCP { addr: "10.0.0.2".to_string(), port: 502 },
        vec![],
    ))
    .unwrap();
    r.register_device(device("web", http_endpoint(), vec![resource(
        "/temp",
        Some(DeviceResourceAccessPermission::read()),
    )]))
    .unwrap();
    let outcome =
        r.route_device_to_device("plc".to_string(), command("c8", "web", CommandType::Get, "temp"));
    assert!(matches!(outcome, Err(RouterError::UnsupportedTranslation)));
    assert!(r.outbox.is_empty());
}

#[test]
fn scenario_http_get_succeeds() {
    let mut r = router();
    r.register_device(device("sensor-1", http_endpoint(), vec![resource(
        "temp",
        Some(DeviceResourceAccessPermission::read()),
    )]))
    .unwrap();
    let got = r.route_command(command("c1", "sensor-1", CommandType::Get, "temp")).unwrap();
    assert_eq!(got.command_id, "c1");
    assert_eq!(got.device_id, "sensor-1");
    assert!(got.res.is_ok());
}

#[test]
fn scenario_write_on_read_only_resource_is_denied() {
    let mut r = router();
    r.register_device(device("sensor-1", http_endpoint(), vec![resource(
        "temp",
        Some(DeviceResourceAccessPermission::read()),
    )]))
    .unwrap();
    let outcome = r.route_command(command("c2", "sensor-1", CommandType::Write, "temp"));
    assert!(matches!(outcome, Err(RouterError::PermissionDenied)));
}

#[test]
fn scenario_unregistered_device_is_unknown() {
    let mut r = router();
    let outcome = r.route_command(command("c3", "ghost", CommandType::Get, "temp"));
    assert!(matches!(outcome, Err(RouterError::UnknownDevice)));
}

#[test]
fn dispatched_results_are_forwarded_to_the_outbox() {
    let mut r = router();
    r.register_device(device("sensor-1", http_endpoint(), vec![resource(
        "temp",
        Some(DeviceResourceAccessPermission::read()),
    )]))
    .unwrap();
    let mut c = command("c4", "sensor-1", CommandType::Get, "temp");
    c.payload = Some(vec![9, 9]);
    let got = r.route_command(c).unwrap();
    assert_eq!(got.res, Ok(Some(vec![9, 9])));
    assert_eq!(r.outbox.len(), 1);
    match &r.outbox[0] {
        Message::Response(res) => {
            assert_eq!(res.command_id, "c4");
            assert_eq!(res.res, Ok(Some(vec![9, 9])));
        },
        _ => panic!("expected a forwarded response"),
    }
}

#[test]
fn events_update_status_and_are_forwarded() {
    let mut r = router();
    let mut d = device("sensor-1", http_endpoint(), vec![]);
    d.status = DeviceStatus::Offline;
    r.register_device(d).unwrap();
    let event = ferredge::router::DeviceEvent {
        device_id: "sensor-1".to_string(),
        timestamp: 42,
        data: vec![1],
    };
    assert_eq!(r.handle_event(event), Ok(()));
    // first event after Offline brings the device Online
    assert_eq!(r.device_status(&"sensor-1".to_string()), Some(DeviceStatus::Online));
    assert_eq!(r.outbox.len(), 1);
    match &r.outbox[0] {
        Message::Event(e) => {
            assert_eq!(e.device_id, "sensor-1");
            assert_eq!(e.timestamp, 42);
        },
        _ => panic!("expected a forwarded event"),
    }
}

#[test]
fn events_from_unknown_devices_are_rejected() {
    let mut r = router();
    let event = ferredge::router::DeviceEvent {
        device_id: "ghost".to_string(),
        timestamp: 1,
        data: vec![],
    };
    assert_eq!(r.handle_event(event), Err(RouterError::UnknownDevice));
    assert!(r.outbox.is_empty());
}

#[test]
fn status_transitions_are_recorded_by_the_router() {
    let mut r = router();
    r.register_device(device("sensor-1", http_endpoint(), vec![])).unwrap();
    assert_eq!(
        r.set_device_status(&"sensor-1".to_string(), DeviceStatus::Maintenance),
        Ok(())
    );
    assert_eq!(r.device_status(&"sensor-1".to_string()), Some(DeviceStatus::Maintenance));
    assert_eq!(
        r.set_device_status(&"ghost".to_string(), DeviceStatus::Online),
        Err(RouterError::UnknownDevice)
    );
}

#[test]
fn deregistered_devices_reject_new_commands_immediately() {
    let mut r = router();
    r.register_device(device("sensor-1", http_endpoint(), vec![resource(
        "temp",
        Some(DeviceResourceAccessPermission::read()),
    )]))
    .unwrap();
    assert!(r.route_command(command("c1", "sensor-1", CommandType::Get, "temp")).is_ok());
    assert_eq!(r.deregister_device(&"sensor-1".to_string()), Ok(()));
    assert_eq!(r.device_count(), 0);
    let outcome = r.route_command(command("c2", "sensor-1", CommandType::Get, "temp"));
    assert!(matches!(outcome, Err(RouterError::UnknownDevice)));
    assert_eq!(r.deregister_device(&"sensor-1".to_string()), Err(RouterError::UnknownDevice));
}

#[test]
fn in_process_driver_start_is_not_idempotent() {
    let mut d = InProcessDriver::new();
    assert_eq!(d.start(), Ok(()));
    assert_eq!(d.start(), Err(RouterError::DriverStartFailed));
    assert_eq!(d.stop(), Ok(()));
    assert_eq!(d.stop(), Ok(()));
    assert_eq!(d.start(), Ok(()));
}

#[test]
fn error_kinds_carry_messages() {
    assert_eq!(RouterError::UnknownDevice.message(), "unknown device");
    assert_eq!(RouterError::RegistrationConflict.message(), "registration conflict");
    assert_eq!(RouterError::TranslationFailed.message(), "translation failed");
    assert_eq!(RouterError::DriverExecutionFailed.message(), "driver execution failed");
    assert_eq!(RouterError::DriverStopFailed.message(), "driver stop failed");
}
