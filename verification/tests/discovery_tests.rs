use pylontech_mqtt_adapter::discovery::{
    connection_health, connection_settings, discovery_payload, module_sensors, stack_sensors, system_parameter_sensors, DeviceInfo, TopicLayout,
};
use pylontech_mqtt_adapter::config::MqttConfig;
use pylontech_mqtt_adapter::discovery::{
    cell_voltage_state_key, management_flag_sensors, management_info_keys, management_value_sensors, module_state_keys,
    stack_state_keys, system_parameter_keys, DeliveryQos,
};
use pylontech_mqtt_adapter::model::ModuleIdentity;

fn device() -> DeviceInfo {
    DeviceInfo {
        name: "Pylontech Battery 2".to_string(),
        identifiers: vec![],
        manufacturer: None,
        model: None,
        sw_version: None,
    }
}

#[test]
fn discovery_payload_uses_json_value_template() {
    let payload = discovery_payload(
        "sensor",
        "SoC",
        "battery_soc_2",
        "pylontech/module/2/state",
        "soc_percent",
        &device(),
        "pylontech/status",
        Some("battery"),
        Some("%"),
        Some("measurement"),
        None,
        None,
        Some(1),
    );

    assert_eq!(payload.value_template, "{{ value_json.soc_percent }}");
    assert_eq!(payload.state_topic, "pylontech/module/2/state");
    assert_eq!(payload.device_class.as_deref(), Some("battery"));
    assert_eq!(payload.suggested_display_precision, Some(1));
}

#[test]
fn binary_sensor_payload_uses_true_false() {
    let payload = discovery_payload(
        "binary_sensor",
        "Should Charge",
        "battery_management_should_charge_2",
        "pylontech/module/2/management/state",
        "should_charge",
        &device(),
        "pylontech/status",
        None,
        None,
        None,
        None,
        Some("diagnostic"),
        None,
    );

    assert_eq!(payload.payload_on.as_deref(), Some("true"));
    assert_eq!(payload.payload_off.as_deref(), Some("false"));
    assert_eq!(payload.payload_available, "online");
    assert_eq!(payload.payload_not_available, "offline");
}

fn layout() -> TopicLayout {
    TopicLayout { discovery_prefix: "homeassistant".to_string(), topic_prefix: "pylontech".to_string() }
}

#[test]
fn topics_follow_the_prefixes() {
    let l = layout();
    assert_eq!(l.availability_topic(), "pylontech/status");
    assert_eq!(l.stack_state_topic(), "pylontech/stack/state");
    assert_eq!(l.module_state_topic(2), "pylontech/module/2/state");
    assert_eq!(l.module_system_topic(12), "pylontech/module/12/system/state");
    assert_eq!(l.module_management_topic(3), "pylontech/module/3/management/state");
    assert_eq!(l.discovery_topic("sensor", "battery_soc_2"), "homeassistant/sensor/battery_soc_2/config");
}

#[test]
fn module_announcements_cover_every_sensor_and_cell() {
    let module = ModuleIdentity {
        address: 2,
        serial_number: "SER1".to_string(),
        manufacturer_name: "PYLON".to_string(),
        device_name: "US2000C".to_string(),
        software_version: "1.2".to_string(),
        cell_count: 15,
    };
    let l = layout();
    let messages = l.discovery_messages(&[module.clone()]);
    assert_eq!(messages.len(), 3 + 7 + 15 + 12 + 4 + 6);
    assert_eq!(messages[0].topic, "homeassistant/sensor/stack_disbalance/config");
    assert_eq!(messages[0].payload.device.identifiers, vec!["pylontech_battery_stack".to_string()]);
    assert_eq!(messages[3].topic, "homeassistant/sensor/battery_soc_2/config");
    assert_eq!(messages[3].payload.device.name, "Pylontech Battery 2");
    assert_eq!(
        messages[3].payload.device.identifiers,
        vec!["pylontech_battery_SER1".to_string(), "pylontech_battery_2".to_string()]
    );
    assert_eq!(messages[3].payload.device.model.as_deref(), Some("US2000C"));
    let cell = &messages[10 + 14];
    assert_eq!(cell.topic, "homeassistant/sensor/cell_voltage_2_14/config");
    assert_eq!(cell.payload.name, "Cell 14 Voltage");
    assert_eq!(cell.payload.value_template, "{{ value_json.cell_14_voltage }}");
    let system = &messages[25];
    assert_eq!(system.payload.state_topic, "pylontech/module/2/system/state");
    let flag = messages.last().unwrap();
    assert_eq!(flag.topic, "homeassistant/binary_sensor/battery_management_should_charge_2/config");
    assert_eq!(flag.payload.payload_on.as_deref(), Some("true"));
    assert_eq!(stack_sensors().len(), 3);
    assert_eq!(module_sensors().len(), 7);
    assert_eq!(system_parameter_sensors().len(), 12);
}

#[test]
fn unhealthy_connection_reports_last_error() {
    assert!(connection_health(true, None).is_ok());
    assert_eq!(
        connection_health(false, None).unwrap_err().message(),
        "mqtt disconnected: mqtt event loop stopped unexpectedly"
    );
    assert_eq!(
        connection_health(false, Some("mqtt event loop stopped: refused".to_string())).unwrap_err().message(),
        "mqtt disconnected: mqtt event loop stopped: refused"
    );
}

fn mqtt_config(username: Option<&str>, password: Option<&str>) -> MqttConfig {
    MqttConfig {
        host: "mqtt.local".to_string(),
        port: 1883,
        username: username.map(str::to_string),
        password: password.map(str::to_string),
        discovery_prefix: "homeassistant".to_string(),
        topic_prefix: "pylontech".to_string(),
        client_id: "client".to_string(),
    }
}

#[test]
fn connection_settings_carry_last_will_and_credentials() {
    let settings = connection_settings(&mqtt_config(None, Some("ignored")));
    assert_eq!(settings.client_id, "client");
    assert_eq!(settings.host, "mqtt.local");
    assert_eq!(settings.port, 1883);
    assert_eq!(settings.keep_alive_secs, 30);
    assert_eq!(settings.will_topic, "pylontech/status");
    assert_eq!(settings.will_payload, "offline");
    assert_eq!(settings.will_qos, DeliveryQos::AtLeastOnce);
    assert!(settings.will_retain);
    assert_eq!(settings.request_capacity, 32);
    assert!(settings.credentials.is_none());

    let with_user = connection_settings(&mqtt_config(Some("user"), None));
    assert_eq!(with_user.credentials, Some(("user".to_string(), String::new())));
    let with_password = connection_settings(&mqtt_config(Some("user"), Some("secret")));
    assert_eq!(with_password.credentials, Some(("user".to_string(), "secret".to_string())));
}

#[test]
fn announced_sensors_read_published_keys() {
    for sensor in stack_sensors() {
        assert!(stack_state_keys().contains(&sensor.state_key), "{}", sensor.state_key);
    }
    for sensor in module_sensors() {
        assert!(module_state_keys().contains(&sensor.state_key), "{}", sensor.state_key);
    }
    for sensor in system_parameter_sensors() {
        assert!(system_parameter_keys().contains(&sensor.state_key), "{}", sensor.state_key);
    }
    for sensor in management_value_sensors().into_iter().chain(management_flag_sensors()) {
        assert!(management_info_keys().contains(&sensor.state_key), "{}", sensor.state_key);
    }
    assert!(system_parameter_keys().contains(&"module_high_voltage_limit"));
    assert!(management_info_keys().contains(&"charge_enable"));
    assert_eq!(cell_voltage_state_key(12), "cell_12_voltage");
}
