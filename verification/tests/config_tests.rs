use pylontech_mqtt_adapter::backoff::ReconnectBackoff;
use pylontech_mqtt_adapter::config::{load_password, normalize_topic_segment, CliArgs};

fn args() -> CliArgs {
    CliArgs {
        source_host: "battery.local".to_string(),
        source_port: 23,
        timeout_millis: 2_000,
        interval_millis: 1_000,
        management_interval_millis: 30_000,
        scan_start: 2,
        scan_end: 9,
        reconnect_initial_delay_millis: 10_000,
        reconnect_max_delay_millis: 1_000,
        stats_interval_millis: 300_000,
        mqtt_host: "mqtt.local".to_string(),
        mqtt_port: 1883,
        mqtt_user: None,
        mqtt_password: None,
        mqtt_password_file: None,
        discovery_prefix: "homeassistant".to_string(),
        topic_prefix: "pylontech".to_string(),
        client_id: "client".to_string(),
    }
}

#[test]
fn into_config_rejects_reconnect_initial_delay_above_max() {
    let error = args().into_config(None).unwrap_err();
    assert!(error
        .message()
        .contains("reconnect initial delay 10000 cannot be greater than reconnect max delay 1000"));
}

#[test]
fn reconnect_backoff_doubles_and_caps() {
    let mut backoff = ReconnectBackoff::new(1_000, 5_000);

    assert_eq!(backoff.next_delay(), 1_000);
    assert_eq!(backoff.next_delay(), 2_000);
    assert_eq!(backoff.next_delay(), 4_000);
    assert_eq!(backoff.next_delay(), 5_000);
    assert_eq!(backoff.next_delay(), 5_000);

    backoff.reset();
    assert_eq!(backoff.next_delay(), 1_000);
}

#[test]
fn backoff_saturates_instead_of_overflowing() {
    let mut backoff = ReconnectBackoff::new(u64::MAX / 2 + 1, u64::MAX);
    assert_eq!(backoff.next_delay(), u64::MAX / 2 + 1);
    assert_eq!(backoff.next_delay(), u64::MAX);
    let mut above = ReconnectBackoff::new(10, 3);
    assert_eq!(above.next_delay(), 10);
    assert_eq!(above.next_delay(), 3);
}

#[test]
fn valid_arguments_become_a_trimmed_config() {
    let mut a = args();
    a.reconnect_initial_delay_millis = 1_000;
    a.reconnect_max_delay_millis = 30_000;
    a.source_host = "  battery.local\t".to_string();
    a.mqtt_user = Some(" mqtt ".to_string());
    a.mqtt_password = Some("secret".to_string());
    a.discovery_prefix = " /homeassistant/ ".to_string();
    a.topic_prefix = "//pylontech".to_string();
    let config = a.into_config(None).unwrap();
    assert_eq!(config.source.host, "battery.local");
    assert_eq!(config.source.timeout_millis, 2_000);
    assert_eq!(config.mqtt.username.as_deref(), Some("mqtt"));
    assert_eq!(config.mqtt.password.as_deref(), Some("secret"));
    assert_eq!(config.mqtt.discovery_prefix, "homeassistant");
    assert_eq!(config.mqtt.topic_prefix, "pylontech");
    assert_eq!(config.polling.addresses(), 2..=9);
}

#[test]
fn each_argument_rule_has_its_message() {
    let base = || {
        let mut a = args();
        a.reconnect_initial_delay_millis = 1_000;
        a
    };
    let cases: Vec<(Box<dyn Fn(&mut CliArgs)>, &str)> = vec![
        (Box::new(|a| a.source_host = " ".to_string()), "invalid configuration: source host cannot be empty"),
        (Box::new(|a| a.mqtt_host = String::new()), "invalid configuration: mqtt host cannot be empty"),
        (Box::new(|a| a.timeout_millis = 0), "invalid configuration: timeout must be greater than zero"),
        (Box::new(|a| a.interval_millis = 0), "invalid configuration: interval must be greater than zero"),
        (Box::new(|a| a.management_interval_millis = 0), "invalid configuration: management interval must be greater than zero"),
        (Box::new(|a| a.scan_start = 10), "invalid configuration: scan start 10 cannot be greater than scan end 9"),
        (Box::new(|a| a.reconnect_initial_delay_millis = 0), "invalid configuration: reconnect initial delay must be greater than zero"),
        (Box::new(|a| a.reconnect_max_delay_millis = 0), "invalid configuration: reconnect max delay must be greater than zero"),
        (Box::new(|a| a.stats_interval_millis = 0), "invalid configuration: stats interval must be greater than zero"),
        (Box::new(|a| a.mqtt_password = Some("p".to_string())), "invalid configuration: mqtt password requires --mqtt-user"),
        (Box::new(|a| a.discovery_prefix = " // ".to_string()), "invalid configuration: discovery prefix cannot be empty"),
        (Box::new(|a| a.topic_prefix = "/".to_string()), "invalid configuration: topic prefix cannot be empty"),
    ];
    for (change, message) in cases {
        let mut a = base();
        change(&mut a);
        assert_eq!(a.into_config(None).unwrap_err().message(), message);
    }
}

#[test]
fn password_sources_exclude_each_other() {
    let path = Some(std::path::PathBuf::from("/run/secret"));
    assert_eq!(
        load_password(Some("a".to_string()), path.clone(), None).unwrap_err().message(),
        "invalid configuration: use either --mqtt-password or --mqtt-password-file"
    );
    assert_eq!(
        load_password(None, path.clone(), Some(" \n".to_string())).unwrap_err().message(),
        "invalid configuration: mqtt password file was empty"
    );
    assert_eq!(load_password(None, path, Some(" pw\n".to_string())).unwrap(), Some("pw".to_string()));
    assert_eq!(load_password(None, None, None).unwrap(), None);
    assert_eq!(normalize_topic_segment(" a/b/ ", "x").unwrap(), "a/b");
}
