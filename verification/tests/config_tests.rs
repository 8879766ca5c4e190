use serial_tcp_bridge::app::App;
use serial_tcp_bridge::config::{Config, IpAddress};

#[test]
fn default_config_matches_the_documented_values() {
    let config = Config::default();
    assert_eq!(config.serial_device_path, "/dev/ttyUSB1");
    assert_eq!(config.serial_baud_rate, 115200);
    assert!(config.poll_serial);
    assert_eq!(config.bind_address, IpAddress::V4(0, 0, 0, 0));
    assert_eq!(config.bind_port, 2022);
}

#[test]
fn explicit_config_keeps_every_field() {
    let config = Config::new(
        "/dev/ttyACM0".to_owned(),
        9600,
        false,
        IpAddress::V6(0, 0, 0, 0, 0, 0, 0, 1),
        0,
    );
    assert_eq!(config.serial_device_path, "/dev/ttyACM0");
    assert_eq!(config.serial_baud_rate, 9600);
    assert!(!config.poll_serial);
    assert_eq!(config.bind_address, IpAddress::V6(0, 0, 0, 0, 0, 0, 0, 1));
    // A port of 0 asks the operating system for a free port and is permitted.
    assert_eq!(config.bind_port, 0);
}

#[test]
fn every_app_instance_is_the_same_value() {
    assert_eq!(App::instance(), App::new());
}
