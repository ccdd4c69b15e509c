use led_controller::config::Config;
use led_controller::led::{IndicatorLedConfig, Led};
use led_controller::status_store;
use led_controller::wifi_control::{check_credentials_not_empty, CredentialsError};

#[test]
fn default_config_matches_design_values() {
    let c = Config::default();
    assert_eq!(c.wifi_ssid, "");
    assert_eq!(c.wifi_psk, "");
    assert_eq!(c.led_strip_gpio, 6);
    assert_eq!(c.indicator_led_gpio, 8);
    assert_eq!(c.publish_status_interval_s, 30);
    assert_eq!(c.mqtt_broker_address, "mqtt://localhost:1883");
    assert_eq!(c.mqtt_subscribe_topic, "led-color/office");
    assert_eq!(c.mqtt_publish_topic, "status/led-office");
    assert_eq!(c.mqtt_client_id, "client-1");
    assert_eq!(c.num_leds, 1);
}

#[test]
fn indicator_palette_has_one_color_per_state() {
    let p = IndicatorLedConfig::new();
    assert_eq!(p.disconnected, (255, 0, 0));
    assert_eq!(p.wifi_connection, (255, 50, 0));
    assert_eq!(p.message_broker_connection, (0, 20, 20));
}

#[test]
fn led_keeps_its_wiring() {
    let led = Led::new(1, 8, 61);
    assert_eq!(led.ch_num, 1);
    assert_eq!(led.gpio, 8);
    assert_eq!(led.num_leds, 61);
}

#[test]
fn credentials_must_both_be_present() {
    assert!(check_credentials_not_empty("net", "secret").is_ok());
    assert_eq!(
        check_credentials_not_empty("", "secret"),
        Err(CredentialsError::MissingSsid)
    );
    assert_eq!(
        check_credentials_not_empty("net", ""),
        Err(CredentialsError::MissingPassword)
    );
    // An empty name is reported before an empty password.
    assert_eq!(
        check_credentials_not_empty("", ""),
        Err(CredentialsError::MissingSsid)
    );
}

#[test]
fn store_status_tracks_previous_color() {
    let mut s = status_store::Status::new();
    assert_eq!(s.current_color, (0, 0, 0));
    assert_eq!(s.last_color, (0, 0, 0));
    assert_eq!(s.last_changed, 0);
    s.set_new_status((10, 20, 30));
    assert_eq!(s.current_color, (10, 20, 30));
    assert_eq!(s.last_color, (0, 0, 0));
    s.set_new_status((40, 50, 60));
    assert_eq!(s.current_color, (40, 50, 60));
    assert_eq!(s.last_color, (10, 20, 30));
    assert_eq!(s.last_changed, 0);
}
