//! Device configuration.
//!
//! All fields are fixed before the core starts and are only read afterwards.
//! `Default` gives the design-time values; the embedding program may build a
//! `Config` from any other source and hand it in as plain values.

use vstd::prelude::*;

verus! {

/// The device's static configuration: network credentials, pin assignment,
/// broker address, topics, and timing.
pub struct Config {
    pub wifi_ssid: &'static str,
    pub wifi_psk: &'static str,
    pub led_strip_gpio: u32,
    pub indicator_led_gpio: u32,
    pub publish_status_interval_s: u32,
    pub mqtt_broker_address: &'static str,
    pub mqtt_subscribe_topic: &'static str,
    pub mqtt_publish_topic: &'static str,
    pub mqtt_client_id: &'static str,
    pub num_leds: usize,
}

impl Default for Config {
    /// The design-time default configuration.
    fn default() -> (c: Config)
        ensures
            c.wifi_ssid@ == ""@,
            c.wifi_psk@ == ""@,
            c.led_strip_gpio == 6,
            c.indicator_led_gpio == 8,
            c.publish_status_interval_s == 30,
            c.mqtt_broker_address@ == "mqtt://localhost:1883"@,
            c.mqtt_subscribe_topic@ == "led-color/office"@,
            c.mqtt_publish_topic@ == "status/led-office"@,
            c.mqtt_client_id@ == "client-1"@,
            c.num_leds == 1,
    {
        Config {
            wifi_ssid: "",
            wifi_psk: "",
            led_strip_gpio: 6,
            indicator_led_gpio: 8,
            publish_status_interval_s: 30,
            mqtt_broker_address: "mqtt://localhost:1883",
            mqtt_subscribe_topic: "led-color/office",
            mqtt_publish_topic: "status/led-office",
            mqtt_client_id: "client-1",
            num_leds: 1,
        }
    }
}

} // verus!
