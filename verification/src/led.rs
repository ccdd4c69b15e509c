//! Colors and LED peripherals.
//!
//! A color is an opaque triple of 8-bit channel values (red, green, blue);
//! equality is component-wise and there is no ordering.  `Led` describes one
//! physical LED output (a driver channel, a GPIO pin, and a pixel count); the
//! driver that actually pushes pixels onto the wire is hardware-specific and
//! lives outside this crate, taking the color and the `Led` description as
//! plain values.

use vstd::prelude::*;

verus! {

/// An RGB color: one 8-bit value per channel.
pub type RgbColor = (u8, u8, u8);

/// The fixed palette shown on the indicator LED for each connection state.
pub struct IndicatorLedConfig {
    /// Shown while the device has no network association.
    pub disconnected: RgbColor,
    /// Shown once the wireless network is up but the broker is not.
    pub wifi_connection: RgbColor,
    /// Shown while the message-broker connection is up.
    pub message_broker_connection: RgbColor,
}

impl IndicatorLedConfig {
    pub fn new() -> (c: IndicatorLedConfig)
        ensures
            c.disconnected == ((255u8, 0u8, 0u8)),
            c.wifi_connection == ((255u8, 50u8, 0u8)),
            c.message_broker_connection == ((0u8, 20u8, 20u8)),
    {
        IndicatorLedConfig {
            disconnected: (255, 0, 0),
            wifi_connection: (255, 50, 0),
            message_broker_connection: (0, 20, 20),
        }
    }
}

/// Description of one LED output: which driver channel and GPIO pin it is
/// wired to, and how many pixels it holds.  Pure data; the pixel driver
/// itself is hardware-specific and stays outside the crate.
pub struct Led {
    pub ch_num: u8,
    pub gpio: u32,
    pub num_leds: usize,
}

impl Led {
    pub fn new(ch_num: u8, gpio: u32, num_leds: usize) -> (l: Led)
        ensures
            l.ch_num == ch_num,
            l.gpio == gpio,
            l.num_leds == num_leds,
    {
        Led { ch_num, gpio, num_leds }
    }
}

} // verus!
