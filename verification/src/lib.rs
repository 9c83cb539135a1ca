//! Verified core of a Wi-Fi clock: the boot sequence that chooses between
//! the access point and the station, the captive portal and the DNS responder
//! that points every name at the device, the storage of the credentials, and
//! the rules behind the displays, the LED strip and the web portal.
//!
//! Nothing here touches the hardware or the network. Each part decides and
//! computes on plain values; the firmware around it reads the sockets, the
//! flash and the clock, and writes to the pins.

pub mod bootstrap;
pub mod error;
pub mod module;
pub mod nvs;
pub mod prefs;
pub mod server;
pub mod service;
pub mod theme;
pub mod time;
pub mod util;
pub mod wifi;
