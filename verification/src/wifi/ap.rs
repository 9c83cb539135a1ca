//! The access point that the device opens to be configured.

use crate::bootstrap::{BootAction, BootEvent, BootState, transition};
use vstd::prelude::*;

verus! {

/// The name of the network that the access point opens.
pub const AP_SSID: &'static str = "esp-clock";

/// The password of the access point, for WPA2-Personal.
pub const AP_PASS: &'static str = "bttf-rust";

/// How many clients the access point admits at a time.
pub const AP_MAX_CONNECTIONS: u16 = 4;

/// The length of the network prefix of the access point's subnet, in bits.
pub const AP_SUBNET_MASK: u8 = 24;

/// Takes the bring-up of the access point one step further: the radio is
/// started, then the network interface is waited for, then the DNS responder
/// is due. A failure of either ends the boot.
pub fn start_wifi_ap(state: BootState, event: BootEvent) -> (next: (BootState, BootAction))
    requires
        state.starting_access_point(),
    ensures
        next == transition(state, event),
{
    match state {
        BootState::ApStarting => match event {
            BootEvent::Done => (BootState::ApNetworkWait, BootAction::WaitForNetwork),
            _ => (BootState::Rebooting, BootAction::Reboot),
        },
        _ => match event {
            BootEvent::Done => (BootState::DnsBinding, BootAction::BindDns),
            _ => (BootState::Rebooting, BootAction::Reboot),
        },
    }
}

} // verus!
