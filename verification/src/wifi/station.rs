//! The station that joins the configured network.

use crate::bootstrap::{BootAction, BootEvent, BootState, transition};
use vstd::prelude::*;

verus! {

/// Takes the connection of the station one step further. The radio is
/// started and the connection is made. If the network refuses it, the stored
/// credentials are deleted, the radio is stopped and the device restarts, so
/// that the next boot opens the access point. If the network accepts it, the
/// network interface is waited for and the link is asked about until it is
/// established; then the clock may run. Any other failure ends the boot and
/// leaves the credentials stored.
pub fn connect_wifi_or_restart(state: BootState, event: BootEvent) -> (next: (
    BootState,
    BootAction,
))
    requires
        state.in_station(),
    ensures
        next == transition(state, event),
{
    match state {
        BootState::StationStarting => match event {
            BootEvent::Done => (BootState::Connecting, BootAction::Connect),
            _ => (BootState::Rebooting, BootAction::Reboot),
        },
        BootState::Connecting => match event {
            BootEvent::Done => (BootState::StationNetworkWait, BootAction::WaitForNetwork),
            BootEvent::Failed => (BootState::ClearingCredentials, BootAction::DeleteCredentials),
            _ => (BootState::Rebooting, BootAction::Reboot),
        },
        BootState::ClearingCredentials => match event {
            BootEvent::Done => (BootState::StationStopping, BootAction::StopRadio),
            BootEvent::Failed => (BootState::StationStopping, BootAction::StopRadio),
            _ => (BootState::Rebooting, BootAction::Reboot),
        },
        BootState::StationNetworkWait => match event {
            BootEvent::Done => (BootState::AwaitingLink, BootAction::PollLink),
            _ => (BootState::Rebooting, BootAction::Reboot),
        },
        BootState::AwaitingLink => match event {
            BootEvent::Link(false) => (BootState::AwaitingLink, BootAction::PollLink),
            BootEvent::Link(true) => (BootState::Operational, BootAction::Proceed),
            _ => (BootState::Rebooting, BootAction::Reboot),
        },
        _ => (BootState::Rebooting, BootAction::Reboot),
    }
}

} // verus!
