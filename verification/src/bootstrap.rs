//! The boot sequence: the decisions that take the device from power-on into
//! normal operation or into a reboot.
//!
//! The sequence performs nothing itself. It is a state machine: `step` takes
//! the state and the outcome of what was done last, and gives the next state
//! and what to do next. Whoever drives it starts in `BootState::Init` by
//! reading the stored credentials, performs each action and reports how it
//! went. The steps that bring up the access point, that wait on the portal
//! and that connect the station are taken by `start_wifi_ap`,
//! `start_captive_portal` and `connect_wifi_or_restart`.
//!
//! With no credentials stored, the device opens an access point, answers DNS
//! and HTTP on it and waits, for as long as it takes, until the portal has put
//! credentials into the mailbox; it stores them and reboots. With credentials
//! stored, it joins that network as a station; if the network refuses, it
//! deletes the credentials and reboots, so that the next boot opens the access
//! point again. No failure is retried within one boot: each ends in a reboot.

use crate::server::captive_portal::start_captive_portal;
use crate::wifi::WifiCredentials;
use crate::wifi::ap::start_wifi_ap;
use crate::wifi::station::connect_wifi_or_restart;
use vstd::prelude::*;

verus! {

/// Where the boot sequence stands. Each state but the first and the two last
/// waits for the outcome of the action named in its description.
#[derive(Copy, Clone, Debug, PartialEq, Eq, Structural)]
pub enum BootState {
    /// Power-on: the stored credentials are being read.
    Init,
    /// Access point: the radio is being started.
    ApStarting,
    /// Access point: waiting for the network interface to come up.
    ApNetworkWait,
    /// Access point: the DNS responder is being bound and started.
    DnsBinding,
    /// Access point: the portal's HTTP server is being started.
    PortalStarting,
    /// Access point: waiting for credentials to appear in the mailbox.
    AwaitingCredentials,
    /// Access point: the received credentials are being stored.
    Persisting,
    /// Access point: the radio is being stopped before the reboot.
    ApStopping,
    /// Station: the radio is being started with the stored credentials.
    StationStarting,
    /// Station: the connection to the network is being made.
    Connecting,
    /// Station: waiting for the network interface to come up.
    StationNetworkWait,
    /// Station: waiting for the link to be reported as established.
    AwaitingLink,
    /// Station: the connection failed and the credentials are being deleted.
    ClearingCredentials,
    /// Station: the radio is being stopped before the reboot.
    StationStopping,
    /// The device is connected and runs as a clock.
    Operational,
    /// The device restarts; the next boot begins in `Init`.
    Rebooting,
}

/// The outcome of the action that was asked for last.
#[derive(Clone, Debug)]
pub enum BootEvent {
    /// The storage was read: it holds these credentials, or none.
    CredentialsLoaded(Option<WifiCredentials>),
    /// The storage could not be read.
    LoadFailed,
    /// The action was carried out.
    Done,
    /// The action failed.
    Failed,
    /// The mailbox was looked into: it holds these credentials, or none.
    Mailbox(Option<WifiCredentials>),
    /// The link was asked about: it is established, or not yet.
    Link(bool),
}

/// What the driver of the boot sequence is to do next.
#[derive(Clone, Debug)]
pub enum BootAction {
    /// Configure the radio as an access point and start it.
    StartAccessPoint,
    /// Configure the radio as a station for this network and start it.
    StartStation(WifiCredentials),
    /// Wait until the network interface reports that it is up.
    WaitForNetwork,
    /// Bind the DNS responder to the access point's address and let it run.
    BindDns,
    /// Start the HTTP server of the captive portal.
    ServePortal,
    /// Sleep for the poll interval, then look into the mailbox.
    PollMailbox,
    /// Write these credentials to the storage; a failure is only logged.
    SaveCredentials(WifiCredentials),
    /// Delete the stored credentials; a failure is only logged.
    DeleteCredentials,
    /// Connect to the configured network.
    Connect,
    /// Ask whether the link is established.
    PollLink,
    /// Stop the radio.
    StopRadio,
    /// Restart the device.
    Reboot,
    /// Go on to normal operation.
    Proceed,
}

impl BootState {
    /// The states in which the access point is brought up.
    pub open spec fn starting_access_point(self) -> bool {
        self is ApStarting || self is ApNetworkWait
    }

    /// The states in which the captive portal is started and waited on.
    pub open spec fn serving_portal(self) -> bool {
        self is PortalStarting || self is AwaitingCredentials
    }

    /// The states in which the radio serves as an access point.
    pub open spec fn in_access_point(self) -> bool {
        self is ApStarting || self is ApNetworkWait || self is DnsBinding || self is PortalStarting
            || self is AwaitingCredentials || self is Persisting || self is ApStopping
    }

    /// The states in which the radio serves as a station.
    pub open spec fn in_station(self) -> bool {
        self is StationStarting || self is Connecting || self is StationNetworkWait
            || self is AwaitingLink || self is ClearingCredentials || self is StationStopping
    }
}

/// The next state and the next action, for every state and every outcome.
/// An outcome that the state does not wait for is treated as a failure.
pub open spec fn transition(state: BootState, event: BootEvent) -> (BootState, BootAction) {
    match (state, event) {
        (BootState::Init, BootEvent::CredentialsLoaded(None)) => (
            BootState::ApStarting,
            BootAction::StartAccessPoint,
        ),
        (BootState::Init, BootEvent::CredentialsLoaded(Some(credentials))) => (
            BootState::StationStarting,
            BootAction::StartStation(credentials),
        ),
        (BootState::ApStarting, BootEvent::Done) => (
            BootState::ApNetworkWait,
            BootAction::WaitForNetwork,
        ),
        (BootState::ApNetworkWait, BootEvent::Done) => (BootState::DnsBinding, BootAction::BindDns),
        (BootState::DnsBinding, BootEvent::Done) => (
            BootState::PortalStarting,
            BootAction::ServePortal,
        ),
        (BootState::PortalStarting, BootEvent::Done) => (
            BootState::AwaitingCredentials,
            BootAction::PollMailbox,
        ),
        (BootState::AwaitingCredentials, BootEvent::Mailbox(None)) => (
            BootState::AwaitingCredentials,
            BootAction::PollMailbox,
        ),
        (BootState::AwaitingCredentials, BootEvent::Mailbox(Some(credentials))) => (
            BootState::Persisting,
            BootAction::SaveCredentials(credentials),
        ),
        (BootState::Persisting, BootEvent::Done) => (BootState::ApStopping, BootAction::StopRadio),
        (BootState::Persisting, BootEvent::Failed) => (BootState::ApStopping, BootAction::StopRadio),
        (BootState::StationStarting, BootEvent::Done) => (
            BootState::Connecting,
            BootAction::Connect,
        ),
        (BootState::Connecting, BootEvent::Done) => (
            BootState::StationNetworkWait,
            BootAction::WaitForNetwork,
        ),
        (BootState::Connecting, BootEvent::Failed) => (
            BootState::ClearingCredentials,
            BootAction::DeleteCredentials,
        ),
        (BootState::ClearingCredentials, BootEvent::Done) => (
            BootState::StationStopping,
            BootAction::StopRadio,
        ),
        (BootState::ClearingCredentials, BootEvent::Failed) => (
            BootState::StationStopping,
            BootAction::StopRadio,
        ),
        (BootState::StationNetworkWait, BootEvent::Done) => (
            BootState::AwaitingLink,
            BootAction::PollLink,
        ),
        (BootState::AwaitingLink, BootEvent::Link(false)) => (
            BootState::AwaitingLink,
            BootAction::PollLink,
        ),
        (BootState::AwaitingLink, BootEvent::Link(true)) => (
            BootState::Operational,
            BootAction::Proceed,
        ),
        (BootState::Operational, _) => (BootState::Operational, BootAction::Proceed),
        _ => (BootState::Rebooting, BootAction::Reboot),
    }
}

/// Takes one step of the boot sequence.
pub fn step(state: BootState, event: BootEvent) -> (next: (BootState, BootAction))
    ensures
        next == transition(state, event),
{
    match state {
        BootState::Init => match event {
            BootEvent::CredentialsLoaded(None) => (
                BootState::ApStarting,
                BootAction::StartAccessPoint,
            ),
            BootEvent::CredentialsLoaded(Some(credentials)) => (
                BootState::StationStarting,
                BootAction::StartStation(credentials),
            ),
            _ => (BootState::Rebooting, BootAction::Reboot),
        },
        BootState::ApStarting => start_wifi_ap(state, event),
        BootState::ApNetworkWait => start_wifi_ap(state, event),
        BootState::DnsBinding => match event {
            BootEvent::Done => (BootState::PortalStarting, BootAction::ServePortal),
            _ => (BootState::Rebooting, BootAction::Reboot),
        },
        BootState::PortalStarting => start_captive_portal(state, event),
        BootState::AwaitingCredentials => start_captive_portal(state, event),
        BootState::Persisting => match event {
            BootEvent::Done => (BootState::ApStopping, BootAction::StopRadio),
            BootEvent::Failed => (BootState::ApStopping, BootAction::StopRadio),
            _ => (BootState::Rebooting, BootAction::Reboot),
        },
        BootState::ApStopping => (BootState::Rebooting, BootAction::Reboot),
        BootState::StationStarting => connect_wifi_or_restart(state, event),
        BootState::Connecting => connect_wifi_or_restart(state, event),
        BootState::StationNetworkWait => connect_wifi_or_restart(state, event),
        BootState::AwaitingLink => connect_wifi_or_restart(state, event),
        BootState::ClearingCredentials => connect_wifi_or_restart(state, event),
        BootState::StationStopping => connect_wifi_or_restart(state, event),
        BootState::Operational => (BootState::Operational, BootAction::Proceed),
        BootState::Rebooting => (BootState::Rebooting, BootAction::Reboot),
    }
}

/// Stored credentials are deleted for one reason only: the network refused
/// the connection.
pub proof fn lemma_deletes_only_after_refusal(state: BootState, event: BootEvent)
    ensures
        transition(state, event).1 is DeleteCredentials <==> state is Connecting && event is Failed,
{
}

/// What is stored is what the mailbox held, and nothing is stored before the
/// mailbox held something.
pub proof fn lemma_saves_only_the_mailbox(state: BootState, event: BootEvent)
    ensures
        transition(state, event).1 matches BootAction::SaveCredentials(saved) ==> state
            is AwaitingCredentials && event == BootEvent::Mailbox(Some(saved)),
        event matches BootEvent::Mailbox(Some(received)) ==> (state is AwaitingCredentials
            ==> transition(state, event).1 == BootAction::SaveCredentials(received)),
{
}

/// The wait for credentials has no deadline: an empty mailbox is looked into
/// again, however often it was found empty.
pub proof fn lemma_waits_for_credentials()
    ensures
        transition(BootState::AwaitingCredentials, BootEvent::Mailbox(None)) == (
            BootState::AwaitingCredentials,
            BootAction::PollMailbox,
        ),
{
}

/// Normal operation begins in one way only: as a station whose link is
/// reported as established. Once begun, it goes on.
pub proof fn lemma_operational_needs_link(state: BootState, event: BootEvent)
    ensures
        transition(state, event).0 is Operational <==> state is Operational || (state
            is AwaitingLink && event == BootEvent::Link(true)),
        transition(state, event).1 is Proceed <==> transition(state, event).0 is Operational,
{
}

/// The radio serves in one mode per boot. A boot that opened the access
/// point stays with it until it reboots, and never begins normal operation;
/// a station stays a station until it is connected or reboots.
pub proof fn lemma_one_mode_per_boot(state: BootState, event: BootEvent)
    ensures
        state.in_access_point() ==> transition(state, event).0.in_access_point() || transition(
            state,
            event,
        ).0 is Rebooting,
        state.in_station() ==> transition(state, event).0.in_station() || transition(
            state,
            event,
        ).0 is Operational || transition(state, event).0 is Rebooting,
{
}

/// A reboot is final within a boot, and it is asked for exactly when the
/// state becomes or stays `Rebooting`.
pub proof fn lemma_reboot_is_final(state: BootState, event: BootEvent)
    ensures
        state is Rebooting ==> transition(state, event).0 is Rebooting,
        transition(state, event).1 is Reboot <==> transition(state, event).0 is Rebooting,
{
}

/// Once the mailbox has delivered credentials, the boot ends in a reboot
/// after they were handed to the storage and the radio was stopped, however
/// the two actions went.
pub proof fn lemma_received_credentials_end_in_reboot(
    received: WifiCredentials,
    saved: BootEvent,
    stopped: BootEvent,
)
    requires
        saved is Done || saved is Failed,
    ensures
        ({
            let first = transition(
                BootState::AwaitingCredentials,
                BootEvent::Mailbox(Some(received)),
            );
            let second = transition(first.0, saved);
            let third = transition(second.0, stopped);
            &&& first.1 == BootAction::SaveCredentials(received)
            &&& second.1 is StopRadio
            &&& third == (BootState::Rebooting, BootAction::Reboot)
        }),
{
}

/// A refused connection ends in a reboot after the credentials were deleted
/// and the radio was stopped, however the two actions went.
pub proof fn lemma_refused_connection_ends_in_reboot(cleared: BootEvent, stopped: BootEvent)
    requires
        cleared is Done || cleared is Failed,
    ensures
        ({
            let first = transition(BootState::Connecting, BootEvent::Failed);
            let second = transition(first.0, cleared);
            let third = transition(second.0, stopped);
            &&& first.1 is DeleteCredentials
            &&& second.1 is StopRadio
            &&& third == (BootState::Rebooting, BootAction::Reboot)
        }),
{
}

/// The state that a boot is in after a run of outcomes, taken in order
/// from `state`.
pub open spec fn state_after(state: BootState, events: Seq<BootEvent>) -> BootState
    decreases events.len(),
{
    if events.len() == 0 {
        state
    } else {
        state_after(transition(state, events[0]).0, events.skip(1))
    }
}

/// Whatever happens after a reboot was asked for, the boot stays at the
/// reboot.
pub proof fn lemma_nothing_follows_a_reboot(events: Seq<BootEvent>)
    ensures
        state_after(BootState::Rebooting, events) is Rebooting,
    decreases events.len(),
{
    if events.len() > 0 {
        lemma_nothing_follows_a_reboot(events.skip(1));
    }
}

/// A boot that has opened the access point never runs the clock: whatever
/// happens, it is still with the access point or at the reboot.
pub proof fn lemma_access_point_never_operates(state: BootState, events: Seq<BootEvent>)
    requires
        state.in_access_point(),
    ensures
        state_after(state, events).in_access_point() || state_after(state, events) is Rebooting,
    decreases events.len(),
{
    if events.len() > 0 {
        let next = transition(state, events[0]).0;
        lemma_one_mode_per_boot(state, events[0]);
        if next.in_access_point() {
            lemma_access_point_never_operates(next, events.skip(1));
        } else {
            lemma_nothing_follows_a_reboot(events.skip(1));
        }
    }
}

/// A boot that has started the station never opens the access point:
/// whatever happens, it is still a station, runs the clock or is at the
/// reboot.
pub proof fn lemma_station_never_opens_access_point(state: BootState, events: Seq<BootEvent>)
    requires
        state.in_station() || state is Operational,
    ensures
        state_after(state, events).in_station() || state_after(state, events) is Operational
            || state_after(state, events) is Rebooting,
    decreases events.len(),
{
    if events.len() > 0 {
        let next = transition(state, events[0]).0;
        lemma_one_mode_per_boot(state, events[0]);
        if next is Rebooting {
            lemma_nothing_follows_a_reboot(events.skip(1));
        } else {
            lemma_station_never_opens_access_point(next, events.skip(1));
        }
    }
}

/// The clock runs only on a device that had credentials stored when it was
/// switched on: a boot that ends in normal operation began by reading
/// credentials from the storage.
pub proof fn lemma_operation_needs_stored_credentials(events: Seq<BootEvent>)
    requires
        state_after(BootState::Init, events) is Operational,
    ensures
        events.len() > 0,
        events[0] matches BootEvent::CredentialsLoaded(Some(_)),
{
    assert(events.len() > 0);
    let next = transition(BootState::Init, events[0]).0;
    if next is ApStarting {
        lemma_access_point_never_operates(next, events.skip(1));
    } else if next is Rebooting {
        lemma_nothing_follows_a_reboot(events.skip(1));
    }
}

/// The wait for credentials is not given up: as long as the mailbox is found
/// empty, however often, the device keeps waiting.
pub proof fn lemma_first_boot_waits(polls: Seq<BootEvent>)
    requires
        forall|i: int| 0 <= i < polls.len() ==> polls[i] == BootEvent::Mailbox(None),
    ensures
        state_after(BootState::AwaitingCredentials, polls) is AwaitingCredentials,
    decreases polls.len(),
{
    if polls.len() > 0 {
        assert(polls[0] == BootEvent::Mailbox(None));
        lemma_first_boot_waits(polls.skip(1));
    }
}

} // verus!
