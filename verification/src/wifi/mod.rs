//! Wi-Fi credentials and the single slot through which the portal hands them
//! to the boot sequence.

use vstd::prelude::*;
use vstd::utf8::encode_utf8;

pub mod ap;
pub mod station;

verus! {

/// The longest SSID that a station can be configured with, in bytes.
pub const MAX_SSID_LEN: usize = 32;

/// The longest password that a station can be configured with, in bytes.
pub const MAX_PASSWORD_LEN: usize = 64;

/// The name and the password of a Wi-Fi network.
#[derive(Debug)]
pub struct WifiCredentials {
    pub ssid: String,
    pub password: String,
}

/// Credentials as plain text: what a `WifiCredentials` value stands for.
pub struct Credentials {
    pub ssid: Seq<char>,
    pub password: Seq<char>,
}

impl Credentials {
    /// Whether a station can be configured with the credentials: the SSID
    /// and the password, as UTF-8, are within their lengths.
    pub open spec fn valid(self) -> bool {
        encode_utf8(self.ssid).len() <= MAX_SSID_LEN && encode_utf8(self.password).len()
            <= MAX_PASSWORD_LEN
    }
}

impl View for WifiCredentials {
    type V = Credentials;

    open spec fn view(&self) -> Credentials {
        Credentials { ssid: self.ssid@, password: self.password@ }
    }
}

impl Clone for WifiCredentials {
    fn clone(&self) -> (copy: Self)
        ensures
            copy == *self,
    {
        WifiCredentials { ssid: self.ssid.clone(), password: self.password.clone() }
    }
}

impl WifiCredentials {
    /// Whether a station can be configured with the credentials.
    pub fn is_valid(&self) -> (valid: bool)
        ensures
            valid == self@.valid(),
    {
        self.ssid.as_str().as_bytes().len() <= MAX_SSID_LEN && self.password.as_str().as_bytes().len()
            <= MAX_PASSWORD_LEN
    }
}

/// The text of optional credentials.
pub open spec fn view_of(credentials: Option<WifiCredentials>) -> Option<Credentials> {
    match credentials {
        Some(c) => Some(c@),
        None => None,
    }
}

/// What a mailbox holds once credentials have been posted to it: the
/// credentials posted last, whatever it held before.
pub open spec fn after_post(before: Option<Credentials>, posted: Credentials) -> Option<
    Credentials,
> {
    Some(posted)
}

/// A slot for at most one pending set of credentials. A post overwrites what
/// the slot holds; nothing empties it.
#[derive(Debug)]
pub struct Mailbox {
    slot: Option<WifiCredentials>,
}

impl View for Mailbox {
    type V = Option<Credentials>;

    closed spec fn view(&self) -> Option<Credentials> {
        view_of(self.slot)
    }
}

impl Mailbox {
    /// An empty mailbox.
    pub fn new() -> (mailbox: Self)
        ensures
            mailbox@ is None,
    {
        Mailbox { slot: None }
    }

    /// Puts credentials into the slot, in place of any that wait there.
    pub fn post(&mut self, credentials: WifiCredentials)
        ensures
            final(self)@ == after_post(old(self)@, credentials@),
    {
        self.slot = Some(credentials);
    }

    /// Whether credentials wait in the slot.
    pub fn is_filled(&self) -> (filled: bool)
        ensures
            filled == (self@ is Some),
    {
        self.slot.is_some()
    }

    /// A copy of the credentials that wait in the slot, which stay there.
    pub fn pending(&self) -> (credentials: Option<WifiCredentials>)
        ensures
            view_of(credentials) == self@,
    {
        match &self.slot {
            Some(c) => Some(c.clone()),
            None => None,
        }
    }
}

/// The last write wins: after two posts a mailbox holds the second set of
/// credentials alone, exactly as if the first had never been posted.
pub proof fn lemma_last_write_wins(before: Option<Credentials>, first: Credentials, second: Credentials)
    ensures
        after_post(after_post(before, first), second) == Some(second),
        after_post(after_post(before, first), second) == after_post(before, second),
{
}

/// Once filled, a mailbox stays filled: no post empties it.
pub proof fn lemma_post_never_empties(before: Option<Credentials>, posted: Credentials)
    ensures
        after_post(before, posted) is Some,
{
}

} // verus!
