//! The captive portal: the page that asks for the Wi-Fi credentials and the
//! endpoint that receives them.
//!
//! The portal does not own an HTTP server. Whoever owns it serves the
//! configuration page at every path of `config_page_paths` and hands each
//! `POST /set_config` to `submit_config`, together with the means to read
//! and parse the body. `submit_config` is made of `check_content_length`,
//! which decides before the body is read, and `set_config`, which decides
//! once it has been parsed.

use super::Response;
use crate::bootstrap::{BootAction, BootEvent, BootState, transition};
use crate::wifi::{Credentials, Mailbox, WifiCredentials, after_post};
use vstd::prelude::*;
use vstd::string::*;

verus! {

/// The largest body that `POST /set_config` accepts, in bytes.
pub const MAX_LEN: usize = 128;

/// The path at which the credentials are submitted.
pub const SET_CONFIG_PATH: &'static str = "/set_config";

/// How long the boot sequence sleeps between two looks into the mailbox, in
/// milliseconds.
pub const MAILBOX_POLL_MS: u64 = 500;

/// The paths that show the configuration page: the root and the paths that
/// operating systems probe to detect a captive portal.
pub open spec fn config_page_routes() -> Seq<Seq<char>> {
    seq![
        "/"@,
        "/gen_204"@,
        "/generate_204"@,
        "/fwlink"@,
        "/hotspot-detect.html"@,
        "/check_network_status.txt"@,
        "/connectivity-check.html"@,
        "/library/test/success.html"@,
        "/ncsi.txt"@,
        "/chat"@,
    ]
}

/// The paths that show the configuration page, in the order in which they
/// are registered. A `GET` of any of them is answered with the same page.
pub fn config_page_paths() -> (paths: Vec<&'static str>)
    ensures
        paths@.len() == config_page_routes().len(),
        forall|i: int| 0 <= i < paths@.len() ==> (#[trigger] paths@[i])@ == config_page_routes()[i],
{
    let mut paths: Vec<&'static str> = Vec::new();
    paths.push("/");
    paths.push("/gen_204");
    paths.push("/generate_204");
    paths.push("/fwlink");
    paths.push("/hotspot-detect.html");
    paths.push("/check_network_status.txt");
    paths.push("/connectivity-check.html");
    paths.push("/library/test/success.html");
    paths.push("/ncsi.txt");
    paths.push("/chat");
    paths
}

/// The length that a request declares for its body; a request that declares
/// none has an empty body.
pub open spec fn declared_length(content_len: Option<u64>) -> int {
    match content_len {
        Some(len) => len as int,
        None => 0,
    }
}

/// The confirmation that follows accepted credentials.
pub open spec fn confirmation(credentials: Credentials) -> Seq<char> {
    "SSID = "@ + credentials.ssid + " and PASSWORD = "@ + credentials.password
}

/// Whether a response refuses a submission as too big.
pub open spec fn refuses(response: Response) -> bool {
    response.status == 413 && response.body@ == "Request too big"@
}

/// Whether a response and a mailbox are what follows a submission that was
/// read and parsed: credentials are in the mailbox and confirmed; a body that
/// did not parse has left the mailbox as it was and is answered with an error
/// text. Either way the status is 200.
pub open spec fn answers(
    before: Option<Credentials>,
    form: Option<WifiCredentials>,
    after: Option<Credentials>,
    response: Response,
) -> bool {
    &&& response.status == 200
    &&& match form {
        Some(credentials) => after == after_post(before, credentials@) && response.body@
            == confirmation(credentials@),
        None => after == before && response.body@ == "JSON error"@,
    }
}

/// Decides from the declared length of the body alone whether a submission
/// is read. A body of more than `MAX_LEN` bytes is refused with status 413
/// before a byte of it is read, so that it reaches neither the parser nor the
/// mailbox. Any other body is to be read in full: the result is its length.
pub fn check_content_length(content_len: Option<u64>) -> (admitted: Result<usize, Response>)
    ensures
        match admitted {
            Ok(len) => declared_length(content_len) <= MAX_LEN && len == declared_length(
                content_len,
            ),
            Err(response) => declared_length(content_len) > MAX_LEN && refuses(response),
        },
{
    check_content_length_within(content_len, MAX_LEN)
}

/// Decides as `check_content_length` does, with a bound of `max_len` bytes
/// in place of `MAX_LEN`.
pub fn check_content_length_within(content_len: Option<u64>, max_len: usize) -> (admitted: Result<
    usize,
    Response,
>)
    ensures
        match admitted {
            Ok(len) => declared_length(content_len) <= max_len && len == declared_length(
                content_len,
            ),
            Err(response) => declared_length(content_len) > max_len && refuses(response),
        },
{
    let len: u64 = match content_len {
        Some(len) => len,
        None => 0,
    };
    if len > max_len as u64 {
        Err(Response { status: 413, body: String::from_str("Request too big") })
    } else {
        Ok(len as usize)
    }
}

/// Answers a submission whose body has been read. `form` is what parsing the
/// body as JSON gave: the credentials, or nothing where the body is not a
/// JSON object with an SSID and a password. Credentials go into the mailbox,
/// in place of any that wait there, and are confirmed. A body that does not
/// parse leaves the mailbox as it was and is answered with an error text.
/// Either way the status is 200.
pub fn set_config(mailbox: &mut Mailbox, form: Option<WifiCredentials>) -> (response: Response)
    ensures
        answers(old(mailbox)@, form, final(mailbox)@, response),
{
    match form {
        Some(credentials) => {
            let mut body = String::from_str("SSID = ");
            body.append(credentials.ssid.as_str());
            body.append(" and PASSWORD = ");
            body.append(credentials.password.as_str());
            mailbox.post(credentials);
            Response { status: 200, body }
        },
        None => Response { status: 200, body: String::from_str("JSON error") },
    }
}

/// Serves one `POST /set_config` from its declared length to its response.
/// `read_form` reads a body of the given length and parses it as JSON; it
/// gives the credentials, or nothing where the body does not parse. A
/// submission that declares more than `MAX_LEN` bytes is refused and changes
/// nothing: its body is not read, and the mailbox stays as it was. Any other
/// submission is read and answered as `set_config` answers it.
pub fn submit_config<F: FnOnce(usize) -> Option<WifiCredentials>>(
    mailbox: &mut Mailbox,
    content_len: Option<u64>,
    read_form: F,
) -> (response: Response)
    requires
        declared_length(content_len) <= MAX_LEN ==> call_requires(
            read_form,
            (declared_length(content_len) as usize,),
        ),
    ensures
        declared_length(content_len) > MAX_LEN ==> refuses(response) && final(mailbox)@ == old(
            mailbox,
        )@,
        declared_length(content_len) <= MAX_LEN ==> exists|form: Option<WifiCredentials>|
            #[trigger] call_ensures(read_form, (declared_length(content_len) as usize,), form)
                && answers(old(mailbox)@, form, final(mailbox)@, response),
{
    match check_content_length(content_len) {
        Ok(len) => {
            let form = read_form(len);
            set_config(mailbox, form)
        },
        Err(refusal) => refusal,
    }
}

/// Takes the captive portal one step further: once the HTTP server runs, the
/// mailbox is looked into, again and again for as long as it is empty; what
/// it then holds is to be stored. A server that does not start ends the boot.
pub fn start_captive_portal(state: BootState, event: BootEvent) -> (next: (BootState, BootAction))
    requires
        state.serving_portal(),
    ensures
        next == transition(state, event),
{
    match state {
        BootState::PortalStarting => match event {
            BootEvent::Done => (BootState::AwaitingCredentials, BootAction::PollMailbox),
            _ => (BootState::Rebooting, BootAction::Reboot),
        },
        _ => match event {
            BootEvent::Mailbox(None) => (BootState::AwaitingCredentials, BootAction::PollMailbox),
            BootEvent::Mailbox(Some(credentials)) => (
                BootState::Persisting,
                BootAction::SaveCredentials(credentials),
            ),
            _ => (BootState::Rebooting, BootAction::Reboot),
        },
    }
}

} // verus!
