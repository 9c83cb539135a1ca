//! The web portal of the running clock: what each request changes and how
//! it is answered.
//!
//! The portal does not own an HTTP server. Whoever owns it hands over the
//! target of the request, or what parsing its body gave, and sends the
//! response.

use super::{Refusal, Response};
use crate::error::AppError;
use crate::module::display::SevenSegmentDisplay;
use crate::module::led_strip::{LedStrip, themed_frame};
use crate::nvs::{AppStorage, Entry};
use crate::service::app_storage::{AppStorageTzService, AppStorageWifiService};
use crate::service::display::{SevenSegmentDisplayService, are_digits};
use crate::theme::{AppTheme, Theme};
use crate::time::tz::TimezoneRequest;
use crate::time::{known_timezone, timezone_from_str};
use vstd::prelude::*;
use vstd::slice::slice_subrange;
use vstd::string::*;
use vstd::utf8::encode_utf8;

verus! {

/// The status that answers a request which cannot be served.
pub const BAD_REQUEST: u16 = 400;

/// The highest brightness of the display.
pub const MAX_BRIGHTNESS: u8 = 7;

/// Whether `i` is the place of the first question mark in a target.
pub open spec fn is_first_mark(uri: Seq<u8>, i: int) -> bool {
    &&& 0 <= i < uri.len()
    &&& uri[i] == 0x3f
    &&& forall|k: int| 0 <= k < i ==> uri[k] != 0x3f
}

/// The query of a target, as bytes: what follows its first question mark, if
/// it has one. (In UTF-8 the byte of a question mark stands for nothing else.)
pub open spec fn query_of(uri: Seq<u8>) -> Option<Seq<u8>> {
    if exists|i: int| is_first_mark(uri, i) {
        let i = choose|i: int| is_first_mark(uri, i);
        Some(uri.subrange(i + 1, uri.len() as int))
    } else {
        None
    }
}

/// Whether a byte is a decimal digit.
pub open spec fn is_digit(byte: u8) -> bool {
    0x30 <= byte <= 0x39
}

/// The number that a run of decimal digits spells.
pub open spec fn decimal(digits: Seq<u8>) -> int
    decreases digits.len(),
{
    if digits.len() == 0 {
        0
    } else {
        decimal(digits.drop_last()) * 10 + (digits.last() - 0x30)
    }
}

/// The digits of a number in text: the text itself, or what follows its
/// plus sign.
pub open spec fn unsigned_part(text: Seq<u8>) -> Seq<u8> {
    if text.len() > 0 && text[0] == 0x2b {
        text.skip(1)
    } else {
        text
    }
}

/// The number below 256 that a text spells, as `u8::from_str` reads it: an
/// optional plus sign and then digits only, at least one; nothing else is a
/// number.
pub open spec fn number_u8(text: Seq<u8>) -> Option<u8> {
    let digits = unsigned_part(text);
    if digits.len() > 0 && (forall|i: int| 0 <= i < digits.len() ==> is_digit(#[trigger] digits[i]))
        && decimal(digits) <= 255 {
        Some(decimal(digits) as u8)
    } else {
        None
    }
}

/// The brightness that a target asks for: the number in its query, if that
/// is a level of the display.
pub open spec fn brightness_request(uri: Seq<u8>) -> Option<u8> {
    match query_of(uri) {
        Some(query) => match number_u8(query) {
            Some(level) => if level <= MAX_BRIGHTNESS {
                Some(level)
            } else {
                None
            },
            None => None,
        },
        None => None,
    }
}

/// The theme of a name.
pub open spec fn theme_named(name: Seq<u8>) -> Option<Theme> {
    if name == encode_utf8("original"@) {
        Some(Theme::Original)
    } else if name == encode_utf8("hoverboard"@) {
        Some(Theme::Hoverboard)
    } else if name == encode_utf8("plutonium"@) {
        Some(Theme::Plutonium)
    } else if name == encode_utf8("oldwest"@) {
        Some(Theme::OldWest)
    } else if name == encode_utf8("cafe80s"@) {
        Some(Theme::Cafe80s)
    } else {
        None
    }
}

/// The text of a digit from 0 to 9.
pub open spec fn digit_text(digit: u8) -> Seq<char> {
    if digit == 0 {
        "0"@
    } else if digit == 1 {
        "1"@
    } else if digit == 2 {
        "2"@
    } else if digit == 3 {
        "3"@
    } else if digit == 4 {
        "4"@
    } else if digit == 5 {
        "5"@
    } else if digit == 6 {
        "6"@
    } else if digit == 7 {
        "7"@
    } else if digit == 8 {
        "8"@
    } else {
        "9"@
    }
}

/// The status page: the network, the timezone and the time of day.
pub open spec fn status_page(wifi_ssid: Seq<char>, timezone: Seq<char>, time: Seq<u8>) -> Seq<
    char,
> {
    "<p><strong>Wi-Fi SSID:</strong> "@ + wifi_ssid
        + "</p>\n        <p><strong>Time Zone:</strong> "@ + timezone
        + "</p>\n        <p><strong>Current Time:</strong> "@ + digit_text(time[0]) + digit_text(
        time[1],
    ) + ":"@ + digit_text(time[2]) + digit_text(time[3]) + "</p>"@
}

/// A prefix of a run of digits spells no more than the run.
proof fn lemma_decimal_grows(digits: Seq<u8>, k: int)
    requires
        0 <= k <= digits.len(),
        forall|i: int| 0 <= i < digits.len() ==> is_digit(#[trigger] digits[i]),
    ensures
        0 <= decimal(digits.subrange(0, k)) <= decimal(digits),
    decreases digits.len(),
{
    if k == digits.len() {
        assert(digits.subrange(0, k) =~= digits);
        if digits.len() > 0 {
            lemma_decimal_grows(digits.drop_last(), k - 1);
        }
    } else {
        lemma_decimal_grows(digits.drop_last(), k);
        assert(digits.drop_last().subrange(0, k) =~= digits.subrange(0, k));
    }
}

/// The place of the first question mark in a target.
fn find_mark(uri: &[u8]) -> (place: Option<usize>)
    ensures
        match place {
            Some(i) => is_first_mark(uri@, i as int),
            None => forall|k: int| 0 <= k < uri@.len() ==> uri@[k] != 0x3f,
        },
{
    let mut i: usize = 0;
    while i < uri.len()
        invariant
            i <= uri@.len(),
            forall|k: int| 0 <= k < i ==> uri@[k] != 0x3f,
        decreases uri@.len() - i,
    {
        if uri[i] == 0x3f {
            return Some(i);
        }
        i += 1;
    }
    None
}

/// The query of a target.
fn query(uri: &[u8]) -> (found: Option<&[u8]>)
    ensures
        match found {
            Some(bytes) => query_of(uri@) == Some(bytes@),
            None => query_of(uri@) is None,
        },
{
    match find_mark(uri) {
        Some(i) => {
            proof {
                let j = choose|j: int| is_first_mark(uri@, j);
                assert(is_first_mark(uri@, i as int));
                assert(j == i);
            }
            assert(i < uri.len());
            Some(slice_subrange(uri, i + 1, uri.len()))
        },
        None => None,
    }
}

/// Reads a number below 256.
fn parse_u8(text: &[u8]) -> (number: Option<u8>)
    ensures
        number == number_u8(text@),
{
    let start: usize = if text.len() > 0 && text[0] == 0x2b {
        1
    } else {
        0
    };
    let ghost digits = unsigned_part(text@);
    assert(digits =~= text@.subrange(start as int, text@.len() as int));
    if start == text.len() {
        return None;
    }
    let mut value: u16 = 0;
    let mut i: usize = start;
    while i < text.len()
        invariant
            start <= i <= text@.len(),
            digits == unsigned_part(text@),
            digits == text@.subrange(start as int, text@.len() as int),
            forall|k: int| 0 <= k < i - start ==> is_digit(#[trigger] digits[k]),
            value == decimal(digits.subrange(0, i - start)),
            value <= 255,
        decreases text@.len() - i,
    {
        let byte: u8 = text[i];
        if byte < 0x30 || byte > 0x39 {
            assert(digits[i - start] == byte);
            assert(!is_digit(digits[i - start]));
            return None;
        }
        let next: u16 = value * 10 + (byte - 0x30) as u16;
        assert(digits.subrange(0, i + 1 - start).drop_last() =~= digits.subrange(0, i - start));
        assert(next == decimal(digits.subrange(0, i + 1 - start)));
        if next > 255 {
            proof {
                if forall|k: int| 0 <= k < digits.len() ==> is_digit(#[trigger] digits[k]) {
                    lemma_decimal_grows(digits, i + 1 - start);
                }
            }
            return None;
        }
        value = next;
        i += 1;
    }
    assert(digits.subrange(0, i - start) =~= digits);
    Some(value as u8)
}

/// Whether two runs of bytes are the same.
fn same_bytes(left: &[u8], right: &[u8]) -> (same: bool)
    ensures
        same == (left@ == right@),
{
    if left.len() != right.len() {
        return false;
    }
    let mut i: usize = 0;
    while i < left.len()
        invariant
            i <= left@.len(),
            left@.len() == right@.len(),
            forall|k: int| 0 <= k < i ==> left@[k] == right@[k],
        decreases left@.len() - i,
    {
        if left[i] != right[i] {
            return false;
        }
        i += 1;
    }
    assert(left@ =~= right@);
    true
}

/// The theme of a name.
fn theme_of(name: &[u8]) -> (theme: Option<Theme>)
    ensures
        theme == theme_named(name@),
{
    if same_bytes(name, "original".as_bytes()) {
        Some(Theme::Original)
    } else if same_bytes(name, "hoverboard".as_bytes()) {
        Some(Theme::Hoverboard)
    } else if same_bytes(name, "plutonium".as_bytes()) {
        Some(Theme::Plutonium)
    } else if same_bytes(name, "oldwest".as_bytes()) {
        Some(Theme::OldWest)
    } else if same_bytes(name, "cafe80s".as_bytes()) {
        Some(Theme::Cafe80s)
    } else {
        None
    }
}

/// The text of a digit from 0 to 9.
fn digit_str(digit: u8) -> (text: &'static str)
    ensures
        text@ == digit_text(digit),
{
    if digit == 0 {
        "0"
    } else if digit == 1 {
        "1"
    } else if digit == 2 {
        "2"
    } else if digit == 3 {
        "3"
    } else if digit == 4 {
        "4"
    } else if digit == 5 {
        "5"
    } else if digit == 6 {
        "6"
    } else if digit == 7 {
        "7"
    } else if digit == 8 {
        "8"
    } else {
        "9"
    }
}

/// The page that tells the state of the clock: the network it has joined,
/// its timezone and the time of day it shows, given as four digits.
pub fn get_status(wifi_ssid: &str, timezone: &str, time: &Vec<u8>) -> (response: Response)
    requires
        are_digits(time@),
    ensures
        response.status == 200,
        response.body@ == status_page(wifi_ssid@, timezone@, time@),
{
    let mut body = String::from_str("<p><strong>Wi-Fi SSID:</strong> ");
    body.append(wifi_ssid);
    body.append("</p>\n        <p><strong>Time Zone:</strong> ");
    body.append(timezone);
    body.append("</p>\n        <p><strong>Current Time:</strong> ");
    body.append(digit_str(time[0]));
    body.append(digit_str(time[1]));
    body.append(":");
    body.append(digit_str(time[2]));
    body.append(digit_str(time[3]));
    body.append("</p>");
    Response { status: 200, body }
}

/// Whether a refusal is that of a bad request: the response has the status
/// `BAD_REQUEST` and an empty body, and the error is a server error that
/// says "Invalid request".
pub open spec fn is_bad_request(refusal: Refusal) -> bool {
    &&& refusal.response.status == BAD_REQUEST
    &&& refusal.response.body@ == Seq::<char>::empty()
    &&& refusal.error matches AppError::Server(reason) && reason@ == "Invalid request"@
}

/// The refusal of a bad request.
pub fn bad_request() -> (refusal: Refusal)
    ensures
        is_bad_request(refusal),
{
    Refusal {
        response: Response { status: BAD_REQUEST, body: String::new() },
        error: AppError::Server(String::from_str("Invalid request")),
    }
}

/// Changes the timezone. `request` is what parsing the body as JSON gave.
/// A request that names a known timezone is stored and put in force, and is
/// answered with status 200. A body that did not parse, or a name that is no
/// timezone, changes nothing and is refused: the response has status 400 and
/// the error says "Invalid request".
pub fn set_timezone(
    storage: &mut AppStorage,
    setting: &mut Option<String>,
    request: Option<TimezoneRequest>,
) -> (served: Result<Response, Refusal>)
    ensures
        final(storage).wifi_nvs == old(storage).wifi_nvs,
        final(storage).prefs_nvs == old(storage).prefs_nvs,
        match request {
            Some(wanted) if known_timezone(wanted.timezone@) => {
                &&& served matches Ok(response)
                &&& response.status == 200
                &&& response.body@ == "Timezone changed!"@
                &&& final(storage).tz_nvs == Entry::Stored(wanted.timezone)
                &&& *final(setting) == Some(wanted.timezone)
            },
            _ => {
                &&& served matches Err(refusal)
                &&& is_bad_request(refusal)
                &&& final(storage).tz_nvs == old(storage).tz_nvs
                &&& *final(setting) == *old(setting)
            },
        },
{
    match request {
        Some(wanted) => {
            if !timezone_from_str(wanted.timezone.as_str()) {
                return Err(bad_request());
            }
            let timezone = wanted.timezone.clone();
            let _ = storage.save_timezone(wanted);
            crate::time::tz::set_timezone(setting, timezone);
            Ok(Response { status: 200, body: String::from_str("Timezone changed!") })
        },
        None => Err(bad_request()),
    }
}

/// Forgets the network and the timezone, for a device that is then
/// disconnected and restarted.
pub fn factory_reset(storage: &mut AppStorage) -> (done: Result<(), AppError>)
    ensures
        done is Ok,
        *final(storage) == old(storage).without_credentials().without_timezone(),
{
    match storage.delete_wifi_credentials() {
        Ok(()) => {},
        Err(error) => {
            return Err(error);
        },
    }
    storage.delete_timezone()
}

/// Sets the brightness of the display to the level that the target asks for.
/// A target that asks for none, or for one that the display does not have,
/// changes nothing. Either way the request is answered as served.
pub fn set_brightness(display: &mut SevenSegmentDisplay, uri: &str) -> (response: Response)
    ensures
        response.status == 200,
        response.body@ == "Brightness Updated!"@,
        final(display).segments == old(display).segments,
        final(display).brightness == match brightness_request(encode_utf8(uri@)) {
            Some(level) => level,
            None => old(display).brightness,
        },
{
    match query(uri.as_bytes()) {
        Some(text) => match parse_u8(text) {
            Some(level) => {
                if level <= MAX_BRIGHTNESS {
                    let _ = display.set_brightness(level);
                }
            },
            None => {},
        },
        None => {},
    }
    Response { status: 200, body: String::from_str("Brightness Updated!") }
}

/// Shows the theme that the target names. A target without a query changes
/// nothing and is answered as served; a query that names no theme changes
/// nothing and is an error.
pub fn set_theme(led_strip: &mut LedStrip, uri: &str) -> (served: Result<Response, AppError>)
    ensures
        final(led_strip).num_leds == old(led_strip).num_leds,
        match query_of(encode_utf8(uri@)) {
            Some(name) => match theme_named(name) {
                Some(theme) => {
                    &&& served matches Ok(response)
                    &&& response.status == 200
                    &&& response.body@ == "Theme Updated!"@
                    &&& final(led_strip).frame@ == themed_frame(
                        theme,
                        old(led_strip).num_leds as int,
                    )
                },
                None => {
                    &&& served matches Err(AppError::Server(reason))
                    &&& reason@ == "Invalid request"@
                    &&& final(led_strip).frame == old(led_strip).frame
                },
            },
            None => {
                &&& served matches Ok(response)
                &&& response.status == 200
                &&& response.body@ == "Theme Updated!"@
                &&& final(led_strip).frame == old(led_strip).frame
            },
        },
{
    match query(uri.as_bytes()) {
        Some(name) => match theme_of(name) {
            Some(theme) => {
                match led_strip.apply_theme(&theme) {
                    Ok(()) => {},
                    Err(error) => {
                        return Err(error);
                    },
                }
            },
            None => {
                return Err(AppError::Server(String::from_str("Invalid request")));
            },
        },
        None => {},
    }
    Ok(Response { status: 200, body: String::from_str("Theme Updated!") })
}

} // verus!
