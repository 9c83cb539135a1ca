//! The Wi-Fi credentials in persistent storage.
//!
//! The credentials are kept under the key `net_info` as one blob of at most
//! `BLOB_CAPACITY` bytes: the SSID, then the password, each as its length in
//! bytes followed by its UTF-8 text.

use super::{AppStorage, Entry};
use crate::error::AppError;
use crate::service::app_storage::AppStorageWifiService;
use crate::wifi::{Credentials, WifiCredentials};
use vstd::prelude::*;
use vstd::string::*;
use vstd::utf8::{
    decode_utf8, encode_utf8, encode_utf8_decode_utf8, encode_utf8_valid_utf8, valid_utf8,
};

verus! {

/// The namespace of the Wi-Fi credentials.
pub const WIFI_NAMESPACE: &'static str = "wifi_ns";

/// The key of the Wi-Fi credentials in their namespace.
pub const WIFI_KEY: &'static str = "net_info";

/// The largest blob that is written or read.
pub const BLOB_CAPACITY: usize = 100;

/// The blob that holds an SSID and a password.
pub open spec fn blob_of(ssid: Seq<char>, password: Seq<char>) -> Seq<u8> {
    seq![encode_utf8(ssid).len() as u8] + encode_utf8(ssid) + seq![
        encode_utf8(password).len() as u8,
    ] + encode_utf8(password)
}

/// Whether the blob of an SSID and a password is within the capacity.
pub open spec fn fits(ssid: Seq<char>, password: Seq<char>) -> bool {
    encode_utf8(ssid).len() + encode_utf8(password).len() + 2 <= BLOB_CAPACITY
}

/// The bytes of the SSID in a blob that begins with a length of one byte.
pub open spec fn ssid_bytes(blob: Seq<u8>) -> Seq<u8> {
    blob.subrange(1, 1 + blob[0])
}

/// The bytes of the password in a blob whose SSID is followed by a length
/// of one byte.
pub open spec fn password_bytes(blob: Seq<u8>) -> Seq<u8> {
    blob.subrange(2 + blob[0], 2 + blob[0] + blob[1 + blob[0]])
}

/// Whether a blob is plain: it begins with a length below 128 and as many
/// bytes of UTF-8 text, followed by another length below 128 and as many
/// bytes of UTF-8 text. Bytes may follow; they are not read.
pub open spec fn is_plain(blob: Seq<u8>) -> bool {
    &&& blob.len() >= 1
    &&& blob[0] < 128
    &&& blob.len() >= 2 + blob[0]
    &&& blob[1 + blob[0]] < 128
    &&& blob.len() >= 2 + blob[0] + blob[1 + blob[0]]
    &&& valid_utf8(ssid_bytes(blob))
    &&& valid_utf8(password_bytes(blob))
}

/// What `postcard::from_bytes` makes of a blob that is not plain when it is
/// asked for a pair of strings, on a machine whose `usize` has `word_bits`
/// bits: the pair, or the name of the error. (postcard reads a length as a
/// varint of the width of `usize`, which shows where a length takes several
/// bytes.)
pub uninterp spec fn postcard_pair(blob: Seq<u8>, word_bits: nat) -> Result<
    (Seq<char>, Seq<char>),
    Seq<char>,
>;

/// The pair of strings in a blob: the two texts of a plain blob, and for any
/// other blob what is given as `otherwise`.
pub open spec fn pair_in(
    blob: Seq<u8>,
    otherwise: Result<(Seq<char>, Seq<char>), Seq<char>>,
) -> Result<(Seq<char>, Seq<char>), Seq<char>> {
    if is_plain(blob) {
        Ok((decode_utf8(ssid_bytes(blob)), decode_utf8(password_bytes(blob))))
    } else {
        otherwise
    }
}

/// A pair of strings that was read without error.
pub open spec fn pair_read(ssid: Seq<char>, password: Seq<char>) -> Result<
    (Seq<char>, Seq<char>),
    Seq<char>,
> {
    Ok((ssid, password))
}

/// The text of what reading a pair of strings gave.
pub open spec fn view_of_pair(pair: Result<(String, String), String>) -> Result<
    (Seq<char>, Seq<char>),
    Seq<char>,
> {
    match pair {
        Ok(strings) => Ok((strings.0@, strings.1@)),
        Err(name) => Err(name@),
    }
}

/// Calls `postcard::to_vec` with a capacity of 100 bytes on the pair of the
/// SSID and the password. postcard writes a pair as its two parts in order and
/// a string as its length in bytes, as a varint, followed by its UTF-8 bytes;
/// a length below 128 is a varint of one byte. The call fails only when the
/// 100 bytes are too few.
#[verifier::external_body]
fn postcard_to_vec(ssid: &str, password: &str) -> (blob: Option<Vec<u8>>)
    ensures
        blob is Some <==> fits(ssid@, password@),
        blob matches Some(bytes) ==> bytes@ == blob_of(ssid@, password@),
{
    match postcard::to_vec::<(&str, &str), 100>(&(ssid, password)) {
        Ok(bytes) => Some(bytes.to_vec()),
        Err(_) => None,
    }
}

/// Calls `postcard::from_bytes` for a pair of strings. postcard reads a
/// string as a varint, which is one byte where that byte is below 128, and as
/// many bytes, which must be UTF-8; it reads the parts of a pair in order and
/// leaves what follows them unread. So a plain blob gives its two texts. An
/// error comes back as its name, the text that `Debug` gives it.
#[verifier::external_body]
fn postcard_from_bytes(blob: &[u8]) -> (pair: Result<(String, String), String>)
    ensures
        view_of_pair(pair) == pair_in(blob@, postcard_pair(blob@, usize::BITS as nat)),
{
    match postcard::from_bytes::<(String, String)>(blob) {
        Ok(strings) => Ok(strings),
        Err(error) => Err(format!("{error:?}")),
    }
}

/// A read that found these credentials.
pub open spec fn credentials_read(ssid: Seq<char>, password: Seq<char>) -> Result<
    Option<Credentials>,
    Seq<char>,
> {
    Ok(Some(Credentials { ssid, password }))
}

/// A read that found no credentials.
pub open spec fn nothing_read() -> Result<Option<Credentials>, Seq<char>> {
    Ok(None)
}

/// The text of what reading the credentials gives.
pub open spec fn view_of_read(read: Result<Option<WifiCredentials>, String>) -> Result<
    Option<Credentials>,
    Seq<char>,
> {
    match read {
        Ok(Some(c)) => Ok(Some(c@)),
        Ok(None) => Ok(None),
        Err(reason) => Err(reason@),
    }
}

/// Whether an SSID and a password can be stored: whether their blob is
/// within the capacity.
pub fn credentials_fit(ssid: &str, password: &str) -> (fit: bool)
    ensures
        fit == fits(ssid@, password@),
{
    let first = ssid.as_bytes().len();
    let second = password.as_bytes().len();
    first <= BLOB_CAPACITY - 2 && second <= BLOB_CAPACITY - 2 - first
}

impl AppStorage {
    /// Whether the blob of this SSID and this password is stored.
    pub open spec fn holds(self, ssid: Seq<char>, password: Seq<char>) -> bool {
        self.wifi_nvs matches Entry::Stored(blob) && blob@ == blob_of(ssid, password)
    }

    /// What reading the credentials gives: nothing where nothing is stored,
    /// the credentials where the blob holds a pair of strings, and an error
    /// where it does not or where the medium could not be read.
    pub open spec fn stored_credentials(self) -> Result<Option<Credentials>, Seq<char>> {
        match self.wifi_nvs {
            Entry::Missing => Ok(None),
            Entry::Stored(blob) => match pair_in(
                blob@,
                postcard_pair(blob@, usize::BITS as nat),
            ) {
                Ok((ssid, password)) => Ok(Some(Credentials { ssid, password })),
                Err(name) => Err("Failed to deserialize Wi-Fi credentials: "@ + name),
            },
            Entry::Unreadable(report) => Err("Couldn't get key net_info because "@ + report@),
        }
    }

    /// The storage after the credentials have been deleted.
    pub open spec fn without_credentials(self) -> AppStorage {
        AppStorage { wifi_nvs: Entry::Missing, tz_nvs: self.tz_nvs, prefs_nvs: self.prefs_nvs }
    }
}

impl AppStorageWifiService for AppStorage {
    /// Stores the credentials in place of any stored before. Credentials whose
    /// blob would exceed the capacity are not stored, and the storage stays
    /// as it was. Credentials that were stored are what a later read gives.
    fn save_wifi_credentials(&mut self, ssid: String, password: String)
        ensures
            final(self).tz_nvs == old(self).tz_nvs,
            final(self).prefs_nvs == old(self).prefs_nvs,
            fits(ssid@, password@) ==> final(self).holds(ssid@, password@),
            fits(ssid@, password@) ==> final(self).stored_credentials() == credentials_read(
                ssid@,
                password@,
            ),
            !fits(ssid@, password@) ==> final(self).wifi_nvs == old(self).wifi_nvs,
    {
        match postcard_to_vec(ssid.as_str(), password.as_str()) {
            Some(blob) => {
                self.wifi_nvs = Entry::Stored(blob);
                proof {
                    lemma_saved_credentials_are_read_back(*self, ssid@, password@);
                }
            },
            None => {},
        }
    }

    /// Reads the credentials and leaves the storage as it is.
    fn get_maybe_wifi_credentials(&mut self) -> (read: Result<Option<WifiCredentials>, String>)
        ensures
            view_of_read(read) == old(self).stored_credentials(),
            *final(self) == *old(self),
    {
        match &self.wifi_nvs {
            Entry::Missing => Ok(None),
            Entry::Stored(blob) => match postcard_from_bytes(blob.as_slice()) {
                Ok(strings) => Ok(Some(WifiCredentials { ssid: strings.0, password: strings.1 })),
                Err(name) => {
                    let mut reason = String::from_str("Failed to deserialize Wi-Fi credentials: ");
                    reason.append(name.as_str());
                    Err(reason)
                },
            },
            Entry::Unreadable(report) => {
                let mut reason = String::from_str("Couldn't get key net_info because ");
                reason.append(report.as_str());
                Err(reason)
            },
        }
    }

    /// Deletes the credentials. This succeeds whatever the storage held, also
    /// where it held none.
    fn delete_wifi_credentials(&mut self) -> (done: Result<(), AppError>)
        ensures
            done is Ok,
            *final(self) == old(self).without_credentials(),
    {
        self.wifi_nvs = Entry::Missing;
        Ok(())
    }
}

/// A blob that was written is plain, and its two texts are the SSID and the
/// password it was written for.
pub proof fn lemma_blob_reads_back(
    ssid: Seq<char>,
    password: Seq<char>,
    otherwise: Result<(Seq<char>, Seq<char>), Seq<char>>,
)
    requires
        fits(ssid, password),
    ensures
        is_plain(blob_of(ssid, password)),
        pair_in(blob_of(ssid, password), otherwise) == pair_read(ssid, password),
{
    let blob = blob_of(ssid, password);
    let first = encode_utf8(ssid);
    let second = encode_utf8(password);
    let split = 1 + first.len() as int;
    assert(blob[0] == first.len());
    assert(ssid_bytes(blob) =~= first);
    assert(blob[split] == second.len());
    assert(password_bytes(blob) =~= second);
    encode_utf8_valid_utf8(ssid);
    encode_utf8_valid_utf8(password);
    encode_utf8_decode_utf8(ssid);
    encode_utf8_decode_utf8(password);
}

/// What was saved is what is read: a storage that holds the blob of an SSID
/// and a password gives exactly these credentials when it is read.
pub proof fn lemma_saved_credentials_are_read_back(
    storage: AppStorage,
    ssid: Seq<char>,
    password: Seq<char>,
)
    requires
        fits(ssid, password),
        storage.holds(ssid, password),
    ensures
        storage.stored_credentials() == credentials_read(ssid, password),
{
    let blob = storage.wifi_nvs->Stored_0@;
    lemma_blob_reads_back(ssid, password, postcard_pair(blob, usize::BITS as nat));
}

/// Credentials that a station can be configured with are within the
/// capacity, so they are stored and read back whenever they are saved.
pub proof fn lemma_valid_credentials_fit(credentials: Credentials)
    requires
        credentials.valid(),
    ensures
        fits(credentials.ssid, credentials.password),
{
}

/// Deleting is idempotent: where no credentials are stored it changes
/// nothing, a second deletion changes nothing after the first, and after a
/// deletion a read finds no credentials, whatever the storage held before.
pub proof fn lemma_delete_idempotent(storage: AppStorage)
    ensures
        storage.wifi_nvs is Missing ==> storage.without_credentials() == storage,
        storage.without_credentials().without_credentials() == storage.without_credentials(),
        storage.without_credentials().stored_credentials() == nothing_read(),
{
}

} // verus!
