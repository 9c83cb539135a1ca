//! The persistent storage of the clock, as the values it holds.
//!
//! Each of the three namespaces keeps one entry under one key. `AppStorage`
//! is the content of those entries; whoever owns the flash reads it into an
//! `AppStorage` and writes it back after a change.

use vstd::prelude::*;

pub mod prefs;
pub mod tz;
pub mod wifi;

verus! {

/// What a namespace holds under its key.
#[derive(Clone, Debug)]
pub enum Entry<T> {
    /// Nothing is stored under the key.
    Missing,
    /// This value is stored under the key.
    Stored(T),
    /// The medium could not be read; the text is its report.
    Unreadable(String),
}

/// The content of the three namespaces.
#[derive(Clone, Debug)]
pub struct AppStorage {
    pub wifi_nvs: Entry<Vec<u8>>,
    pub tz_nvs: Entry<String>,
    pub prefs_nvs: Entry<u8>,
}

impl AppStorage {
    /// The storage with the given content.
    pub fn new(wifi_nvs: Entry<Vec<u8>>, tz_nvs: Entry<String>, prefs_nvs: Entry<u8>) -> (storage:
        Self)
        ensures
            storage.wifi_nvs == wifi_nvs,
            storage.tz_nvs == tz_nvs,
            storage.prefs_nvs == prefs_nvs,
    {
        AppStorage { wifi_nvs, tz_nvs, prefs_nvs }
    }
}

} // verus!
