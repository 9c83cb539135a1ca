//! The timezone in persistent storage, kept as a string under the key
//! `tz_info`.

use super::{AppStorage, Entry};
use crate::error::AppError;
use crate::service::app_storage::AppStorageTzService;
use crate::time::tz::TimezoneRequest;
use vstd::prelude::*;
use vstd::string::*;

verus! {

/// The namespace of the timezone.
pub const TZ_NAMESPACE: &'static str = "tz_ns";

/// The key of the timezone in its namespace.
pub const TZ_KEY: &'static str = "tz_info";

/// The text of what reading a string gives.
pub open spec fn view_of_text(read: Result<Option<String>, String>) -> Result<
    Option<Seq<char>>,
    Seq<char>,
> {
    match read {
        Ok(Some(text)) => Ok(Some(text@)),
        Ok(None) => Ok(None),
        Err(reason) => Err(reason@),
    }
}

impl AppStorage {
    /// What reading the timezone gives: nothing where nothing is stored, the
    /// stored string, or an error where the medium could not be read.
    pub open spec fn stored_timezone(self) -> Result<Option<Seq<char>>, Seq<char>> {
        match self.tz_nvs {
            Entry::Missing => Ok(None),
            Entry::Stored(timezone) => Ok(Some(timezone@)),
            Entry::Unreadable(report) => Err("Couldn't get key tz_info because "@ + report@),
        }
    }

    /// The storage after the timezone has been deleted.
    pub open spec fn without_timezone(self) -> AppStorage {
        AppStorage { wifi_nvs: self.wifi_nvs, tz_nvs: Entry::Missing, prefs_nvs: self.prefs_nvs }
    }
}

impl AppStorageTzService for AppStorage {
    /// Stores the timezone of the request in place of any stored before.
    fn save_timezone(&mut self, timezone: TimezoneRequest) -> (done: Result<(), AppError>)
        ensures
            done is Ok,
            final(self).tz_nvs == Entry::Stored(timezone.timezone),
            final(self).wifi_nvs == old(self).wifi_nvs,
            final(self).prefs_nvs == old(self).prefs_nvs,
    {
        self.tz_nvs = Entry::Stored(timezone.timezone);
        Ok(())
    }

    /// Reads the timezone and leaves the storage as it is.
    fn get_maybe_timezone(&mut self) -> (read: Result<Option<String>, String>)
        ensures
            view_of_text(read) == old(self).stored_timezone(),
            *final(self) == *old(self),
    {
        match &self.tz_nvs {
            Entry::Missing => Ok(None),
            Entry::Stored(timezone) => Ok(Some(timezone.clone())),
            Entry::Unreadable(report) => {
                let mut reason = String::from_str("Couldn't get key tz_info because ");
                reason.append(report.as_str());
                Err(reason)
            },
        }
    }

    /// Deletes the timezone. This succeeds whatever the storage held.
    fn delete_timezone(&mut self) -> (done: Result<(), AppError>)
        ensures
            done is Ok,
            *final(self) == old(self).without_timezone(),
    {
        self.tz_nvs = Entry::Missing;
        Ok(())
    }
}

} // verus!
