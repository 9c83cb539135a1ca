//! The user's preferences in persistent storage: the hour format, kept as one
//! byte under the key `hour_format`.

use super::{AppStorage, Entry};
use crate::error::AppError;
use crate::prefs::hour_format::HourFormat;
use crate::service::app_storage::AppStoragePrefsService;
use vstd::prelude::*;
use vstd::string::*;

verus! {

/// The namespace of the user's preferences.
pub const PREFS_NAMESPACE: &'static str = "prefs_ns";

/// The key of the hour format in its namespace.
pub const HOUR_FORMAT_KEY: &'static str = "hour_format";

/// The text of what reading the hour format gives.
pub open spec fn view_of_format(read: Result<Option<HourFormat>, String>) -> Result<
    Option<HourFormat>,
    Seq<char>,
> {
    match read {
        Ok(format) => Ok(format),
        Err(reason) => Err(reason@),
    }
}

impl AppStorage {
    /// What reading the hour format gives: nothing where nothing is stored,
    /// the format that the stored byte stands for, or an error where the
    /// medium could not be read.
    pub open spec fn stored_hour_format(self) -> Result<Option<HourFormat>, Seq<char>> {
        match self.prefs_nvs {
            Entry::Missing => Ok(None),
            Entry::Stored(code) => Ok(Some(HourFormat::of_code(code))),
            Entry::Unreadable(report) => Err(
                "Couldn't get key 'hour_format' because: "@ + report@,
            ),
        }
    }
}

impl AppStoragePrefsService for AppStorage {
    /// Stores the hour format in place of any stored before. A later read
    /// gives the same format.
    fn save_hour_format(&mut self, hour_format: HourFormat) -> (done: Result<(), AppError>)
        ensures
            done is Ok,
            final(self).prefs_nvs == Entry::Stored(hour_format.code()),
            final(self).stored_hour_format() matches Ok(Some(format)) && format == hour_format,
            final(self).wifi_nvs == old(self).wifi_nvs,
            final(self).tz_nvs == old(self).tz_nvs,
    {
        self.prefs_nvs = Entry::Stored(hour_format.to_u8());
        Ok(())
    }

    /// Reads the hour format and leaves the storage as it is.
    fn get_maybe_hour_format(&mut self) -> (read: Result<Option<HourFormat>, String>)
        ensures
            view_of_format(read) == old(self).stored_hour_format(),
            *final(self) == *old(self),
    {
        match &self.prefs_nvs {
            Entry::Missing => Ok(None),
            Entry::Stored(code) => Ok(Some(HourFormat::from(*code))),
            Entry::Unreadable(report) => {
                let mut reason = String::from_str("Couldn't get key 'hour_format' because: ");
                reason.append(report.as_str());
                Err(reason)
            },
        }
    }
}

} // verus!
