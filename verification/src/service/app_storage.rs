//! What can be asked of the persistent storage.

use crate::error::AppError;
use crate::prefs::hour_format::HourFormat;
use crate::time::tz::TimezoneRequest;
use crate::wifi::WifiCredentials;
use vstd::prelude::*;

verus! {

/// Keeping the timezone.
pub trait AppStorageTzService {
    fn save_timezone(&mut self, timezone: TimezoneRequest) -> Result<(), AppError>;

    fn get_maybe_timezone(&mut self) -> Result<Option<String>, String>;

    fn delete_timezone(&mut self) -> Result<(), AppError>;
}

/// Keeping the Wi-Fi credentials.
pub trait AppStorageWifiService {
    fn save_wifi_credentials(&mut self, ssid: String, password: String);

    fn get_maybe_wifi_credentials(&mut self) -> Result<Option<WifiCredentials>, String>;

    fn delete_wifi_credentials(&mut self) -> Result<(), AppError>;
}

/// Keeping the hour format.
pub trait AppStoragePrefsService {
    fn save_hour_format(&mut self, hour_format: HourFormat) -> Result<(), AppError>;

    fn get_maybe_hour_format(&mut self) -> Result<Option<HourFormat>, String>;
}

} // verus!
