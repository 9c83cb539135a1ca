//! The timezone in force.

use vstd::prelude::*;

verus! {

/// A request to change the timezone, as the web portal receives it.
#[derive(Debug)]
pub struct TimezoneRequest {
    pub timezone: String,
}

impl Clone for TimezoneRequest {
    fn clone(&self) -> (copy: Self)
        ensures
            copy == *self,
    {
        TimezoneRequest { timezone: self.timezone.clone() }
    }
}

/// The timezone in force: the one that was set, or the default while none
/// has been.
pub open spec fn timezone_in_force(setting: Option<String>, default_timezone: Seq<char>) -> Seq<
    char,
> {
    match setting {
        Some(tz) => tz@,
        None => default_timezone,
    }
}

/// Reads the timezone in force from the setting.
pub fn get_timezone(setting: &Option<String>, default_timezone: &str) -> (timezone: String)
    ensures
        timezone@ == timezone_in_force(*setting, default_timezone@),
{
    match setting {
        Some(tz) => tz.clone(),
        None => default_timezone.to_owned(),
    }
}

/// Puts a new timezone into the setting.
pub fn set_timezone(setting: &mut Option<String>, new_timezone: String)
    ensures
        *final(setting) == Some(new_timezone),
{
    *setting = Some(new_timezone);
}

} // verus!
