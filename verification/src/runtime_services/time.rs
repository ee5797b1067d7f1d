//! The wall-clock time structure of the platform and its validity rules.

use vstd::prelude::*;

use crate::runtime_services::RuntimeServices;

verus! {

/// EFI_TIME
#[derive(Debug, Copy, Clone)]
pub struct Time {
    /// 1900 - 9999
    pub year: u16,
    /// 1 - 12
    pub month: u8,
    /// 1 - 31
    pub day: u8,
    /// 0 - 23
    pub hour: u8,
    /// 0 - 59
    pub minute: u8,
    /// 0 - 59
    pub second: u8,
    pub pad1: u8,
    /// 0 - 999,999,999
    pub nanosecond: u32,
    /// -1440 to 1440, or unspecified
    pub time_zone: i16,
    pub daylight: u8,
    pub pad2: u8,
}

/// EFI_TIME_CAPABILITIES
#[derive(Debug, Copy, Clone)]
pub struct TimeCapabilities {
    pub resolution: u32,
    pub accuracy: u32,
    pub sets_to_zero: u8,
}

// Time flags
pub const EFI_TIME_ADJUST_DAYLIGHT: u8 = 0x01;

pub const EFI_TIME_IN_DAYLIGHT: u8 = 0x02;

pub const EFI_UNSPECIFIED_TIMEZONE: i16 = 0x07FF;

/// Every field of the time lies inside its architectural range.
pub open spec fn spec_time_valid(t: Time) -> bool {
    &&& 1900 <= t.year <= 9999
    &&& 1 <= t.month <= 12
    &&& 1 <= t.day <= 31
    &&& t.hour <= 23
    &&& t.minute <= 59
    &&& t.second <= 59
    &&& t.nanosecond <= 999_999_999
    &&& (t.time_zone == EFI_UNSPECIFIED_TIMEZONE || -1440 <= t.time_zone <= 1440)
}

impl Time {
    /// Create a new time of day with an unspecified time zone and zero
    /// sub-second fields.
    pub fn new(year: u16, month: u8, day: u8, hour: u8, minute: u8, second: u8) -> (t: Time)
        ensures
            t == (Time {
                year,
                month,
                day,
                hour,
                minute,
                second,
                pad1: 0,
                nanosecond: 0,
                time_zone: EFI_UNSPECIFIED_TIMEZONE,
                daylight: 0,
                pad2: 0,
            }),
    {
        Time {
            year,
            month,
            day,
            hour,
            minute,
            second,
            pad1: 0,
            nanosecond: 0,
            time_zone: EFI_UNSPECIFIED_TIMEZONE,
            daylight: 0,
            pad2: 0,
        }
    }

    /// Validate the time: every field inside its architectural range.
    pub fn is_valid(&self) -> (r: bool)
        ensures
            r == spec_time_valid(*self),
    {
        if self.year < 1900 || self.year > 9999 {
            return false;
        }
        if self.month < 1 || self.month > 12 {
            return false;
        }
        if self.day < 1 || self.day > 31 {
            return false;
        }
        if self.hour > 23 {
            return false;
        }
        if self.minute > 59 {
            return false;
        }
        if self.second > 59 {
            return false;
        }
        if self.nanosecond > 999_999_999 {
            return false;
        }
        if self.time_zone != EFI_UNSPECIFIED_TIMEZONE && (self.time_zone < -1440 || self.time_zone
            > 1440) {
            return false;
        }
        true
    }
}

/// Time service wrapper; the clock itself is a firmware service.
pub struct TimeService<'a> {
    rt: &'a RuntimeServices,
}

impl<'a> TimeService<'a> {
    /// The runtime services table this wrapper stands over.
    pub closed spec fn spec_rt(&self) -> RuntimeServices {
        *self.rt
    }

    /// Create a new time service wrapper
    pub fn new(rt: &'a RuntimeServices) -> (s: TimeService<'a>)
        ensures
            s.spec_rt() == *rt,
    {
        TimeService { rt }
    }
}

} // verus!
