//! Event and timer service types, and the 100-nanosecond tick conversions
//! used when arming timers.

use vstd::prelude::*;

use crate::ffi::{Event, Guid};

verus! {

// Event types
pub const EVT_TIMER: u32 = 0x80000000;

pub const EVT_RUNTIME: u32 = 0x40000000;

pub const EVT_NOTIFY_WAIT: u32 = 0x00000100;

pub const EVT_NOTIFY_SIGNAL: u32 = 0x00000200;

pub const EVT_SIGNAL_EXIT_BOOT_SERVICES: u32 = 0x00000201;

pub const EVT_SIGNAL_VIRTUAL_ADDRESS_CHANGE: u32 = 0x60000202;

// Timer delays, in their architectural order
#[derive(Debug, Copy, Clone, PartialEq, Eq, Structural)]
pub enum TimerDelay {
    TimerCancel,
    TimerPeriodic,
    TimerRelative,
}

/// A created event, its handle an opaque address value; firmware owns the
/// event itself.
#[derive(Debug, Copy, Clone)]
pub struct EventWrapper {
    event: Event,
}

impl EventWrapper {
    /// The raw handle this wrapper carries.
    pub closed spec fn spec_event(&self) -> Event {
        self.event
    }

    /// Wrap a raw event handle handed over by the platform.
    pub fn from_raw(event: Event) -> (w: EventWrapper)
        ensures
            w.spec_event() == event,
    {
        EventWrapper { event }
    }

    /// Get the raw event handle
    pub fn as_raw(&self) -> (e: Event)
        ensures
            e == self.spec_event(),
    {
        self.event
    }
}

/// A timer armed through an event.
#[derive(Debug, Copy, Clone)]
pub struct Timer {
    pub event: EventWrapper,
}


/// Identifier of the event group signalled when boot services end.
pub fn evt_group_exit_boot_services() -> (g: Guid)
    ensures
        g == (Guid {
            data1: 0x27abf055,
            data2: 0xb1b8,
            data3: 0x4c26,
            data4: [0x80, 0x48, 0x74, 0x8f, 0x37, 0xba, 0xa2, 0xdf],
        }),
{
    Guid {
        data1: 0x27abf055,
        data2: 0xb1b8,
        data3: 0x4c26,
        data4: [0x80, 0x48, 0x74, 0x8f, 0x37, 0xba, 0xa2, 0xdf],
    }
}

/// Identifier of the event group signalled on virtual address changes.
pub fn evt_group_virtual_address_change() -> (g: Guid)
    ensures
        g == (Guid {
            data1: 0x13fa7698,
            data2: 0xc831,
            data3: 0x49c7,
            data4: [0x87, 0xea, 0x8f, 0x43, 0xfc, 0xc2, 0x51, 0x96],
        }),
{
    Guid {
        data1: 0x13fa7698,
        data2: 0xc831,
        data3: 0x49c7,
        data4: [0x87, 0xea, 0x8f, 0x43, 0xfc, 0xc2, 0x51, 0x96],
    }
}

/// Identifier of the event group signalled when the memory map changes.
pub fn evt_group_memory_map_change() -> (g: Guid)
    ensures
        g == (Guid {
            data1: 0x78bee926,
            data2: 0x692f,
            data3: 0x48fd,
            data4: [0x9e, 0xdb, 0x01, 0x42, 0x2e, 0xf0, 0xd7, 0xab],
        }),
{
    Guid {
        data1: 0x78bee926,
        data2: 0x692f,
        data3: 0x48fd,
        data4: [0x9e, 0xdb, 0x01, 0x42, 0x2e, 0xf0, 0xd7, 0xab],
    }
}

/// Identifier of the event group signalled before boot.
pub fn evt_group_ready_to_boot() -> (g: Guid)
    ensures
        g == (Guid {
            data1: 0x7ce88fb3,
            data2: 0x4bd7,
            data3: 0x4679,
            data4: [0x87, 0xa8, 0xa8, 0xd8, 0xde, 0xe5, 0x0d, 0x2b],
        }),
{
    Guid {
        data1: 0x7ce88fb3,
        data2: 0x4bd7,
        data3: 0x4679,
        data4: [0x87, 0xa8, 0xa8, 0xd8, 0xde, 0xe5, 0x0d, 0x2b],
    }
}

/// Convert milliseconds to 100ns units
pub fn ms_to_100ns(ms: u64) -> (r: u64)
    requires
        ms * 10_000 <= u64::MAX,
    ensures
        r == ms * 10_000,
{
    ms * 10_000
}

/// Convert microseconds to 100ns units
pub fn us_to_100ns(us: u64) -> (r: u64)
    requires
        us * 10 <= u64::MAX,
    ensures
        r == us * 10,
{
    us * 10
}

/// Convert seconds to 100ns units
pub fn sec_to_100ns(sec: u64) -> (r: u64)
    requires
        sec * 10_000_000 <= u64::MAX,
    ensures
        r == sec * 10_000_000,
{
    sec * 10_000_000
}

/// Convert 100ns units to milliseconds
pub fn ns100_to_ms(ns100: u64) -> (r: u64)
    ensures
        r == ns100 / 10_000,
{
    ns100 / 10_000
}

/// Convert 100ns units to microseconds
pub fn ns100_to_us(ns100: u64) -> (r: u64)
    ensures
        r == ns100 / 10,
{
    ns100 / 10
}

/// Convert 100ns units to seconds
pub fn ns100_to_sec(ns100: u64) -> (r: u64)
    ensures
        r == ns100 / 10_000_000,
{
    ns100 / 10_000_000
}

} // verus!
