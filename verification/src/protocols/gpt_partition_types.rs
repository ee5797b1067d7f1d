//! Well-known GPT partition type identifiers.

use vstd::prelude::*;

use crate::ffi::Guid;

verus! {

/// Unused entry
pub fn unused_entry_guid() -> (g: Guid)
    ensures
        g == (Guid { data1: 0, data2: 0, data3: 0, data4: [0, 0, 0, 0, 0, 0, 0, 0] }),
{
    Guid { data1: 0, data2: 0, data3: 0, data4: [0, 0, 0, 0, 0, 0, 0, 0] }
}

/// EFI System Partition
pub fn efi_system_partition_guid() -> (g: Guid)
    ensures
        g == (Guid {
            data1: 0xc12a7328,
            data2: 0xf81f,
            data3: 0x11d2,
            data4: [0xba, 0x4b, 0x00, 0xa0, 0xc9, 0x3e, 0xc9, 0x3b],
        }),
{
    Guid {
        data1: 0xc12a7328,
        data2: 0xf81f,
        data3: 0x11d2,
        data4: [0xba, 0x4b, 0x00, 0xa0, 0xc9, 0x3e, 0xc9, 0x3b],
    }
}

/// Microsoft Basic Data
pub fn microsoft_basic_data_guid() -> (g: Guid)
    ensures
        g == (Guid {
            data1: 0xebd0a0a2,
            data2: 0xb9e5,
            data3: 0x4433,
            data4: [0x87, 0xc0, 0x68, 0xb6, 0xb7, 0x26, 0x99, 0xc7],
        }),
{
    Guid {
        data1: 0xebd0a0a2,
        data2: 0xb9e5,
        data3: 0x4433,
        data4: [0x87, 0xc0, 0x68, 0xb6, 0xb7, 0x26, 0x99, 0xc7],
    }
}

/// Linux Filesystem Data
pub fn linux_filesystem_data_guid() -> (g: Guid)
    ensures
        g == (Guid {
            data1: 0x0fc63daf,
            data2: 0x8483,
            data3: 0x4772,
            data4: [0x8e, 0x79, 0x3d, 0x69, 0xd8, 0x47, 0x7d, 0xe4],
        }),
{
    Guid {
        data1: 0x0fc63daf,
        data2: 0x8483,
        data3: 0x4772,
        data4: [0x8e, 0x79, 0x3d, 0x69, 0xd8, 0x47, 0x7d, 0xe4],
    }
}

} // verus!
