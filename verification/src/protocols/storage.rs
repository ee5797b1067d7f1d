//! Storage protocol structures: SCSI and NVMe pass-through, disk access
//! and partition information.  Buffer addresses and service entry points
//! are opaque; they are modelled as plain address values.

use vstd::prelude::*;

use crate::ffi::Guid;

pub use crate::protocols::gpt_partition_types;
pub use crate::protocols::scsi_builder;
pub use crate::protocols::scsi_commands;

verus! {

/// Identifier of the SCSI pass-through protocol.
pub fn scsi_pass_thru_protocol_guid() -> (g: Guid)
    ensures
        g == (Guid {
            data1: 0xa59e8fcf,
            data2: 0xbda0,
            data3: 0x43bb,
            data4: [0x90, 0xb1, 0xd3, 0x73, 0x2e, 0xca, 0xa8, 0x77],
        }),
{
    Guid {
        data1: 0xa59e8fcf,
        data2: 0xbda0,
        data3: 0x43bb,
        data4: [0x90, 0xb1, 0xd3, 0x73, 0x2e, 0xca, 0xa8, 0x77],
    }
}

/// Identifier of the extended SCSI pass-through protocol.
pub fn ext_scsi_pass_thru_protocol_guid() -> (g: Guid)
    ensures
        g == (Guid {
            data1: 0x143b7632,
            data2: 0xb81b,
            data3: 0x4cb7,
            data4: [0xab, 0xd3, 0xb6, 0x25, 0xa5, 0xb9, 0xbf, 0xfe],
        }),
{
    Guid {
        data1: 0x143b7632,
        data2: 0xb81b,
        data3: 0x4cb7,
        data4: [0xab, 0xd3, 0xb6, 0x25, 0xa5, 0xb9, 0xbf, 0xfe],
    }
}

/// Identifier of the NVM Express pass-through protocol.
pub fn nvm_express_pass_thru_protocol_guid() -> (g: Guid)
    ensures
        g == (Guid {
            data1: 0x52c78312,
            data2: 0x8edc,
            data3: 0x4233,
            data4: [0x98, 0xf2, 0x1a, 0x1a, 0xa5, 0xe3, 0x88, 0xa5],
        }),
{
    Guid {
        data1: 0x52c78312,
        data2: 0x8edc,
        data3: 0x4233,
        data4: [0x98, 0xf2, 0x1a, 0x1a, 0xa5, 0xe3, 0x88, 0xa5],
    }
}

/// Identifier of the disk I/O protocol.
pub fn disk_io_protocol_guid() -> (g: Guid)
    ensures
        g == (Guid {
            data1: 0xce345171,
            data2: 0xba0b,
            data3: 0x11d2,
            data4: [0x8e, 0x4f, 0x00, 0xa0, 0xc9, 0x69, 0x72, 0x3b],
        }),
{
    Guid {
        data1: 0xce345171,
        data2: 0xba0b,
        data3: 0x11d2,
        data4: [0x8e, 0x4f, 0x00, 0xa0, 0xc9, 0x69, 0x72, 0x3b],
    }
}

/// Identifier of the second disk I/O protocol.
pub fn disk_io2_protocol_guid() -> (g: Guid)
    ensures
        g == (Guid {
            data1: 0x151c8eae,
            data2: 0x7f2c,
            data3: 0x472c,
            data4: [0x9e, 0x54, 0x98, 0x28, 0x19, 0x4f, 0x6a, 0x88],
        }),
{
    Guid {
        data1: 0x151c8eae,
        data2: 0x7f2c,
        data3: 0x472c,
        data4: [0x9e, 0x54, 0x98, 0x28, 0x19, 0x4f, 0x6a, 0x88],
    }
}

/// Identifier of the partition information protocol.
pub fn partition_info_protocol_guid() -> (g: Guid)
    ensures
        g == (Guid {
            data1: 0x8cf2f62c,
            data2: 0xbc9b,
            data3: 0x4821,
            data4: [0x80, 0x8d, 0xec, 0x9e, 0xc4, 0x21, 0xa1, 0xa0],
        }),
{
    Guid {
        data1: 0x8cf2f62c,
        data2: 0xbc9b,
        data3: 0x4821,
        data4: [0x80, 0x8d, 0xec, 0x9e, 0xc4, 0x21, 0xa1, 0xa0],
    }
}

/// SCSI Target ID
pub type ScsiTarget = u32;

/// SCSI LUN
pub type ScsiLun = u64;

/// NVMe Namespace ID
pub type NvmeNamespaceId = u32;

/// SCSI Data Direction
pub const SCSI_DATA_IN: u8 = 0;

pub const SCSI_DATA_OUT: u8 = 1;

/// SCSI Request Packet; buffer addresses are opaque address values.
#[derive(Debug, Copy, Clone, PartialEq, Eq, Structural)]
pub struct ScsiPassThruRequestPacket {
    pub timeout: u64,
    pub in_data_buffer: usize,
    pub out_data_buffer: usize,
    pub sense_data: usize,
    pub cdb: usize,
    pub in_transfer_length: u32,
    pub out_transfer_length: u32,
    pub cdb_length: u8,
    pub data_direction: u8,
    pub host_adapter_status: u8,
    pub target_status: u8,
    pub sense_data_length: u8,
}

/// EFI_SCSI_PASS_THRU_PROTOCOL, its services as opaque address values.
#[derive(Debug, Copy, Clone)]
pub struct ScsiPassThruProtocol {
    pub mode: usize,
    pub pass_thru: usize,
    pub get_next_device: usize,
    pub build_device_path: usize,
    pub get_target_lun: usize,
    pub reset_channel: usize,
    pub reset_target: usize,
}

/// SCSI Pass Thru Mode
#[derive(Debug, Copy, Clone)]
pub struct ScsiPassThruMode {
    pub adapter_id: u32,
    pub attributes: u32,
    pub io_align: u32,
}

/// Extended SCSI Pass Thru Request Packet
#[derive(Debug, Copy, Clone)]
pub struct ExtScsiPassThruRequestPacket {
    pub timeout: u64,
    pub in_data_buffer: usize,
    pub out_data_buffer: usize,
    pub sense_data: usize,
    pub cdb: usize,
    pub in_transfer_length: u32,
    pub out_transfer_length: u32,
    pub cdb_length: u8,
    pub data_direction: u8,
    pub host_adapter_status: u8,
    pub target_status: u8,
    pub sense_data_length: u8,
}

/// EFI_EXT_SCSI_PASS_THRU_PROTOCOL, its services as opaque address values.
#[derive(Debug, Copy, Clone)]
pub struct ExtScsiPassThruProtocol {
    pub mode: usize,
    pub pass_thru: usize,
    pub get_next_target_lun: usize,
    pub build_device_path: usize,
    pub get_target_lun: usize,
    pub reset_channel: usize,
    pub reset_target_lun: usize,
    pub get_next_target: usize,
}

/// Extended SCSI Pass Thru Mode
#[derive(Debug, Copy, Clone)]
pub struct ExtScsiPassThruMode {
    pub adapter_id: u32,
    pub attributes: u32,
    pub io_align: u32,
}

/// NVMe Command Packet; buffer addresses are opaque address values.
#[derive(Debug, Copy, Clone)]
pub struct NvmePassThruCommandPacket {
    pub command_timeout: u64,
    pub transfer_buffer: usize,
    pub transfer_length: u32,
    pub metadata_buffer: usize,
    pub metadata_length: u32,
    pub queue_type: u8,
    pub nvme_cmd: usize,
    pub nvme_completion: usize,
}

/// NVMe Command
#[derive(Debug, Copy, Clone, PartialEq, Eq, Structural)]
pub struct NvmeCommand {
    pub cdw0: u32,
    pub flags: u8,
    pub nsid: u32,
    pub cdw2: u32,
    pub cdw3: u32,
    pub cdw10: u32,
    pub cdw11: u32,
    pub cdw12: u32,
    pub cdw13: u32,
    pub cdw14: u32,
    pub cdw15: u32,
}

/// NVMe Completion
#[derive(Debug, Copy, Clone, PartialEq, Eq, Structural)]
pub struct NvmeCompletion {
    pub dw0: u32,
    pub dw1: u32,
    pub dw2: u32,
    pub dw3: u32,
}

/// EFI_NVM_EXPRESS_PASS_THRU_PROTOCOL, its services as opaque address
/// values.
#[derive(Debug, Copy, Clone)]
pub struct NvmExpressPassThruProtocol {
    pub mode: usize,
    pub pass_thru: usize,
    pub get_next_namespace: usize,
    pub build_device_path: usize,
    pub get_namespace: usize,
}

/// NVMe Pass Thru Mode
#[derive(Debug, Copy, Clone)]
pub struct NvmExpressPassThruMode {
    pub attributes: u32,
    pub io_align: u32,
    pub nvme_version: u32,
}

/// EFI_DISK_IO_PROTOCOL, its services as opaque address values.
#[derive(Debug, Copy, Clone)]
pub struct DiskIoProtocol {
    pub revision: u64,
    pub read_disk: usize,
    pub write_disk: usize,
}

/// Disk I/O Token
#[derive(Debug, Copy, Clone)]
pub struct DiskIo2Token {
    pub event: usize,
    pub transaction_status: usize,
}

/// EFI_DISK_IO2_PROTOCOL, its services as opaque address values.
#[derive(Debug, Copy, Clone)]
pub struct DiskIo2Protocol {
    pub revision: u64,
    pub cancel: usize,
    pub read_disk_ex: usize,
    pub write_disk_ex: usize,
    pub flush_disk_ex: usize,
}

/// Partition Type, in its architectural order.
#[derive(Debug, Copy, Clone, PartialEq, Eq, Structural)]
pub enum PartitionType {
    Other,
    Mbr,
    Gpt,
}

/// MBR Partition Record
#[derive(Debug, Copy, Clone)]
pub struct MbrPartitionRecord {
    pub boot_indicator: u8,
    pub start_head: u8,
    pub start_sector: u8,
    pub start_track: u8,
    pub os_indicator: u8,
    pub end_head: u8,
    pub end_sector: u8,
    pub end_track: u8,
    pub starting_lba: [u8; 4],
    pub size_in_lba: [u8; 4],
}

/// GPT Partition Entry
#[derive(Debug, Copy, Clone)]
pub struct GptPartitionEntry {
    pub partition_type_guid: Guid,
    pub unique_partition_guid: Guid,
    pub starting_lba: u64,
    pub ending_lba: u64,
    pub attributes: u64,
    pub partition_name: [u16; 36],
}

/// The type-specific part of partition information.  The original wire
/// format overlays the two shapes; this model carries both, and the
/// `partition_type` tag of `PartitionInfo` says which one is meaningful.
#[derive(Debug, Copy, Clone)]
pub struct PartitionInfoUnion {
    pub mbr: MbrPartitionRecord,
    pub gpt: GptPartitionEntry,
}

/// Partition Info
#[derive(Debug, Copy, Clone)]
pub struct PartitionInfo {
    pub revision: u32,
    pub partition_type: PartitionType,
    pub system: u8,
    pub reserved: [u8; 7],
    pub info: PartitionInfoUnion,
}

/// EFI_PARTITION_INFO_PROTOCOL
#[derive(Debug, Copy, Clone)]
pub struct PartitionInfoProtocol {
    pub revision: u64,
    pub info: PartitionInfo,
}

/// Safe wrapper for SCSI Pass Thru Protocol; commands go through firmware.
pub struct SafeScsiPassThru<'a> {
    protocol: &'a ScsiPassThruProtocol,
}

/// Enumeration state of a walk over SCSI devices; each step is a firmware
/// call made by the caller.
#[derive(Debug, Copy, Clone)]
pub struct ScsiDeviceIterator {
    pub target: ScsiTarget,
    pub lun: ScsiLun,
}

impl<'a> SafeScsiPassThru<'a> {
    /// The protocol this wrapper stands over.
    pub closed spec fn spec_protocol(&self) -> ScsiPassThruProtocol {
        *self.protocol
    }

    /// Create a new safe wrapper
    pub fn new(protocol: &'a ScsiPassThruProtocol) -> (s: SafeScsiPassThru<'a>)
        ensures
            s.spec_protocol() == *protocol,
    {
        SafeScsiPassThru { protocol }
    }

    /// Start enumerating devices: the all-ones target asks the firmware
    /// for the first device.
    pub fn devices(&self) -> (it: ScsiDeviceIterator)
        ensures
            it.target == 0xFFFFFFFFu32,
            it.lun == 0,
    {
        ScsiDeviceIterator { target: 0xFFFFFFFF, lun: 0 }
    }
}

/// Safe wrapper for NVMe Pass Thru Protocol; commands go through firmware.
pub struct SafeNvmePassThru<'a> {
    protocol: &'a NvmExpressPassThruProtocol,
}

/// Enumeration state of a walk over NVMe namespaces; each step is a
/// firmware call made by the caller.
#[derive(Debug, Copy, Clone)]
pub struct NvmeNamespaceIterator {
    pub namespace_id: NvmeNamespaceId,
}

impl<'a> SafeNvmePassThru<'a> {
    /// The protocol this wrapper stands over.
    pub closed spec fn spec_protocol(&self) -> NvmExpressPassThruProtocol {
        *self.protocol
    }

    /// Create a new safe wrapper
    pub fn new(protocol: &'a NvmExpressPassThruProtocol) -> (s: SafeNvmePassThru<'a>)
        ensures
            s.spec_protocol() == *protocol,
    {
        SafeNvmePassThru { protocol }
    }

    /// Start enumerating namespaces: the all-ones identifier asks the
    /// firmware for the first namespace.
    pub fn namespaces(&self) -> (it: NvmeNamespaceIterator)
        ensures
            it.namespace_id == 0xFFFFFFFFu32,
    {
        NvmeNamespaceIterator { namespace_id: 0xFFFFFFFF }
    }

    /// The admin-queue packet that carries an identify transfer: it binds
    /// the caller's 4096-byte response buffer and the command and
    /// completion blocks, all as opaque address values, with a one-second
    /// timeout and no metadata.  The caller submits it through the
    /// firmware.
    pub fn identify_command_packet(
        &self,
        buffer_addr: usize,
        cmd_addr: usize,
        completion_addr: usize,
    ) -> (p: NvmePassThruCommandPacket)
        ensures
            p == (NvmePassThruCommandPacket {
                command_timeout: 1_000_000,
                transfer_buffer: buffer_addr,
                transfer_length: 4096,
                metadata_buffer: 0,
                metadata_length: 0,
                queue_type: 0,
                nvme_cmd: cmd_addr,
                nvme_completion: completion_addr,
            }),
    {
        NvmePassThruCommandPacket {
            command_timeout: 1_000_000,
            transfer_buffer: buffer_addr,
            transfer_length: 4096,
            metadata_buffer: 0,
            metadata_length: 0,
            queue_type: 0,
            nvme_cmd: cmd_addr,
            nvme_completion: completion_addr,
        }
    }

    /// The admin command that asks a controller to identify itself; the
    /// caller submits it through the firmware.
    pub fn identify_controller_command(&self) -> (cmd: NvmeCommand)
        ensures
            cmd == (NvmeCommand {
                cdw0: 0x06,
                flags: 0,
                nsid: 0,
                cdw2: 0,
                cdw3: 0,
                cdw10: 0x01,
                cdw11: 0,
                cdw12: 0,
                cdw13: 0,
                cdw14: 0,
                cdw15: 0,
            }),
    {
        NvmeCommand {
            cdw0: 0x06,
            flags: 0,
            nsid: 0,
            cdw2: 0,
            cdw3: 0,
            cdw10: 0x01,
            cdw11: 0,
            cdw12: 0,
            cdw13: 0,
            cdw14: 0,
            cdw15: 0,
        }
    }

    /// The admin command that asks for one namespace's structure; the
    /// caller submits it through the firmware.
    pub fn identify_namespace_command(&self, namespace_id: u32) -> (cmd: NvmeCommand)
        ensures
            cmd == (NvmeCommand {
                cdw0: 0x06,
                flags: 0,
                nsid: namespace_id,
                cdw2: 0,
                cdw3: 0,
                cdw10: 0x00,
                cdw11: 0,
                cdw12: 0,
                cdw13: 0,
                cdw14: 0,
                cdw15: 0,
            }),
    {
        NvmeCommand {
            cdw0: 0x06,
            flags: 0,
            nsid: namespace_id,
            cdw2: 0,
            cdw3: 0,
            cdw10: 0x00,
            cdw11: 0,
            cdw12: 0,
            cdw13: 0,
            cdw14: 0,
            cdw15: 0,
        }
    }
}

/// Safe wrapper for Disk I/O Protocol; transfers go through firmware.
pub struct SafeDiskIo<'a> {
    protocol: &'a DiskIoProtocol,
}

impl<'a> SafeDiskIo<'a> {
    /// The protocol this wrapper stands over.
    pub closed spec fn spec_protocol(&self) -> DiskIoProtocol {
        *self.protocol
    }

    /// Create a new safe wrapper
    pub fn new(protocol: &'a DiskIoProtocol) -> (s: SafeDiskIo<'a>)
        ensures
            s.spec_protocol() == *protocol,
    {
        SafeDiskIo { protocol }
    }

    /// Get the protocol revision
    pub fn revision(&self) -> (r: u64)
        ensures
            r == self.spec_protocol().revision,
    {
        self.protocol.revision
    }
}

/// Safe wrapper for the second Disk I/O Protocol; transfers go through
/// firmware.
pub struct SafeDiskIo2<'a> {
    protocol: &'a DiskIo2Protocol,
}

impl<'a> SafeDiskIo2<'a> {
    /// The protocol this wrapper stands over.
    pub closed spec fn spec_protocol(&self) -> DiskIo2Protocol {
        *self.protocol
    }

    /// Create a new safe wrapper
    pub fn new(protocol: &'a DiskIo2Protocol) -> (s: SafeDiskIo2<'a>)
        ensures
            s.spec_protocol() == *protocol,
    {
        SafeDiskIo2 { protocol }
    }

    /// Get the protocol revision
    pub fn revision(&self) -> (r: u64)
        ensures
            r == self.spec_protocol().revision,
    {
        self.protocol.revision
    }
}

/// Safe wrapper for Partition Info Protocol
pub struct SafePartitionInfo<'a> {
    protocol: &'a PartitionInfoProtocol,
}

impl<'a> SafePartitionInfo<'a> {
    /// The protocol this wrapper stands over.
    pub closed spec fn spec_protocol(&self) -> PartitionInfoProtocol {
        *self.protocol
    }

    /// Create a new safe wrapper
    pub fn new(protocol: &'a PartitionInfoProtocol) -> (s: SafePartitionInfo<'a>)
        ensures
            s.spec_protocol() == *protocol,
    {
        SafePartitionInfo { protocol }
    }

    /// Get partition information
    pub fn info(&self) -> (r: &PartitionInfo)
        ensures
            *r == self.spec_protocol().info,
    {
        &self.protocol.info
    }

    /// Get partition type
    pub fn partition_type(&self) -> (r: PartitionType)
        ensures
            r == self.spec_protocol().info.partition_type,
    {
        self.protocol.info.partition_type
    }

    /// Check if this is a system partition
    pub fn is_system_partition(&self) -> (r: bool)
        ensures
            r == (self.spec_protocol().info.system != 0),
    {
        self.protocol.info.system != 0
    }

    /// Get MBR partition information if this is an MBR partition
    pub fn mbr_info(&self) -> (r: Option<&MbrPartitionRecord>)
        ensures
            match r {
                Some(m) => self.spec_protocol().info.partition_type is Mbr && *m
                    == self.spec_protocol().info.info.mbr,
                None => !(self.spec_protocol().info.partition_type is Mbr),
            },
    {
        if self.protocol.info.partition_type == PartitionType::Mbr {
            Some(&self.protocol.info.info.mbr)
        } else {
            None
        }
    }

    /// Get GPT partition information if this is a GPT partition
    pub fn gpt_info(&self) -> (r: Option<&GptPartitionEntry>)
        ensures
            match r {
                Some(g) => self.spec_protocol().info.partition_type is Gpt && *g
                    == self.spec_protocol().info.info.gpt,
                None => !(self.spec_protocol().info.partition_type is Gpt),
            },
    {
        if self.protocol.info.partition_type == PartitionType::Gpt {
            Some(&self.protocol.info.info.gpt)
        } else {
            None
        }
    }

    /// Get GPT partition type GUID
    pub fn gpt_partition_type_guid(&self) -> (r: Option<Guid>)
        ensures
            match r {
                Some(g) => self.spec_protocol().info.partition_type is Gpt && g
                    == self.spec_protocol().info.info.gpt.partition_type_guid,
                None => !(self.spec_protocol().info.partition_type is Gpt),
            },
    {
        match self.gpt_info() {
            Some(gpt) => Some(gpt.partition_type_guid),
            None => None,
        }
    }

    /// Get GPT unique partition GUID
    pub fn gpt_unique_partition_guid(&self) -> (r: Option<Guid>)
        ensures
            match r {
                Some(g) => self.spec_protocol().info.partition_type is Gpt && g
                    == self.spec_protocol().info.info.gpt.unique_partition_guid,
                None => !(self.spec_protocol().info.partition_type is Gpt),
            },
    {
        match self.gpt_info() {
            Some(gpt) => Some(gpt.unique_partition_guid),
            None => None,
        }
    }

    /// Get the partition name (GPT only), up to its first terminator.
    pub fn partition_name(&self) -> (r: Option<Vec<u16>>)
        ensures
            match r {
                Some(name) => {
                    &&& self.spec_protocol().info.partition_type is Gpt
                    &&& name@.len() <= 36
                    &&& forall|k: int|
                        0 <= k < name@.len() ==> name@[k]
                            == self.spec_protocol().info.info.gpt.partition_name[k] && name@[k]
                            != 0
                },
                None => !(self.spec_protocol().info.partition_type is Gpt),
            },
    {
        match self.gpt_info() {
            Some(gpt) => {
                let mut name: Vec<u16> = Vec::new();
                let mut i: usize = 0;
                while i < 36 && gpt.partition_name[i] != 0
                    invariant
                        i <= 36,
                        name@.len() == i,
                        forall|k: int|
                            0 <= k < i ==> name@[k] == gpt.partition_name[k] && name@[k] != 0,
                    decreases 36 - i,
                {
                    name.push(gpt.partition_name[i]);
                    i = i + 1;
                }
                Some(name)
            },
            None => None,
        }
    }

    /// Get revision
    pub fn revision(&self) -> (r: u64)
        ensures
            r == self.spec_protocol().revision,
    {
        self.protocol.revision
    }
}

} // verus!
