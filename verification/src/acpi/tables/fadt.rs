//! The fixed ACPI description table: the power management ports and the
//! address of the differentiated system description table.
use vstd::prelude::*;
use crate::acpi::tables::sdt_header::{ACPISDTHeader, header_at};
use crate::bytes::{le16, le32, le64, read_u16_le, read_u32_le, read_u64_le};

verus! {

/// Where a register lives: its address space, width, offset and address.
#[derive(Clone, Copy, Debug)]
pub struct GenericAddressStructure {
    pub address_space: u8,
    pub bit_width: u8,
    pub bit_offset: u8,
    pub access_size: u8,
    pub address: u64,
}

/// `v` holds the 12-byte record stored in `s` at `off`.
pub open spec fn generic_address_structure_at(v: GenericAddressStructure, s: Seq<u8>, off: int) -> bool {
    &&& 0 <= off && off + 12 <= s.len()
    &&& v.address_space == s[off]
    &&& v.bit_width == s[off + 1]
    &&& v.bit_offset == s[off + 2]
    &&& v.access_size == s[off + 3]
    &&& v.address == le64(s, off + 4)
}

impl GenericAddressStructure {
    /// Size of the record in bytes.
    pub const SIZE: usize = 12;

    /// Decodes the record stored in `data` at `off`.
    pub fn read_from(data: &[u8], off: usize) -> (r: GenericAddressStructure)
        requires
            off + 12 <= data@.len(),
        ensures
            generic_address_structure_at(r, data@, off as int),
    {
        let _n = data.len();
        GenericAddressStructure {
            address_space: data[off],
            bit_width: data[off + 1],
            bit_offset: data[off + 2],
            access_size: data[off + 3],
            address: read_u64_le(data, off + 4),
        }
    }
}

/// The fixed ACPI description table, field by field.
#[derive(Clone, Copy, Debug)]
pub struct FADT {
    pub h: ACPISDTHeader,
    pub firmware_ctrl: u32,
    pub dsdt: u32,
    pub reserved: u8,
    pub preferred_power_management_profile: u8,
    pub sci_interrupt: u16,
    pub smi_command_port: u32,
    pub acpi_enable: u8,
    pub acpi_disable: u8,
    pub s4bios_req: u8,
    pub pstate_control: u8,
    pub pm1a_event_block: u32,
    pub pm1b_event_block: u32,
    pub pm1a_control_block: u32,
    pub pm1b_control_block: u32,
    pub pm2_control_block: u32,
    pub pm_timer_block: u32,
    pub gpe0_block: u32,
    pub gpe1_block: u32,
    pub pm1_event_length: u8,
    pub pm1_control_length: u8,
    pub pm2_control_length: u8,
    pub pm_timer_length: u8,
    pub gpe0_length: u8,
    pub gpe1_length: u8,
    pub gpe1_base: u8,
    pub cstate_control: u8,
    pub worst_c2_latency: u16,
    pub worst_c3_latency: u16,
    pub flush_size: u16,
    pub flush_stride: u16,
    pub duty_offset: u8,
    pub duty_width: u8,
    pub day_alarm: u8,
    pub month_alarm: u8,
    pub century: u8,
    pub boot_architecture_flags: u16,
    pub reserved2: u8,
    pub flags: u32,
    pub reset_reg: GenericAddressStructure,
    pub reset_value: u8,
    pub reserved3: [u8; 3],
    pub x_firmware_control: u64,
    pub x_dsdt: u64,
    pub x_pm1a_event_block: GenericAddressStructure,
    pub x_pm1b_event_block: GenericAddressStructure,
    pub x_pm1a_control_block: GenericAddressStructure,
    pub x_pm1b_control_block: GenericAddressStructure,
    pub x_pm2_control_block: GenericAddressStructure,
    pub x_pm_timer_block: GenericAddressStructure,
    pub x_gpe0_block: GenericAddressStructure,
    pub x_gpe1_block: GenericAddressStructure,
}

/// `v` holds the 244-byte record stored in `s` at `off`.
pub open spec fn fadt_at(v: FADT, s: Seq<u8>, off: int) -> bool {
    &&& 0 <= off && off + 244 <= s.len()
    &&& header_at(v.h, s, off)
    &&& v.firmware_ctrl == le32(s, off + 36)
    &&& v.dsdt == le32(s, off + 40)
    &&& v.reserved == s[off + 44]
    &&& v.preferred_power_management_profile == s[off + 45]
    &&& v.sci_interrupt == le16(s, off + 46)
    &&& v.smi_command_port == le32(s, off + 48)
    &&& v.acpi_enable == s[off + 52]
    &&& v.acpi_disable == s[off + 53]
    &&& v.s4bios_req == s[off + 54]
    &&& v.pstate_control == s[off + 55]
    &&& v.pm1a_event_block == le32(s, off + 56)
    &&& v.pm1b_event_block == le32(s, off + 60)
    &&& v.pm1a_control_block == le32(s, off + 64)
    &&& v.pm1b_control_block == le32(s, off + 68)
    &&& v.pm2_control_block == le32(s, off + 72)
    &&& v.pm_timer_block == le32(s, off + 76)
    &&& v.gpe0_block == le32(s, off + 80)
    &&& v.gpe1_block == le32(s, off + 84)
    &&& v.pm1_event_length == s[off + 88]
    &&& v.pm1_control_length == s[off + 89]
    &&& v.pm2_control_length == s[off + 90]
    &&& v.pm_timer_length == s[off + 91]
    &&& v.gpe0_length == s[off + 92]
    &&& v.gpe1_length == s[off + 93]
    &&& v.gpe1_base == s[off + 94]
    &&& v.cstate_control == s[off + 95]
    &&& v.worst_c2_latency == le16(s, off + 96)
    &&& v.worst_c3_latency == le16(s, off + 98)
    &&& v.flush_size == le16(s, off + 100)
    &&& v.flush_stride == le16(s, off + 102)
    &&& v.duty_offset == s[off + 104]
    &&& v.duty_width == s[off + 105]
    &&& v.day_alarm == s[off + 106]
    &&& v.month_alarm == s[off + 107]
    &&& v.century == s[off + 108]
    &&& v.boot_architecture_flags == le16(s, off + 109)
    &&& v.reserved2 == s[off + 111]
    &&& v.flags == le32(s, off + 112)
    &&& generic_address_structure_at(v.reset_reg, s, off + 116)
    &&& v.reset_value == s[off + 128]
    &&& v.reserved3@ == s.subrange(off + 129, off + 129 + 3)
    &&& v.x_firmware_control == le64(s, off + 132)
    &&& v.x_dsdt == le64(s, off + 140)
    &&& generic_address_structure_at(v.x_pm1a_event_block, s, off + 148)
    &&& generic_address_structure_at(v.x_pm1b_event_block, s, off + 160)
    &&& generic_address_structure_at(v.x_pm1a_control_block, s, off + 172)
    &&& generic_address_structure_at(v.x_pm1b_control_block, s, off + 184)
    &&& generic_address_structure_at(v.x_pm2_control_block, s, off + 196)
    &&& generic_address_structure_at(v.x_pm_timer_block, s, off + 208)
    &&& generic_address_structure_at(v.x_gpe0_block, s, off + 220)
    &&& generic_address_structure_at(v.x_gpe1_block, s, off + 232)
}

impl FADT {
    /// Size of the record in bytes.
    pub const SIZE: usize = 244;

    /// Decodes the record stored in `data` at `off`.
    pub fn read_from(data: &[u8], off: usize) -> (r: FADT)
        requires
            off + 244 <= data@.len(),
        ensures
            fadt_at(r, data@, off as int),
    {
        let _n = data.len();
        let reserved3 = [data[off + 129], data[off + 130], data[off + 131]];
        assert(reserved3@ =~= data@.subrange(off + 129, off + 132));
        FADT {
            h: ACPISDTHeader::read_from(data, off),
            firmware_ctrl: read_u32_le(data, off + 36),
            dsdt: read_u32_le(data, off + 40),
            reserved: data[off + 44],
            preferred_power_management_profile: data[off + 45],
            sci_interrupt: read_u16_le(data, off + 46),
            smi_command_port: read_u32_le(data, off + 48),
            acpi_enable: data[off + 52],
            acpi_disable: data[off + 53],
            s4bios_req: data[off + 54],
            pstate_control: data[off + 55],
            pm1a_event_block: read_u32_le(data, off + 56),
            pm1b_event_block: read_u32_le(data, off + 60),
            pm1a_control_block: read_u32_le(data, off + 64),
            pm1b_control_block: read_u32_le(data, off + 68),
            pm2_control_block: read_u32_le(data, off + 72),
            pm_timer_block: read_u32_le(data, off + 76),
            gpe0_block: read_u32_le(data, off + 80),
            gpe1_block: read_u32_le(data, off + 84),
            pm1_event_length: data[off + 88],
            pm1_control_length: data[off + 89],
            pm2_control_length: data[off + 90],
            pm_timer_length: data[off + 91],
            gpe0_length: data[off + 92],
            gpe1_length: data[off + 93],
            gpe1_base: data[off + 94],
            cstate_control: data[off + 95],
            worst_c2_latency: read_u16_le(data, off + 96),
            worst_c3_latency: read_u16_le(data, off + 98),
            flush_size: read_u16_le(data, off + 100),
            flush_stride: read_u16_le(data, off + 102),
            duty_offset: data[off + 104],
            duty_width: data[off + 105],
            day_alarm: data[off + 106],
            month_alarm: data[off + 107],
            century: data[off + 108],
            boot_architecture_flags: read_u16_le(data, off + 109),
            reserved2: data[off + 111],
            flags: read_u32_le(data, off + 112),
            reset_reg: GenericAddressStructure::read_from(data, off + 116),
            reset_value: data[off + 128],
            reserved3,
            x_firmware_control: read_u64_le(data, off + 132),
            x_dsdt: read_u64_le(data, off + 140),
            x_pm1a_event_block: GenericAddressStructure::read_from(data, off + 148),
            x_pm1b_event_block: GenericAddressStructure::read_from(data, off + 160),
            x_pm1a_control_block: GenericAddressStructure::read_from(data, off + 172),
            x_pm1b_control_block: GenericAddressStructure::read_from(data, off + 184),
            x_pm2_control_block: GenericAddressStructure::read_from(data, off + 196),
            x_pm_timer_block: GenericAddressStructure::read_from(data, off + 208),
            x_gpe0_block: GenericAddressStructure::read_from(data, off + 220),
            x_gpe1_block: GenericAddressStructure::read_from(data, off + 232),
        }
    }
}

/// The power management profile that the firmware prefers.
#[derive(PartialEq, Eq, Structural, Debug, Clone, Copy)]
pub enum PrefferedPowerManagementProfile {
    Unspecified,
    Desktop,
    Mobile,
    Workstation,
    EnterpriseServer,
    SOHOServer,
    AppliancePC,
    PerformanceServer,
    Reserved,
}

/// The profile that a profile byte stands for; the bytes past 6 are all
/// taken as reserved.
pub open spec fn profile_of_byte(b: u8) -> PrefferedPowerManagementProfile {
    if b == 0 {
        PrefferedPowerManagementProfile::Unspecified
    } else if b == 1 {
        PrefferedPowerManagementProfile::Desktop
    } else if b == 2 {
        PrefferedPowerManagementProfile::Mobile
    } else if b == 3 {
        PrefferedPowerManagementProfile::Workstation
    } else if b == 4 {
        PrefferedPowerManagementProfile::EnterpriseServer
    } else if b == 5 {
        PrefferedPowerManagementProfile::SOHOServer
    } else if b == 6 {
        PrefferedPowerManagementProfile::AppliancePC
    } else {
        PrefferedPowerManagementProfile::Reserved
    }
}

impl FADT {
    /// Decodes the table from the 244 bytes at its address; `None` where
    /// fewer are given.
    pub fn new_from_bytes(data: &[u8]) -> (r: Option<FADT>)
        ensures
            r is Some <==> data@.len() >= 244,
            r matches Some(f) ==> fadt_at(f, data@, 0),
    {
        if data.len() < FADT::SIZE {
            return None;
        }
        Some(FADT::read_from(data, 0))
    }

    /// The address of the DSDT in the direct mapping at
    /// `mem_logical_offset`.
    pub fn get_dsdt_pointer(&self, mem_logical_offset: u64) -> (r: u64)
        requires
            self.dsdt + mem_logical_offset <= u64::MAX,
        ensures
            r == self.dsdt + mem_logical_offset,
    {
        self.dsdt as u64 + mem_logical_offset
    }

    pub fn get_preffered_power_management_profile(&self) -> (r: PrefferedPowerManagementProfile)
        ensures
            r == profile_of_byte(self.preferred_power_management_profile),
    {
        match self.preferred_power_management_profile {
            0 => PrefferedPowerManagementProfile::Unspecified,
            1 => PrefferedPowerManagementProfile::Desktop,
            2 => PrefferedPowerManagementProfile::Mobile,
            3 => PrefferedPowerManagementProfile::Workstation,
            4 => PrefferedPowerManagementProfile::EnterpriseServer,
            5 => PrefferedPowerManagementProfile::SOHOServer,
            6 => PrefferedPowerManagementProfile::AppliancePC,
            _ => PrefferedPowerManagementProfile::Reserved,
        }
    }
}

} // verus!
