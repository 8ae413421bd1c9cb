//! ACPI table discovery and parsing over an image of physical memory (byte
//! `a` of the image is physical address `a`): the RSDP search, the RSDT /
//! XSDT walk and the MADT, MCFG, FADT and HPET tables. Bytes outside the
//! image count as absent: a table that does not lie inside it is skipped.
use vstd::prelude::*;
use crate::i2c::edid::byte_sum;

verus! {

/// Byte `a` of `m`.
pub open spec fn u8_at(m: Seq<u8>, a: int) -> u8 {
    m[a]
}

/// Little-endian 16-bit value at `a`.
pub open spec fn u16_at(m: Seq<u8>, a: int) -> u16 {
    (m[a] + 256 * m[a + 1]) as u16
}

/// Little-endian 32-bit value at `a`.
pub open spec fn u32_at(m: Seq<u8>, a: int) -> u32 {
    (m[a] + 256 * m[a + 1] + 65536 * m[a + 2] + 16777216 * m[a + 3]) as u32
}

/// Little-endian 64-bit value at `a`.
pub open spec fn u64_at(m: Seq<u8>, a: int) -> u64 {
    (u32_at(m, a) + 4294967296 * u32_at(m, a + 4)) as u64
}

fn read_u8(m: &[u8], a: u64) -> (v: u8)
    requires
        a + 1 <= m@.len(),
    ensures
        v == u8_at(m@, a as int),
{
    m[a as usize]
}

fn read_u16(m: &[u8], a: u64) -> (v: u16)
    requires
        a + 2 <= m@.len(),
    ensures
        v == u16_at(m@, a as int),
{
    let i = a as usize;
    m[i] as u16 + 256 * m[i + 1] as u16
}

fn read_u32(m: &[u8], a: u64) -> (v: u32)
    requires
        a + 4 <= m@.len(),
    ensures
        v == u32_at(m@, a as int),
{
    let i = a as usize;
    m[i] as u32 + 256 * m[i + 1] as u32 + 65536 * m[i + 2] as u32 + 16777216 * m[i + 3] as u32
}

fn read_u64(m: &[u8], a: u64) -> (v: u64)
    requires
        a + 8 <= m@.len(),
    ensures
        v == u64_at(m@, a as int),
{
    let _len = m.len();
    let lo = read_u32(m, a) as u64;
    let hi = read_u32(m, a + 4) as u64;
    lo + 4294967296 * hi
}

/// Whether [a, a + n) lies inside the image.
fn fits(m: &[u8], a: u64, n: u64) -> (b: bool)
    ensures
        b == (a + n <= m@.len()),
{
    let len = m.len() as u64;
    n <= len && a <= len - n
}

/// The header every ACPI system description table starts with (36 bytes).
#[derive(Debug, Clone, Copy)]
pub struct AcpiSdtHeader {
    pub signature: [u8; 4],
    pub length: u32,
    pub revision: u8,
    pub checksum: u8,
    pub oem_id: [u8; 6],
    pub oem_table_id: [u8; 8],
    pub oem_revision: u32,
    pub creator_id: u32,
    pub creator_revision: u32,
}

/// `h` is the header stored at `a`.
pub open spec fn header_at(h: AcpiSdtHeader, m: Seq<u8>, a: int) -> bool {
    &&& h.signature@ == m.subrange(a, a + 4)
    &&& h.length == u32_at(m, a + 4)
    &&& h.revision == m[a + 8]
    &&& h.checksum == m[a + 9]
    &&& h.oem_id@ == m.subrange(a + 10, a + 16)
    &&& h.oem_table_id@ == m.subrange(a + 16, a + 24)
    &&& h.oem_revision == u32_at(m, a + 24)
    &&& h.creator_id == u32_at(m, a + 28)
    &&& h.creator_revision == u32_at(m, a + 32)
}

fn read4(m: &[u8], a: u64) -> (r: [u8; 4])
    requires
        a + 4 <= m@.len(),
    ensures
        r@ == m@.subrange(a as int, a + 4),
{
    let i = a as usize;
    let r = [m[i], m[i + 1], m[i + 2], m[i + 3]];
    assert(r@ =~= m@.subrange(a as int, a + 4));
    r
}

fn read6(m: &[u8], a: u64) -> (r: [u8; 6])
    requires
        a + 6 <= m@.len(),
    ensures
        r@ == m@.subrange(a as int, a + 6),
{
    let i = a as usize;
    let r = [m[i], m[i + 1], m[i + 2], m[i + 3], m[i + 4], m[i + 5]];
    assert(r@ =~= m@.subrange(a as int, a + 6));
    r
}

fn read8(m: &[u8], a: u64) -> (r: [u8; 8])
    requires
        a + 8 <= m@.len(),
    ensures
        r@ == m@.subrange(a as int, a + 8),
{
    let i = a as usize;
    let r = [m[i], m[i + 1], m[i + 2], m[i + 3], m[i + 4], m[i + 5], m[i + 6], m[i + 7]];
    assert(r@ =~= m@.subrange(a as int, a + 8));
    r
}

impl AcpiSdtHeader {
    /// The header at `a`.
    pub fn read_at(m: &[u8], a: u64) -> (h: Self)
        requires
            a + 36 <= m@.len(),
        ensures
            header_at(h, m@, a as int),
    {
        let _len = m.len();
        AcpiSdtHeader {
            signature: read4(m, a),
            length: read_u32(m, a + 4),
            revision: read_u8(m, a + 8),
            checksum: read_u8(m, a + 9),
            oem_id: read6(m, a + 10),
            oem_table_id: read8(m, a + 16),
            oem_revision: read_u32(m, a + 24),
            creator_id: read_u32(m, a + 28),
            creator_revision: read_u32(m, a + 32),
        }
    }
}

/// The RSDP (ACPI 1.0 part, 20 bytes).
#[derive(Debug, Clone, Copy)]
pub struct RsdpDescriptor {
    /// "RSD PTR "
    pub signature: [u8; 8],
    pub checksum: u8,
    pub oem_id: [u8; 6],
    pub revision: u8,
    pub rsdt_address: u32,
}

/// The signature "RSD PTR ".
pub open spec fn rsdp_signature() -> Seq<u8> {
    seq![0x52u8, 0x53u8, 0x44u8, 0x20u8, 0x50u8, 0x54u8, 0x52u8, 0x20u8]
}

impl RsdpDescriptor {
    /// The descriptor at `a`.
    pub fn read_at(m: &[u8], a: u64) -> (r: Self)
        requires
            a + 20 <= m@.len(),
        ensures
            r.signature@ == m@.subrange(a as int, a + 8),
            r.checksum == m@[a + 8],
            r.oem_id@ == m@.subrange(a + 9, a + 15),
            r.revision == m@[a + 15],
            r.rsdt_address == u32_at(m@, a + 16),
    {
        let _len = m.len();
        RsdpDescriptor {
            signature: read8(m, a),
            checksum: read_u8(m, a + 8),
            oem_id: read6(m, a + 9),
            revision: read_u8(m, a + 15),
            rsdt_address: read_u32(m, a + 16),
        }
    }

    /// Whether the signature is "RSD PTR ".
    pub fn valid(&self) -> (b: bool)
        ensures
            b == (self.signature@ == rsdp_signature()),
    {
        let s = &self.signature;
        let b = s[0] == 0x52 && s[1] == 0x53 && s[2] == 0x44 && s[3] == 0x20 && s[4] == 0x50
            && s[5] == 0x54 && s[6] == 0x52 && s[7] == 0x20;
        if b {
            assert(self.signature@ =~= rsdp_signature());
        } else {
            assert(self.signature@ != rsdp_signature()) by {
                if self.signature@ == rsdp_signature() {
                    assert(self.signature@[0] == rsdp_signature()[0]);
                    assert(self.signature@[1] == rsdp_signature()[1]);
                    assert(self.signature@[2] == rsdp_signature()[2]);
                    assert(self.signature@[3] == rsdp_signature()[3]);
                    assert(self.signature@[4] == rsdp_signature()[4]);
                    assert(self.signature@[5] == rsdp_signature()[5]);
                    assert(self.signature@[6] == rsdp_signature()[6]);
                    assert(self.signature@[7] == rsdp_signature()[7]);
                }
            }
        }
        b
    }
}

/// The ACPI 2.0 RSDP (36 bytes).
#[derive(Debug, Clone, Copy)]
pub struct RsdpDescriptorV2 {
    pub base: RsdpDescriptor,
    pub length: u32,
    pub xsdt_address: u64,
    pub ext_checksum: u8,
    pub reserved: [u8; 3],
}

impl RsdpDescriptorV2 {
    /// The descriptor at `a`.
    pub fn read_at(m: &[u8], a: u64) -> (r: Self)
        requires
            a + 36 <= m@.len(),
        ensures
            r.base.signature@ == m@.subrange(a as int, a + 8),
            r.base.revision == m@[a + 15],
            r.base.rsdt_address == u32_at(m@, a + 16),
            r.length == u32_at(m@, a + 20),
            r.xsdt_address == u64_at(m@, a + 24),
            r.ext_checksum == m@[a + 32],
    {
        let _len = m.len();
        let i = (a + 33) as usize;
        RsdpDescriptorV2 {
            base: RsdpDescriptor::read_at(m, a),
            length: read_u32(m, a + 20),
            xsdt_address: read_u64(m, a + 24),
            ext_checksum: read_u8(m, a + 32),
            reserved: [m[i], m[i + 1], m[i + 2]],
        }
    }
}

/// The MADT fixed part: header, local APIC address, flags (44 bytes).
#[derive(Debug, Clone, Copy)]
pub struct Madt {
    pub header: AcpiSdtHeader,
    pub local_apic_address: u32,
    pub flags: u32,
}

/// Type and length of an MADT entry.
#[derive(Debug, Clone, Copy)]
pub struct MadtEntryHeader {
    pub entry_type: u8,
    pub record_length: u8,
}

/// A processor local APIC entry (8 bytes).
#[derive(Debug, Clone, Copy)]
pub struct MadtLocalApic {
    pub header: MadtEntryHeader,
    pub processor_id: u8,
    pub apic_id: u8,
    pub flags: u32,
}

/// An I/O APIC entry (11 bytes).
#[derive(Debug, Clone, Copy)]
pub struct MadtIoApic {
    pub header: MadtEntryHeader,
    pub io_apic_id: u8,
    pub io_apic_address: u32,
    pub global_system_interrupt_base: u32,
}

/// The MCFG fixed part: header and 8 reserved bytes (44 bytes).
#[derive(Debug, Clone, Copy)]
pub struct Mcfg {
    pub header: AcpiSdtHeader,
    pub reserved: [u8; 8],
}

/// One PCIe ECAM allocation of the MCFG (16 bytes).
#[derive(Debug, Clone, Copy)]
pub struct McfgAllocation {
    pub base_address: u64,
    pub pci_segment_group: u16,
    pub start_bus: u8,
    pub end_bus: u8,
    pub reserved: [u8; 4],
}

/// A generic address structure (12 bytes).
#[derive(Debug, Clone, Copy)]
pub struct GenericAddressStructure {
    pub address_space: u8,
    pub bit_width: u8,
    pub bit_offset: u8,
    pub access_size: u8,
    pub address: u64,
}

/// `g` is the generic address structure stored at `a`.
pub open spec fn gas_at(g: GenericAddressStructure, m: Seq<u8>, a: int) -> bool {
    &&& g.address_space == m[a]
    &&& g.bit_width == m[a + 1]
    &&& g.bit_offset == m[a + 2]
    &&& g.access_size == m[a + 3]
    &&& g.address == u64_at(m, a + 4)
}

impl GenericAddressStructure {
    /// The structure at `a`.
    pub fn read_at(m: &[u8], a: u64) -> (g: Self)
        requires
            a + 12 <= m@.len(),
        ensures
            gas_at(g, m@, a as int),
    {
        let _len = m.len();
        GenericAddressStructure {
            address_space: read_u8(m, a),
            bit_width: read_u8(m, a + 1),
            bit_offset: read_u8(m, a + 2),
            access_size: read_u8(m, a + 3),
            address: read_u64(m, a + 4),
        }
    }
}

/// Size of the FADT as laid out here.
pub const FADT_SIZE: u64 = 275;

/// The FADT, fields packed in this order after the header.
#[derive(Debug, Clone, Copy)]
pub struct Fadt {
    pub header: AcpiSdtHeader,
    pub firmware_ctrl: u32,
    pub dsdt: u32,
    pub preferred_pm_profile: u8,
    pub sci_int: u16,
    pub smi_cmd_port: u32,
    pub acpi_enable: u8,
    pub acpi_disable: u8,
    pub s4bios_req: u8,
    pub pstate_cnt: u8,
    pub pm1a_evt_blk: u32,
    pub pm1b_evt_blk: u32,
    pub pm1a_cnt_blk: u32,
    pub pm1b_cnt_blk: u32,
    pub pm2_cnt_blk: u32,
    pub pm_tmr_blk: u32,
    pub gpe0_blk: u32,
    pub gpe1_blk: u32,
    pub pm1_evt_len: u8,
    pub pm1_cnt_len: u8,
    pub pm2_cnt_len: u8,
    pub pm_tmr_len: u8,
    pub gpe0_blk_len: u8,
    pub gpe1_blk_len: u8,
    pub gpe1_base: u8,
    pub cst_cnt: u8,
    pub p_lvl2_lat: u16,
    pub p_lvl3_lat: u16,
    pub flush_size: u16,
    pub flush_stride: u16,
    pub duty_offset: u8,
    pub duty_width: u8,
    pub day_alarm: u8,
    pub month_alarm: u8,
    pub century: u8,
    pub iapc_boot_arch: u16,
    pub reserved: u8,
    pub flags: u32,
    pub reset_reg: GenericAddressStructure,
    pub reset_value: u8,
    pub arm_boot_arch: u16,
    pub fadt_minor_version: u8,
    pub x_firmware_ctrl: u64,
    pub x_dsdt: u64,
    pub x_pm1a_evt_blk: GenericAddressStructure,
    pub x_pm1b_evt_blk: GenericAddressStructure,
    pub x_pm1a_cnt_blk: GenericAddressStructure,
    pub x_pm1b_cnt_blk: GenericAddressStructure,
    pub x_pm2_cnt_blk: GenericAddressStructure,
    pub x_pm_tmr_blk: GenericAddressStructure,
    pub x_gpe0_blk: GenericAddressStructure,
    pub x_gpe1_blk: GenericAddressStructure,
    pub sleep_control_reg: GenericAddressStructure,
    pub sleep_status_reg: GenericAddressStructure,
    pub hypervisor_vendor_id: u64,
}

/// `f` is the FADT stored at `a`.
pub open spec fn fadt_at(f: Fadt, m: Seq<u8>, a: int) -> bool {
    &&& header_at(f.header, m, a)
    &&& f.firmware_ctrl == u32_at(m, a + 36)
    &&& f.dsdt == u32_at(m, a + 40)
    &&& f.preferred_pm_profile == u8_at(m, a + 44)
    &&& f.sci_int == u16_at(m, a + 45)
    &&& f.smi_cmd_port == u32_at(m, a + 47)
    &&& f.acpi_enable == u8_at(m, a + 51)
    &&& f.acpi_disable == u8_at(m, a + 52)
    &&& f.s4bios_req == u8_at(m, a + 53)
    &&& f.pstate_cnt == u8_at(m, a + 54)
    &&& f.pm1a_evt_blk == u32_at(m, a + 55)
    &&& f.pm1b_evt_blk == u32_at(m, a + 59)
    &&& f.pm1a_cnt_blk == u32_at(m, a + 63)
    &&& f.pm1b_cnt_blk == u32_at(m, a + 67)
    &&& f.pm2_cnt_blk == u32_at(m, a + 71)
    &&& f.pm_tmr_blk == u32_at(m, a + 75)
    &&& f.gpe0_blk == u32_at(m, a + 79)
    &&& f.gpe1_blk == u32_at(m, a + 83)
    &&& f.pm1_evt_len == u8_at(m, a + 87)
    &&& f.pm1_cnt_len == u8_at(m, a + 88)
    &&& f.pm2_cnt_len == u8_at(m, a + 89)
    &&& f.pm_tmr_len == u8_at(m, a + 90)
    &&& f.gpe0_blk_len == u8_at(m, a + 91)
    &&& f.gpe1_blk_len == u8_at(m, a + 92)
    &&& f.gpe1_base == u8_at(m, a + 93)
    &&& f.cst_cnt == u8_at(m, a + 94)
    &&& f.p_lvl2_lat == u16_at(m, a + 95)
    &&& f.p_lvl3_lat == u16_at(m, a + 97)
    &&& f.flush_size == u16_at(m, a + 99)
    &&& f.flush_stride == u16_at(m, a + 101)
    &&& f.duty_offset == u8_at(m, a + 103)
    &&& f.duty_width == u8_at(m, a + 104)
    &&& f.day_alarm == u8_at(m, a + 105)
    &&& f.month_alarm == u8_at(m, a + 106)
    &&& f.century == u8_at(m, a + 107)
    &&& f.iapc_boot_arch == u16_at(m, a + 108)
    &&& f.reserved == u8_at(m, a + 110)
    &&& f.flags == u32_at(m, a + 111)
    &&& gas_at(f.reset_reg, m, a + 115)
    &&& f.reset_value == u8_at(m, a + 127)
    &&& f.arm_boot_arch == u16_at(m, a + 128)
    &&& f.fadt_minor_version == u8_at(m, a + 130)
    &&& f.x_firmware_ctrl == u64_at(m, a + 131)
    &&& f.x_dsdt == u64_at(m, a + 139)
    &&& gas_at(f.x_pm1a_evt_blk, m, a + 147)
    &&& gas_at(f.x_pm1b_evt_blk, m, a + 159)
    &&& gas_at(f.x_pm1a_cnt_blk, m, a + 171)
    &&& gas_at(f.x_pm1b_cnt_blk, m, a + 183)
    &&& gas_at(f.x_pm2_cnt_blk, m, a + 195)
    &&& gas_at(f.x_pm_tmr_blk, m, a + 207)
    &&& gas_at(f.x_gpe0_blk, m, a + 219)
    &&& gas_at(f.x_gpe1_blk, m, a + 231)
    &&& gas_at(f.sleep_control_reg, m, a + 243)
    &&& gas_at(f.sleep_status_reg, m, a + 255)
    &&& f.hypervisor_vendor_id == u64_at(m, a + 267)
}

impl Fadt {
    /// The FADT at `a`.
    pub fn read_at(m: &[u8], a: u64) -> (f: Self)
        requires
            a + FADT_SIZE <= m@.len(),
        ensures
            fadt_at(f, m@, a as int),
    {
        let _len = m.len();
        Fadt {
            header: AcpiSdtHeader::read_at(m, a),
        firmware_ctrl: read_u32(m, a + 36),
        dsdt: read_u32(m, a + 40),
        preferred_pm_profile: read_u8(m, a + 44),
        sci_int: read_u16(m, a + 45),
        smi_cmd_port: read_u32(m, a + 47),
        acpi_enable: read_u8(m, a + 51),
        acpi_disable: read_u8(m, a + 52),
        s4bios_req: read_u8(m, a + 53),
        pstate_cnt: read_u8(m, a + 54),
        pm1a_evt_blk: read_u32(m, a + 55),
        pm1b_evt_blk: read_u32(m, a + 59),
        pm1a_cnt_blk: read_u32(m, a + 63),
        pm1b_cnt_blk: read_u32(m, a + 67),
        pm2_cnt_blk: read_u32(m, a + 71),
        pm_tmr_blk: read_u32(m, a + 75),
        gpe0_blk: read_u32(m, a + 79),
        gpe1_blk: read_u32(m, a + 83),
        pm1_evt_len: read_u8(m, a + 87),
        pm1_cnt_len: read_u8(m, a + 88),
        pm2_cnt_len: read_u8(m, a + 89),
        pm_tmr_len: read_u8(m, a + 90),
        gpe0_blk_len: read_u8(m, a + 91),
        gpe1_blk_len: read_u8(m, a + 92),
        gpe1_base: read_u8(m, a + 93),
        cst_cnt: read_u8(m, a + 94),
        p_lvl2_lat: read_u16(m, a + 95),
        p_lvl3_lat: read_u16(m, a + 97),
        flush_size: read_u16(m, a + 99),
        flush_stride: read_u16(m, a + 101),
        duty_offset: read_u8(m, a + 103),
        duty_width: read_u8(m, a + 104),
        day_alarm: read_u8(m, a + 105),
        month_alarm: read_u8(m, a + 106),
        century: read_u8(m, a + 107),
        iapc_boot_arch: read_u16(m, a + 108),
        reserved: read_u8(m, a + 110),
        flags: read_u32(m, a + 111),
        reset_reg: GenericAddressStructure::read_at(m, a + 115),
        reset_value: read_u8(m, a + 127),
        arm_boot_arch: read_u16(m, a + 128),
        fadt_minor_version: read_u8(m, a + 130),
        x_firmware_ctrl: read_u64(m, a + 131),
        x_dsdt: read_u64(m, a + 139),
        x_pm1a_evt_blk: GenericAddressStructure::read_at(m, a + 147),
        x_pm1b_evt_blk: GenericAddressStructure::read_at(m, a + 159),
        x_pm1a_cnt_blk: GenericAddressStructure::read_at(m, a + 171),
        x_pm1b_cnt_blk: GenericAddressStructure::read_at(m, a + 183),
        x_pm2_cnt_blk: GenericAddressStructure::read_at(m, a + 195),
        x_pm_tmr_blk: GenericAddressStructure::read_at(m, a + 207),
        x_gpe0_blk: GenericAddressStructure::read_at(m, a + 219),
        x_gpe1_blk: GenericAddressStructure::read_at(m, a + 231),
        sleep_control_reg: GenericAddressStructure::read_at(m, a + 243),
        sleep_status_reg: GenericAddressStructure::read_at(m, a + 255),
        hypervisor_vendor_id: read_u64(m, a + 267),
        }
    }
}

impl Madt {
    /// The MADT fixed part at `a`.
    pub fn read_at(m: &[u8], a: u64) -> (t: Self)
        requires
            a + 44 <= m@.len(),
        ensures
            header_at(t.header, m@, a as int),
            t.local_apic_address == u32_at(m@, a + 36),
            t.flags == u32_at(m@, a + 40),
    {
        let _len = m.len();
        Madt { header: AcpiSdtHeader::read_at(m, a), local_apic_address: read_u32(m, a + 36), flags: read_u32(m, a + 40) }
    }
}

impl MadtEntryHeader {
    /// The entry header at `a`.
    pub fn read_at(m: &[u8], a: u64) -> (h: Self)
        requires
            a + 2 <= m@.len(),
        ensures
            h.entry_type == m@[a as int],
            h.record_length == m@[a + 1],
    {
        let _len = m.len();
        MadtEntryHeader { entry_type: read_u8(m, a), record_length: read_u8(m, a + 1) }
    }
}

impl MadtLocalApic {
    /// The local APIC entry at `a`.
    pub fn read_at(m: &[u8], a: u64) -> (e: Self)
        requires
            a + 8 <= m@.len(),
        ensures
            e.header.entry_type == m@[a as int],
            e.header.record_length == m@[a + 1],
            e.processor_id == m@[a + 2],
            e.apic_id == m@[a + 3],
            e.flags == u32_at(m@, a + 4),
    {
        let _len = m.len();
        MadtLocalApic {
            header: MadtEntryHeader::read_at(m, a),
            processor_id: read_u8(m, a + 2),
            apic_id: read_u8(m, a + 3),
            flags: read_u32(m, a + 4),
        }
    }
}

impl MadtIoApic {
    /// The I/O APIC entry at `a`.
    pub fn read_at(m: &[u8], a: u64) -> (e: Self)
        requires
            a + 11 <= m@.len(),
        ensures
            e.header.entry_type == m@[a as int],
            e.header.record_length == m@[a + 1],
            e.io_apic_id == m@[a + 2],
            e.io_apic_address == u32_at(m@, a + 3),
            e.global_system_interrupt_base == u32_at(m@, a + 7),
    {
        let _len = m.len();
        MadtIoApic {
            header: MadtEntryHeader::read_at(m, a),
            io_apic_id: read_u8(m, a + 2),
            io_apic_address: read_u32(m, a + 3),
            global_system_interrupt_base: read_u32(m, a + 7),
        }
    }
}

impl Mcfg {
    /// The MCFG fixed part at `a`.
    pub fn read_at(m: &[u8], a: u64) -> (t: Self)
        requires
            a + 44 <= m@.len(),
        ensures
            header_at(t.header, m@, a as int),
            t.reserved@ == m@.subrange(a + 36, a + 44),
    {
        let _len = m.len();
        Mcfg { header: AcpiSdtHeader::read_at(m, a), reserved: read8(m, a + 36) }
    }
}

impl McfgAllocation {
    /// The allocation at `a`.
    pub fn read_at(m: &[u8], a: u64) -> (e: Self)
        requires
            a + 16 <= m@.len(),
        ensures
            e.base_address == u64_at(m@, a as int),
            e.pci_segment_group == u16_at(m@, a + 8),
            e.start_bus == m@[a + 10],
            e.end_bus == m@[a + 11],
            e.reserved@ == m@.subrange(a + 12, a + 16),
    {
        let _len = m.len();
        McfgAllocation {
            base_address: read_u64(m, a),
            pci_segment_group: read_u16(m, a + 8),
            start_bus: read_u8(m, a + 10),
            end_bus: read_u8(m, a + 11),
            reserved: read4(m, a + 12),
        }
    }
}

/// What the ACPI tables told the kernel.
#[derive(Debug, Clone, Copy)]
pub struct AcpiData {
    pub revision: u8,
    pub rsdt_address: u32,
    pub xsdt_address: u64,
    pub local_apic_address: u32,
    pub io_apic_count: u32,
    pub processor_count: u32,
    pub ecam_base: u64,
    pub ecam_segment: u16,
    pub ecam_start_bus: u8,
    pub ecam_end_bus: u8,
    pub ecam_present: bool,
    pub pm_timer_block: u32,
    pub pm_timer_len: u8,
    pub reset_port: u16,
    pub reset_value: u8,
    pub fadt_present: bool,
    pub dsdt_address: u64,
    pub dsdt_length: u32,
    pub dsdt_present: bool,
    pub hpet_address: u64,
    pub hpet_present: bool,
}

/// Nothing known yet: every field zero or false.
pub open spec fn acpi_empty() -> AcpiData {
    AcpiData {
        revision: 0,
        rsdt_address: 0,
        xsdt_address: 0,
        local_apic_address: 0,
        io_apic_count: 0,
        processor_count: 0,
        ecam_base: 0,
        ecam_segment: 0,
        ecam_start_bus: 0,
        ecam_end_bus: 0,
        ecam_present: false,
        pm_timer_block: 0,
        pm_timer_len: 0,
        reset_port: 0,
        reset_value: 0,
        fadt_present: false,
        dsdt_address: 0,
        dsdt_length: 0,
        dsdt_present: false,
        hpet_address: 0,
        hpet_present: false,
    }
}

impl AcpiData {
    /// Nothing known yet.
    pub fn new() -> (d: Self)
        ensures
            d == acpi_empty(),
    {
        AcpiData {
            revision: 0,
            rsdt_address: 0,
            xsdt_address: 0,
            local_apic_address: 0,
            io_apic_count: 0,
            processor_count: 0,
            ecam_base: 0,
            ecam_segment: 0,
            ecam_start_bus: 0,
            ecam_end_bus: 0,
            ecam_present: false,
            pm_timer_block: 0,
            pm_timer_len: 0,
            reset_port: 0,
            reset_value: 0,
            fadt_present: false,
            dsdt_address: 0,
            dsdt_length: 0,
            dsdt_present: false,
            hpet_address: 0,
            hpet_present: false,
        }
    }
}

/// `x + 1`, held at the maximum.
pub open spec fn sat_inc(x: u32) -> u32 {
    if x < u32::MAX { (x + 1) as u32 } else { x }
}

/// The walk over MADT entries from `e` to `end`: enabled processors (flag
/// bit 0) and I/O APICs are counted, and a local APIC address override
/// (type 5) replaces the address. The walk stops at an entry of length
/// zero or one whose bytes are not in the image.
pub open spec fn madt_walk(m: Seq<u8>, e: int, end: int, d: AcpiData) -> AcpiData
    decreases end - e,
{
    if e + 2 > end || e + 2 > m.len() {
        d
    } else {
        let ty = m[e];
        let len = m[e + 1];
        if ty == 0 && len >= 8 && e + 8 > m.len() {
            d
        } else if ty == 5 && len >= 12 && e + 10 > m.len() {
            d
        } else {
            let d2 = if ty == 0 && len >= 8 {
                if u32_at(m, e + 4) % 2 == 1 { AcpiData { processor_count: sat_inc(d.processor_count), ..d } } else { d }
            } else if ty == 1 && len >= 11 {
                AcpiData { io_apic_count: sat_inc(d.io_apic_count), ..d }
            } else if ty == 5 && len >= 12 {
                AcpiData { local_apic_address: u32_at(m, e + 2), ..d }
            } else {
                d
            };
            if len == 0 || e + len + 2 > end { d2 } else { madt_walk(m, e + len, end, d2) }
        }
    }
}

/// End of the table at `a` (its length field), cut at the end of the image.
pub open spec fn table_end(m: Seq<u8>, a: int) -> int {
    if a + u32_at(m, a + 4) <= m.len() { a + u32_at(m, a + 4) } else { m.len() as int }
}

/// What the MADT at `a` does to `d`.
pub open spec fn madt_effect(m: Seq<u8>, a: int, d: AcpiData) -> AcpiData {
    if a + 44 > m.len() {
        d
    } else {
        madt_walk(m, a + 44, table_end(m, a), AcpiData { local_apic_address: u32_at(m, a + 36), ..d })
    }
}

/// End of the table at `a`, cut at the end of the image.
fn table_end_of(m: &[u8], a: u64, length: u32) -> (end: u64)
    requires
        a + 8 <= m@.len(),
        length == u32_at(m@, a + 4),
    ensures
        end == table_end(m@, a as int),
{
    let mlen = m.len() as u64;
    if length as u64 <= mlen - a {
        a + length as u64
    } else {
        mlen
    }
}

/// Parses the MADT at `madt_phys`.
#[verifier::spinoff_prover]
#[verifier::rlimit(40)]
pub fn parse_madt(m: &[u8], madt_phys: u64, data: &mut AcpiData)
    ensures
        *final(data) == madt_effect(m@, madt_phys as int, *old(data)),
{
    let _len = m.len();
    if !fits(m, madt_phys, 44) {
        return;
    }
    let madt = Madt::read_at(m, madt_phys);
    data.local_apic_address = madt.local_apic_address;
    let madt_end: u64 = table_end_of(m, madt_phys, madt.header.length);
    let mut entry_phys: u64 = madt_phys + 44;
    while entry_phys <= madt_end && 2 <= madt_end - entry_phys
        invariant
            madt_phys + 44 <= m@.len() <= usize::MAX,
            madt_end == table_end(m@, madt_phys as int),
            madt_end <= m@.len(),
            madt_phys + 44 <= entry_phys,
            madt_walk(m@, entry_phys as int, madt_end as int, *data) == madt_effect(m@, madt_phys as int, *old(data)),
        decreases madt_end - entry_phys,
    {
        if !fits(m, entry_phys, 2) {
            return;
        }
        let eh = MadtEntryHeader::read_at(m, entry_phys);
        let ty = eh.entry_type;
        let len = eh.record_length;
        if ty == 0 && len >= 8 {
            if !fits(m, entry_phys, 8) {
                return;
            }
            let lapic = MadtLocalApic::read_at(m, entry_phys);
            if lapic.flags % 2 == 1 {
                data.processor_count = data.processor_count.saturating_add(1);
            }
        } else if ty == 1 && len >= 11 {
            data.io_apic_count = data.io_apic_count.saturating_add(1);
        } else if ty == 5 && len >= 12 {
            if !fits(m, entry_phys, 10) {
                return;
            }
            let new_addr = read_u64(m, entry_phys + 2);
            assert(new_addr % 4294967296 == u32_at(m@, entry_phys + 2));
            data.local_apic_address = (new_addr % 4294967296) as u32;
        }
        if len == 0 || (len as u64) + 2 > madt_end - entry_phys {
            return;
        }
        entry_phys = entry_phys + len as u64;
    }
}

/// The walk over `k` MCFG allocations from `p`: the first one is kept as
/// the ECAM window. Stops at an allocation not in the image.
pub open spec fn mcfg_walk(m: Seq<u8>, p: int, k: int, d: AcpiData) -> AcpiData
    decreases k,
{
    if k <= 0 || p + 16 > m.len() {
        d
    } else {
        let d2 = if !d.ecam_present {
            AcpiData {
                ecam_base: u64_at(m, p),
                ecam_segment: u16_at(m, p + 8),
                ecam_start_bus: m[p + 10],
                ecam_end_bus: m[p + 11],
                ecam_present: true,
                ..d
            }
        } else {
            d
        };
        mcfg_walk(m, p + 16, k - 1, d2)
    }
}

/// What the MCFG at `a` does to `d`: (length - 44) / 16 allocations follow
/// the fixed part.
pub open spec fn mcfg_effect(m: Seq<u8>, a: int, d: AcpiData) -> AcpiData {
    if a + 44 > m.len() || u32_at(m, a + 4) < 44 {
        d
    } else {
        mcfg_walk(m, a + 44, (u32_at(m, a + 4) - 44) / 16, d)
    }
}

/// Parses the MCFG at `mcfg_phys`.
pub fn parse_mcfg(m: &[u8], mcfg_phys: u64, data: &mut AcpiData)
    ensures
        *final(data) == mcfg_effect(m@, mcfg_phys as int, *old(data)),
{
    let _len = m.len();
    if !fits(m, mcfg_phys, 44) {
        return;
    }
    let mcfg = Mcfg::read_at(m, mcfg_phys);
    if mcfg.header.length < 44 {
        return;
    }
    let num_alloc: u64 = (mcfg.header.length as u64 - 44) / 16;
    let mut p: u64 = mcfg_phys + 44;
    let mut i: u64 = 0;
    while i < num_alloc
        invariant
            i <= num_alloc,
            m@.len() <= usize::MAX,
            p == mcfg_phys + 44 + 16 * i,
            num_alloc == (u32_at(m@, mcfg_phys + 4) - 44) / 16,
            mcfg_walk(m@, p as int, num_alloc - i, *data) == mcfg_effect(m@, mcfg_phys as int, *old(data)),
        decreases num_alloc - i,
    {
        if !fits(m, p, 16) {
            return;
        }
        let alloc = McfgAllocation::read_at(m, p);
        if !data.ecam_present {
            data.ecam_base = alloc.base_address;
            data.ecam_segment = alloc.pci_segment_group;
            data.ecam_start_bus = alloc.start_bus;
            data.ecam_end_bus = alloc.end_bus;
            data.ecam_present = true;
        }
        p = p + 16;
        i = i + 1;
    }
}

/// Where the DSDT is after the FADT at `a`: X_DSDT from revision 2 on when
/// set, else DSDT when set, else unchanged.
pub open spec fn fadt_dsdt(m: Seq<u8>, a: int, prev: u64) -> u64 {
    if m[a + 8] >= 2 && u64_at(m, a + 139) != 0 {
        u64_at(m, a + 139)
    } else if u32_at(m, a + 40) != 0 {
        u32_at(m, a + 40) as u64
    } else {
        prev
    }
}

/// What the FADT at `a` does to `d`: the PM timer block and its length, the
/// reset register (port = low 16 bits of its address) and value, and the
/// DSDT address, with the DSDT's length when its header is in the image.
pub open spec fn fadt_effect(m: Seq<u8>, a: int, d: AcpiData) -> AcpiData {
    if a + FADT_SIZE > m.len() {
        d
    } else {
        let dsdt = fadt_dsdt(m, a, d.dsdt_address);
        let d1 = AcpiData {
            fadt_present: true,
            pm_timer_block: u32_at(m, a + 75),
            pm_timer_len: m[a + 90],
            reset_port: (u64_at(m, a + 119) % 65536) as u16,
            reset_value: m[a + 127],
            dsdt_address: dsdt,
            ..d
        };
        if dsdt != 0 && dsdt + 36 <= m.len() {
            AcpiData { dsdt_length: u32_at(m, dsdt + 4), dsdt_present: true, ..d1 }
        } else {
            d1
        }
    }
}

/// Parses the FADT at `fadt_phys`.
pub fn parse_fadt(m: &[u8], fadt_phys: u64, data: &mut AcpiData)
    ensures
        *final(data) == fadt_effect(m@, fadt_phys as int, *old(data)),
{
    let _len = m.len();
    if !fits(m, fadt_phys, FADT_SIZE) {
        return;
    }
    let fadt = Fadt::read_at(m, fadt_phys);
    data.fadt_present = true;
    data.pm_timer_block = fadt.pm_tmr_blk;
    data.pm_timer_len = fadt.pm_tmr_len;
    data.reset_port = (fadt.reset_reg.address % 65536) as u16;
    data.reset_value = fadt.reset_value;
    if fadt.header.revision >= 2 && fadt.x_dsdt != 0 {
        data.dsdt_address = fadt.x_dsdt;
    } else if fadt.dsdt != 0 {
        data.dsdt_address = fadt.dsdt as u64;
    }
    if data.dsdt_address != 0 && fits(m, data.dsdt_address, 36) {
        let dsdt_header = AcpiSdtHeader::read_at(m, data.dsdt_address);
        data.dsdt_length = dsdt_header.length;
        data.dsdt_present = true;
    }
}

/// A table signature, as its four bytes.
pub open spec fn sig4(m: Seq<u8>, a: int, c0: u8, c1: u8, c2: u8, c3: u8) -> bool {
    m[a] == c0 && m[a + 1] == c1 && m[a + 2] == c2 && m[a + 3] == c3
}

/// What the table at `t` does to `d`, by its signature: "APIC" (MADT),
/// "MCFG", "FACP" (FADT), "HPET" (its base address at offset 44); other
/// tables are ignored.
pub open spec fn sdt_effect(m: Seq<u8>, t: int, d: AcpiData) -> AcpiData {
    if t + 4 > m.len() {
        d
    } else if sig4(m, t, 0x41, 0x50, 0x49, 0x43) {
        madt_effect(m, t, d)
    } else if sig4(m, t, 0x4D, 0x43, 0x46, 0x47) {
        mcfg_effect(m, t, d)
    } else if sig4(m, t, 0x46, 0x41, 0x43, 0x50) {
        fadt_effect(m, t, d)
    } else if sig4(m, t, 0x48, 0x50, 0x45, 0x54) {
        if t + 52 <= m.len() { AcpiData { hpet_address: u64_at(m, t + 44), hpet_present: true, ..d } } else { d }
    } else {
        d
    }
}

/// Parses the table at `table_phys` by its signature.
pub fn parse_sdt_table(m: &[u8], table_phys: u64, data: &mut AcpiData)
    ensures
        *final(data) == sdt_effect(m@, table_phys as int, *old(data)),
{
    let _len = m.len();
    if !fits(m, table_phys, 4) {
        return;
    }
    let sig = read4(m, table_phys);
    if sig[0] == 0x41 && sig[1] == 0x50 && sig[2] == 0x49 && sig[3] == 0x43 {
        parse_madt(m, table_phys, data);
    } else if sig[0] == 0x4D && sig[1] == 0x43 && sig[2] == 0x46 && sig[3] == 0x47 {
        parse_mcfg(m, table_phys, data);
    } else if sig[0] == 0x46 && sig[1] == 0x41 && sig[2] == 0x43 && sig[3] == 0x50 {
        parse_fadt(m, table_phys, data);
    } else if sig[0] == 0x48 && sig[1] == 0x50 && sig[2] == 0x45 && sig[3] == 0x54 {
        if fits(m, table_phys, 52) {
            data.hpet_address = read_u64(m, table_phys + 44);
            data.hpet_present = true;
        }
    }
}

/// Whether the `length` bytes at `a` sum to 0 modulo 256.
pub fn acpi_checksum(m: &[u8], a: u64, length: u64) -> (ok: bool)
    requires
        a + length <= m@.len(),
    ensures
        ok == (byte_sum(m@.subrange(a as int, a + length)) % 256 == 0),
{
    let _len = m.len();
    let mut sum: u8 = 0;
    let mut i: u64 = 0;
    while i < length
        invariant
            i <= length,
            a + length <= m@.len() <= usize::MAX,
            sum as int == byte_sum(m@.subrange(a as int, a + i)) % 256,
        decreases length - i,
    {
        assert(m@.subrange(a as int, a + i + 1).drop_last() =~= m@.subrange(a as int, a + i));
        sum = sum.wrapping_add(m[(a + i) as usize]);
        i = i + 1;
    }
    sum == 0
}

/// The tables listed by the root table at `a`, whose entries are `width`
/// bytes (4 for the RSDT, 8 for the XSDT), from entry `i` on, applied in
/// order.
pub open spec fn root_walk(m: Seq<u8>, a: int, width: int, n: int, i: int, d: AcpiData) -> AcpiData
    decreases n - i,
{
    if i >= n {
        d
    } else {
        let p = a + 36 + width * i;
        let t = if width == 4 { u32_at(m, p) as int } else { u64_at(m, p) as int };
        root_walk(m, a, width, n, i + 1, sdt_effect(m, t, d))
    }
}

/// What the root table at `a` does to `d`: nothing unless its header lies in
/// the image, its length covers the header and stays in the image, and its
/// bytes sum to 0; otherwise each listed table in order.
pub open spec fn root_effect(m: Seq<u8>, a: int, width: int, d: AcpiData) -> AcpiData {
    if a + 36 > m.len() {
        d
    } else {
        let length = u32_at(m, a + 4);
        if a + length > m.len() || byte_sum(m.subrange(a, a + length)) % 256 != 0 || length < 36 {
            d
        } else {
            root_walk(m, a, width, (length - 36) / width, 0, d)
        }
    }
}

fn parse_root(m: &[u8], addr: u64, width: u64, data: &mut AcpiData)
    requires
        width == 4 || width == 8,
    ensures
        *final(data) == root_effect(m@, addr as int, width as int, *old(data)),
{
    let _len = m.len();
    if !fits(m, addr, 36) {
        return;
    }
    let header = AcpiSdtHeader::read_at(m, addr);
    let length = header.length as u64;
    if !fits(m, addr, length) {
        return;
    }
    if !acpi_checksum(m, addr, length) {
        return;
    }
    if length < 36 {
        return;
    }
    let num_tables = (length - 36) / width;
    let mut i: u64 = 0;
    while i < num_tables
        invariant
            i <= num_tables,
            width == 4 || width == 8,
            m@.len() <= usize::MAX,
            addr + length <= m@.len(),
            length >= 36,
            length == u32_at(m@, addr + 4),
            num_tables == (length - 36) / width as int,
            root_walk(m@, addr as int, width as int, num_tables as int, i as int, *data)
                == root_effect(m@, addr as int, width as int, *old(data)),
        decreases num_tables - i,
    {
        assert(36 + width * i + width <= length) by (nonlinear_arith)
            requires i < num_tables, num_tables == (length - 36) / width as int, width > 0, length >= 36;
        let p = addr + 36 + width * i;
        let t: u64 = if width == 4 { read_u32(m, p) as u64 } else { read_u64(m, p) };
        parse_sdt_table(m, t, data);
        i = i + 1;
    }
}

/// Parses the RSDT (32-bit table pointers) at `rsdt_addr`.
pub fn parse_rsdt(m: &[u8], rsdt_addr: u64, data: &mut AcpiData)
    ensures
        *final(data) == root_effect(m@, rsdt_addr as int, 4, *old(data)),
{
    parse_root(m, rsdt_addr, 4, data);
}

/// Parses the XSDT (64-bit table pointers) at `xsdt_addr`.
pub fn parse_xsdt(m: &[u8], xsdt_addr: u64, data: &mut AcpiData)
    ensures
        *final(data) == root_effect(m@, xsdt_addr as int, 8, *old(data)),
{
    parse_root(m, xsdt_addr, 8, data);
}

/// The table address an RSDP at `a` gives: the XSDT from revision 2 on,
/// the RSDT before; None when no RSDP (36 bytes, "RSD PTR ") is there.
pub open spec fn rsdp_candidate(m: Seq<u8>, a: int) -> Option<u64> {
    if a + 36 <= m.len() && m.subrange(a, a + 8) == rsdp_signature() {
        Some(if m[a + 15] >= 2 { u64_at(m, a + 24) } else { u32_at(m, a + 16) as u64 })
    } else {
        None
    }
}

/// The first RSDP on a 16-byte boundary from `a` while 16 bytes fit before `end`.
pub open spec fn rsdp_search(m: Seq<u8>, a: int, end: int) -> Option<u64>
    decreases end - a,
{
    if a + 16 > end {
        None
    } else {
        match rsdp_candidate(m, a) {
            Some(x) => Some(x),
            None => rsdp_search(m, a + 16, end),
        }
    }
}

/// The RSDP search: the first KiB from the EBDA pointer (the word at 0x40E), then the BIOS area 0xE0000..0x100000.
pub open spec fn rsdp_scan(m: Seq<u8>) -> Option<u64> {
    let ebda = if 0x410 <= m.len() { rsdp_search(m, u16_at(m, 0x40E) as int, u16_at(m, 0x40E) + 1024) } else { None };
    match ebda {
        Some(x) => Some(x),
        None => rsdp_search(m, 0xE0000, 0x100000),
    }
}

fn check_rsdp(m: &[u8], a: u64) -> (r: Option<u64>)
    ensures
        r == rsdp_candidate(m@, a as int),
{
    let _len = m.len();
    if !fits(m, a, 36) {
        return None;
    }
    let rsdp = RsdpDescriptor::read_at(m, a);
    if !rsdp.valid() {
        return None;
    }
    if rsdp.revision >= 2 {
        let v2 = RsdpDescriptorV2::read_at(m, a);
        Some(v2.xsdt_address)
    } else {
        Some(rsdp.rsdt_address as u64)
    }
}

fn search_rsdp(m: &[u8], start: u64, end: u64) -> (r: Option<u64>)
    requires
        end <= 0x100000,
    ensures
        r == rsdp_search(m@, start as int, end as int),
    decreases end - start,
{
    if start > end || end - start < 16 {
        return None;
    }
    match check_rsdp(m, start) {
        Some(x) => Some(x),
        None => search_rsdp(m, start + 16, end),
    }
}

/// Looks for the RSDP in the EBDA, then in the BIOS area; the table address
/// it gives.
pub fn scan_for_rsdp(m: &[u8]) -> (r: Option<u64>)
    ensures
        r == rsdp_scan(m@),
{
    let _len = m.len();
    let ebda = if fits(m, 0x40E, 2) {
        let e = read_u16(m, 0x40E) as u64;
        search_rsdp(m, e, e + 1024)
    } else {
        None
    };
    match ebda {
        Some(x) => Some(x),
        None => search_rsdp(m, 0xE0000, 0x100000),
    }
}

/// The record built from the tables at `addr`: above 4 GiB it is an XSDT
/// (revision 2), else an RSDT.
pub open spec fn acpi_from_tables(m: Seq<u8>, addr: u64) -> AcpiData {
    if addr > 0xFFFFFFFF {
        root_effect(m, addr as int, 8, AcpiData { revision: 2, xsdt_address: addr, ..acpi_empty() })
    } else {
        root_effect(m, addr as int, 4, AcpiData { rsdt_address: addr as u32, ..acpi_empty() })
    }
}

/// What ACPI initialisation finds: the tables at the given address, or at
/// the one the RSDP search finds; nothing when neither exists.
pub open spec fn acpi_init(m: Seq<u8>, rsdp_addr: Option<u64>) -> AcpiData {
    let tables = match rsdp_addr {
        Some(a) => Some(a),
        None => rsdp_scan(m),
    };
    match tables {
        Some(a) => acpi_from_tables(m, a),
        None => acpi_empty(),
    }
}

/// Reads the ACPI tables out of the memory image `m`.
pub fn init(m: &[u8], rsdp_addr_opt: Option<u64>) -> (d: AcpiData)
    ensures
        d == acpi_init(m@, rsdp_addr_opt),
{
    let tables_addr = match rsdp_addr_opt {
        Some(a) => Some(a),
        None => scan_for_rsdp(m),
    };
    let mut data = AcpiData::new();
    match tables_addr {
        Some(addr) => {
            if addr > 0xFFFFFFFF {
                data.revision = 2;
                data.xsdt_address = addr;
                parse_xsdt(m, addr, &mut data);
            } else {
                data.rsdt_address = addr as u32;
                parse_rsdt(m, addr, &mut data);
            }
        },
        None => {},
    }
    data
}

/// `init` with an address known from the boot loader.
pub fn init_legacy(m: &[u8], rsdp_addr: u64) -> (d: AcpiData)
    ensures
        d == acpi_init(m@, Some(rsdp_addr)),
{
    init(m, Some(rsdp_addr))
}

/// The PCIe ECAM base, when an MCFG was found.
pub fn ecam_base(data: &AcpiData) -> (r: Option<u64>)
    ensures
        r == (if data.ecam_present { Some(data.ecam_base) } else { None }),
{
    if data.ecam_present {
        Some(data.ecam_base)
    } else {
        None
    }
}

/// The PM timer I/O port (low 16 bits of the block address), when the FADT
/// gave a nonzero block.
pub fn pm_timer_port(data: &AcpiData) -> (r: Option<u16>)
    ensures
        r == (if data.fadt_present && data.pm_timer_block != 0 {
            Some((data.pm_timer_block % 65536) as u16)
        } else {
            None
        }),
{
    if data.fadt_present && data.pm_timer_block != 0 {
        Some((data.pm_timer_block % 65536) as u16)
    } else {
        None
    }
}

/// The port write that resets the machine: the reset value to the reset
/// port, when the FADT gave a nonzero port.
pub fn reset_request(data: &AcpiData) -> (r: Option<(u16, u8)>)
    ensures
        r == (if data.fadt_present && data.reset_port != 0 {
            Some((data.reset_port, data.reset_value))
        } else {
            None
        }),
{
    if data.fadt_present && data.reset_port != 0 {
        Some((data.reset_port, data.reset_value))
    } else {
        None
    }
}

} // verus!
