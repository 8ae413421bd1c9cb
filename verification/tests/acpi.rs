use jarvis_kernel::acpi::{
    acpi_checksum, ecam_base, init, init_legacy, parse_fadt, parse_madt, parse_mcfg, pm_timer_port, reset_request,
    scan_for_rsdp, AcpiData, AcpiSdtHeader, RsdpDescriptor,
};

fn put_u16(m: &mut [u8], a: usize, v: u16) {
    m[a..a + 2].copy_from_slice(&v.to_le_bytes());
}
fn put_u32(m: &mut [u8], a: usize, v: u32) {
    m[a..a + 4].copy_from_slice(&v.to_le_bytes());
}
fn put_u64(m: &mut [u8], a: usize, v: u64) {
    m[a..a + 8].copy_from_slice(&v.to_le_bytes());
}
fn header(m: &mut [u8], a: usize, sig: &[u8; 4], len: u32, rev: u8) {
    m[a..a + 4].copy_from_slice(sig);
    put_u32(m, a + 4, len);
    m[a + 8] = rev;
}
fn fix_checksum(m: &mut [u8], a: usize, len: usize) {
    m[a + 9] = 0;
    let sum: u8 = m[a..a + len].iter().fold(0u8, |s, b| s.wrapping_add(*b));
    m[a + 9] = 0u8.wrapping_sub(sum);
}

fn image() -> Vec<u8> {
    let mut m = vec![0u8; 0x7000];
    // RSDT with four tables
    header(&mut m, 0x1000, b"RSDT", 52, 1);
    put_u32(&mut m, 0x1024, 0x2000);
    put_u32(&mut m, 0x1028, 0x3000);
    put_u32(&mut m, 0x102C, 0x4000);
    put_u32(&mut m, 0x1030, 0x5000);
    fix_checksum(&mut m, 0x1000, 52);
    // MADT: enabled CPU, disabled CPU, I/O APIC, LAPIC address override
    header(&mut m, 0x2000, b"APIC", 44 + 8 + 8 + 12 + 12, 1);
    put_u32(&mut m, 0x2024, 0xFEE0_0000);
    let e = 0x2000 + 44;
    m[e] = 0; m[e + 1] = 8; m[e + 2] = 0; m[e + 3] = 0; put_u32(&mut m, e + 4, 1);
    m[e + 8] = 0; m[e + 9] = 8; m[e + 10] = 1; m[e + 11] = 1; put_u32(&mut m, e + 12, 0);
    m[e + 16] = 1; m[e + 17] = 12; m[e + 18] = 2; put_u32(&mut m, e + 19, 0xFEC0_0000);
    m[e + 28] = 5; m[e + 29] = 12; put_u64(&mut m, e + 30, 0xFED0_0000);
    // FADT
    header(&mut m, 0x3000, b"FACP", 275, 1);
    put_u32(&mut m, 0x3000 + 40, 0x6000);
    put_u32(&mut m, 0x3000 + 75, 0x608);
    m[0x3000 + 90] = 4;
    put_u64(&mut m, 0x3000 + 119, 0xCF9);
    m[0x3000 + 127] = 6;
    // MCFG with two allocations
    header(&mut m, 0x4000, b"MCFG", 76, 1);
    put_u64(&mut m, 0x4000 + 44, 0xE000_0000);
    put_u16(&mut m, 0x4000 + 52, 0);
    m[0x4000 + 54] = 0;
    m[0x4000 + 55] = 0xFF;
    put_u64(&mut m, 0x4000 + 60, 0xF000_0000);
    // HPET
    header(&mut m, 0x5000, b"HPET", 56, 1);
    put_u64(&mut m, 0x5000 + 44, 0xFED0_0000);
    // DSDT
    header(&mut m, 0x6000, b"DSDT", 0x1234, 2);
    m
}

#[test]
fn empty_record() {
    let d = AcpiData::new();
    assert!(!d.fadt_present && !d.ecam_present && !d.hpet_present && !d.dsdt_present);
    assert_eq!(d.processor_count, 0);
    assert_eq!(ecam_base(&d), None);
    assert_eq!(pm_timer_port(&d), None);
    assert_eq!(reset_request(&d), None);
}

#[test]
fn full_table_walk() {
    let m = image();
    let d = init(&m, Some(0x1000));
    assert_eq!(d.rsdt_address, 0x1000);
    assert_eq!(d.revision, 0);
    assert_eq!(d.processor_count, 1);
    assert_eq!(d.io_apic_count, 1);
    assert_eq!(d.local_apic_address, 0xFED0_0000);
    assert!(d.ecam_present);
    assert_eq!(ecam_base(&d), Some(0xE000_0000));
    assert_eq!(d.ecam_end_bus, 0xFF);
    assert!(d.fadt_present);
    assert_eq!(pm_timer_port(&d), Some(0x608));
    assert_eq!(d.pm_timer_len, 4);
    assert_eq!(reset_request(&d), Some((0xCF9, 6)));
    assert_eq!(d.dsdt_address, 0x6000);
    assert!(d.dsdt_present);
    assert_eq!(d.dsdt_length, 0x1234);
    assert!(d.hpet_present);
    assert_eq!(d.hpet_address, 0xFED0_0000);
    let legacy = init_legacy(&m, 0x1000);
    assert_eq!(legacy.processor_count, 1);
}

#[test]
fn bad_root_checksum_changes_nothing() {
    let mut m = image();
    m[0x1000 + 9] = m[0x1000 + 9].wrapping_add(1);
    let d = init(&m, Some(0x1000));
    assert_eq!(d.rsdt_address, 0x1000);
    assert_eq!(d.processor_count, 0);
    assert!(!d.fadt_present);
}

#[test]
fn xsdt_above_image() {
    let m = image();
    let d = init(&m, Some(0x1_0000_0000));
    assert_eq!(d.revision, 2);
    assert_eq!(d.xsdt_address, 0x1_0000_0000);
    assert!(!d.ecam_present);
}

#[test]
fn rsdp_scan_in_bios_area() {
    let mut m = image();
    m.resize(0x100000, 0);
    assert_eq!(scan_for_rsdp(&m), None);
    m[0xE0000..0xE0008].copy_from_slice(b"RSD PTR ");
    m[0xE0000 + 15] = 0;
    put_u32(&mut m, 0xE0000 + 16, 0x1000);
    assert_eq!(scan_for_rsdp(&m), Some(0x1000));
    let r = RsdpDescriptor::read_at(&m, 0xE0000);
    assert!(r.valid());
    let d = init(&m, None);
    assert_eq!(d.processor_count, 1);
    // A revision 2 pointer gives the XSDT address.
    m[0xE0000 + 15] = 2;
    put_u64(&mut m, 0xE0000 + 24, 0x2_0000_0000);
    assert_eq!(scan_for_rsdp(&m), Some(0x2_0000_0000));
}

#[test]
fn single_tables_and_checksum() {
    let m = image();
    let mut d = AcpiData::new();
    parse_madt(&m, 0x2000, &mut d);
    assert_eq!(d.processor_count, 1);
    parse_madt(&m, 0x2000, &mut d);
    assert_eq!(d.processor_count, 2);
    parse_mcfg(&m, 0x4000, &mut d);
    parse_fadt(&m, 0x3000, &mut d);
    assert_eq!(d.reset_port, 0xCF9);
    assert!(acpi_checksum(&m, 0x1000, 52));
    assert!(!acpi_checksum(&m, 0x2000, 8));
    let h = AcpiSdtHeader::read_at(&m, 0x2000);
    assert_eq!(&h.signature, b"APIC");
    assert_eq!(h.length, 84);
    // A table beyond the image is skipped.
    let mut e = AcpiData::new();
    parse_fadt(&m, 0x6F00, &mut e);
    assert!(!e.fadt_present);
}
