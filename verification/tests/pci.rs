use jarvis_kernel::device_manager::{DeviceClass, IrqType};
use jarvis_kernel::pci::{
    config_target, configure_msi, decode_class_rev, decode_io_bar, ecam_address, find_display_devices, init,
    legacy_address, legacy_merge, pci_function_name, pci_function_to_device, pci_read_byte, pci_read_dword,
    pci_read_word, pci_read_word_compat, pci_write_dword, pci_write_word, pci_write_word_compat, program_msi,
    read_bars, read_capabilities, scan_all_buses, scan_bus_legacy, set_ecam, use_ecam, ConfigTarget, PciAccess,
    SimulatedConfig,
};

fn machine() -> SimulatedConfig {
    let mut cfg = SimulatedConfig::new();
    let mut vga = vec![0u32; 64];
    vga[0] = 0x1111_1234;
    vga[1] = 0x0010_0000;
    vga[2] = 0x0300_0002;
    vga[4] = 0xFD00_0008;
    vga[5] = 0x0000_C001;
    vga[13] = 0x40;
    vga[15] = 0x0000_010B;
    vga[16] = 0x0000_0005;
    cfg.add_function(0, 2, 0, vga);
    let mut bridge = vec![0u32; 64];
    bridge[0] = 0x2448_8086;
    bridge[2] = 0x0604_0000;
    bridge[6] = 0x0000_0100;
    cfg.add_function(0, 3, 0, bridge);
    let mut nic = vec![0u32; 64];
    nic[0] = 0x1000_8086;
    nic[2] = 0x0200_0000;
    cfg.add_function(1, 0, 0, nic);
    cfg
}

#[test]
fn address_encodings() {
    assert_eq!(legacy_address(0, 2, 0, 0x10), 0x8000_1010);
    assert_eq!(legacy_address(1, 31, 7, 0xFF), 0x8001_FFFC);
    assert_eq!(ecam_address(0xE000_0000, 1, 2, 3, 0x13), Some(0xE011_3010));
    assert_eq!(ecam_address(u64::MAX, 1, 0, 0, 0), None);
    let m = set_ecam(0xE000_0000, 3);
    assert!(use_ecam(m));
    assert!(!use_ecam(PciAccess::Legacy));
    assert_eq!(config_target(m, 2, 0, 0, 4), Some(ConfigTarget::Mmio(0xE020_0004)));
    assert_eq!(config_target(m, 9, 0, 0, 4), Some(ConfigTarget::Port(0x8009_0004)));
    assert_eq!(legacy_merge(0xAABB_CCDD, 2, 0x1234_0000), 0x1234_CCDD);
    assert_eq!(legacy_merge(0xAABB_CCDD, 0, 0x11), 0x11);
    assert_eq!(legacy_merge(0xFF, 0, 0), 0);
}

#[test]
fn sub_dword_access() {
    let mut cfg = machine();
    assert_eq!(pci_read_word(&mut cfg, 0, 2, 0, 0), 0x1234);
    assert_eq!(pci_read_word(&mut cfg, 0, 2, 0, 2), 0x1111);
    assert_eq!(pci_read_byte(&mut cfg, 0, 2, 0, 0x0B), 0x03);
    assert_eq!(pci_read_word_compat(&mut cfg, 0, 2, 0, 0x3C), 0x010B);
    assert_eq!(pci_read_dword(&mut cfg, 0, 2, 0, 8), 0x0300_0002);
    pci_write_word(&mut cfg, 0, 2, 0, 0x06, 0xBEEF);
    assert_eq!(pci_read_dword(&mut cfg, 0, 2, 0, 4), 0xBEEF_0000);
    pci_write_word_compat(&mut cfg, 0, 2, 0, 0x04, 0x0007);
    assert_eq!(pci_read_dword(&mut cfg, 0, 2, 0, 4), 0xBEEF_0007);
    pci_write_dword(&mut cfg, 0, 2, 0, 0x20, 7);
    assert_eq!(pci_read_dword(&mut cfg, 0, 2, 0, 0x20), 7);
    assert_eq!(pci_read_word(&mut cfg, 5, 0, 0, 0), 0xFFFF);
}

#[test]
fn capabilities_and_bars() {
    let mut cfg = machine();
    assert_eq!(read_capabilities(&mut cfg, 0, 2, 0), vec![(5, 0x40)]);
    assert!(read_capabilities(&mut cfg, 1, 0, 0).is_empty());
    let bars = read_bars(&mut cfg, 0, 2, 0);
    assert_eq!(bars[0].base, 0xFD00_0000);
    assert!(bars[0].is_mmio && bars[0].prefetchable);
    assert_eq!(bars[0].len, 16);
    assert_eq!(bars[1].base, 0xC000);
    assert!(!bars[1].is_mmio);
    assert_eq!(bars[1].len, 256);
    assert_eq!(bars[2].len, 0);
    let io = decode_io_bar(0x0000_E001);
    assert_eq!((io.base, io.len, io.is_mmio), (0xE000, 256, false));
    assert_eq!(decode_class_rev(0x0300_0002), (2, 0, 0, 3));
}

#[test]
fn enumeration_follows_bridges() {
    let mut cfg = machine();
    let fs = scan_all_buses(&mut cfg, None);
    let locs: Vec<(u8, u8, u8)> = fs.iter().map(|f| (f.bus, f.slot, f.func)).collect();
    assert_eq!(locs, vec![(0, 2, 0), (0, 3, 0), (1, 0, 0)]);
    assert!(fs[1].is_pci_pci_bridge);
    assert_eq!(fs[1].secondary_bus, 1);
    assert_eq!(fs[0].device_class(), DeviceClass::Display);
    // An ECAM window up to bus 2 adds nothing new and scans nothing twice.
    let mut cfg2 = machine();
    assert_eq!(scan_all_buses(&mut cfg2, Some(2)).len(), 3);
    let displays = find_display_devices(&mut cfg2, None);
    assert_eq!(displays.len(), 1);
    assert_eq!(displays[0].vendor_id, 0x1234);
}

#[test]
fn functions_to_devices() {
    let mut cfg = machine();
    let fs = scan_all_buses(&mut cfg, None);
    let vga = pci_function_to_device(&fs[0]);
    assert_eq!(vga.name, "VGA/Display Controller");
    assert_eq!(vga.irq, 0x0B);
    assert_eq!(vga.irq_type, IrqType::Msi);
    assert_eq!(vga.id.revision, 2);
    let nic = pci_function_to_device(&fs[2]);
    assert_eq!(nic.name, "Ethernet Controller");
    assert_eq!(nic.irq_type, IrqType::Unassigned);
    assert_eq!(nic.class, DeviceClass::Network);
    assert_eq!(pci_function_name(0x0C, 0x03, 0x30), "USB xHCI Controller");
    assert_eq!(pci_function_name(0x0C, 0x03, 0x42), "USB Controller");
    assert_eq!(pci_function_name(0x0F, 0x00, 0), "PCI Device");
}

#[test]
fn msi_programming() {
    let mut cfg = machine();
    assert_eq!(configure_msi(&mut cfg, 0, 2, 0, 0x30, 1), Ok(()));
    assert_eq!(pci_read_dword(&mut cfg, 0, 2, 0, 0x44), 0xFEE0_1000);
    assert_eq!(pci_read_dword(&mut cfg, 0, 2, 0, 0x48), 0x30);
    assert_eq!(pci_read_word(&mut cfg, 0, 2, 0, 0x42) & 1, 1);
    assert_eq!(configure_msi(&mut cfg, 1, 0, 0, 0x30, 1), Err("MSI capability not found"));
    assert!(program_msi(&mut cfg, 0, 2, 0, &[(5, 0x40)], 0xFEE0_0000, 0x41));
    assert!(!program_msi(&mut cfg, 0, 2, 0, &[(0x10, 0x50)], 0xFEE0_0000, 0x41));
}

#[test]
fn msi_writes_address_data_and_enable() {
    // 32-bit capability at 0x40: address at 0x44, data at 0x48, control bit 0 set.
    let mut cfg = machine();
    assert!(program_msi(&mut cfg, 0, 2, 0, &[(0x01, 0x50), (5, 0x40), (5, 0x60)], 0x1_FEE0_2000, 0x41));
    assert_eq!(pci_read_dword(&mut cfg, 0, 2, 0, 0x44), 0xFEE0_2000);
    assert_eq!(pci_read_dword(&mut cfg, 0, 2, 0, 0x48) & 0xFFFF, 0x41);
    assert_eq!(pci_read_word(&mut cfg, 0, 2, 0, 0x42), 0x0001);
    assert_eq!(pci_read_dword(&mut cfg, 0, 2, 0, 0x64), 0);
    // 64-bit capability (control bit 7): high dword at 0x48, data at 0x4C.
    let mut cfg = SimulatedConfig::new();
    let mut regs = vec![0u32; 64];
    regs[16] = 0x0080_0005;
    cfg.add_function(0, 4, 0, regs);
    assert!(program_msi(&mut cfg, 0, 4, 0, &[(5, 0x40)], 0x1_FEE0_2000, 0x41));
    assert_eq!(pci_read_dword(&mut cfg, 0, 4, 0, 0x44), 0xFEE0_2000);
    assert_eq!(pci_read_dword(&mut cfg, 0, 4, 0, 0x48), 0x1);
    assert_eq!(pci_read_dword(&mut cfg, 0, 4, 0, 0x4C) & 0xFFFF, 0x41);
    assert_eq!(pci_read_word(&mut cfg, 0, 4, 0, 0x42), 0x0081);
    let before = cfg.log.len();
    assert!(!program_msi(&mut cfg, 0, 4, 0, &[(0x10, 0x50)], 0x1_FEE0_2000, 0x41));
    assert_eq!(cfg.log.len(), before);
}

#[test]
fn bring_up() {
    let mut cfg = machine();
    let devs = init(&mut cfg, None);
    assert_eq!(devs.len(), 3);
    assert_eq!(pci_read_dword(&mut cfg, 0, 2, 0, 4), 0x0010_0007);
    let mut cfg2 = machine();
    assert_eq!(scan_bus_legacy(&mut cfg2, None).len(), 3);
}
