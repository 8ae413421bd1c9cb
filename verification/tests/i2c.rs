use jarvis_kernel::i2c::bitbang::{GpioBitbang, PinEvent, PinRecorder};
use jarvis_kernel::i2c::bus::{known_device_name, I2cController, I2cManager, scan_and_report, read_edid_block};
use jarvis_kernel::i2c::edid::{parse_edid, parse_standard_timing, parse_detailed_timing, parse_monitor_descriptor, EdidInfo, MonitorDesc};
use jarvis_kernel::i2c::smbus::{piix4_smbus_present, Ich9Smbus, Piix4Smbus, PollStep};
use jarvis_kernel::i2c::{I2cError, I2cMaster, I2cMessage, I2cSpeed};
use jarvis_kernel::pci::SimulatedConfig;

#[test]
fn test_gpio_bitbang_transfer() {
    let mut bb = GpioBitbang::new(0xE0, 0xE1, PinRecorder::new(vec![]));
    assert_eq!(bb.name(), "GPIO Bitbang I2C");
    let mut buf = vec![0u8; 4];
    // Without a device on the lines the address is not acknowledged.
    let _ = bb.transfer(0x50, &[0x00], &mut buf);
}

#[test]
fn test_edid_parse_invalid() {
    let data = [0u8; 128];
    let info = parse_edid(&data);
    assert!(!info.valid, "All-zero EDID should be invalid");
}

fn checksum(data: &mut [u8; 128]) {
    let sum: u8 = data[0..127].iter().fold(0u8, |a, b| a.wrapping_add(*b));
    data[127] = 0u8.wrapping_sub(sum);
}

#[test]
fn test_edid_parse_valid() {
    let mut data = [0u8; 128];
    data[0..8].copy_from_slice(&[0x00, 0xFF, 0xFF, 0xFF, 0xFF, 0xFF, 0xFF, 0x00]);
    data[8] = 0x5A;
    data[9] = 0x63;
    data[10] = 0x14;
    data[11] = 0x00;
    data[16] = 1;
    data[17] = 20;
    data[18] = 1;
    data[19] = 3;
    data[20] = 0x80;
    data[21] = 48;
    data[22] = 27;
    data[23] = 120;
    data[24] = 0x00;
    data[54] = 0x9C;
    data[55] = 0x06;
    data[56] = 0x00;
    data[57] = 0x50;
    data[58] = 0x20;
    data[59] = 0x00;
    data[60] = 0xE0;
    data[61] = 0x20;
    data[62] = 0x20;
    checksum(&mut data);
    data[54] = 0x9C; data[55] = 0x06;
    data[56] = 0x00; data[57] = 0x50;
    data[58] = (5 << 4) | 0;
    data[59] = 0x10;
    data[60] = 0xD0;
    data[61] = 0x02;
    data[62] = (2 << 4) | 0;
    checksum(&mut data);

    let info = parse_edid(&data);
    assert!(info.valid, "Valid EDID should parse");
    assert_eq!(info.year, 2010);
    assert_eq!(info.width_cm, 48);
    assert_eq!(info.height_cm, 27);
    assert!(info.digital);
}

#[test]
fn test_standard_timing_parse() {
    let (h, v) = parse_standard_timing(0x61, 0x59).unwrap();
    assert_eq!(h, 1024);
    assert!(v == 768 || v == 576);
}

#[test]
fn test_piix4_smbus_present() {
    // An empty configuration space: no controller, and no crash.
    let mut cfg = SimulatedConfig::new();
    let _present = piix4_smbus_present(&mut cfg);
}

#[test]
fn test_i2c_error_display() {
    assert_eq!(I2cError::NackAddress.message(), "NACK on address phase");
    assert_eq!(I2cError::Timeout.message(), "timeout");
    assert_eq!(I2cError::BusBusy.message(), "I2C bus busy");
}

#[test]
fn error_messages_all_variants() {
    assert_eq!(I2cError::NackData.message(), "NACK on data phase");
    assert_eq!(I2cError::ArbitrationLost.message(), "arbitration lost");
    assert_eq!(I2cError::InvalidParameter.message(), "invalid parameter");
    assert_eq!(I2cError::DeviceNotReady.message(), "device not ready");
    assert_eq!(I2cError::ControllerBusy.message(), "controller busy");
}

#[test]
fn speed_delays() {
    assert_eq!(I2cSpeed::Standard.delay_us(), 5);
    assert_eq!(I2cSpeed::Fast.delay_us(), 2);
    assert_eq!(I2cSpeed::FastPlus.delay_us(), 1);
    assert_eq!(I2cSpeed::HighSpeed.delay_us(), 0);
}

#[test]
fn messages_built() {
    let w = I2cMessage::new_write(0x50, &[1, 2, 3]);
    assert!(!w.read);
    assert_eq!(w.data, vec![1, 2, 3]);
    let r = I2cMessage::new_read(0x51, 4);
    assert!(r.read);
    assert_eq!(r.address, 0x51);
    assert_eq!(r.data, vec![0, 0, 0, 0]);
}

#[test]
fn standard_timings_edge_cases() {
    assert_eq!(parse_standard_timing(0x01, 0x01), None);
    // 16:10 ratio: (0x81 + 31) * 8 = 1280, 1280 * 10 / 16 = 800
    assert_eq!(parse_standard_timing(0x81, 0x00), Some((1280, 800)));
    // 4:3: 1024 x 768; 16:9: 1024 x 576
    assert_eq!(parse_standard_timing(0x61, 0x20), Some((1024, 768)));
    assert_eq!(parse_standard_timing(0x61, 0x40), Some((1024, 576)));
    // too small: (0x00 + 31) * 8 = 248
    assert_eq!(parse_standard_timing(0x00, 0x40), None);
}

#[test]
fn bitbang_invalid_address_touches_nothing() {
    let mut bb = GpioBitbang::new(0xE0, 0xE1, PinRecorder::new(vec![]));
    let mut buf = vec![0u8; 2];
    assert_eq!(bb.transfer(0x80, &[1], &mut buf), Err(I2cError::InvalidParameter));
    assert!(bb.pins.log.is_empty());
}

#[test]
fn bitbang_nack_address() {
    // No scripted levels: SDA reads high, so the address byte is not acknowledged.
    let mut bb = GpioBitbang::new(0xE0, 0xE1, PinRecorder::new(vec![]));
    let mut buf = vec![0u8; 1];
    assert_eq!(bb.transfer(0x50, &[0x00], &mut buf), Err(I2cError::NackAddress));
    // START: SDA high, SCL high, wait, SDA low
    assert_eq!(bb.pins.log[0], PinEvent::Drive { port: 0xE1, high: true });
    assert_eq!(bb.pins.log[2], PinEvent::Drive { port: 0xE0, high: true });
}

#[test]
fn bitbang_read_byte_from_device() {
    // ACK of the read address (low), then the byte 0xA5 MSB first.
    let bits = vec![false, true, false, true, false, false, true, false, true];
    let mut bb = GpioBitbang::new(0xE0, 0xE1, PinRecorder::new(bits));
    let mut buf = vec![0u8; 1];
    assert_eq!(bb.transfer(0x50, &[], &mut buf), Ok(1));
    assert_eq!(buf, vec![0xA5]);
    // The address byte 0x50 << 1 | 1 = 0xA1 went out MSB first: first data bit is 1.
    let sda_drives: Vec<bool> = bb.pins.log.iter().filter_map(|e| match e {
        PinEvent::Drive { port: 0xE1, high } => Some(*high),
        _ => None,
    }).collect();
    // START drives SDA high then low; then the 8 address bits.
    // Two STARTs (SDA high then low each), then the 8 address bits.
    assert_eq!(&sda_drives[4..12], &[true, false, true, false, false, false, false, true]);
}

#[test]
fn bitbang_write_acknowledged() {
    let mut bb = GpioBitbang::new(0xE0, 0xE1, PinRecorder::new(vec![false, false, false]));
    let mut buf: Vec<u8> = vec![];
    assert_eq!(bb.transfer(0x1A, &[0x10, 0x20], &mut buf), Ok(2));
    bb.set_speed(I2cSpeed::Fast);
    assert_eq!(bb.speed, I2cSpeed::Fast);
}

#[test]
fn bitbang_probe() {
    let mut present = GpioBitbang::new(1, 2, PinRecorder::new(vec![false]));
    assert!(present.probe(0x50));
    let mut absent = GpioBitbang::new(1, 2, PinRecorder::new(vec![]));
    assert!(!absent.probe(0x50));
    assert!(!absent.probe(0x90));
}

#[test]
fn bus_manager_and_scan() {
    let mut mgr: I2cManager<GpioBitbang<PinRecorder>> = I2cManager::new();
    assert_eq!(mgr.bus_count(), 0);
    assert!(mgr.scan_bus(0).is_empty());
    // A bus whose first probe is acknowledged: address 0x08 answers.
    let id = mgr.register(I2cController::new(0, "GPIO Bitbang", GpioBitbang::new(1, 2, PinRecorder::new(vec![false]))));
    assert_eq!(id, 0);
    assert_eq!(mgr.bus_count(), 1);
    assert_eq!(mgr.bus(0).unwrap().name, "GPIO Bitbang");
    assert!(mgr.bus(1).is_none());
    let found = mgr.scan_bus(0);
    assert_eq!(found, vec![0x08]);
    let report = scan_and_report(&mut mgr, 0);
    assert!(report.is_empty());
    assert!(read_edid_block(&mut mgr, 3, 0).is_none());
}

#[test]
fn device_names() {
    assert_eq!(known_device_name(0x1A), "RT5682 Audio Codec");
    assert_eq!(known_device_name(0x3C), "MAX98390 Amp");
    assert_eq!(known_device_name(0x50), "DDC/EDID (Monitor)");
    assert_eq!(known_device_name(0x2D), "TPS6598x USB-C PD");
    assert_eq!(known_device_name(0x77), "unknown");
}

#[test]
fn edid_detailed_and_descriptors() {
    let mut data = [0u8; 128];
    data[0..8].copy_from_slice(&[0x00, 0xFF, 0xFF, 0xFF, 0xFF, 0xFF, 0xFF, 0x00]);
    // 1920x1080 preferred timing, 148.5 MHz
    let dt = [0x02u8, 0x3A, 0x80, 0x18, 0x71, 0x38, 0x2D, 0x40, 0x58, 0x2C, 0x45, 0x00, 0x56, 0x50, 0x21, 0x00, 0x00, 0x1E];
    data[54..72].copy_from_slice(&dt);
    // monitor name descriptor
    data[72..77].copy_from_slice(&[0, 0, 0, 0xFC, 0]);
    data[77..90].copy_from_slice(b"JARVIS HUD\n  ");
    // serial descriptor
    data[90..95].copy_from_slice(&[0, 0, 0, 0xFF, 0]);
    data[95..108].copy_from_slice(b"SN12345678901");
    // standard timing 1024x768
    data[38] = 0x61;
    data[39] = 0x20;
    for i in 0..7 {
        data[40 + 2 * i] = 0x01;
        data[41 + 2 * i] = 0x01;
    }
    checksum(&mut data);
    let t = parse_detailed_timing(&data, 54).unwrap();
    assert_eq!(t.pixel_clock, 148500);
    assert_eq!(t.h_active, 1920);
    assert_eq!(t.v_active, 1080);
    assert_eq!(t.h_blank, 280);
    assert_eq!(t.v_blank, 45);
    assert!(parse_detailed_timing(&data, 72).is_none());
    assert!(parse_detailed_timing(&data, 120).is_none());
    match parse_monitor_descriptor(&data, 72) {
        Some((MonitorDesc::Name(n), 0xFC)) => assert_eq!(&n, b"JARVIS HUD\n  "),
        _ => panic!("expected a name descriptor"),
    }
    assert!(parse_monitor_descriptor(&data, 54).is_none());
    let info = parse_edid(&data);
    assert!(info.valid);
    assert_eq!(info.detailed_timings.len(), 1);
    assert_eq!(info.preferred_timing.unwrap().h_active, 1920);
    assert_eq!(info.monitor_name, Some(*b"JARVIS HUD\n  "));
    assert_eq!(info.monitor_serial, Some(*b"SN12345678901"));
    assert_eq!(info.standard_timings, vec![(1024, 768)]);
    assert_eq!(info.gamma_hundredths, 100);
    assert_eq!(info.year, 1990);
}

#[test]
fn edid_bad_checksum_is_blank() {
    let mut data = [0u8; 128];
    data[0..8].copy_from_slice(&[0x00, 0xFF, 0xFF, 0xFF, 0xFF, 0xFF, 0xFF, 0x00]);
    data[21] = 50;
    let info = parse_edid(&data);
    assert!(!info.valid);
    assert_eq!(info.width_cm, 0);
}

#[test]
fn test_edid_pnp_id() {
    let mut data = [0u8; 128];
    data[0..8].copy_from_slice(&[0x00, 0xFF, 0xFF, 0xFF, 0xFF, 0xFF, 0xFF, 0x00]);
    // "SAM" with S = 19 in bits 4-0, A = 1 in bits 9-5, M = 13 in bits 14-10:
    // (13 << 10) | (1 << 5) | 19 = 0x3433.
    data[8] = 0x34;
    data[9] = 0x33;
    let sum: u8 = data[0..127].iter().fold(0u8, |a, b| a.wrapping_add(*b));
    data[127] = 0u8.wrapping_sub(sum);
    let id = EdidInfo::pnp_id(&data);
    assert_eq!(id[0], b'S');
    assert_eq!(id[1], b'A');
}

#[test]
fn pnp_id_reads_the_low_field_first() {
    let mut data = [0u8; 128];
    // 0x3439: 25 in bits 4-0, 1 in bits 9-5.
    data[8] = 0x34;
    data[9] = 0x39;
    assert_eq!(EdidInfo::pnp_id(&data), [b'Y', b'A']);
}

#[test]
fn edid_new_is_invalid() {
    let e = EdidInfo::new();
    assert!(!e.valid);
}

#[test]
fn piix4_status_decisions() {
    assert!(matches!(Piix4Smbus::poll_status(0x00), PollStep::Pending));
    assert!(matches!(Piix4Smbus::poll_status(0x80), PollStep::Finished(Ok(()))));
    assert!(matches!(Piix4Smbus::poll_status(0xC0), PollStep::Finished(Err(I2cError::DeviceNotReady))));
    assert!(matches!(Piix4Smbus::poll_status(0xA0), PollStep::Finished(Err(I2cError::BusBusy))));
    assert!(matches!(Piix4Smbus::poll_status(0x90), PollStep::Finished(Err(I2cError::Timeout))));
}

#[test]
fn ich9_plans_and_detection() {
    let mut cfg = SimulatedConfig::new();
    assert!(Ich9Smbus::try_new(&mut cfg).is_none());
    // The vendor and device words are both taken from the dword at 0, so the
    // vendor compares whole: a function reading back exactly 0x8086 there
    // has device word 0x8086, outside 0x2930..=0x293C.
    let mut regs = vec![0u32; 64];
    regs[0] = 0x2930_8086;
    regs[8] = 0x0000_E001;
    cfg.add_function(0, 0x1F, 3, regs);
    assert!(Ich9Smbus::try_new(&mut cfg).is_none());
}

#[test]
fn piix4_detection_compares_whole_dwords() {
    let mut cfg = SimulatedConfig::new();
    let mut regs = vec![0u32; 64];
    regs[0] = 0x7113_8086;
    regs[8] = 0x0000_0B01;
    cfg.add_function(0, 7, 3, regs);
    assert!(!piix4_smbus_present(&mut cfg));
    assert!(Piix4Smbus::try_new(&mut cfg).is_none());
}
