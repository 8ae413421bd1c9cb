use jarvis_kernel::i2c::smbus::{Ich9Smbus, Piix4Smbus};
use jarvis_kernel::i2c::smbus_host::{Ich9Host, Piix4Host, ICH9_PROBE_POLLS, SMBUS_POLLS};
use jarvis_kernel::i2c::{I2cError, I2cMaster};
use jarvis_kernel::port::{PortEvent, RecordingPorts};

fn piix4(input: u8) -> Piix4Host<RecordingPorts> {
    Piix4Host::new(Piix4Smbus::new(0x100), RecordingPorts { log: Vec::new(), input })
}

fn ich9(input: u8) -> Ich9Host<RecordingPorts> {
    Ich9Host::new(Ich9Smbus::new(0x100), RecordingPorts { log: Vec::new(), input })
}

fn w(port: u16, value: u8) -> PortEvent {
    PortEvent::Write { port, value }
}

fn r(port: u16, value: u8) -> PortEvent {
    PortEvent::Read { port, value }
}

#[test]
fn piix4_send_byte_sequence() {
    let mut h = piix4(0x80);
    let mut buf = Vec::new();
    assert_eq!(h.transfer(0x50, &[0xAB], &mut buf), Ok(1));
    assert_eq!(
        h.ports.log,
        vec![w(0x105, 0xAB), r(0x100, 0x80), w(0x104, 0xA0), w(0x103, 0), w(0x102, 0x44), r(0x100, 0x80), w(0x100, 0xF2)]
    );
}

#[test]
fn piix4_receive_byte_reads_data0() {
    let mut h = piix4(0x80);
    let mut buf = vec![0u8];
    assert_eq!(h.transfer(0x50, &[], &mut buf), Ok(1));
    assert_eq!(buf, vec![0x80]);
    assert_eq!(h.ports.log.last(), Some(&r(0x105, 0x80)));
}

#[test]
fn piix4_block_read_is_capped_by_the_buffer() {
    let mut h = piix4(0x80);
    let mut buf = vec![0u8; 4];
    assert_eq!(h.transfer(0x50, &[0x10], &mut buf), Ok(4));
    let log = &h.ports.log;
    assert_eq!(log[0], w(0x103, 0x10));
    assert_eq!(log[log.len() - 5], r(0x105, 0x80));
    assert_eq!(&log[log.len() - 4..], &[r(0x107, 0x80), r(0x108, 0x80), r(0x109, 0x80), r(0x10A, 0x80)]);
}

#[test]
fn piix4_errors() {
    let mut h = piix4(0xC0);
    assert_eq!(h.transfer(0x50, &[], &mut vec![0u8]), Err(I2cError::DeviceNotReady));
    let mut busy = piix4(0x04);
    assert_eq!(busy.transfer(0x50, &[1], &mut Vec::new()), Err(I2cError::Timeout));
    assert_eq!(busy.ports.log.len(), 1 + SMBUS_POLLS as usize);
    let mut bad = piix4(0x80);
    assert_eq!(bad.transfer(0x80, &[], &mut vec![0u8]), Err(I2cError::InvalidParameter));
    assert!(bad.ports.log.is_empty());
    assert_eq!(bad.transfer(0x50, &[7], &mut vec![0u8; 33]), Err(I2cError::InvalidParameter));
    assert_eq!(bad.ports.log, vec![w(0x103, 7)]);
}

#[test]
fn piix4_probe_and_reset() {
    let mut h = piix4(0x80);
    assert!(h.probe(0x50));
    let mut failed = piix4(0x90);
    assert!(!failed.probe(0x50));
    let mut fresh = piix4(0);
    fresh.reset();
    assert_eq!(fresh.ports.log, vec![w(0x100, 0xFE)]);
}

#[test]
fn ich9_block_write_and_read() {
    let mut h = ich9(0x5A);
    assert_eq!(h.transfer(0x50, &[7, 8], &mut Vec::new()), Ok(2));
    assert_eq!(h.ports.log, vec![w(0x104, 0xA0), w(0x103, 7), w(0x102, 0x54)]);
    let mut g = ich9(0x5A);
    let mut buf = vec![0u8; 3];
    assert_eq!(g.transfer(0x50, &[], &mut buf), Ok(3));
    assert_eq!(buf, vec![0x5A; 3]);
    assert_eq!(g.ports.log, vec![w(0x104, 0xA1), w(0x102, 0x54), r(0x107, 0x5A), r(0x108, 0x5A), r(0x109, 0x5A)]);
    assert_eq!(g.transfer(0x50, &[1], &mut vec![0u8]), Err(I2cError::InvalidParameter));
}

#[test]
fn ich9_probe() {
    assert!(ich9(0x80).probe(0x50));
    assert!(!ich9(0x90).probe(0x50));
    let mut silent = ich9(0);
    assert!(!silent.probe(0x50));
    assert_eq!(silent.ports.log.len(), 2 + ICH9_PROBE_POLLS as usize);
    assert_eq!(silent.ports.log[0], w(0x104, 0xA0));
}

#[test]
fn piix4_preloads_and_protocols() {
    let mut word = piix4(0x80);
    assert_eq!(word.transfer(0x50, &[1, 2], &mut Vec::new()), Ok(2));
    assert_eq!(&word.ports.log[..2], &[w(0x105, 1), w(0x106, 2)]);
    assert_eq!(word.ports.log[5], w(0x102, 0x4C));
    let mut block = piix4(0x80);
    assert_eq!(block.transfer(0x50, &[1, 2, 3], &mut Vec::new()), Ok(3));
    assert_eq!(&block.ports.log[..4], &[w(0x105, 3), w(0x107, 1), w(0x108, 2), w(0x109, 3)]);
    assert_eq!(block.ports.log[7], w(0x102, 0x54));
    let mut read_word = piix4(0x80);
    let mut buf = vec![0u8; 2];
    assert_eq!(read_word.transfer(0x50, &[0x10], &mut buf), Ok(2));
    let log = &read_word.ports.log;
    assert_eq!(log[3], w(0x103, 0x10));
    assert_eq!(log[4], w(0x102, 0x4C));
    assert_eq!(&log[log.len() - 2..], &[r(0x105, 0x80), r(0x106, 0x80)]);
    let mut quick = piix4(0x80);
    assert_eq!(quick.transfer(0x50, &[], &mut Vec::new()), Ok(0));
    assert_eq!(quick.ports.log[3], w(0x102, 0x40));
    assert_eq!(piix4(0x80).transfer(0x50, &[0u8; 33], &mut Vec::new()), Err(I2cError::InvalidParameter));
}
