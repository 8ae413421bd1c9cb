use jarvis_kernel::audio::maxim::Max98390;
use jarvis_kernel::audio::rt5682::Rt5682;
use jarvis_kernel::cros_ec::{init as ec_init, CrosEc};
use jarvis_kernel::i2c::bus::{smbus_read_block, smbus_read_byte, smbus_read_word, smbus_write_byte, I2cController, I2cManager};
use jarvis_kernel::i2c::scripted::ScriptedMaster;
use jarvis_kernel::i2c::I2cError;
use jarvis_kernel::sensors::bmi160::Bmi160;

fn bus(replies: Vec<(Result<usize, I2cError>, Vec<u8>)>) -> I2cManager<ScriptedMaster> {
    let mut mgr = I2cManager::new();
    mgr.register(I2cController::new(0, "script", ScriptedMaster::new(replies)));
    mgr
}

fn asked(mgr: &I2cManager<ScriptedMaster>) -> Vec<(u8, Vec<u8>, usize)> {
    mgr.buses[0].master.asked.clone()
}

#[test]
fn smbus_register_helpers() {
    let mut mgr = bus(vec![(Ok(1), vec![0x5A])]);
    assert_eq!(smbus_read_byte(&mut mgr, 0, 0x20, 0x07), Ok(0x5A));
    assert_eq!(asked(&mgr), vec![(0x20, vec![0x07], 1)]);

    let mut mgr = bus(vec![(Ok(2), vec![0x34, 0x12])]);
    assert_eq!(smbus_read_word(&mut mgr, 0, 0x20, 0x08), Ok(0x1234));
    assert_eq!(asked(&mgr), vec![(0x20, vec![0x08], 2)]);

    let mut mgr = bus(vec![(Err(I2cError::NackData), vec![])]);
    assert_eq!(smbus_read_word(&mut mgr, 0, 0x20, 0x08), Err(I2cError::NackData));

    let mut mgr = bus(vec![(Ok(2), vec![])]);
    assert_eq!(smbus_write_byte(&mut mgr, 0, 0x20, 0x09, 0xAB), Ok(2));
    assert_eq!(asked(&mgr), vec![(0x20, vec![0x09, 0xAB], 0)]);
    assert_eq!(smbus_read_byte(&mut mgr, 1, 0x20, 0x07), Err(I2cError::InvalidParameter));
}

#[test]
fn smbus_block_falls_back_to_plain_read() {
    let mut mgr = bus(vec![(Ok(3), vec![1, 2, 3])]);
    let mut buf = vec![0u8; 3];
    assert_eq!(smbus_read_block(&mut mgr, 0, 0x30, 0x10, &mut buf), Ok(3));
    assert_eq!(buf, vec![1, 2, 3]);
    assert_eq!(asked(&mgr), vec![(0x30, vec![0x10], 3)]);

    let mut mgr = bus(vec![(Err(I2cError::NackAddress), vec![]), (Ok(2), vec![7, 8, 9])]);
    let mut buf = vec![0u8; 3];
    assert_eq!(smbus_read_block(&mut mgr, 0, 0x30, 0x10, &mut buf), Ok(2));
    assert_eq!(buf, vec![7, 8, 9]);
    assert_eq!(asked(&mgr), vec![(0x30, vec![0x10], 3), (0x30, vec![], 3)]);
}

#[test]
fn bmi160_rejects_another_chip() {
    let mut mgr = bus(vec![(Ok(1), vec![0x00])]);
    assert_eq!(Bmi160::new(0).init(&mut mgr), Err(I2cError::InvalidParameter));
    assert_eq!(asked(&mgr), vec![(0x68, vec![0x00], 1)]);
}

#[test]
fn bmi160_powers_up_accel_then_gyro() {
    let mut mgr = bus(vec![(Ok(1), vec![0xD1]), (Ok(2), vec![]), (Ok(2), vec![])]);
    assert_eq!(Bmi160::new(0).init(&mut mgr), Ok(()));
    assert_eq!(
        asked(&mgr),
        vec![(0x68, vec![0x00], 1), (0x68, vec![0x7E, 0x11], 0), (0x68, vec![0x7E, 0x15], 0)]
    );
    let mut mgr = bus(vec![(Ok(1), vec![0xD1]), (Err(I2cError::Timeout), vec![])]);
    assert_eq!(Bmi160::new(0).init(&mut mgr), Err(I2cError::Timeout));
    assert_eq!(asked(&mgr).len(), 2);
}

#[test]
fn bmi160_accel_axes() {
    let mut mgr = bus(vec![(Ok(6), vec![0x01, 0x00, 0xFF, 0xFF, 0x00, 0x80])]);
    assert_eq!(Bmi160::new(0).read_accel(&mut mgr), Ok((1, -1, i16::MIN)));
    assert_eq!(asked(&mgr), vec![(0x68, vec![0x12], 6)]);
}

#[test]
fn rt5682_bring_up_sequence() {
    let mut mgr = bus(vec![(Ok(4), vec![]), (Ok(2), vec![0x64, 0x19]), (Ok(4), vec![])]);
    assert_eq!(Rt5682::new(0).init(&mut mgr), Ok(0x6419));
    assert_eq!(
        asked(&mgr),
        vec![(0x1A, vec![0, 0, 0, 0], 0), (0x1A, vec![0, 3], 2), (0x1A, vec![0, 1, 0x80, 0], 0)]
    );
    let mut mgr = bus(vec![(Err(I2cError::NackAddress), vec![])]);
    assert_eq!(Rt5682::new(0).init(&mut mgr), Err(I2cError::NackAddress));
    assert_eq!(asked(&mgr).len(), 1);
}

#[test]
fn max98390_reset_then_enable() {
    let mut mgr = bus(vec![(Ok(3), vec![]), (Ok(3), vec![])]);
    assert_eq!(Max98390::new(0, 0x3C).init(&mut mgr), Ok(()));
    assert_eq!(asked(&mgr), vec![(0x3C, vec![0x20, 0x00, 0x01], 0), (0x3C, vec![0x20, 0x01, 0x01], 0)]);
    let mut mgr = bus(vec![(Err(I2cError::BusBusy), vec![])]);
    assert_eq!(Max98390::new(0, 0x38).init(&mut mgr), Err(I2cError::BusBusy));
    assert_eq!(asked(&mgr).len(), 1);
}

#[test]
fn cros_ec_version_and_battery() {
    let mut text = b"ec-1.2".to_vec();
    text.resize(32, 0);
    let mut mgr = bus(vec![(Ok(32), text)]);
    assert_eq!(CrosEc::new(0).get_version(&mut mgr), Ok(String::from("ec-1.2")));
    assert_eq!(asked(&mgr), vec![(0x1E, vec![0x02], 32)]);
    let mut mgr = bus(vec![(Ok(1), vec![87])]);
    assert_eq!(CrosEc::new(0).get_battery_level(&mut mgr), Ok(87));
    assert_eq!(asked(&mgr), vec![(0x1E, vec![0x24], 1)]);
    let mut mgr = bus(vec![(Err(I2cError::NackAddress), vec![]), (Err(I2cError::Timeout), vec![])]);
    assert_eq!(ec_init(&mut mgr), Err(I2cError::Timeout));
}
