use jarvis_kernel::ai::shell::{contains_str, intent_for, Intent, VoiceShell};
use jarvis_kernel::ai::speech::{SttEngine, SttManager, TtsEngine, TtsManager};
use jarvis_kernel::ai::swarm::SwarmMessage;
use jarvis_kernel::cros_ec::{version_from_block, CrosEc};
use jarvis_kernel::device_manager::{Device, DeviceClass, DeviceManager, Driver, MmioRegion};
use jarvis_kernel::entropy::fill_entropy;
use jarvis_kernel::i2c::bitbang::{GpioBitbang, PinRecorder};
use jarvis_kernel::i2c::bus::I2cManager;
use jarvis_kernel::i2c::I2cError;
use jarvis_kernel::net::ethernet;
use jarvis_kernel::net::onion::{OnionStatus, OnionSubsystem};
use jarvis_kernel::notifications::{test_notifications, ContextState, NotificationCenter, Priority};
use jarvis_kernel::sensors::biometrics::{test_biometrics, BiometricReading, BiometricSensor};
use jarvis_kernel::sensors::bmi160::{decode_accel, Bmi160};
use jarvis_kernel::audio::maxim::Max98390;
use jarvis_kernel::audio::rt5682::Rt5682;
use jarvis_kernel::storage::vfs::Error;
use jarvis_kernel::vad::Vad;

struct Silent;
impl TtsEngine for Silent {
    fn speak(&mut self, text: &str) -> Result<Vec<i16>, Error> {
        Ok(vec![0; text.len()])
    }
}
struct Deaf;
impl SttEngine for Deaf {
    fn transcribe(&mut self, _audio: &[i16]) -> Result<String, Error> {
        Err(Error::Other)
    }
}

#[test]
fn notifications_filter_by_context() {
    assert!(test_notifications());
    let mut c = NotificationCenter::new();
    c.push("a", Priority::Low);
    c.set_state(ContextState::Sleep);
    c.push("b", Priority::High);
    c.push("c", Priority::Critical);
    assert_eq!(c.counter, 3);
    let first = c.pop().unwrap();
    assert_eq!((first.id, first.message.as_str()), (0, "a"));
    let second = c.pop().unwrap();
    assert_eq!((second.id, second.message.as_str(), second.priority), (2, "c", Priority::Critical));
    assert!(c.pop().is_none());
}

#[test]
fn onion_requests() {
    let s = OnionSubsystem::new();
    let mut short = vec![9u8, 9];
    assert!(!s.socks5_greet(&mut short));
    assert_eq!(short, vec![9, 9]);
    let mut stream = vec![0u8; 5];
    assert!(s.socks5_greet(&mut stream));
    assert_eq!(stream, vec![5, 1, 0, 0, 0]);
    let mut buf = vec![0xAA];
    s.socks5_connect("ab.onion", 80, &mut buf);
    let mut expect = vec![0xAA, 5, 1, 0, 3, 8];
    expect.extend_from_slice(b"ab.onion");
    expect.extend_from_slice(&[0, 80]);
    assert_eq!(buf, expect);
}

#[test]
fn onion_circuit_and_targets() {
    let mut s = OnionSubsystem::new();
    s.establish_circuit();
    assert_eq!(s.status, OnionStatus::CircuitEstablished);
    assert_eq!(s.circuit.len(), 5);
    assert_eq!(s.circuit[0].id, 0xDEADBEEF);
    assert_eq!(s.circuit[4].alias, "EXIT-OMEGA");
    assert_eq!(OnionSubsystem::fetch_target(49), None);
    assert_eq!(OnionSubsystem::fetch_target(50), Some("torproject.onion"));
    assert_eq!(OnionSubsystem::fetch_target(200), Some("duckduckgo.onion"));
}

#[test]
fn shell_intents() {
    assert!(contains_str("hello world", "lo w"));
    assert!(!contains_str("hi", "hello"));
    assert!(contains_str("x", ""));
    assert!(matches!(intent_for("what is the status", &[], &[]), Intent::SystemStatus));
    assert!(matches!(intent_for("run a check up", &[], &[]), Intent::InitializeDiagnostics));
    assert!(matches!(intent_for("list hardware", &[], &[]), Intent::ListDevices));
    assert!(matches!(intent_for("network please", &[], &[]), Intent::ScanNetwork));
    assert!(matches!(intent_for("turn on", &[], &[]), Intent::Unknown));
    match intent_for("turn on the lamp", &["Fan", "Lamp"], &[]) {
        Intent::ControlHardware { device, action } => assert_eq!((device, action), ("Lamp", "on")),
        _ => panic!("expected a hardware intent"),
    }
    match intent_for("activate", &["Fan", "Lamp"], &[]) {
        Intent::ControlHardware { device, .. } => assert_eq!(device, "Fan"),
        _ => panic!("expected a hardware intent"),
    }
    match intent_for("louder", &[], &["Speaker"]) {
        Intent::ControlHardware { device, action } => assert_eq!((device, action), ("Speaker", "adjust")),
        _ => panic!("expected a hardware intent"),
    }
    assert_eq!(Intent::Greeting.as_str(), "Greeting");
    assert_eq!(Intent::ControlHardware { device: "x", action: "y" }.as_str(), "ControlHardware");
}

#[test]
fn shell_answers() {
    let mut shell: VoiceShell<Deaf, Silent> = VoiceShell::new();
    let (i, said) = shell.handle_command("Hello JARVIS", &[], &[]);
    assert!(matches!(i, Intent::Greeting));
    assert_eq!(said, "Hello. I am JARVIS. How can I help you?");
    let (i, said) = shell.handle_command("STATUS REPORT", &[], &[]);
    assert!(matches!(i, Intent::SystemStatus));
    assert_eq!(said, "All systems are operational, sir.");
    let (_, said) = shell.handle_command("xyz", &[], &[]);
    assert_eq!(said, "I'm sorry, I didn't catch that. Could you repeat?");
    shell.tts = Some(Silent);
    let (_, said) = shell.handle_command("scan", &[], &[]);
    assert_eq!(said, "Scanning local subnet for active nodes.");
}

#[test]
fn speech_managers() {
    let mut t = TtsManager::new(Silent);
    assert_eq!(t.speak("abc").unwrap().len(), 3);
    let mut s: SttManager<Deaf> = SttManager::new();
    assert!(s.engine.is_none());
    s.set_engine(Deaf);
    assert!(s.engine.is_some());
    t.set_engine(Silent);
    assert!(t.engine.is_some());
}

#[test]
fn biometrics_window() {
    assert!(test_biometrics());
    let mut s = BiometricSensor::new();
    assert!(s.get_latest().is_none());
    for i in 0..105u8 {
        let log = s.record(BiometricReading { heart_rate: i, oxygen_saturation: 98, stress_level: 0, timestamp: i as u64 });
        assert_eq!(log, i % 10 == 0);
    }
    assert_eq!(s.history.len(), 101);
    assert_eq!(s.get_latest().unwrap().heart_rate, 104);
    assert_eq!(s.history[0].heart_rate, 4);
}

#[test]
fn entropy_fill() {
    let mut dest = vec![0u8; 10];
    fill_entropy(&mut dest, &vec![0x0807_0605_0403_0201, 0xFFFF_FFFF_FFFF_0B0A]);
    assert_eq!(dest, vec![1, 2, 3, 4, 5, 6, 7, 8, 0x0A, 0x0B]);
}

#[test]
fn ec_version_text() {
    let mut block = b"cros-ec v2.0".to_vec();
    block.extend_from_slice(&[0, 0x41, 0x42]);
    assert_eq!(version_from_block(&block), "cros-ec v2.0");
    assert_eq!(version_from_block(&b"abc".to_vec()), "abc");
}

#[test]
fn drivers_without_bus() {
    let mut mgr: I2cManager<GpioBitbang<PinRecorder>> = I2cManager::new();
    assert_eq!(CrosEc::new(0).get_version(&mut mgr).err(), Some(I2cError::InvalidParameter));
    assert_eq!(CrosEc::new(0).get_battery_level(&mut mgr), Err(I2cError::InvalidParameter));
    assert_eq!(Bmi160::new(0).init(&mut mgr), Err(I2cError::InvalidParameter));
    assert_eq!(Bmi160::new(0).read_accel(&mut mgr), Err(I2cError::InvalidParameter));
    assert_eq!(Max98390::new(0, 0x38).init(&mut mgr), Err(I2cError::InvalidParameter));
    assert_eq!(Rt5682::new(0).init(&mut mgr), Err(I2cError::InvalidParameter));
    assert_eq!(Max98390::reg_bytes(0x2001, 0x01), vec![0x20, 0x01, 0x01]);
}

#[test]
fn accel_decoding() {
    assert_eq!(decode_accel(&vec![0x01, 0x00, 0xFF, 0xFF, 0x00, 0x80]), (1, -1, -32768));
}

#[test]
fn ethernet_record() {
    let d = ethernet::init();
    assert_eq!((d.id.vendor, d.id.device), (0x1AF4, 0x1000));
    assert_eq!(d.name, "VirtIO Interface 0");
    assert_eq!(d.class, DeviceClass::Network);
    assert!(d.enabled);
}

#[test]
fn vad_threshold() {
    let mut v = Vad::new(100);
    assert!(!v.is_speech(&[]));
    assert!(!v.is_speech(&[10, -10]));
    assert!(v.is_speech(&[11, -11]));
}

#[test]
fn swarm_round_trip() {
    let m = SwarmMessage::IntentBroadcast { intent_id: 7, description: "Turn on lights".to_string(), confidence: 95 };
    let bytes = m.serialize();
    assert_eq!(bytes[0], 0);
    match SwarmMessage::deserialize(&bytes).unwrap() {
        SwarmMessage::IntentBroadcast { intent_id, description, confidence } => {
            assert_eq!((intent_id, description.as_str(), confidence), (7, "Turn on lights", 95));
        }
        _ => panic!("wrong variant"),
    }
    let h = SwarmMessage::Heartbeat { capabilities: vec!["audio".to_string(), "gpu".to_string()] };
    match SwarmMessage::deserialize(&h.serialize()).unwrap() {
        SwarmMessage::Heartbeat { capabilities } => assert_eq!(capabilities, vec!["audio", "gpu"]),
        _ => panic!("wrong variant"),
    }
    assert!(SwarmMessage::deserialize(&[]).is_none());
    assert!(SwarmMessage::deserialize(&[9]).is_none());
}

struct Net;
impl Driver for Net {
    fn name(&self) -> &'static str {
        "net"
    }
    fn probe(&self, _vendor: u16, _device: u16, class: DeviceClass) -> bool {
        class == DeviceClass::Network
    }
    fn init(&mut self, _device: &mut Device) -> Result<(), &'static str> {
        Ok(())
    }
    fn shutdown(&mut self, _device: &mut Device) -> Result<(), &'static str> {
        Ok(())
    }
}

#[test]
fn device_manager_binding() {
    let mut m: DeviceManager<Net> = DeviceManager::new();
    let idx = m.register(ethernet::init());
    assert_eq!(idx, 0);
    m.register(Device::new(0x1234, 0x1111, DeviceClass::Display, 0, 2, 0));
    m.register_driver(Net);
    m.probe_all();
    m.init_all();
    assert_eq!(m.drivers[0].bound_device, Some(0));
    assert!(m.drivers[0].initialized);
    assert_eq!(m.find_by_class(DeviceClass::Display), vec![1]);
    assert_eq!(m.find_driver_for_class(DeviceClass::Network), Some(0));
    assert_eq!(MmioRegion::empty().len, 0);
}
