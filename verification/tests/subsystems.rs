use jarvis_kernel::gui::{cpu_load, gauge_accent, load_bar_width, log_window};
use jarvis_kernel::renderer::circuit::{circuit_pattern, generate_circuit, TRACE_ARGB};
use jarvis_kernel::ai::perception::{infer_device_from_json, test_inference, Capability, DeviceType};
use jarvis_kernel::audio::pc_speaker::{audio_discovered_alert, beep, PcSpeaker};
use jarvis_kernel::port::{PortEvent, RecordingPorts};
use jarvis_kernel::audio::stream::{bdl_pointer_halves, stream_descriptor_offset, stream_format, stream_stop_control, AudioStream, DmaBuffer, StreamDirection, POLL_LIMIT};
use jarvis_kernel::device_manager::{register_device, Device, DeviceClass, DeviceManager, Driver};
use jarvis_kernel::gpu::framebuffer::Rect;
use jarvis_kernel::gui::{circle_pixels, draw_static, icon_pixels, init_ui, DrawOp, Palette};
use jarvis_kernel::gui_3d::{fill_triangle, Point2D, Span};
use jarvis_kernel::interrupts::InterruptIndex;
use jarvis_kernel::net::ssdp::{checked_parse_ssdp_response, parse_ssdp_response};
use jarvis_kernel::security::{test_security_module, SecurityModule};
use jarvis_kernel::sensors::scene::{test_scene_logic, SceneGraph};
use jarvis_kernel::storage::dht::test_dht_storage;
use jarvis_kernel::storage::jfs::Jfs;
use jarvis_kernel::storage::merkle::{calculate_hash, FnvHasher};
use jarvis_kernel::storage::vfs::{File, FileSystem};

const MOCK: &[u8] = b"HTTP/1.1 200 OK\r\nLOCATION: http://192.168.1.1:80/description.xml\r\nST: upnp:rootdevice\r\nUSN: uuid:f40c2981-7329-40b7-a6f6-f6c9441cb0d0::upnp:rootdevice\r\n\r\n";

#[test]
fn ssdp_mock_response_parses() {
    let svc = parse_ssdp_response(MOCK).unwrap();
    assert_eq!(svc.location, "http://192.168.1.1:80/description.xml");
    assert_eq!(svc.st, "upnp:rootdevice");
    assert_eq!(svc.usn, "uuid:f40c2981-7329-40b7-a6f6-f6c9441cb0d0::upnp:rootdevice");
}

#[test]
fn ssdp_header_names_are_case_insensitive_and_later_lines_win() {
    let pkt = b"HTTP/1.1 200 OK\nlocation:  a \nSt:b\nLOCATION: c";
    let svc = parse_ssdp_response(pkt).unwrap();
    assert_eq!(svc.location, "c");
    assert_eq!(svc.st, "b");
    assert_eq!(svc.usn, "");
}

#[test]
fn ssdp_refusals() {
    assert!(parse_ssdp_response(b"HTTP/1.1 404 Not Found\r\nLOCATION: x\r\nST: y\r\n").is_none());
    assert!(parse_ssdp_response(b"HTTP/1.1 200 OK\r\nST: y\r\n").is_none());
    assert!(parse_ssdp_response(b"HTTP/1.1 200 OK\r\nLOCATION: x\r\n").is_none());
    assert!(parse_ssdp_response(b"").is_none());
    assert!(checked_parse_ssdp_response(b"garbage").unwrap().is_none());
    let checked = checked_parse_ssdp_response(MOCK).unwrap().unwrap();
    assert_eq!(checked.st, "upnp:rootdevice");
}

#[test]
fn perception_inference() {
    assert!(test_inference());
    let r = infer_device_from_json(r#"{"temperature": 20}"#).unwrap();
    assert_eq!(r.dev_type, DeviceType::System);
    assert_eq!(r.capabilities, vec![Capability::Diagnostic]);
    assert_eq!(r.confidence_percent, 100);
    let r = infer_device_from_json(r#"{"power": 1}"#).unwrap();
    assert_eq!(r.dev_type, DeviceType::Light);
    assert_eq!(r.confidence_percent, 25);
    let r = infer_device_from_json(r#"{"power": 1, "dimmer": 3}"#).unwrap();
    assert_eq!(r.confidence_percent, 75);
    assert!(infer_device_from_json("{}").is_none());
    // light 1.0 against audio 1.0: audio wins the tie-break
    let r = infer_device_from_json(r#"{"level": 1, "mute": true}"#).unwrap();
    assert_eq!(r.dev_type, DeviceType::Audio);
}

#[test]
fn security_cycles() {
    assert!(test_security_module());
    let mut sec = SecurityModule::new();
    assert_eq!(sec.run_fuzzing_cycle(), None);
    sec.set_active(true);
    assert_eq!(sec.run_fuzzing_cycle(), Some(0));
    for _ in 0..4 {
        assert_eq!(sec.run_fuzzing_cycle(), None);
    }
    assert_eq!(sec.run_fuzzing_cycle(), Some(5));
    let out = sec.perform_integrity_check(&vec![1, 2, 3, 4], &vec![5, 6], [0; 8]);
    let again = sec.perform_integrity_check(&vec![1, 2, 3, 4], &vec![5, 6], [0; 8]);
    assert_eq!(out, again);
    assert_ne!(out, [0; 8]);
    let flipped = sec.perform_integrity_check(&vec![1, 2, 3, 4], &vec![5, 6], [0xFF; 8]);
    for i in 0..8 {
        assert_eq!(flipped[i], out[i] ^ 0xFF);
    }
}

#[test]
fn scene_graph() {
    assert!(test_scene_logic());
    let mut g: SceneGraph<&str> = SceneGraph::new();
    let a = g.register_object("desk");
    let b = g.register_object("lamp");
    assert_eq!((a, b), (0, 1));
    g.update_object(b, "chair");
    g.update_object(7, "ghost");
    assert_eq!(g.get_objects(), vec!["desk", "chair"]);
    assert!(g.remove_object(a));
    assert!(!g.remove_object(a));
    assert_eq!(g.get_objects(), vec!["chair"]);
}

#[test]
fn pc_speaker_traces() {
    let mut sp = PcSpeaker::new(RecordingPorts { log: vec![], input: 0x10 });
    beep(&mut sp);
    assert_eq!(
        sp.ports.log,
        vec![
            PortEvent::Write { port: 0x43, value: 0xB6 },
            PortEvent::Write { port: 0x42, value: (1193 & 0xFF) as u8 },
            PortEvent::Write { port: 0x42, value: (1193 >> 8) as u8 },
            PortEvent::Read { port: 0x61, value: 0x10 },
            PortEvent::Write { port: 0x61, value: 0x13 },
        ]
    );
    let mut sp = PcSpeaker::new(RecordingPorts { log: vec![], input: 0x13 });
    audio_discovered_alert(&mut sp);
    assert_eq!(sp.ports.log.len(), 4);
    assert_eq!(sp.ports.log[1], PortEvent::Write { port: 0x42, value: (994 & 0xFF) as u8 });
    sp.play_sound(0);
    assert_eq!(sp.ports.log[5], PortEvent::Write { port: 0x61, value: 0x10 });
}

#[test]
fn hda_stream_values() {
    assert_eq!(stream_descriptor_offset(3), 0x180);
    assert_eq!(stream_format(2), 0x40F9);
    assert_eq!(bdl_pointer_halves(0x1_2345_6789), (0x2345_6789, 1));
    assert_eq!(stream_stop_control(0x4B), 0x4A);
}

#[test]
fn interrupt_vectors() {
    assert_eq!(InterruptIndex::Timer.as_u8(), 32);
    assert_eq!(InterruptIndex::Keyboard.as_usize(), 33);
    assert_eq!(InterruptIndex::Spurious.as_u8(), 0xFF);
}

#[test]
fn dht_storage() {
    assert!(test_dht_storage());
}

#[test]
fn fnv_hasher_matches_calculate_hash() {
    let mut h = FnvHasher::default();
    assert_eq!(h.finish(), 0xcbf29ce484222325);
    h.write(b"a");
    assert_eq!(h.finish(), 0xaf63dc4c8601ec8c);
    assert_eq!(calculate_hash(b"a"), 0x8601ec8c);
}

#[test]
fn jfs_through_the_file_system_traits() {
    let mut fs = Jfs::new(8);
    assert!(FileSystem::open(&mut fs, "/x").is_err());
    assert!(FileSystem::mkdir(&mut fs, "/d").is_err());
    let mut f = FileSystem::create(&mut fs, "/x").unwrap();
    assert_eq!(File::write(&mut f, b"abc").unwrap(), 3);
    assert!(File::write(&mut f, b"123456").is_err());
    assert_eq!(File::seek(&mut f, 0), Ok(()));
    let mut buf = vec![];
    assert_eq!(File::read(&mut f, &mut buf).unwrap(), 0);
}

struct NoDriver;
impl Driver for NoDriver {
    fn name(&self) -> &'static str {
        "none"
    }
    fn probe(&self, _vendor: u16, _device: u16, _class: DeviceClass) -> bool {
        false
    }
    fn init(&mut self, _device: &mut Device) -> Result<(), &'static str> {
        Ok(())
    }
    fn shutdown(&mut self, _device: &mut Device) -> Result<(), &'static str> {
        Ok(())
    }
}

#[test]
fn register_device_appends() {
    let mut m: DeviceManager<NoDriver> = DeviceManager::new();
    assert_eq!(register_device(&mut m, Device::new(1, 2, DeviceClass::Network, 0, 1, 0)), 0);
    assert_eq!(register_device(&mut m, Device::new(3, 4, DeviceClass::Display, 0, 2, 0)), 1);
    assert_eq!(m.devices.len(), 2);
}

#[test]
fn gui_layout_at_1024x768() {
    let ops = draw_static(1024, 768);
    assert_eq!(ops[0], DrawOp::FillRect { rect: Rect { x: 0, y: 0, width: 1024, height: 768 }, color: Palette::BgDark });
    assert!(ops.contains(&DrawOp::Text { x: 854, y: 12, text: "LIVE CORE ACTIVE", color: Palette::Cyan }));
    assert!(ops.contains(&DrawOp::FilledCircle { cx: 844, cy: 16, r: 3, color: Palette::Green }));
    // swarm panel at the right edge, log window above the dock
    assert!(ops.contains(&DrawOp::FillRect { rect: Rect { x: 514, y: 48, width: 500, height: 400 }, color: Palette::BgPanel }));
    assert!(ops.contains(&DrawOp::FillRect { rect: Rect { x: 10, y: 672, width: 1004, height: 54 }, color: Palette::BgPanel }));
    // dock: first item highlighted, "VOICE" centred under its icon
    assert!(ops.contains(&DrawOp::FillRect { rect: Rect { x: 252, y: 734, width: 112, height: 26 }, color: Palette::CyanBg }));
    assert!(ops.contains(&DrawOp::Text { x: 288, y: 752, text: "VOICE", color: Palette::Cyan }));
    assert!(ops.contains(&DrawOp::Text { x: 684, y: 752, text: "SECURITY", color: Palette::WhiteDim }));
    let init = init_ui(1024, 768);
    assert_eq!(init[0], DrawOp::Clear);
    assert_eq!(init.len(), ops.len() + 1);
    assert_eq!(Palette::Cyan.rgb().g, 220);
}

#[test]
fn icons_as_pixels() {
    let square = icon_pixels(0, 0, 0);
    assert_eq!(square.len(), 5 + 5 + 5 * 2);
    assert!(square.contains(&(1, 0)));
    assert!(!square.contains(&(0, 0)));
    assert!(icon_pixels(0, 0, 9).is_empty());
}

#[test]
fn triangle_spans() {
    let s = fill_triangle(Point2D { x: 0, y: 0 }, Point2D { x: 4, y: 4 }, Point2D { x: 0, y: 4 }, 100, 100);
    assert_eq!(s[0], Span { y: 0, x_start: 0, x_end: 0 });
    assert_eq!(s[4], Span { y: 4, x_start: 0, x_end: 4 });
    assert_eq!(s.len(), 6);
    assert!(fill_triangle(Point2D { x: 0, y: 3 }, Point2D { x: 5, y: 3 }, Point2D { x: 9, y: 3 }, 100, 100).is_empty());
    // clipped to the framebuffer
    let c = fill_triangle(Point2D { x: -5, y: -1 }, Point2D { x: 20, y: 1 }, Point2D { x: -5, y: 1 }, 10, 10);
    assert!(c.iter().all(|sp| sp.x_end < 10 && sp.y < 10));
}

use jarvis_kernel::apic::{disable_pic, LocalApic, Register};
use jarvis_kernel::entropy::get_entropy_64;
use jarvis_kernel::hpet::{nanoseconds, Hpet};
use jarvis_kernel::memory::{BootInfoFrameAllocator, MemoryRegion, MemoryRegionKind};
use jarvis_kernel::port::{RecordingRegisters, RegEvent};
use jarvis_kernel::renderer::deferred::DeferredPipeline;
use jarvis_kernel::renderer::effects::BloomPass;
use jarvis_kernel::renderer::Texture;

#[test]
fn apic_start_up_and_eoi() {
    let mut apic = LocalApic::new(RecordingRegisters { log: vec![], input32: 0x10, input64: 0 });
    apic.init();
    apic.end_of_interrupt();
    assert_eq!(
        apic.regs.log,
        vec![
            RegEvent::Read32 { offset: 0xF0, value: 0x10 },
            RegEvent::Write32 { offset: 0xF0, value: 0x1FF },
            RegEvent::Write32 { offset: 0x3E0, value: 3 },
            RegEvent::Write32 { offset: 0x320, value: 0x20020 },
            RegEvent::Write32 { offset: 0x380, value: 10_000_000 },
            RegEvent::Write32 { offset: 0xB0, value: 0 },
        ]
    );
    assert_eq!(Register::DivideConfiguration.offset(), 0x3E0);
    let mut ports = RecordingPorts { log: vec![], input: 0 };
    disable_pic(&mut ports);
    assert_eq!(ports.log, vec![PortEvent::Write { port: 0xA1, value: 0xFF }, PortEvent::Write { port: 0x21, value: 0xFF }]);
}

#[test]
fn hpet_time() {
    let mut h = Hpet::new(RecordingRegisters { log: vec![], input32: 0, input64: (10_000_000u64 << 32) | 5 });
    h.init();
    assert_eq!(h.regs.log[1], RegEvent::Write64 { offset: 0x10, value: ((10_000_000u64 << 32) | 5) | 1 });
    assert_eq!(h.get_period_fs(), 10_000_000);
    assert_eq!(nanoseconds(3, 10_000_000), 30);
    assert_eq!(nanoseconds(u64::MAX, u32::MAX), ((u64::MAX as u128 * u32::MAX as u128 / 1_000_000) as u64));
}

#[test]
fn boot_frames_in_order() {
    let map = vec![
        MemoryRegion { start: 0x1000, end: 0x3000, kind: MemoryRegionKind::Usable },
        MemoryRegion { start: 0x3000, end: 0x8000, kind: MemoryRegionKind::Bootloader },
        MemoryRegion { start: 0x10010, end: 0x11000, kind: MemoryRegionKind::Usable },
    ];
    let mut a = BootInfoFrameAllocator::init(map);
    assert_eq!(a.allocate_frame(), Some(0x1000));
    assert_eq!(a.allocate_frame(), Some(0x2000));
    assert_eq!(a.allocate_frame(), Some(0x10000));
    assert_eq!(a.allocate_frame(), None);
    assert_eq!(a.next, 4);
}

#[test]
fn entropy_word() {
    assert_eq!(get_entropy_64(Some(7), 1, 2), 7);
    assert_eq!(get_entropy_64(None, 0, 0), 0);
    let w = get_entropy_64(None, 1, 0);
    assert_ne!(w, 1);
    assert_eq!(w, get_entropy_64(None, 0, 1));
}

#[test]
fn renderer_buffers() {
    let mut p = DeferredPipeline::new(2, 1);
    assert_eq!(p.output, vec![0xFF08080E, 0xFF08080E]);
    p.gbuffer[1] = [1, 2, 3, 4];
    p.clear();
    assert_eq!(p.gbuffer[1], [0, 0, 0, 0]);
    p.output[1] = 0x00112233;
    let mut fb = vec![9u8; 10];
    p.blit_to_framebuffer(&mut fb);
    assert_eq!(fb, vec![0x0E, 0x08, 0x08, 9, 0x33, 0x22, 0x11, 9, 9, 9]);
    assert_eq!(p.get_output().len(), 2);
    let t = Texture::from_raw(vec![1, 2, 3, 4], 2, 2);
    assert_eq!((t.width, t.height, t.data[3]), (2, 2, 4));
    assert_eq!(Texture::new(3, 2).data.len(), 6);
    assert_eq!(BloomPass::new(4, 4).scratch.len(), 16);
}

#[test]
fn hud_frame_figures() {
    assert_eq!(cpu_load(0), 45);
    assert_eq!(cpu_load(1), 45 + ((7u64 ^ 0) % 20) as u8);
    assert_eq!(gauge_accent(50), Palette::Green);
    assert_eq!(gauge_accent(75), Palette::Yellow);
    assert_eq!(gauge_accent(95), Palette::Alert);
    assert_eq!(load_bar_width(50), 97);
    assert_eq!(load_bar_width(200), 195);
    let w = log_window(0);
    assert_eq!(w[0], ("[SYS]  INITIALIZING SYNTHESIS SEQUENCE...", Palette::Cyan));
    assert_eq!(w[1].1, Palette::CyanDim);
    let w = log_window(15 * 5);
    assert_eq!(w[0].1, Palette::Green);
    assert_eq!(w[1].1, Palette::Yellow);
    assert_eq!(w[2].1, Palette::Cyan);
}

#[test]
fn circuit_texture() {
    let zero = circuit_pattern(32, 32, &vec![0u32; 496]);
    assert_eq!(zero.iter().filter(|&&p| p == TRACE_ARGB).count(), 11);
    assert_eq!(zero[10 * 32 + 10], TRACE_ARGB);
    assert_eq!(zero[0], TRACE_ARGB);
    assert_eq!(zero[11 * 32 + 11], 0);
    let t = generate_circuit(64, 48);
    assert_eq!((t.width, t.height, t.data.len()), (64, 48, 64 * 48));
    assert!(t.data.iter().any(|&p| p == TRACE_ARGB));
    assert!(t.data.iter().all(|&p| p == 0 || p == TRACE_ARGB));
    assert_eq!(t.data, generate_circuit(64, 48).data);
    assert_ne!(t.data, circuit_pattern(64, 48, &vec![0u32; 496]));
}

#[test]
fn hda_stream_start_sequence() {
    let regs = RecordingRegisters { log: Vec::new(), input32: 0, input64: 0 };
    let buffer = DmaBuffer::new(0x1_2345_6000, 0xFFFF_8000_0000_0000, 0x1_0000_4000);
    let mut stream = AudioStream::new(regs, buffer, StreamDirection::Output, 2);
    stream.start();
    assert_eq!(
        stream.regs().log,
        vec![
            RegEvent::Write32 { offset: 0x100, value: 2 },
            RegEvent::Read32 { offset: 0x100, value: 0 },
            RegEvent::Write32 { offset: 0x104, value: 0x2345_6000 },
            RegEvent::Write32 { offset: 0x108, value: 1 },
            RegEvent::Write32 { offset: 0x10C, value: 0x4000 },
            RegEvent::Write16 { offset: 0x110, value: 0 },
            RegEvent::Write8 { offset: 0x103, value: 0x14 },
            RegEvent::Write32 { offset: 0x100, value: 0x49 },
            RegEvent::Write16 { offset: 0x112, value: 0x40F9 },
        ]
    );
}

#[test]
fn hda_stream_reset_that_never_clears_gives_up() {
    let regs = RecordingRegisters { log: Vec::new(), input32: 2, input64: 0 };
    let mut stream = AudioStream::new(regs, DmaBuffer::new(0, 0, 64), StreamDirection::Input, 0);
    stream.start();
    let log = &stream.regs().log;
    assert_eq!(log.len(), 1 + (POLL_LIMIT as usize + 1) + 7);
    assert!(log[1..=POLL_LIMIT as usize + 1].iter().all(|e| *e == RegEvent::Read32 { offset: 0, value: 2 }));
    assert_eq!(log[log.len() - 1], RegEvent::Write16 { offset: 0x12, value: 0x40F9 });
}

#[test]
fn hda_stream_stop_clears_run_and_waits() {
    let regs = RecordingRegisters { log: Vec::new(), input32: 0x4A, input64: 0 };
    let mut stream = AudioStream::new(regs, DmaBuffer::new(0, 0, 64), StreamDirection::Output, 1);
    stream.stop();
    assert_eq!(
        stream.regs().log,
        vec![
            RegEvent::Read32 { offset: 0x80, value: 0x4A },
            RegEvent::Write32 { offset: 0x80, value: 0x4A },
            RegEvent::Read32 { offset: 0x80, value: 0x4A },
        ]
    );
    let busy = RecordingRegisters { log: Vec::new(), input32: 0x4B, input64: 0 };
    let mut running = AudioStream::new(busy, DmaBuffer::new(0, 0, 64), StreamDirection::Output, 1);
    running.stop();
    assert_eq!(running.regs().log[1], RegEvent::Write32 { offset: 0x80, value: 0x4A });
    assert_eq!(running.regs().log.len(), 2 + POLL_LIMIT as usize + 1);
}

#[test]
fn circle_outline_of_radius_one() {
    assert_eq!(
        circle_pixels(5, 5, 1, 20, 20),
        vec![(5, 6), (6, 5), (6, 5), (5, 4), (5, 4), (4, 5), (4, 5), (5, 6)]
    );
}

#[test]
fn circle_degenerate_radii() {
    assert_eq!(circle_pixels(3, 3, 0, 10, 10), vec![(3, 3); 8]);
    assert_eq!(circle_pixels(3, 3, -4, 10, 10), Vec::<(usize, usize)>::new());
}

#[test]
fn circle_is_clipped_to_the_framebuffer() {
    assert_eq!(circle_pixels(0, 0, 1, 20, 20), vec![(0, 1), (1, 0), (1, 0), (0, 1)]);
    assert_eq!(circle_pixels(-5, -5, 2, 20, 20), Vec::<(usize, usize)>::new());
}

#[test]
fn circle_pixels_lie_on_the_circle() {
    let r: i64 = 40;
    let px = circle_pixels(100, 80, r as isize, 640, 480);
    assert_eq!(px.len() % 8, 0);
    assert!(!px.is_empty());
    for (x, y) in px {
        let a = (x as i64 - 100).abs();
        let b = (y as i64 - 80).abs();
        let (lo, hi) = if a <= b { (a, b) } else { (b, a) };
        let v = 4 * r * r + 4 * r - 7 - 4 * lo * lo;
        assert!((2 * hi - 1) * (2 * hi - 1) <= v && v < (2 * hi + 1) * (2 * hi + 1));
    }
}
