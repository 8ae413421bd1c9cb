use jarvis_kernel::gpu::caps::{gpu_capabilities, GpuCaps};
use jarvis_kernel::gpu::drivers::NvidiaMmioDriver;
use jarvis_kernel::gpu::select::{BindProbe, ConcreteGpuDriver};
use jarvis_kernel::gpu::GpuDriver;
use jarvis_kernel::gpu::family::{gpu_name, identify_gpu, GpuFamily};
use jarvis_kernel::gpu::framebuffer::GpuMode;
use jarvis_kernel::gpu::{bytes_per_pixel, GpuDevice, GpuManager};

#[test]
fn identify_and_name() {
    assert_eq!(identify_gpu(0x121A, 0x0001), GpuFamily::Voodoo1);
    assert_eq!(identify_gpu(0x121A, 0x0005), GpuFamily::Voodoo3);
    assert_eq!(identify_gpu(0x10DE, 0x0010), GpuFamily::Riva128);
    assert_eq!(identify_gpu(0x1234, 0x1111), GpuFamily::BochsVBE);
    assert_eq!(identify_gpu(0xDEAD, 0xBEEF), GpuFamily::Unknown);
    assert_eq!(gpu_name(GpuFamily::Voodoo1), "3dfx Voodoo Graphics");
    assert_eq!(gpu_name(GpuFamily::BochsVBE), "Bochs/QEMU VBE");
    assert_eq!(gpu_name(GpuFamily::Unknown), "Unknown GPU");
}

#[test]
fn device_record() {
    let d = GpuDevice::new(0x1234, 0x1111, 0, 2, 0);
    assert_eq!(d.family, GpuFamily::BochsVBE);
    assert_eq!(d.name, "Bochs/QEMU VBE");
    assert!(d.mmio_base.is_none());
    assert_eq!(d.capabilities().0, gpu_capabilities(GpuFamily::BochsVBE).0);
}

#[test]
fn capability_sets() {
    let a = GpuCaps(GpuCaps::ACCEL_2D);
    let b = GpuCaps(GpuCaps::HARDWARE_CURSOR);
    let m = a.merge(b);
    assert!(m.contains(a));
    assert!(m.contains(b));
    assert!(!a.contains(b));
    assert!(a.contains(GpuCaps(GpuCaps::NONE)));
}

#[test]
fn pixel_sizes() {
    assert_eq!(bytes_per_pixel(32), 4);
    assert_eq!(bytes_per_pixel(24), 3);
    assert_eq!(bytes_per_pixel(15), 2);
    assert_eq!(bytes_per_pixel(1), 1);
}

#[test]
fn manager_without_devices() {
    let mut m = GpuManager::new();
    assert!(m.devices.is_empty());
    assert_eq!(m.select_and_init(1024, 768, 32, 1024, 768), Err("no_gpu"));
    assert!(m.active_gpu.is_none());
    let mode = GpuMode::default();
    assert_eq!(mode.bpp, m.current_mode.bpp);
}

#[test]
fn fallback_driver_mode() {
    let dev = GpuDevice::new(0xABCD, 0x0001, 0, 1, 0);
    let probe = BindProbe { bochs_vbe_present: false, svga_id: u32::MAX };
    let d = ConcreteGpuDriver::detect_and_bind(&dev, 0xE000_0000, 640, 480, probe);
    assert!(matches!(d, ConcreteGpuDriver::Fallback(_)));
    let m = d.current_mode().unwrap();
    assert_eq!((m.width, m.height, m.bpp, m.pitch), (640, 480, 32, 2560));
    assert_eq!(m.framebuffer_addr, 0xE000_0000);
    assert_eq!(m.framebuffer_size, 640 * 480 * 4);
    assert!(ConcreteGpuDriver::Unbound.current_mode().is_none());
}

#[test]
fn nvidia_driver_starts_in_boot_mode() {
    let d = NvidiaMmioDriver::new(0xF000_0000, 0, GpuFamily::GTX1080);
    let m = d.current_mode();
    assert_eq!((m.width, m.height, m.bpp, m.pitch), (1280, 720, 32, 5120));
    assert_eq!(d.family(), GpuFamily::GTX1080);
}

#[test]
fn family_names_start_with_vendor() {
    assert!(gpu_name(GpuFamily::GeForce256).starts_with("Nvidia "));
    assert!(gpu_name(GpuFamily::GTX1080).starts_with("Nvidia "));
    assert!(gpu_name(GpuFamily::Voodoo3).starts_with("3dfx "));
    assert!(gpu_name(GpuFamily::VMWareSVGA).starts_with("VMware "));
    let n = gpu_name(GpuFamily::Radeon9700);
    assert!(n.starts_with("ATI ") || n.starts_with("AMD "));
}

#[test]
fn driver_follows_family() {
    let probe = BindProbe { bochs_vbe_present: false, svga_id: u32::MAX };
    let mut dev = GpuDevice::new(0x10DE, 0x0100, 0, 1, 0);
    assert_eq!(dev.family, GpuFamily::GeForce256);
    let d = ConcreteGpuDriver::detect_and_bind(&dev, 0xE000_0000, 64, 48, probe);
    assert!(matches!(d, ConcreteGpuDriver::Fallback(_)));
    dev.mmio_base = Some(0xF000_0000);
    dev.framebuffer_base = Some(0xD000_0000);
    let d = ConcreteGpuDriver::detect_and_bind(&dev, 0xE000_0000, 64, 48, probe);
    assert!(matches!(d, ConcreteGpuDriver::Nvidia(_)));
    assert_eq!(d.current_mode().unwrap().framebuffer_addr, 0xD000_0000);
}
