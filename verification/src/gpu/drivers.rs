use vstd::prelude::*;
use crate::gpu::caps::GpuCaps;
use crate::gpu::family::{GpuFamily, GpuVendor, family_vendor};
use crate::gpu::framebuffer::{
    boot_mode,
    Color, Rect, GpuMode, put_pixel_spec, paint_rect, blit_spec, put_pixel_bytes, fill_rect_bytes,
    clear_bytes, blit_bytes,
};
use crate::gpu::mmio::MmioReg;
use crate::gpu::{
    GpuDevice, GpuDriver, FallbackFbDriver, bytes_per_pixel, bytes_per_pixel_spec, driver_frame_ok,
    lemma_frame_size, mode_supported,
};

verus! {

/// Capabilities of the Nvidia driver for a family: basic 3D up to GeForce 4,
/// shader model 2 for the GeForce FX line, the full set from GeForce 6 on.
pub open spec fn nvidia_caps_spec(family: GpuFamily) -> u32 {
    match family {
        GpuFamily::GeForce256 | GpuFamily::GeForceDDR | GpuFamily::GeForce2MX | GpuFamily::GeForce2GTS
        | GpuFamily::GeForce3 | GpuFamily::GeForce3Ti | GpuFamily::GeForce4MX | GpuFamily::GeForce4Ti => {
            GpuCaps::ACCEL_2D | GpuCaps::ACCEL_3D | GpuCaps::HARDWARE_BLT | GpuCaps::HARDWARE_Z
                | GpuCaps::TEXTURE_UNITS | GpuCaps::DOUBLE_BUFFER | GpuCaps::HARDWARE_CURSOR
        },
        GpuFamily::GeForceFX | GpuFamily::GeForceFX5200 | GpuFamily::GeForceFX5600 | GpuFamily::GeForceFX5700
        | GpuFamily::GeForceFX5800 | GpuFamily::GeForceFX5900 => {
            GpuCaps::ACCEL_2D | GpuCaps::ACCEL_3D | GpuCaps::HARDWARE_BLT | GpuCaps::HARDWARE_Z
                | GpuCaps::TEXTURE_UNITS | GpuCaps::TRILINEAR | GpuCaps::SHADER_V2 | GpuCaps::DOUBLE_BUFFER
                | GpuCaps::HARDWARE_CURSOR
        },
        _ => {
            GpuCaps::ACCEL_2D | GpuCaps::ACCEL_3D | GpuCaps::HARDWARE_BLT | GpuCaps::HARDWARE_Z
                | GpuCaps::TEXTURE_UNITS | GpuCaps::TRILINEAR | GpuCaps::ANTI_ALIASING | GpuCaps::SHADER_V2
                | GpuCaps::VERTEX_PROGRAM | GpuCaps::DOUBLE_BUFFER | GpuCaps::HARDWARE_CURSOR
        },
    }
}

/// Capabilities of the ATI/AMD driver for a family: Rage, R100/R200 and R300+ tiers.
pub open spec fn ati_caps_spec(family: GpuFamily) -> u32 {
    match family {
        GpuFamily::RagePro | GpuFamily::RageXL | GpuFamily::Rage128 => {
            GpuCaps::ACCEL_2D | GpuCaps::ACCEL_3D | GpuCaps::HARDWARE_BLT | GpuCaps::DOUBLE_BUFFER
                | GpuCaps::HARDWARE_CURSOR
        },
        GpuFamily::Radeon7000 | GpuFamily::Radeon7500 | GpuFamily::Radeon8500 | GpuFamily::Radeon9000
        | GpuFamily::Radeon9500 | GpuFamily::Radeon9600 | GpuFamily::Radeon9700 | GpuFamily::Radeon9800 => {
            GpuCaps::ACCEL_2D | GpuCaps::ACCEL_3D | GpuCaps::HARDWARE_BLT | GpuCaps::HARDWARE_Z
                | GpuCaps::TEXTURE_UNITS | GpuCaps::DOUBLE_BUFFER | GpuCaps::HARDWARE_CURSOR | GpuCaps::TRILINEAR
        },
        _ => {
            GpuCaps::ACCEL_2D | GpuCaps::ACCEL_3D | GpuCaps::HARDWARE_BLT | GpuCaps::HARDWARE_Z
                | GpuCaps::TEXTURE_UNITS | GpuCaps::TRILINEAR | GpuCaps::SHADER_V2 | GpuCaps::DOUBLE_BUFFER
                | GpuCaps::HARDWARE_CURSOR
        },
    }
}

/// Intel graphics generation of a family (4 for families not listed).
pub open spec fn intel_gen_spec(family: GpuFamily) -> u8 {
    match family {
        GpuFamily::Intel740 | GpuFamily::Intel810 | GpuFamily::Intel915 => 2,
        GpuFamily::IntelGMA3000 | GpuFamily::IntelGMA3100 | GpuFamily::IntelGMAX3100 | GpuFamily::IntelGMAX3500 => 3,
        GpuFamily::IntelHDGraphics => 4,
        GpuFamily::IntelHDGraphics2000 | GpuFamily::IntelHDGraphics2500 | GpuFamily::IntelHDGraphics3000
        | GpuFamily::IntelHDGraphics4000 | GpuFamily::IntelHDGraphics4200 | GpuFamily::IntelHDGraphics4400
        | GpuFamily::IntelHDGraphics4600 => 7,
        GpuFamily::IntelHDGraphics5000 | GpuFamily::IntelHDGraphics5100 | GpuFamily::IntelHDGraphics5200
        | GpuFamily::IntelHDGraphics5300 | GpuFamily::IntelHDGraphics5500 | GpuFamily::IntelHDGraphics6000 => 8,
        GpuFamily::IntelHDGraphics6100 | GpuFamily::IntelHDGraphics615 | GpuFamily::IntelHDGraphics620
        | GpuFamily::IntelHDGraphics630 | GpuFamily::IntelHDGraphics640 | GpuFamily::IntelHDGraphics650
        | GpuFamily::IntelHDGraphicsP630 | GpuFamily::IntelIrisPlus640 | GpuFamily::IntelIrisPlus645
        | GpuFamily::IntelIrisPlus650 | GpuFamily::IntelIrisPro580 => 9,
        GpuFamily::IntelIrisXe | GpuFamily::IntelIrisXeMax | GpuFamily::IntelArcA310 | GpuFamily::IntelArcA380
        | GpuFamily::IntelArcA580 | GpuFamily::IntelArcA750 | GpuFamily::IntelArcA770 | GpuFamily::IntelArcB580
        | GpuFamily::IntelArcB770 | GpuFamily::IntelXeLLVM => 12,
        _ => 4,
    }
}

/// The default mode with an empty backbuffer satisfies every driver's offset bound.
proof fn lemma_default_mode_ok(m: GpuMode)
    requires
        m.width == 1280,
        m.height == 720,
        m.bpp == 32,
        m.pitch == 1280 * 4,
    ensures
        driver_frame_ok(m, 4),
        driver_frame_ok(m, bytes_per_pixel_spec(m.bpp)),
{
}

/// QEMU/Bochs VBE adapter, programmed through I/O ports.
pub struct BochsVbeDriver {
    fb: u64,
    mode: GpuMode,
    backbuffer: Vec<u8>,
    caps: GpuCaps,
    enabled: bool,
}

impl BochsVbeDriver {
    /// A disabled driver for the linear framebuffer at `fb`, in the default mode.
    pub fn new(fb: u64) -> (d: Self)
        ensures
            d.inv(),
            d.mode_view() == boot_mode(),
            d.target() == fb,
            d.caps_view() == GpuCaps::ACCEL_2D | GpuCaps::HARDWARE_BLT | GpuCaps::DOUBLE_BUFFER
                | GpuCaps::HARDWARE_CURSOR | GpuCaps::FRAMEBUFFER,
            d.family_view() == GpuFamily::BochsVBE,
            d.frame().len() == 0,
            !d.is_enabled(),
    {
        let mode = GpuMode::default();
        proof {
            lemma_default_mode_ok(mode);
        }
        BochsVbeDriver {
            fb,
            mode,
            backbuffer: Vec::new(),
            caps: GpuCaps(
                GpuCaps::ACCEL_2D | GpuCaps::HARDWARE_BLT | GpuCaps::DOUBLE_BUFFER
                    | GpuCaps::HARDWARE_CURSOR | GpuCaps::FRAMEBUFFER,
            ),
            enabled: false,
        }
    }

    /// Video memory size from the VBE video-memory register, given in 64 KiB units.
    pub fn detect_vram(video_mem_units: u16) -> (bytes: usize)
        ensures
            bytes == video_mem_units * 65536,
    {
        (video_mem_units as usize) * 65536
    }
}

/// Nvidia MMIO driver (nouveau register map).
pub struct NvidiaMmioDriver {
    mmio: MmioReg,
    fb: u64,
    mode: GpuMode,
    backbuffer: Vec<u8>,
    caps: GpuCaps,
    family: GpuFamily,
    chipset: u32,
    enabled: bool,
}

impl NvidiaMmioDriver {
    /// A disabled driver in the default mode with an empty backbuffer.
    pub fn new(mmio_base: u64, fb_base: u64, family: GpuFamily) -> (d: Self)
        ensures
            d.inv(),
            d.mode_view() == boot_mode(),
            d.mmio_base() == mmio_base,
            d.target() == fb_base,
            d.family_view() == family,
            d.caps_view() == nvidia_caps_spec(family),
            d.frame().len() == 0,
            !d.is_enabled(),
            d.chipset_view() == 0,
    {
        let mode = GpuMode::default();
        proof {
            lemma_default_mode_ok(mode);
        }
        let caps = match family {
            GpuFamily::GeForce256 | GpuFamily::GeForceDDR | GpuFamily::GeForce2MX | GpuFamily::GeForce2GTS
            | GpuFamily::GeForce3 | GpuFamily::GeForce3Ti | GpuFamily::GeForce4MX | GpuFamily::GeForce4Ti => GpuCaps(
                GpuCaps::ACCEL_2D | GpuCaps::ACCEL_3D | GpuCaps::HARDWARE_BLT | GpuCaps::HARDWARE_Z
                    | GpuCaps::TEXTURE_UNITS | GpuCaps::DOUBLE_BUFFER | GpuCaps::HARDWARE_CURSOR,
            ),
            GpuFamily::GeForceFX | GpuFamily::GeForceFX5200 | GpuFamily::GeForceFX5600 | GpuFamily::GeForceFX5700
            | GpuFamily::GeForceFX5800 | GpuFamily::GeForceFX5900 => GpuCaps(
                GpuCaps::ACCEL_2D | GpuCaps::ACCEL_3D | GpuCaps::HARDWARE_BLT | GpuCaps::HARDWARE_Z
                    | GpuCaps::TEXTURE_UNITS | GpuCaps::TRILINEAR | GpuCaps::SHADER_V2 | GpuCaps::DOUBLE_BUFFER
                    | GpuCaps::HARDWARE_CURSOR,
            ),
            _ => GpuCaps(
                GpuCaps::ACCEL_2D | GpuCaps::ACCEL_3D | GpuCaps::HARDWARE_BLT | GpuCaps::HARDWARE_Z
                    | GpuCaps::TEXTURE_UNITS | GpuCaps::TRILINEAR | GpuCaps::ANTI_ALIASING | GpuCaps::SHADER_V2
                    | GpuCaps::VERTEX_PROGRAM | GpuCaps::DOUBLE_BUFFER | GpuCaps::HARDWARE_CURSOR,
            ),
        };
        NvidiaMmioDriver {
            mmio: MmioReg::new(mmio_base),
            fb: fb_base,
            mode,
            backbuffer: Vec::new(),
            caps,
            family,
            chipset: 0,
            enabled: false,
        }
    }

    pub closed spec fn mmio_base(&self) -> u64 {
        self.mmio.base
    }
}

/// ATI/AMD MMIO driver.
pub struct AtiMmioDriver {
    mmio: MmioReg,
    fb: u64,
    mode: GpuMode,
    backbuffer: Vec<u8>,
    caps: GpuCaps,
    family: GpuFamily,
    enabled: bool,
}

impl AtiMmioDriver {
    /// A disabled driver in the default mode with an empty backbuffer.
    pub fn new(mmio_base: u64, fb_base: u64, family: GpuFamily) -> (d: Self)
        ensures
            d.inv(),
            d.mode_view() == boot_mode(),
            d.mmio_base() == mmio_base,
            d.target() == fb_base,
            d.family_view() == family,
            d.caps_view() == ati_caps_spec(family),
            d.frame().len() == 0,
            !d.is_enabled(),
    {
        let mode = GpuMode::default();
        proof {
            lemma_default_mode_ok(mode);
        }
        let caps = match family {
            GpuFamily::RagePro | GpuFamily::RageXL | GpuFamily::Rage128 => GpuCaps(
                GpuCaps::ACCEL_2D | GpuCaps::ACCEL_3D | GpuCaps::HARDWARE_BLT | GpuCaps::DOUBLE_BUFFER
                    | GpuCaps::HARDWARE_CURSOR,
            ),
            GpuFamily::Radeon7000 | GpuFamily::Radeon7500 | GpuFamily::Radeon8500 | GpuFamily::Radeon9000
            | GpuFamily::Radeon9500 | GpuFamily::Radeon9600 | GpuFamily::Radeon9700 | GpuFamily::Radeon9800 => GpuCaps(
                GpuCaps::ACCEL_2D | GpuCaps::ACCEL_3D | GpuCaps::HARDWARE_BLT | GpuCaps::HARDWARE_Z
                    | GpuCaps::TEXTURE_UNITS | GpuCaps::DOUBLE_BUFFER | GpuCaps::HARDWARE_CURSOR | GpuCaps::TRILINEAR,
            ),
            _ => GpuCaps(
                GpuCaps::ACCEL_2D | GpuCaps::ACCEL_3D | GpuCaps::HARDWARE_BLT | GpuCaps::HARDWARE_Z
                    | GpuCaps::TEXTURE_UNITS | GpuCaps::TRILINEAR | GpuCaps::SHADER_V2 | GpuCaps::DOUBLE_BUFFER
                    | GpuCaps::HARDWARE_CURSOR,
            ),
        };
        AtiMmioDriver {
            mmio: MmioReg::new(mmio_base),
            fb: fb_base,
            mode,
            backbuffer: Vec::new(),
            caps,
            family,
            enabled: false,
        }
    }

    pub closed spec fn mmio_base(&self) -> u64 {
        self.mmio.base
    }
}

/// 3dfx Voodoo Banshee / Voodoo3 MMIO driver.
pub struct VoodooBansheeDriver {
    mmio: MmioReg,
    lfb: u64,
    mode: GpuMode,
    backbuffer: Vec<u8>,
    caps: GpuCaps,
    family: GpuFamily,
    chip_rev: u16,
    enabled: bool,
}

impl VoodooBansheeDriver {
    /// A disabled driver in the default mode with an empty backbuffer.
    pub fn new(mmio_base: u64, lfb_base: u64, family: GpuFamily) -> (d: Self)
        ensures
            d.inv(),
            d.mode_view() == boot_mode(),
            d.mmio_base() == mmio_base,
            d.target() == lfb_base,
            d.family_view() == family,
            d.caps_view() == GpuCaps::ACCEL_2D | GpuCaps::ACCEL_3D | GpuCaps::DOUBLE_BUFFER | GpuCaps::HARDWARE_CURSOR | GpuCaps::TEXTURE_UNITS | GpuCaps::HARDWARE_BLT,
            d.frame().len() == 0,
            !d.is_enabled(),
    {
        let mode = GpuMode::default();
        proof {
            lemma_default_mode_ok(mode);
        }
        let caps = GpuCaps(GpuCaps::ACCEL_2D | GpuCaps::ACCEL_3D | GpuCaps::DOUBLE_BUFFER | GpuCaps::HARDWARE_CURSOR | GpuCaps::TEXTURE_UNITS | GpuCaps::HARDWARE_BLT);
        VoodooBansheeDriver {
            mmio: MmioReg::new(mmio_base),
            lfb: lfb_base,
            mode,
            backbuffer: Vec::new(),
            caps,
            family,
            chip_rev: 0,
            enabled: false,
        }
    }

    pub closed spec fn mmio_base(&self) -> u64 {
        self.mmio.base
    }
}

/// Intel integrated graphics driver.
pub struct IntelGfxDriver {
    mmio: MmioReg,
    fb: u64,
    mode: GpuMode,
    backbuffer: Vec<u8>,
    caps: GpuCaps,
    family: GpuFamily,
    gen: u8,
    enabled: bool,
}

impl IntelGfxDriver {
    /// A disabled driver in the default mode with an empty backbuffer.
    pub fn new(mmio_base: u64, fb_base: u64, family: GpuFamily) -> (d: Self)
        ensures
            d.inv(),
            d.mode_view() == boot_mode(),
            d.mmio_base() == mmio_base,
            d.target() == fb_base,
            d.family_view() == family,
            d.caps_view() == GpuCaps::ACCEL_2D | GpuCaps::HARDWARE_BLT | GpuCaps::DOUBLE_BUFFER | GpuCaps::HARDWARE_CURSOR | GpuCaps::FRAMEBUFFER,
            d.frame().len() == 0,
            !d.is_enabled(),
            d.gen_view() == 2,
    {
        let mode = GpuMode::default();
        proof {
            lemma_default_mode_ok(mode);
        }
        let caps = GpuCaps(GpuCaps::ACCEL_2D | GpuCaps::HARDWARE_BLT | GpuCaps::DOUBLE_BUFFER | GpuCaps::HARDWARE_CURSOR | GpuCaps::FRAMEBUFFER);
        IntelGfxDriver {
            mmio: MmioReg::new(mmio_base),
            fb: fb_base,
            mode,
            backbuffer: Vec::new(),
            caps,
            family,
            gen: 2,
            enabled: false,
        }
    }

    pub closed spec fn mmio_base(&self) -> u64 {
        self.mmio.base
    }
}

/// VMware SVGA II driver.
pub struct VmwareSvgaDriver {
    mmio_base: u64,
    fb: u64,
    mode: GpuMode,
    backbuffer: Vec<u8>,
    caps: GpuCaps,
    family: GpuFamily,
    vram_size: usize,
    enabled: bool,
}

impl VmwareSvgaDriver {
    /// A disabled driver in the default mode with an empty backbuffer.
    pub fn new(mmio_base: u64, fb_base: u64, family: GpuFamily) -> (d: Self)
        ensures
            d.inv(),
            d.mode_view() == boot_mode(),
            d.mmio_base() == mmio_base,
            d.target() == fb_base,
            d.family_view() == family,
            d.caps_view() == GpuCaps::ACCEL_2D | GpuCaps::DOUBLE_BUFFER | GpuCaps::FRAMEBUFFER,
            d.frame().len() == 0,
            !d.is_enabled(),
    {
        let mode = GpuMode::default();
        proof {
            lemma_default_mode_ok(mode);
        }
        let caps = GpuCaps(GpuCaps::ACCEL_2D | GpuCaps::DOUBLE_BUFFER | GpuCaps::FRAMEBUFFER);
        VmwareSvgaDriver {
            mmio_base: mmio_base,
            fb: fb_base,
            mode,
            backbuffer: Vec::new(),
            caps,
            family,
            vram_size: 0,
            enabled: false,
        }
    }

    pub closed spec fn mmio_base(&self) -> u64 {
        self.mmio_base
    }
}

/// Cirrus Logic VGA framebuffer driver.
pub struct CirrusVgaDriver {
    fb: u64,
    mode: GpuMode,
    backbuffer: Vec<u8>,
    caps: GpuCaps,
    family: GpuFamily,
    enabled: bool,
}

impl CirrusVgaDriver {
    /// A disabled driver in the default mode with an empty backbuffer.
    pub fn new(fb: u64, family: GpuFamily) -> (d: Self)
        ensures
            d.inv(),
            d.mode_view() == boot_mode(),
            d.target() == fb,
            d.family_view() == family,
            d.caps_view() == GpuCaps::FRAMEBUFFER | GpuCaps::ACCEL_2D,
            d.frame().len() == 0,
            !d.is_enabled(),
    {
        let mode = GpuMode::default();
        proof {
            lemma_default_mode_ok(mode);
        }
        let caps = GpuCaps(GpuCaps::FRAMEBUFFER | GpuCaps::ACCEL_2D);
        CirrusVgaDriver {
            fb: fb,
            mode,
            backbuffer: Vec::new(),
            caps,
            family,
            enabled: false,
        }
    }
}

/// VirtIO GPU framebuffer driver.
pub struct VirtioGpuDriver {
    fb: u64,
    mode: GpuMode,
    backbuffer: Vec<u8>,
    caps: GpuCaps,
    family: GpuFamily,
    enabled: bool,
}

impl VirtioGpuDriver {
    /// A disabled driver in the default mode with an empty backbuffer.
    pub fn new(fb_base: u64, family: GpuFamily) -> (d: Self)
        ensures
            d.inv(),
            d.mode_view() == boot_mode(),
            d.target() == fb_base,
            d.family_view() == family,
            d.caps_view() == GpuCaps::ACCEL_2D | GpuCaps::DOUBLE_BUFFER | GpuCaps::FRAMEBUFFER,
            d.frame().len() == 0,
            !d.is_enabled(),
    {
        let mode = GpuMode::default();
        proof {
            lemma_default_mode_ok(mode);
        }
        let caps = GpuCaps(GpuCaps::ACCEL_2D | GpuCaps::DOUBLE_BUFFER | GpuCaps::FRAMEBUFFER);
        VirtioGpuDriver {
            fb: fb_base,
            mode,
            backbuffer: Vec::new(),
            caps,
            family,
            enabled: false,
        }
    }
}


impl GpuDriver for BochsVbeDriver {
    closed spec fn inv(&self) -> bool {
        driver_frame_ok(self.mode, self.pixel_bytes())
    }

    closed spec fn mode_view(&self) -> GpuMode {
        self.mode
    }

    closed spec fn frame(&self) -> Seq<u8> {
        self.backbuffer@
    }

    closed spec fn pixel_bytes(&self) -> int {
        bytes_per_pixel_spec(self.mode.bpp)
    }

    closed spec fn writes_alpha(&self) -> bool {
        false
    }

    closed spec fn copies_blocks(&self) -> bool {
        true
    }

    closed spec fn family_view(&self) -> GpuFamily {
        GpuFamily::BochsVBE
    }

    closed spec fn caps_view(&self) -> u32 {
        self.caps.0
    }

    closed spec fn target(&self) -> u64 {
        self.fb
    }

    closed spec fn is_enabled(&self) -> bool {
        self.enabled
    }

    fn init(&mut self, mode: &GpuMode) -> (r: Result<(), &'static str>)
        ensures
            final(self).mode_view() == *mode,
            final(self).frame() == Seq::new((mode.width * mode.height * bytes_per_pixel_spec(mode.bpp)) as nat, |i: int| 0u8),
            final(self).is_enabled(),
    {
        proof {
            lemma_frame_size(*mode);
        }
        let size = mode.width * mode.height * bytes_per_pixel(mode.bpp);
        self.mode = *mode;
        self.backbuffer = vec![0u8; size];
        assert(self.backbuffer@ =~= Seq::new((mode.width * mode.height * bytes_per_pixel_spec(mode.bpp)) as nat, |i: int| 0u8));
        self.enabled = true;
        Ok(())
    }

    fn current_mode(&self) -> (m: GpuMode) {
        self.mode
    }

    fn clear(&mut self, color: Color) {
        let mode = self.mode;
        clear_bytes(&mut self.backbuffer, &mode, bytes_per_pixel(self.mode.bpp), false, color);
    }

    fn put_pixel(&mut self, x: usize, y: usize, color: Color) {
        let mode = self.mode;
        put_pixel_bytes(&mut self.backbuffer, &mode, bytes_per_pixel(self.mode.bpp), false, x, y, color);
    }

    fn fill_rect(&mut self, rect: Rect, color: Color) {
        let mode = self.mode;
        fill_rect_bytes(&mut self.backbuffer, &mode, bytes_per_pixel(self.mode.bpp), false, rect, color);
    }

    fn blit(&mut self, src_x: usize, src_y: usize, dst_x: usize, dst_y: usize, w: usize, h: usize) {
        let pitch = self.mode.pitch;
        blit_bytes(&mut self.backbuffer, pitch, src_x, src_y, dst_x, dst_y, w, h);
    }

    fn capabilities(&self) -> (c: GpuCaps) {
        self.caps
    }

    fn family(&self) -> (f: GpuFamily) {
        GpuFamily::BochsVBE
    }

    fn raw_framebuffer(&self) -> (b: &Vec<u8>) {
        &self.backbuffer
    }

    fn framebuffer_address(&self) -> (a: u64) {
        self.fb
    }

    fn enabled(&self) -> (e: bool) {
        self.enabled
    }
}

impl GpuDriver for NvidiaMmioDriver {
    closed spec fn inv(&self) -> bool {
        driver_frame_ok(self.mode, self.pixel_bytes())
    }

    closed spec fn mode_view(&self) -> GpuMode {
        self.mode
    }

    closed spec fn frame(&self) -> Seq<u8> {
        self.backbuffer@
    }

    closed spec fn pixel_bytes(&self) -> int {
        4
    }

    closed spec fn writes_alpha(&self) -> bool {
        false
    }

    closed spec fn copies_blocks(&self) -> bool {
        true
    }

    closed spec fn family_view(&self) -> GpuFamily {
        self.family
    }

    closed spec fn caps_view(&self) -> u32 {
        self.caps.0
    }

    closed spec fn target(&self) -> u64 {
        self.fb
    }

    closed spec fn is_enabled(&self) -> bool {
        self.enabled
    }

    fn init(&mut self, mode: &GpuMode) -> (r: Result<(), &'static str>)
        ensures
            final(self).mode_view() == *mode,
            final(self).frame() == Seq::new((mode.width * mode.height * 4) as nat, |i: int| 0u8),
            final(self).is_enabled(),
    {
        proof {
            lemma_frame_size(*mode);
        }
        let size = mode.width * mode.height * 4;
        self.mode = *mode;
        self.backbuffer = vec![0u8; size];
        assert(self.backbuffer@ =~= Seq::new((mode.width * mode.height * 4) as nat, |i: int| 0u8));
        self.enabled = true;
        Ok(())
    }

    fn current_mode(&self) -> (m: GpuMode) {
        self.mode
    }

    fn clear(&mut self, color: Color) {
        let mode = self.mode;
        clear_bytes(&mut self.backbuffer, &mode, 4, false, color);
    }

    fn put_pixel(&mut self, x: usize, y: usize, color: Color) {
        let mode = self.mode;
        put_pixel_bytes(&mut self.backbuffer, &mode, 4, false, x, y, color);
    }

    fn fill_rect(&mut self, rect: Rect, color: Color) {
        let mode = self.mode;
        fill_rect_bytes(&mut self.backbuffer, &mode, 4, false, rect, color);
    }

    fn blit(&mut self, src_x: usize, src_y: usize, dst_x: usize, dst_y: usize, w: usize, h: usize) {
        let pitch = self.mode.pitch;
        blit_bytes(&mut self.backbuffer, pitch, src_x, src_y, dst_x, dst_y, w, h);
    }

    fn capabilities(&self) -> (c: GpuCaps) {
        self.caps
    }

    fn family(&self) -> (f: GpuFamily) {
        self.family
    }

    fn raw_framebuffer(&self) -> (b: &Vec<u8>) {
        &self.backbuffer
    }

    fn framebuffer_address(&self) -> (a: u64) {
        self.fb
    }

    fn enabled(&self) -> (e: bool) {
        self.enabled
    }
}

impl GpuDriver for AtiMmioDriver {
    closed spec fn inv(&self) -> bool {
        driver_frame_ok(self.mode, self.pixel_bytes())
    }

    closed spec fn mode_view(&self) -> GpuMode {
        self.mode
    }

    closed spec fn frame(&self) -> Seq<u8> {
        self.backbuffer@
    }

    closed spec fn pixel_bytes(&self) -> int {
        4
    }

    closed spec fn writes_alpha(&self) -> bool {
        false
    }

    closed spec fn copies_blocks(&self) -> bool {
        true
    }

    closed spec fn family_view(&self) -> GpuFamily {
        self.family
    }

    closed spec fn caps_view(&self) -> u32 {
        self.caps.0
    }

    closed spec fn target(&self) -> u64 {
        self.fb
    }

    closed spec fn is_enabled(&self) -> bool {
        self.enabled
    }

    fn init(&mut self, mode: &GpuMode) -> (r: Result<(), &'static str>)
        ensures
            final(self).mode_view() == *mode,
            final(self).frame() == Seq::new((mode.width * mode.height * 4) as nat, |i: int| 0u8),
            final(self).is_enabled(),
    {
        proof {
            lemma_frame_size(*mode);
        }
        let size = mode.width * mode.height * 4;
        self.mode = *mode;
        self.backbuffer = vec![0u8; size];
        assert(self.backbuffer@ =~= Seq::new((mode.width * mode.height * 4) as nat, |i: int| 0u8));
        self.enabled = true;
        Ok(())
    }

    fn current_mode(&self) -> (m: GpuMode) {
        self.mode
    }

    fn clear(&mut self, color: Color) {
        let mode = self.mode;
        clear_bytes(&mut self.backbuffer, &mode, 4, false, color);
    }

    fn put_pixel(&mut self, x: usize, y: usize, color: Color) {
        let mode = self.mode;
        put_pixel_bytes(&mut self.backbuffer, &mode, 4, false, x, y, color);
    }

    fn fill_rect(&mut self, rect: Rect, color: Color) {
        let mode = self.mode;
        fill_rect_bytes(&mut self.backbuffer, &mode, 4, false, rect, color);
    }

    fn blit(&mut self, src_x: usize, src_y: usize, dst_x: usize, dst_y: usize, w: usize, h: usize) {
        let pitch = self.mode.pitch;
        blit_bytes(&mut self.backbuffer, pitch, src_x, src_y, dst_x, dst_y, w, h);
    }

    fn capabilities(&self) -> (c: GpuCaps) {
        self.caps
    }

    fn family(&self) -> (f: GpuFamily) {
        self.family
    }

    fn raw_framebuffer(&self) -> (b: &Vec<u8>) {
        &self.backbuffer
    }

    fn framebuffer_address(&self) -> (a: u64) {
        self.fb
    }

    fn enabled(&self) -> (e: bool) {
        self.enabled
    }
}

impl GpuDriver for VoodooBansheeDriver {
    closed spec fn inv(&self) -> bool {
        driver_frame_ok(self.mode, self.pixel_bytes())
    }

    closed spec fn mode_view(&self) -> GpuMode {
        self.mode
    }

    closed spec fn frame(&self) -> Seq<u8> {
        self.backbuffer@
    }

    closed spec fn pixel_bytes(&self) -> int {
        4
    }

    closed spec fn writes_alpha(&self) -> bool {
        false
    }

    closed spec fn copies_blocks(&self) -> bool {
        true
    }

    closed spec fn family_view(&self) -> GpuFamily {
        self.family
    }

    closed spec fn caps_view(&self) -> u32 {
        self.caps.0
    }

    closed spec fn target(&self) -> u64 {
        self.lfb
    }

    closed spec fn is_enabled(&self) -> bool {
        self.enabled
    }

    fn init(&mut self, mode: &GpuMode) -> (r: Result<(), &'static str>)
        ensures
            final(self).mode_view() == *mode,
            final(self).frame() == Seq::new((mode.width * mode.height * 4) as nat, |i: int| 0u8),
            final(self).is_enabled(),
    {
        proof {
            lemma_frame_size(*mode);
        }
        let size = mode.width * mode.height * 4;
        self.mode = *mode;
        self.backbuffer = vec![0u8; size];
        assert(self.backbuffer@ =~= Seq::new((mode.width * mode.height * 4) as nat, |i: int| 0u8));
        self.enabled = true;
        Ok(())
    }

    fn current_mode(&self) -> (m: GpuMode) {
        self.mode
    }

    fn clear(&mut self, color: Color) {
        let mode = self.mode;
        clear_bytes(&mut self.backbuffer, &mode, 4, false, color);
    }

    fn put_pixel(&mut self, x: usize, y: usize, color: Color) {
        let mode = self.mode;
        put_pixel_bytes(&mut self.backbuffer, &mode, 4, false, x, y, color);
    }

    fn fill_rect(&mut self, rect: Rect, color: Color) {
        let mode = self.mode;
        fill_rect_bytes(&mut self.backbuffer, &mode, 4, false, rect, color);
    }

    fn blit(&mut self, src_x: usize, src_y: usize, dst_x: usize, dst_y: usize, w: usize, h: usize) {
        let pitch = self.mode.pitch;
        blit_bytes(&mut self.backbuffer, pitch, src_x, src_y, dst_x, dst_y, w, h);
    }

    fn capabilities(&self) -> (c: GpuCaps) {
        self.caps
    }

    fn family(&self) -> (f: GpuFamily) {
        self.family
    }

    fn raw_framebuffer(&self) -> (b: &Vec<u8>) {
        &self.backbuffer
    }

    fn framebuffer_address(&self) -> (a: u64) {
        self.lfb
    }

    fn enabled(&self) -> (e: bool) {
        self.enabled
    }
}

impl GpuDriver for IntelGfxDriver {
    closed spec fn inv(&self) -> bool {
        driver_frame_ok(self.mode, self.pixel_bytes())
    }

    closed spec fn mode_view(&self) -> GpuMode {
        self.mode
    }

    closed spec fn frame(&self) -> Seq<u8> {
        self.backbuffer@
    }

    closed spec fn pixel_bytes(&self) -> int {
        4
    }

    closed spec fn writes_alpha(&self) -> bool {
        false
    }

    closed spec fn copies_blocks(&self) -> bool {
        true
    }

    closed spec fn family_view(&self) -> GpuFamily {
        self.family
    }

    closed spec fn caps_view(&self) -> u32 {
        self.caps.0
    }

    closed spec fn target(&self) -> u64 {
        self.fb
    }

    closed spec fn is_enabled(&self) -> bool {
        self.enabled
    }

    fn init(&mut self, mode: &GpuMode) -> (r: Result<(), &'static str>)
        ensures
            final(self).mode_view() == *mode,
            final(self).frame() == Seq::new((mode.width * mode.height * 4) as nat, |i: int| 0u8),
            final(self).is_enabled(),
    {
        proof {
            lemma_frame_size(*mode);
        }
        let size = mode.width * mode.height * 4;
        self.mode = *mode;
        self.backbuffer = vec![0u8; size];
        assert(self.backbuffer@ =~= Seq::new((mode.width * mode.height * 4) as nat, |i: int| 0u8));
        self.gen = self.detect_gen(self.family);
        self.enabled = true;
        Ok(())
    }

    fn current_mode(&self) -> (m: GpuMode) {
        self.mode
    }

    fn clear(&mut self, color: Color) {
        let mode = self.mode;
        clear_bytes(&mut self.backbuffer, &mode, 4, false, color);
    }

    fn put_pixel(&mut self, x: usize, y: usize, color: Color) {
        let mode = self.mode;
        put_pixel_bytes(&mut self.backbuffer, &mode, 4, false, x, y, color);
    }

    fn fill_rect(&mut self, rect: Rect, color: Color) {
        let mode = self.mode;
        fill_rect_bytes(&mut self.backbuffer, &mode, 4, false, rect, color);
    }

    fn blit(&mut self, src_x: usize, src_y: usize, dst_x: usize, dst_y: usize, w: usize, h: usize) {
        let pitch = self.mode.pitch;
        blit_bytes(&mut self.backbuffer, pitch, src_x, src_y, dst_x, dst_y, w, h);
    }

    fn capabilities(&self) -> (c: GpuCaps) {
        self.caps
    }

    fn family(&self) -> (f: GpuFamily) {
        self.family
    }

    fn raw_framebuffer(&self) -> (b: &Vec<u8>) {
        &self.backbuffer
    }

    fn framebuffer_address(&self) -> (a: u64) {
        self.fb
    }

    fn enabled(&self) -> (e: bool) {
        self.enabled
    }
}

impl GpuDriver for VmwareSvgaDriver {
    closed spec fn inv(&self) -> bool {
        driver_frame_ok(self.mode, self.pixel_bytes())
    }

    closed spec fn mode_view(&self) -> GpuMode {
        self.mode
    }

    closed spec fn frame(&self) -> Seq<u8> {
        self.backbuffer@
    }

    closed spec fn pixel_bytes(&self) -> int {
        4
    }

    closed spec fn writes_alpha(&self) -> bool {
        false
    }

    closed spec fn copies_blocks(&self) -> bool {
        true
    }

    closed spec fn family_view(&self) -> GpuFamily {
        self.family
    }

    closed spec fn caps_view(&self) -> u32 {
        self.caps.0
    }

    closed spec fn target(&self) -> u64 {
        self.fb
    }

    closed spec fn is_enabled(&self) -> bool {
        self.enabled
    }

    fn init(&mut self, mode: &GpuMode) -> (r: Result<(), &'static str>)
        ensures
            final(self).mode_view() == *mode,
            final(self).frame() == Seq::new((mode.width * mode.height * 4) as nat, |i: int| 0u8),
            final(self).is_enabled(),
    {
        proof {
            lemma_frame_size(*mode);
        }
        let size = mode.width * mode.height * 4;
        self.mode = *mode;
        self.backbuffer = vec![0u8; size];
        assert(self.backbuffer@ =~= Seq::new((mode.width * mode.height * 4) as nat, |i: int| 0u8));
        self.enabled = true;
        Ok(())
    }

    fn current_mode(&self) -> (m: GpuMode) {
        self.mode
    }

    fn clear(&mut self, color: Color) {
        let mode = self.mode;
        clear_bytes(&mut self.backbuffer, &mode, 4, false, color);
    }

    fn put_pixel(&mut self, x: usize, y: usize, color: Color) {
        let mode = self.mode;
        put_pixel_bytes(&mut self.backbuffer, &mode, 4, false, x, y, color);
    }

    fn fill_rect(&mut self, rect: Rect, color: Color) {
        let mode = self.mode;
        fill_rect_bytes(&mut self.backbuffer, &mode, 4, false, rect, color);
    }

    fn blit(&mut self, src_x: usize, src_y: usize, dst_x: usize, dst_y: usize, w: usize, h: usize) {
        let pitch = self.mode.pitch;
        blit_bytes(&mut self.backbuffer, pitch, src_x, src_y, dst_x, dst_y, w, h);
    }

    fn capabilities(&self) -> (c: GpuCaps) {
        self.caps
    }

    fn family(&self) -> (f: GpuFamily) {
        self.family
    }

    fn raw_framebuffer(&self) -> (b: &Vec<u8>) {
        &self.backbuffer
    }

    fn framebuffer_address(&self) -> (a: u64) {
        self.fb
    }

    fn enabled(&self) -> (e: bool) {
        self.enabled
    }
}

impl GpuDriver for CirrusVgaDriver {
    closed spec fn inv(&self) -> bool {
        driver_frame_ok(self.mode, self.pixel_bytes())
    }

    closed spec fn mode_view(&self) -> GpuMode {
        self.mode
    }

    closed spec fn frame(&self) -> Seq<u8> {
        self.backbuffer@
    }

    closed spec fn pixel_bytes(&self) -> int {
        4
    }

    closed spec fn writes_alpha(&self) -> bool {
        false
    }

    closed spec fn copies_blocks(&self) -> bool {
        true
    }

    closed spec fn family_view(&self) -> GpuFamily {
        self.family
    }

    closed spec fn caps_view(&self) -> u32 {
        self.caps.0
    }

    closed spec fn target(&self) -> u64 {
        self.fb
    }

    closed spec fn is_enabled(&self) -> bool {
        self.enabled
    }

    fn init(&mut self, mode: &GpuMode) -> (r: Result<(), &'static str>)
        ensures
            final(self).mode_view() == *mode,
            final(self).frame() == Seq::new((mode.width * mode.height * 4) as nat, |i: int| 0u8),
            final(self).is_enabled(),
    {
        proof {
            lemma_frame_size(*mode);
        }
        let size = mode.width * mode.height * 4;
        self.mode = *mode;
        self.backbuffer = vec![0u8; size];
        assert(self.backbuffer@ =~= Seq::new((mode.width * mode.height * 4) as nat, |i: int| 0u8));
        self.enabled = true;
        Ok(())
    }

    fn current_mode(&self) -> (m: GpuMode) {
        self.mode
    }

    fn clear(&mut self, color: Color) {
        let mode = self.mode;
        clear_bytes(&mut self.backbuffer, &mode, 4, false, color);
    }

    fn put_pixel(&mut self, x: usize, y: usize, color: Color) {
        let mode = self.mode;
        put_pixel_bytes(&mut self.backbuffer, &mode, 4, false, x, y, color);
    }

    fn fill_rect(&mut self, rect: Rect, color: Color) {
        let mode = self.mode;
        fill_rect_bytes(&mut self.backbuffer, &mode, 4, false, rect, color);
    }

    fn blit(&mut self, src_x: usize, src_y: usize, dst_x: usize, dst_y: usize, w: usize, h: usize) {
        let pitch = self.mode.pitch;
        blit_bytes(&mut self.backbuffer, pitch, src_x, src_y, dst_x, dst_y, w, h);
    }

    fn capabilities(&self) -> (c: GpuCaps) {
        self.caps
    }

    fn family(&self) -> (f: GpuFamily) {
        self.family
    }

    fn raw_framebuffer(&self) -> (b: &Vec<u8>) {
        &self.backbuffer
    }

    fn framebuffer_address(&self) -> (a: u64) {
        self.fb
    }

    fn enabled(&self) -> (e: bool) {
        self.enabled
    }
}

impl GpuDriver for VirtioGpuDriver {
    closed spec fn inv(&self) -> bool {
        driver_frame_ok(self.mode, self.pixel_bytes())
    }

    closed spec fn mode_view(&self) -> GpuMode {
        self.mode
    }

    closed spec fn frame(&self) -> Seq<u8> {
        self.backbuffer@
    }

    closed spec fn pixel_bytes(&self) -> int {
        4
    }

    closed spec fn writes_alpha(&self) -> bool {
        false
    }

    closed spec fn copies_blocks(&self) -> bool {
        true
    }

    closed spec fn family_view(&self) -> GpuFamily {
        self.family
    }

    closed spec fn caps_view(&self) -> u32 {
        self.caps.0
    }

    closed spec fn target(&self) -> u64 {
        self.fb
    }

    closed spec fn is_enabled(&self) -> bool {
        self.enabled
    }

    fn init(&mut self, mode: &GpuMode) -> (r: Result<(), &'static str>)
        ensures
            final(self).mode_view() == *mode,
            final(self).frame() == Seq::new((mode.width * mode.height * 4) as nat, |i: int| 0u8),
            final(self).is_enabled(),
    {
        proof {
            lemma_frame_size(*mode);
        }
        let size = mode.width * mode.height * 4;
        self.mode = *mode;
        self.backbuffer = vec![0u8; size];
        assert(self.backbuffer@ =~= Seq::new((mode.width * mode.height * 4) as nat, |i: int| 0u8));
        self.enabled = true;
        Ok(())
    }

    fn current_mode(&self) -> (m: GpuMode) {
        self.mode
    }

    fn clear(&mut self, color: Color) {
        let mode = self.mode;
        clear_bytes(&mut self.backbuffer, &mode, 4, false, color);
    }

    fn put_pixel(&mut self, x: usize, y: usize, color: Color) {
        let mode = self.mode;
        put_pixel_bytes(&mut self.backbuffer, &mode, 4, false, x, y, color);
    }

    fn fill_rect(&mut self, rect: Rect, color: Color) {
        let mode = self.mode;
        fill_rect_bytes(&mut self.backbuffer, &mode, 4, false, rect, color);
    }

    fn blit(&mut self, src_x: usize, src_y: usize, dst_x: usize, dst_y: usize, w: usize, h: usize) {
        let pitch = self.mode.pitch;
        blit_bytes(&mut self.backbuffer, pitch, src_x, src_y, dst_x, dst_y, w, h);
    }

    fn capabilities(&self) -> (c: GpuCaps) {
        self.caps
    }

    fn family(&self) -> (f: GpuFamily) {
        self.family
    }

    fn raw_framebuffer(&self) -> (b: &Vec<u8>) {
        &self.backbuffer
    }

    fn framebuffer_address(&self) -> (a: u64) {
        self.fb
    }

    fn enabled(&self) -> (e: bool) {
        self.enabled
    }
}
impl NvidiaMmioDriver {
    pub closed spec fn chipset_view(&self) -> u32 {
        self.chipset
    }

    /// Records the chipset decoded from the NV_PMC_BOOT_0 register value.
    pub fn set_chipset_from_boot0(&mut self, boot0: u32)
        ensures
            final(self).chipset_view() == nv_chipset(boot0),
            final(self).inv() == old(self).inv(),
            final(self).mode_view() == old(self).mode_view(),
            final(self).frame() == old(self).frame(),
    {
        self.chipset = decode_nv_chipset(boot0);
    }

    /// Enables bus mastering, memory and I/O space: the PCI command word to write back.
    pub fn enable_pci_command(cmd: u32) -> (r: u32)
        ensures
            r == cmd | 0x07,
    {
        cmd | 0x07
    }
}

/// Chipset number encoded in NV_PMC_BOOT_0: the implementation bits with the
/// architecture nibble folded into bits 4..8.
pub open spec fn nv_chipset(boot0: u32) -> u32 {
    (boot0 & 0x0FFF) | ((boot0 >> 12) & 0xF0)
}

/// Decodes the chipset number from NV_PMC_BOOT_0.
pub fn decode_nv_chipset(boot0: u32) -> (c: u32)
    ensures
        c == nv_chipset(boot0),
{
    (boot0 & 0x0FFF) | ((boot0 >> 12) & 0xF0)
}

impl IntelGfxDriver {
    pub closed spec fn gen_view(&self) -> u8 {
        self.gen
    }

    /// Intel graphics generation of a family.
    pub fn detect_gen(&self, family: GpuFamily) -> (g: u8)
        ensures
            g == intel_gen_spec(family),
    {
        match family {
            GpuFamily::Intel740 | GpuFamily::Intel810 | GpuFamily::Intel915 => 2,
            GpuFamily::IntelGMA3000 | GpuFamily::IntelGMA3100 | GpuFamily::IntelGMAX3100 | GpuFamily::IntelGMAX3500 => 3,
            GpuFamily::IntelHDGraphics => 4,
            GpuFamily::IntelHDGraphics2000 | GpuFamily::IntelHDGraphics2500 | GpuFamily::IntelHDGraphics3000
            | GpuFamily::IntelHDGraphics4000 | GpuFamily::IntelHDGraphics4200 | GpuFamily::IntelHDGraphics4400
            | GpuFamily::IntelHDGraphics4600 => 7,
            GpuFamily::IntelHDGraphics5000 | GpuFamily::IntelHDGraphics5100 | GpuFamily::IntelHDGraphics5200
            | GpuFamily::IntelHDGraphics5300 | GpuFamily::IntelHDGraphics5500 | GpuFamily::IntelHDGraphics6000 => 8,
            GpuFamily::IntelHDGraphics6100 | GpuFamily::IntelHDGraphics615 | GpuFamily::IntelHDGraphics620
            | GpuFamily::IntelHDGraphics630 | GpuFamily::IntelHDGraphics640 | GpuFamily::IntelHDGraphics650
            | GpuFamily::IntelHDGraphicsP630 => 9,
            GpuFamily::IntelIrisPlus640 | GpuFamily::IntelIrisPlus645 | GpuFamily::IntelIrisPlus650
            | GpuFamily::IntelIrisPro580 => 9,
            GpuFamily::IntelIrisXe | GpuFamily::IntelIrisXeMax => 12,
            GpuFamily::IntelArcA310 | GpuFamily::IntelArcA380 | GpuFamily::IntelArcA580 | GpuFamily::IntelArcA750
            | GpuFamily::IntelArcA770 | GpuFamily::IntelArcB580 | GpuFamily::IntelArcB770 => 12,
            GpuFamily::IntelXeLLVM => 12,
            _ => 4,
        }
    }
}

/// Register values the Intel display pipe A is programmed with.
#[derive(Debug, Clone, Copy, PartialEq, Eq, Structural)]
pub struct IntelPipeConfig {
    /// PIPEASRC: (width - 1) in the high half, (height - 1) in the low half.
    pub source_size: u32,
    /// Plane stride in bytes, rounded up to 64.
    pub stride: u32,
    /// Page-aligned surface address in 4 KiB pages.
    pub surface_page: u32,
    /// Low 32 bits of the framebuffer address (DSPABASE).
    pub base: u32,
    /// Plane control: enabled, 32 bpp or RGB 565.
    pub plane_control: u32,
    /// Pipe configuration: enabled, progressive, 8 bits per colour.
    pub pipe_config: u32,
    /// Generation 6 and later set the display clock.
    pub set_display_clock: bool,
}

/// Register values for pipe A at `w` x `h` with `bpp` bits per pixel over the
/// framebuffer at `fb`.
pub fn intel_pipe_config(w: usize, h: usize, bpp: usize, fb: u64, gen: u8) -> (c: IntelPipeConfig)
    requires
        1 <= w <= 0x10000,
        1 <= h <= 0x10000,
        bpp <= 256,
    ensures
        c.source_size == (((w - 1) as u32) << 16) | ((h - 1) as u32),
        c.stride as int == round_up_64(w * (bpp / 8)),
        c.base == (fb & 0xFFFF_FFFF) as u32,
        c.surface_page == ((fb & 0xFFFF_FFFF) as u32 & 0xFFFF_F000) >> 12,
        c.plane_control == 0x0100_0000 | (if bpp >= 32 { 0x0400_0000u32 } else { 0x0200_0000u32 }),
        c.pipe_config == 0x8000_0000,
        c.set_display_clock == (gen >= 6),
{
    let src = (((w - 1) as u32) << 16) | ((h - 1) as u32);
    assert(w * (bpp / 8) <= 0x10000 * 32) by (nonlinear_arith)
        requires w <= 0x10000, bpp / 8 <= 32;
    let bytes = (w as u32) * ((bpp / 8) as u32);
    let stride = if bytes % 64 == 0 { bytes } else { bytes - bytes % 64 + 64 };
    assert(fb & 0xFFFF_FFFF <= 0xFFFF_FFFF) by (bit_vector);
    let fb_addr = (fb & 0xFFFF_FFFF) as u32;
    let surf = fb_addr & 0xFFFF_F000;
    let plane = 0x0100_0000u32 | (if bpp >= 32 { 0x0400_0000u32 } else { 0x0200_0000u32 });
    IntelPipeConfig {
        source_size: src,
        stride,
        surface_page: surf >> 12,
        base: fb_addr,
        plane_control: plane,
        pipe_config: 0x8000_0000,
        set_display_clock: gen >= 6,
    }
}

/// `n` rounded up to a multiple of 64.
pub open spec fn round_up_64(n: int) -> int {
    if n % 64 == 0 {
        n
    } else {
        n - n % 64 + 64
    }
}

impl VoodooBansheeDriver {
    /// Display-mode resolution bits for a resolution (1024x768 for unknown sizes).
    pub fn mode_res_bits(w: usize, h: usize) -> (bits: u16)
        ensures
            bits == (if w == 640 && h == 480 {
                0x0000u16
            } else if w == 800 && h == 600 {
                0x0100u16
            } else if w == 1024 && h == 768 {
                0x0200u16
            } else if w == 1280 && h == 1024 {
                0x0300u16
            } else if w == 1600 && h == 1200 {
                0x0400u16
            } else {
                0x0200u16
            }),
    {
        if w == 640 && h == 480 {
            0x0000
        } else if w == 800 && h == 600 {
            0x0100
        } else if w == 1024 && h == 768 {
            0x0200
        } else if w == 1280 && h == 1024 {
            0x0300
        } else if w == 1600 && h == 1200 {
            0x0400
        } else {
            0x0200
        }
    }

    /// Display-mode depth bits for a bit depth (32 bpp for unknown depths).
    pub fn bpp_bits(bpp: usize) -> (bits: u16)
        ensures
            bits == (if bpp == 8 {
                0x0000u16
            } else if bpp == 16 {
                0x0010u16
            } else {
                0x0030u16
            }),
    {
        match bpp {
            8 => 0x0000,
            16 => 0x0010,
            32 => 0x0030,
            _ => 0x0030,
        }
    }
}

/// A BAR0 value that locates the Bochs linear framebuffer: implemented, not
/// all ones, and with its address (flag bits cleared) in 0xE000_0000 ..= 0xFE00_0000.
pub open spec fn vbe_bar_usable(bar0: u32) -> bool {
    bar0 != 0 && bar0 != 0xFFFF_FFFF && 0xE000_0000 <= (bar0 & 0xFFFF_FFF0) <= 0xFE00_0000
}

/// Bochs framebuffer address from the BAR0 of PCI 0:1.0 and, failing that,
/// 0:2.0; 0 when neither holds a usable address.
pub fn vbe_read_phys_addr(bar0_slot1: u32, bar0_slot2: u32) -> (addr: u32)
    ensures
        addr == (if vbe_bar_usable(bar0_slot1) {
            bar0_slot1 & 0xFFFF_FFF0
        } else if vbe_bar_usable(bar0_slot2) {
            bar0_slot2 & 0xFFFF_FFF0
        } else {
            0
        }),
{
    if bar0_slot1 != 0 && bar0_slot1 != u32::MAX {
        let addr = bar0_slot1 & 0xFFFF_FFF0;
        if 0xE000_0000 <= addr && addr <= 0xFE00_0000 {
            return addr;
        }
    }
    if bar0_slot2 != 0 && bar0_slot2 != u32::MAX {
        let addr = bar0_slot2 & 0xFFFF_FFF0;
        if 0xE000_0000 <= addr && addr <= 0xFE00_0000 {
            return addr;
        }
    }
    0
}

/// The Bochs VBE interface is present when its identification register reads
/// 0xB0C0..0xB0CF or 0xB0C5.
pub fn bochs_vbe_probe(id: u16) -> (present: bool)
    ensures
        present == ((id & 0xFFF0) == 0xB0C0 || id == 0xB0C5),
{
    id & 0xFFF0 == 0xB0C0 || id == 0xB0C5
}

} // verus!
