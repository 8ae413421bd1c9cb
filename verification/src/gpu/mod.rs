//! GPU subsystem: family database, capabilities, framebuffer model and drivers.
pub mod caps;
pub mod drivers;
pub mod family;
pub mod mmio;
pub mod select;
pub mod framebuffer;
pub mod ids;
pub mod names;

use vstd::prelude::*;
use crate::gpu::caps::{GpuCaps, gpu_capabilities, capability_bits};
use crate::gpu::family::{GpuFamily, gpu_name, gpu_name_spec, identify_gpu, identify_gpu_spec};
use crate::gpu::framebuffer::{
    Color, Rect, GpuMode, offsets_fit, put_pixel_spec, paint_rect, blit_spec, blit_fits,
    put_pixel_bytes, fill_rect_bytes, clear_bytes,
};

verus! {

/// A display controller found on the PCI bus.
#[derive(Debug, Clone, Copy)]
pub struct GpuDevice {
    pub vendor_id: u16,
    pub device_id: u16,
    pub family: GpuFamily,
    pub name: &'static str,
    pub revision: u8,
    pub bus: u8,
    pub slot: u8,
    pub func: u8,
    pub mmio_base: Option<u64>,
    pub mmio_len: Option<u64>,
    pub framebuffer_base: Option<u64>,
    pub framebuffer_len: Option<u64>,
}

impl GpuDevice {
    /// Identifies the family from the PCI IDs and names the device after it;
    /// no BAR is known yet.
    pub fn new(vendor: u16, device: u16, bus: u8, slot: u8, func: u8) -> (d: Self)
        ensures
            d.vendor_id == vendor,
            d.device_id == device,
            d.family == identify_gpu_spec(vendor, device),
            d.name == gpu_name_spec(d.family),
            d.revision == 0,
            d.bus == bus,
            d.slot == slot,
            d.func == func,
            d.mmio_base is None,
            d.mmio_len is None,
            d.framebuffer_base is None,
            d.framebuffer_len is None,
    {
        let family = identify_gpu(vendor, device);
        let name = gpu_name(family);
        GpuDevice {
            vendor_id: vendor,
            device_id: device,
            family,
            name,
            revision: 0,
            bus,
            slot,
            func,
            mmio_base: None,
            mmio_len: None,
            framebuffer_base: None,
            framebuffer_len: None,
        }
    }

    /// Capabilities of the device's family.
    pub fn capabilities(&self) -> (c: GpuCaps)
        ensures
            c.0 == capability_bits(self.family),
    {
        gpu_capabilities(self.family)
    }
}

/// Bytes per pixel for a bit depth, rounding up.
pub open spec fn bytes_per_pixel_spec(bpp: u8) -> int {
    (bpp as int + 7) / 8
}

/// Bytes per pixel for a bit depth, rounding up.
pub fn bytes_per_pixel(bpp: u8) -> (n: usize)
    ensures
        n == bytes_per_pixel_spec(bpp),
        n <= 32,
{
    ((bpp as usize) + 7) / 8
}

/// Widest pixel a driver uses for `mode`: 4 bytes, or more for deeper modes.
pub open spec fn frame_pixel_bytes(mode: GpuMode) -> int {
    if bytes_per_pixel_spec(mode.bpp) > 4 {
        bytes_per_pixel_spec(mode.bpp)
    } else {
        4
    }
}

/// A mode a driver can be initialised with: a frame of it fits in memory at
/// the widest pixel size the drivers use, and so does every pixel offset.
pub open spec fn mode_supported(mode: GpuMode) -> bool {
    &&& mode.width * mode.height * frame_pixel_bytes(mode) <= usize::MAX
    &&& offsets_fit(mode, frame_pixel_bytes(mode))
}

/// A driver's mode and pixel width keep every pixel offset within a `usize`.
pub open spec fn driver_frame_ok(mode: GpuMode, pixel_bytes: int) -> bool {
    0 <= pixel_bytes <= 32 && offsets_fit(mode, pixel_bytes) && offsets_fit(mode, 4)
}

pub proof fn lemma_frame_size(mode: GpuMode)
    requires
        mode_supported(mode),
    ensures
        mode.width * mode.height * 4 <= usize::MAX,
        mode.width * mode.height * bytes_per_pixel_spec(mode.bpp) <= usize::MAX,
        driver_frame_ok(mode, 4),
        driver_frame_ok(mode, bytes_per_pixel_spec(mode.bpp)),
{
    let w = mode.width as int;
    let h = mode.height as int;
    let k = frame_pixel_bytes(mode);
    let b = bytes_per_pixel_spec(mode.bpp);
    assert(w * h * 4 <= w * h * k) by (nonlinear_arith)
        requires 0 <= w, 0 <= h, 4 <= k;
    assert(w * h * b <= w * h * k) by (nonlinear_arith)
        requires 0 <= w, 0 <= h, 0 <= b <= k;
    assert(w * 4 <= w * k) by (nonlinear_arith)
        requires 0 <= w, 4 <= k;
    assert(w * b <= w * k) by (nonlinear_arith)
        requires 0 <= w, 0 <= b <= k;
}

/// A graphics driver drawing into a software backbuffer.
///
/// Copying the backbuffer to the device (`present` in hardware terms) is done
/// by the platform layer from `raw_framebuffer` and `framebuffer_address`.
pub trait GpuDriver {
    /// The driver's mode and pixel layout keep all offsets representable.
    spec fn inv(&self) -> bool;

    spec fn mode_view(&self) -> GpuMode;

    /// The backbuffer's bytes.
    spec fn frame(&self) -> Seq<u8>;

    /// Bytes each pixel occupies in the backbuffer.
    spec fn pixel_bytes(&self) -> int;

    /// Clearing also zeroes the fourth byte of 4-byte pixels.
    spec fn writes_alpha(&self) -> bool;

    /// `blit` copies blocks (some drivers ignore it).
    spec fn copies_blocks(&self) -> bool;

    spec fn family_view(&self) -> GpuFamily;

    spec fn caps_view(&self) -> u32;

    /// Physical address the backbuffer is presented to (0 when there is none).
    spec fn target(&self) -> u64;

    spec fn is_enabled(&self) -> bool;

    fn init(&mut self, mode: &GpuMode) -> (r: Result<(), &'static str>)
        requires
            old(self).inv(),
            mode_supported(*mode),
        ensures
            r is Ok,
            final(self).inv(),
            final(self).family_view() == old(self).family_view(),
            final(self).caps_view() == old(self).caps_view(),
            final(self).target() == old(self).target(),
    ;

    fn current_mode(&self) -> (m: GpuMode)
        ensures
            m == self.mode_view(),
    ;

    fn clear(&mut self, color: Color)
        requires
            old(self).inv(),
        ensures
            final(self).inv(),
            final(self).mode_view() == old(self).mode_view(),
            final(self).frame() == paint_rect(
                old(self).frame(),
                old(self).mode_view(),
                old(self).pixel_bytes(),
                old(self).writes_alpha(),
                0,
                old(self).mode_view().width as nat,
                0,
                old(self).mode_view().height as nat,
                color,
            ),
    ;

    fn put_pixel(&mut self, x: usize, y: usize, color: Color)
        requires
            old(self).inv(),
        ensures
            final(self).inv(),
            final(self).mode_view() == old(self).mode_view(),
            final(self).frame() == put_pixel_spec(
                old(self).frame(),
                old(self).mode_view(),
                old(self).pixel_bytes(),
                false,
                x as int,
                y as int,
                color,
            ),
    ;

    fn fill_rect(&mut self, rect: Rect, color: Color)
        requires
            old(self).inv(),
            rect.x + rect.width <= usize::MAX,
            rect.y + rect.height <= usize::MAX,
        ensures
            final(self).inv(),
            final(self).mode_view() == old(self).mode_view(),
            final(self).frame() == paint_rect(
                old(self).frame(),
                old(self).mode_view(),
                old(self).pixel_bytes(),
                false,
                rect.x as int,
                rect.width as nat,
                rect.y as int,
                rect.height as nat,
                color,
            ),
    ;

    fn blit(&mut self, src_x: usize, src_y: usize, dst_x: usize, dst_y: usize, w: usize, h: usize)
        requires
            old(self).inv(),
            blit_fits(
                old(self).mode_view().pitch as int,
                src_x as int,
                src_y as int,
                dst_x as int,
                dst_y as int,
                w as int,
                h as int,
            ),
        ensures
            final(self).inv(),
            final(self).mode_view() == old(self).mode_view(),
            final(self).frame() == (if old(self).copies_blocks() {
                blit_spec(
                    old(self).frame(),
                    old(self).mode_view().pitch as int,
                    src_x as int,
                    src_y as int,
                    dst_x as int,
                    dst_y as int,
                    w as nat,
                    h as nat,
                )
            } else {
                old(self).frame()
            }),
    ;

    fn capabilities(&self) -> (c: GpuCaps)
        ensures
            c.0 == self.caps_view(),
    ;

    fn family(&self) -> (f: GpuFamily)
        ensures
            f == self.family_view(),
    ;

    fn raw_framebuffer(&self) -> (b: &Vec<u8>)
        ensures
            b@ == self.frame(),
    ;

    fn framebuffer_address(&self) -> (a: u64)
        ensures
            a == self.target(),
    ;

    fn enabled(&self) -> (e: bool)
        ensures
            e == self.is_enabled(),
    ;
}


/// The first four configuration dwords (offsets 0x00, 0x04, 0x08, 0x0C) of
/// every PCI function, indexed by `(bus * 32 + slot) * 8 + func`.
pub struct PciHeaderSnapshot {
    pub headers: Vec<[u32; 4]>,
}

/// Number of PCI functions addressed by bus, slot and function numbers.
pub open spec fn function_count() -> int {
    256int * 32 * 8
}

/// Index of a function in the snapshot.
pub open spec fn function_index(bus: int, slot: int, func: int) -> int {
    (bus * 32 + slot) * 8 + func
}

/// Configuration dword at `offset` (rounded down to a dword) of a function.
pub open spec fn header_dword(snap: Seq<[u32; 4]>, bus: int, slot: int, func: int, offset: int) -> u32 {
    snap[function_index(bus, slot, func)]@[(offset / 4) % 4]
}

/// The function holds a device (its vendor ID is neither 0xFFFF nor 0).
pub open spec fn function_present(snap: Seq<[u32; 4]>, bus: int, slot: int, func: int) -> bool {
    let vendor = header_dword(snap, bus, slot, func, 0) & 0xFFFF;
    vendor != 0xFFFF && vendor != 0
}

/// The function is a display controller: class 0x03, or the pre-2.0 VGA class 0x00/0x01.
pub open spec fn function_is_display(snap: Seq<[u32; 4]>, bus: int, slot: int, func: int) -> bool {
    let class_rev = header_dword(snap, bus, slot, func, 8);
    let class_code = (class_rev >> 24) & 0xFF;
    let subclass = (class_rev >> 16) & 0xFF;
    class_code == 0x03 || (class_code == 0x00 && subclass == 0x01)
}

/// The GPU recorded for a display function: identified from its IDs, with the
/// dword at offset 4 used as BAR0 and the dword at offset 6 as BAR2.
pub open spec fn scanned_device(snap: Seq<[u32; 4]>, bus: int, slot: int, func: int) -> GpuDevice {
    let id = header_dword(snap, bus, slot, func, 0);
    let class_rev = header_dword(snap, bus, slot, func, 8);
    let bar0 = header_dword(snap, bus, slot, func, 4);
    let bar2 = header_dword(snap, bus, slot, func, 6);
    let vendor = (id & 0xFFFF) as u16;
    let device = (id >> 16) as u16;
    let family = identify_gpu_spec(vendor, device);
    let mmio: Option<u64> = if bar0 & 1 == 0 { Some((bar0 & 0xFFFF_FFF0) as u64) } else { None };
    let fbb: Option<u64> = if mmio is Some {
        mmio
    } else if bar2 != 0 && bar2 & 1 == 0 {
        Some((bar2 & 0xFFFF_FFF0) as u64)
    } else {
        None
    };
    GpuDevice {
        vendor_id: vendor,
        device_id: device,
        family,
        name: gpu_name_spec(family),
        revision: (class_rev & 0xFF) as u8,
        bus: bus as u8,
        slot: slot as u8,
        func: func as u8,
        mmio_base: mmio,
        mmio_len: None,
        framebuffer_base: fbb,
        framebuffer_len: None,
    }
}

/// The display device a slot contributes when its functions are scanned from
/// `func` on: an absent function 0 ends the slot, absent other functions are
/// skipped, and the first display function is taken.
pub open spec fn slot_display_from(snap: Seq<[u32; 4]>, bus: int, slot: int, func: int) -> Option<GpuDevice>
    decreases 8 - func,
{
    if func >= 8 || func < 0 {
        None
    } else if !function_present(snap, bus, slot, func) {
        if func == 0 {
            None
        } else {
            slot_display_from(snap, bus, slot, func + 1)
        }
    } else if function_is_display(snap, bus, slot, func) {
        Some(scanned_device(snap, bus, slot, func))
    } else {
        slot_display_from(snap, bus, slot, func + 1)
    }
}

/// Devices found in the first `n` slots, in bus-then-slot order.
pub open spec fn displays_in_slots(snap: Seq<[u32; 4]>, n: nat) -> Seq<GpuDevice>
    decreases n,
{
    if n == 0 {
        Seq::empty()
    } else {
        let prev = displays_in_slots(snap, (n - 1) as nat);
        let bus = (n - 1) / 32;
        let slot = (n - 1) % 32;
        match slot_display_from(snap, bus, slot, 0) {
            Some(d) => prev.push(d),
            None => prev,
        }
    }
}

/// Depth chosen for a mode: what the hardware reports when it already runs at
/// the requested resolution with a non-zero depth, 24 bits otherwise.
pub open spec fn selected_bpp(w: usize, h: usize, cur_bpp: u16, cur_width: u16, cur_height: u16) -> u8 {
    if cur_bpp > 0 && cur_width == w && cur_height == h {
        cur_bpp as u8
    } else {
        24
    }
}

/// The depth a mode of `w` x `h` is set with, given what the hardware
/// reports.
pub fn select_bpp(w: usize, h: usize, cur_bpp: u16, cur_width: u16, cur_height: u16) -> (b: u8)
    ensures
        b == selected_bpp(w, h, cur_bpp, cur_width, cur_height),
{
    if cur_bpp > 0 && cur_width as usize == w && cur_height as usize == h {
        cur_bpp as u8
    } else {
        24
    }
}

/// Tracks the GPUs found on the PCI bus and the selected display mode.
pub struct GpuManager {
    pub devices: Vec<GpuDevice>,
    pub active_driver_index: Option<usize>,
    pub active_gpu: Option<GpuDevice>,
    pub current_mode: GpuMode,
}

impl GpuManager {
    /// No device, no active GPU, the default mode.
    pub fn new() -> (m: Self)
        ensures
            m.devices@.len() == 0,
            m.active_driver_index is None,
            m.active_gpu is None,
            m.current_mode == (GpuMode {
                width: 1280,
                height: 720,
                bpp: 32,
                pitch: 5120,
                framebuffer_addr: 0,
                framebuffer_size: 3686400,
                double_buffered: false,
            }),
    {
        GpuManager {
            devices: Vec::new(),
            active_driver_index: None,
            active_gpu: None,
            current_mode: GpuMode::default(),
        }
    }

    /// Appends every display controller of the snapshot, taking at most one
    /// per slot, in bus and slot order.
    pub fn scan_pci(&mut self, snapshot: &PciHeaderSnapshot)
        requires
            snapshot.headers@.len() == function_count(),
        ensures
            final(self).devices@ == old(self).devices@ + displays_in_slots(snapshot.headers@, 256 * 32),
            final(self).active_driver_index == old(self).active_driver_index,
            final(self).active_gpu == old(self).active_gpu,
            final(self).current_mode == old(self).current_mode,
    {
        let ghost start = self.devices@;
        let mut bus: usize = 0;
        while bus < 256
            invariant
                bus <= 256,
                snapshot.headers@.len() == function_count(),
                self.devices@ == start + displays_in_slots(snapshot.headers@, (bus * 32) as nat),
                self.active_driver_index == old(self).active_driver_index,
                self.active_gpu == old(self).active_gpu,
                self.current_mode == old(self).current_mode,
            decreases 256 - bus,
        {
            let mut slot: usize = 0;
            while slot < 32
                invariant
                    bus < 256,
                    slot <= 32,
                    snapshot.headers@.len() == function_count(),
                    self.devices@ == start + displays_in_slots(snapshot.headers@, (bus * 32 + slot) as nat),
                    self.active_driver_index == old(self).active_driver_index,
                    self.active_gpu == old(self).active_gpu,
                    self.current_mode == old(self).current_mode,
                decreases 32 - slot,
            {
                let found = scan_slot(snapshot, bus, slot);
                proof {
                    let n = (bus * 32 + slot + 1) as nat;
                    assert((n - 1) / 32 == bus as int);
                    assert((n - 1) % 32 == slot as int);
                }
                match found {
                    Some(d) => {
                        self.devices.push(d);
                        proof {
                            assert(start + displays_in_slots(snapshot.headers@, (bus * 32 + slot + 1) as nat)
                                =~= self.devices@);
                        }
                    },
                    None => {},
                }
                slot = slot + 1;
            }
            bus = bus + 1;
        }
    }

    /// Activates the first GPU with a `w` x `h` mode. The depth is the one the
    /// hardware reports (`cur_bpp`) when it already runs at that resolution,
    /// 24 bits otherwise. Fails with "no_gpu" when no GPU was found.
    pub fn select_and_init(
        &mut self,
        desired_width: usize,
        desired_height: usize,
        cur_bpp: u16,
        cur_width: u16,
        cur_height: u16,
    ) -> (r: Result<(), &'static str>)
        requires
            old(self).devices@.len() > 0 ==> {
                let div = bytes_per_pixel_spec(selected_bpp(desired_width, desired_height, cur_bpp, cur_width, cur_height));
                &&& desired_width * div <= usize::MAX
                &&& desired_width * desired_height <= usize::MAX
                &&& desired_width * desired_height * div <= usize::MAX
            },
        ensures
            old(self).devices@.len() == 0 <==> r is Err,
            r is Err ==> *final(self) == *old(self) && r == Err::<(), &'static str>("no_gpu"),
            r is Ok ==> {
                let bpp = selected_bpp(desired_width, desired_height, cur_bpp, cur_width, cur_height);
                let div = bytes_per_pixel_spec(bpp);
                &&& final(self).devices == old(self).devices
                &&& final(self).active_gpu == Some(old(self).devices@[0])
                &&& final(self).active_driver_index == Some(0usize)
                &&& final(self).current_mode == (GpuMode {
                    width: desired_width,
                    height: desired_height,
                    bpp,
                    pitch: (desired_width * div) as usize,
                    framebuffer_addr: match old(self).devices@[0].framebuffer_base {
                        Some(b) => b,
                        None => 0,
                    },
                    framebuffer_size: (desired_width * desired_height * div) as usize,
                    double_buffered: false,
                })
            },
    {
        if self.devices.len() == 0 {
            return Err("no_gpu");
        }
        let first = self.devices[0];
        self.active_gpu = Some(first);
        self.active_driver_index = Some(0);
        let bpp: u8 = select_bpp(desired_width, desired_height, cur_bpp, cur_width, cur_height);
        let bpp_div = bytes_per_pixel(bpp);
        let fb_addr = match first.framebuffer_base {
            Some(b) => b,
            None => 0,
        };
        self.current_mode = GpuMode {
            width: desired_width,
            height: desired_height,
            bpp,
            pitch: desired_width * bpp_div,
            framebuffer_addr: fb_addr,
            framebuffer_size: desired_width * desired_height * bpp_div,
            double_buffered: false,
        };
        Ok(())
    }
}

/// Dword `offset / 4` (modulo 4) of a function's header.
fn read_header(snapshot: &PciHeaderSnapshot, bus: usize, slot: usize, func: usize, offset: usize) -> (v: u32)
    requires
        snapshot.headers@.len() == function_count(),
        bus < 256,
        slot < 32,
        func < 8,
    ensures
        v == header_dword(snapshot.headers@, bus as int, slot as int, func as int, offset as int),
{
    let idx = (bus * 32 + slot) * 8 + func;
    let words = snapshot.headers[idx];
    words[(offset / 4) % 4]
}

/// The display device of one slot, scanning its functions in order.
fn scan_slot(snapshot: &PciHeaderSnapshot, bus: usize, slot: usize) -> (d: Option<GpuDevice>)
    requires
        snapshot.headers@.len() == function_count(),
        bus < 256,
        slot < 32,
    ensures
        d == slot_display_from(snapshot.headers@, bus as int, slot as int, 0),
{
    let mut func: usize = 0;
    while func < 8
        invariant
            func <= 8,
            bus < 256,
            slot < 32,
            snapshot.headers@.len() == function_count(),
            slot_display_from(snapshot.headers@, bus as int, slot as int, 0)
                == slot_display_from(snapshot.headers@, bus as int, slot as int, func as int),
        decreases 8 - func,
    {
        let vendor = read_header(snapshot, bus, slot, func, 0) & 0xFFFF;
        if vendor == 0xFFFF || vendor == 0x0000 {
            if func == 0 {
                return None;
            }
            func = func + 1;
            continue;
        }
        let class_rev = read_header(snapshot, bus, slot, func, 8);
        let class_code = (class_rev >> 24) & 0xFF;
        let subclass = (class_rev >> 16) & 0xFF;
        if class_code == 0x03 || (class_code == 0x00 && subclass == 0x01) {
            let device = (read_header(snapshot, bus, slot, func, 0) >> 16) as u16;
            let vendor_id = vendor as u16;
            let mut gpu = GpuDevice::new(vendor_id, device, bus as u8, slot as u8, func as u8);
            let bar0 = read_header(snapshot, bus, slot, func, 4);
            if bar0 & 0x1 == 0 {
                let base = bar0 & 0xFFFF_FFF0;
                gpu.mmio_base = Some(base as u64);
                gpu.framebuffer_base = Some(base as u64);
            }
            let bar2 = read_header(snapshot, bus, slot, func, 6);
            if bar2 != 0 && bar2 & 0x1 == 0 && gpu.framebuffer_base.is_none() {
                gpu.framebuffer_base = Some((bar2 & 0xFFFF_FFF0) as u64);
            }
            gpu.revision = (class_rev & 0xFF) as u8;
            return Some(gpu);
        }
        func = func + 1;
    }
    None
}

/// Plain linear-framebuffer driver used when no hardware driver applies.
pub struct FallbackFbDriver {
    fb: u64,
    mode: GpuMode,
    backbuffer: Vec<u8>,
    caps: GpuCaps,
}

impl FallbackFbDriver {
    /// A 32-bit mode of the given size over the framebuffer at `fb`, with a
    /// zeroed backbuffer.
    pub fn new(fb: u64, width: usize, height: usize) -> (d: Self)
        requires
            width * height * 4 <= usize::MAX,
            height * (width * 4) + width * 4 + 4 <= usize::MAX,
        ensures
            d.inv(),
            d.mode_view() == (GpuMode {
                width,
                height,
                bpp: 32,
                pitch: (width * 4) as usize,
                framebuffer_addr: fb,
                framebuffer_size: (width * height * 4) as usize,
                double_buffered: false,
            }),
            d.frame() == Seq::new((width * height * 4) as nat, |i: int| 0u8),
            d.caps_view() == GpuCaps::FRAMEBUFFER,
            d.target() == fb,
            d.family_view() == GpuFamily::StandardVGA,
    {
        let size = width * height * 4;
        let d = FallbackFbDriver {
            fb,
            mode: GpuMode {
                width,
                height,
                bpp: 32,
                pitch: width * 4,
                framebuffer_addr: fb,
                framebuffer_size: size,
                double_buffered: false,
            },
            backbuffer: vec![0u8; size],
            caps: GpuCaps(GpuCaps::FRAMEBUFFER),
        };
        assert(d.backbuffer@ =~= Seq::new((width * height * 4) as nat, |i: int| 0u8));
        d
    }
}

impl GpuDriver for FallbackFbDriver {
    closed spec fn inv(&self) -> bool {
        driver_frame_ok(self.mode, self.pixel_bytes())
    }

    closed spec fn mode_view(&self) -> GpuMode {
        self.mode
    }

    closed spec fn frame(&self) -> Seq<u8> {
        self.backbuffer@
    }

    closed spec fn pixel_bytes(&self) -> int {
        self.mode.bpp as int / 8
    }

    closed spec fn writes_alpha(&self) -> bool {
        true
    }

    closed spec fn copies_blocks(&self) -> bool {
        false
    }

    closed spec fn family_view(&self) -> GpuFamily {
        GpuFamily::StandardVGA
    }

    closed spec fn caps_view(&self) -> u32 {
        self.caps.0
    }

    closed spec fn target(&self) -> u64 {
        self.fb
    }

    closed spec fn is_enabled(&self) -> bool {
        true
    }

    /// The fallback keeps the mode it was built with.
    fn init(&mut self, _mode: &GpuMode) -> (r: Result<(), &'static str>)
        ensures
            *final(self) == *old(self),
    {
        Ok(())
    }

    fn current_mode(&self) -> (m: GpuMode) {
        self.mode
    }

    fn clear(&mut self, color: Color) {
        let mode = self.mode;
        let bpp = (mode.bpp as usize) / 8;
        clear_bytes(&mut self.backbuffer, &mode, bpp, true, color);
    }

    fn put_pixel(&mut self, x: usize, y: usize, color: Color) {
        let mode = self.mode;
        let bpp = (mode.bpp as usize) / 8;
        put_pixel_bytes(&mut self.backbuffer, &mode, bpp, false, x, y, color);
    }

    fn fill_rect(&mut self, rect: Rect, color: Color) {
        let mode = self.mode;
        let bpp = (mode.bpp as usize) / 8;
        fill_rect_bytes(&mut self.backbuffer, &mode, bpp, false, rect, color);
    }

    fn blit(&mut self, _src_x: usize, _src_y: usize, _dst_x: usize, _dst_y: usize, _w: usize, _h: usize) {
    }

    fn capabilities(&self) -> (c: GpuCaps) {
        self.caps
    }

    fn family(&self) -> (f: GpuFamily) {
        GpuFamily::StandardVGA
    }

    fn raw_framebuffer(&self) -> (b: &Vec<u8>) {
        &self.backbuffer
    }

    fn framebuffer_address(&self) -> (a: u64) {
        self.fb
    }

    fn enabled(&self) -> (e: bool) {
        true
    }
}

} // verus!
