use vstd::prelude::*;
use crate::gpu::family::{GpuFamily, GpuVendor, family_vendor};
use crate::gpu::framebuffer::GpuMode;
use crate::gpu::drivers::{
    BochsVbeDriver, NvidiaMmioDriver, AtiMmioDriver, VoodooBansheeDriver, IntelGfxDriver,
    VmwareSvgaDriver, CirrusVgaDriver, VirtioGpuDriver,
};
use crate::gpu::{GpuDevice, GpuDriver, FallbackFbDriver, mode_supported};

verus! {

/// VMware SVGA adapters.
pub open spec fn is_vmware_spec(f: GpuFamily) -> bool {
    f == GpuFamily::VMWareSVGA || f == GpuFamily::VMWareSVGA3
}

/// VirtIO GPUs.
pub open spec fn is_virtio_spec(f: GpuFamily) -> bool {
    f == GpuFamily::VirtIOGPU || f == GpuFamily::VirtIOGPU3D
}

/// Nvidia families the MMIO driver binds to: every Nvidia family except the
/// mobile Go parts and the GeForce 7400/7500.
pub open spec fn is_nvidia_spec(f: GpuFamily) -> bool {
    &&& family_vendor(f) == GpuVendor::Nvidia
    &&& f != GpuFamily::GeForce4Go
    &&& f != GpuFamily::GeForceFXGo
    &&& f != GpuFamily::GeForce6Go
    &&& f != GpuFamily::GeForce7400
    &&& f != GpuFamily::GeForce7500
}

fn is_vmware_family(family: GpuFamily) -> (r: bool)
    ensures
        r == is_vmware_spec(family),
{
    matches!(family, GpuFamily::VMWareSVGA | GpuFamily::VMWareSVGA3)
}

fn is_cirrus_family(family: GpuFamily) -> (r: bool)
    ensures
        r == (family_vendor(family) == GpuVendor::CirrusLogic),
{
    matches!(
        family,
        GpuFamily::CirrusLogic5430
            | GpuFamily::CirrusLogic5446
            | GpuFamily::CirrusLogic5464
            | GpuFamily::CirrusLogic5465
            | GpuFamily::CirrusLogic67200
            | GpuFamily::CirrusLogic7548
    )
}

fn is_virtio_family(family: GpuFamily) -> (r: bool)
    ensures
        r == is_virtio_spec(family),
{
    matches!(family, GpuFamily::VirtIOGPU | GpuFamily::VirtIOGPU3D)
}

fn is_3dfx_family(family: GpuFamily) -> (r: bool)
    ensures
        r == (family_vendor(family) == GpuVendor::ThreeDfx),
{
    matches!(
        family,
        GpuFamily::Voodoo1
            | GpuFamily::Voodoo2
            | GpuFamily::VoodooRush
            | GpuFamily::VoodooBanshee
            | GpuFamily::Voodoo3
            | GpuFamily::Voodoo4
            | GpuFamily::Voodoo5
    )
}

fn is_intel_family(family: GpuFamily) -> (r: bool)
    ensures
        r == (family_vendor(family) == GpuVendor::Intel),
{
    matches!(
        family,
        GpuFamily::Intel740
            | GpuFamily::Intel810
            | GpuFamily::Intel915
            | GpuFamily::IntelGMA3000
            | GpuFamily::IntelGMA3100
            | GpuFamily::IntelGMAX3100
            | GpuFamily::IntelGMAX3500
            | GpuFamily::IntelHDGraphics
            | GpuFamily::IntelHDGraphics2000
            | GpuFamily::IntelHDGraphics2500
            | GpuFamily::IntelHDGraphics3000
            | GpuFamily::IntelHDGraphics4000
            | GpuFamily::IntelHDGraphics4200
            | GpuFamily::IntelHDGraphics4400
            | GpuFamily::IntelHDGraphics4600
            | GpuFamily::IntelHDGraphics5000
            | GpuFamily::IntelHDGraphics5100
            | GpuFamily::IntelHDGraphics5200
            | GpuFamily::IntelHDGraphics5300
            | GpuFamily::IntelHDGraphics5500
            | GpuFamily::IntelHDGraphics6000
            | GpuFamily::IntelHDGraphics6100
            | GpuFamily::IntelHDGraphics615
            | GpuFamily::IntelHDGraphics620
            | GpuFamily::IntelHDGraphics630
            | GpuFamily::IntelHDGraphics640
            | GpuFamily::IntelHDGraphics650
            | GpuFamily::IntelHDGraphicsP630
            | GpuFamily::IntelIrisPlus640
            | GpuFamily::IntelIrisPlus645
            | GpuFamily::IntelIrisPlus650
            | GpuFamily::IntelIrisPro580
            | GpuFamily::IntelIrisXe
            | GpuFamily::IntelIrisXeMax
            | GpuFamily::IntelArcA310
            | GpuFamily::IntelArcA380
            | GpuFamily::IntelArcA580
            | GpuFamily::IntelArcA750
            | GpuFamily::IntelArcA770
            | GpuFamily::IntelArcB580
            | GpuFamily::IntelArcB770
            | GpuFamily::IntelXeLLVM
    )
}

fn is_nvidia_family(family: GpuFamily) -> (r: bool)
    ensures
        r == is_nvidia_spec(family),
{
    matches!(
        family,
        GpuFamily::Nv1
            | GpuFamily::Nv2
            | GpuFamily::Nv3
            | GpuFamily::Nv4
            | GpuFamily::Nv5
            | GpuFamily::Riva128
            | GpuFamily::Riva128ZX
            | GpuFamily::RivaTNT
            | GpuFamily::RivaTNT2
            | GpuFamily::GeForce256
            | GpuFamily::GeForceDDR
            | GpuFamily::GeForce2
            | GpuFamily::GeForce2MX
            | GpuFamily::GeForce2GTS
            | GpuFamily::GeForce2Ultra
            | GpuFamily::GeForce2Go
            | GpuFamily::GeForce3
            | GpuFamily::GeForce3Ti
            | GpuFamily::GeForce4
            | GpuFamily::GeForce4MX
            | GpuFamily::GeForce4Ti
            | GpuFamily::GeForceFX
            | GpuFamily::GeForceFX5200
            | GpuFamily::GeForceFX5600
            | GpuFamily::GeForceFX5700
            | GpuFamily::GeForceFX5800
            | GpuFamily::GeForceFX5900
            | GpuFamily::GeForceFX5950
            | GpuFamily::GeForce6
            | GpuFamily::GeForce6200
            | GpuFamily::GeForce6600
            | GpuFamily::GeForce6800
            | GpuFamily::GeForce7
            | GpuFamily::GeForce7300
            | GpuFamily::GeForce7600
            | GpuFamily::GeForce7800
            | GpuFamily::GeForce7900
            | GpuFamily::GeForce7950
            | GpuFamily::GeForce8
            | GpuFamily::GeForce8300
            | GpuFamily::GeForce8400
            | GpuFamily::GeForce8500
            | GpuFamily::GeForce8600
            | GpuFamily::GeForce8800
            | GpuFamily::GeForce9
            | GpuFamily::GeForce9600
            | GpuFamily::GeForce9800
            | GpuFamily::GeForceGTX200
            | GpuFamily::GTX260
            | GpuFamily::GTX280
            | GpuFamily::GTX285
            | GpuFamily::GTX295
            | GpuFamily::GeForceGTX400
            | GpuFamily::GTX460
            | GpuFamily::GTX465
            | GpuFamily::GTX470
            | GpuFamily::GTX480
            | GpuFamily::GeForceGTX500
            | GpuFamily::GTX550
            | GpuFamily::GTX560
            | GpuFamily::GTX570
            | GpuFamily::GTX580
            | GpuFamily::GTX590
            | GpuFamily::GeForceGTX600
            | GpuFamily::GTX650
            | GpuFamily::GTX660
            | GpuFamily::GTX670
            | GpuFamily::GTX680
            | GpuFamily::GTX690
            | GpuFamily::GeForceGTX700
            | GpuFamily::GTX760
            | GpuFamily::GTX770
            | GpuFamily::GTX780
            | GpuFamily::GTX780Ti
            | GpuFamily::GTXTitan
            | GpuFamily::GeForceGTX900
            | GpuFamily::GTX960
            | GpuFamily::GTX970
            | GpuFamily::GTX980
            | GpuFamily::GTX980Ti
            | GpuFamily::GTXTitanX
            | GpuFamily::GeForceGTX10
            | GpuFamily::GTX1050
            | GpuFamily::GTX1060
            | GpuFamily::GTX1070
            | GpuFamily::GTX1080
            | GpuFamily::GTX1080Ti
            | GpuFamily::GTXTitanXP
            | GpuFamily::GeForceGTX16
            | GpuFamily::GTX1650
            | GpuFamily::GTX1660
            | GpuFamily::GTX1660Super
            | GpuFamily::GTX1660Ti
            | GpuFamily::GeForceRTX20
            | GpuFamily::RTX2060
            | GpuFamily::RTX2070
            | GpuFamily::RTX2080
            | GpuFamily::RTX2080Ti
            | GpuFamily::TitanRTX
            | GpuFamily::GeForceRTX30
            | GpuFamily::RTX3060
            | GpuFamily::RTX3070
            | GpuFamily::RTX3080
            | GpuFamily::RTX3090
            | GpuFamily::RTX3090Ti
            | GpuFamily::GeForceRTX40
            | GpuFamily::RTX4060
            | GpuFamily::RTX4070
            | GpuFamily::RTX4080
            | GpuFamily::RTX4090
            | GpuFamily::GeForceRTX50
            | GpuFamily::RTX5060
            | GpuFamily::RTX5070
            | GpuFamily::RTX5080
            | GpuFamily::RTX5090
            | GpuFamily::NvidiaQuadro
            | GpuFamily::NvidiaTesla
    )
}

fn is_ati_family(family: GpuFamily) -> (r: bool)
    ensures
        r == (family_vendor(family) == GpuVendor::AtiAmd),
{
    matches!(
        family,
        GpuFamily::RagePro
            | GpuFamily::RageXL
            | GpuFamily::RageFury
            | GpuFamily::Rage128
            | GpuFamily::Rage128VR
            | GpuFamily::Rage128GL
            | GpuFamily::Rage128Pro
            | GpuFamily::Radeon7000
            | GpuFamily::Radeon7200
            | GpuFamily::Radeon7500
            | GpuFamily::Radeon8500
            | GpuFamily::Radeon8500LE
            | GpuFamily::Radeon9000
            | GpuFamily::Radeon9100
            | GpuFamily::Radeon9200
            | GpuFamily::Radeon9500
            | GpuFamily::Radeon9550
            | GpuFamily::Radeon9600
            | GpuFamily::Radeon9700
            | GpuFamily::Radeon9700Pro
            | GpuFamily::Radeon9800
            | GpuFamily::Radeon9800Pro
            | GpuFamily::RadeonX300
            | GpuFamily::RadeonX600
            | GpuFamily::RadeonX700
            | GpuFamily::RadeonX800
            | GpuFamily::RadeonX850
            | GpuFamily::RadeonX1300
            | GpuFamily::RadeonX1600
            | GpuFamily::RadeonX1800
            | GpuFamily::RadeonX1900
            | GpuFamily::RadeonX1950
            | GpuFamily::RadeonHD2400
            | GpuFamily::RadeonHD2600
            | GpuFamily::RadeonHD2900
            | GpuFamily::RadeonHD3450
            | GpuFamily::RadeonHD3650
            | GpuFamily::RadeonHD3850
            | GpuFamily::RadeonHD3870
            | GpuFamily::RadeonHD4350
            | GpuFamily::RadeonHD4550
            | GpuFamily::RadeonHD4650
            | GpuFamily::RadeonHD4670
            | GpuFamily::RadeonHD4770
            | GpuFamily::RadeonHD4830
            | GpuFamily::RadeonHD4850
            | GpuFamily::RadeonHD4870
            | GpuFamily::RadeonHD4870X2
            | GpuFamily::RadeonHD5450
            | GpuFamily::RadeonHD5570
            | GpuFamily::RadeonHD5670
            | GpuFamily::RadeonHD5750
            | GpuFamily::RadeonHD5770
            | GpuFamily::RadeonHD5830
            | GpuFamily::RadeonHD5850
            | GpuFamily::RadeonHD5870
            | GpuFamily::RadeonHD5970
            | GpuFamily::RadeonHD6450
            | GpuFamily::RadeonHD6570
            | GpuFamily::RadeonHD6670
            | GpuFamily::RadeonHD6750
            | GpuFamily::RadeonHD6770
            | GpuFamily::RadeonHD6790
            | GpuFamily::RadeonHD6850
            | GpuFamily::RadeonHD6870
            | GpuFamily::RadeonHD6950
            | GpuFamily::RadeonHD6970
            | GpuFamily::RadeonHD6990
            | GpuFamily::RadeonHD7750
            | GpuFamily::RadeonHD7770
            | GpuFamily::RadeonHD7850
            | GpuFamily::RadeonHD7870
            | GpuFamily::RadeonHD7950
            | GpuFamily::RadeonHD7970
            | GpuFamily::RadeonHD7990
            | GpuFamily::RadeonR7240
            | GpuFamily::RadeonR7250
            | GpuFamily::RadeonR7260
            | GpuFamily::RadeonR7270
            | GpuFamily::RadeonR7280
            | GpuFamily::RadeonR9280
            | GpuFamily::RadeonR9290
            | GpuFamily::RadeonR9290X
            | GpuFamily::RadeonR9390
            | GpuFamily::RadeonR9390X
            | GpuFamily::RadeonR7460
            | GpuFamily::RadeonR7470
            | GpuFamily::RadeonR7480
            | GpuFamily::RadeonR7570
            | GpuFamily::RadeonR7580
            | GpuFamily::RadeonR7590
            | GpuFamily::RadeonRX460
            | GpuFamily::RadeonRX470
            | GpuFamily::RadeonRX480
            | GpuFamily::RadeonRX550
            | GpuFamily::RadeonRX560
            | GpuFamily::RadeonRX570
            | GpuFamily::RadeonRX580
            | GpuFamily::RadeonRX590
            | GpuFamily::RadeonRX5500
            | GpuFamily::RadeonRX5600
            | GpuFamily::RadeonRX5700
            | GpuFamily::RadeonRX6400
            | GpuFamily::RadeonRX6500XT
            | GpuFamily::RadeonRX6600
            | GpuFamily::RadeonRX6700XT
            | GpuFamily::RadeonRX6800
            | GpuFamily::RadeonRX6800XT
            | GpuFamily::RadeonRX6900XT
            | GpuFamily::RadeonRX7600
            | GpuFamily::RadeonRX7700XT
            | GpuFamily::RadeonRX7800XT
            | GpuFamily::RadeonRX7900GRE
            | GpuFamily::RadeonRX7900XT
            | GpuFamily::RadeonRX7900XTX
            | GpuFamily::RadeonRX9070
            | GpuFamily::RadeonRX9070XT
            | GpuFamily::AMDFirePro
            | GpuFamily::AMDInstinct
    )
}

/// Which driver is bound to a device.
#[derive(Debug, Clone, Copy, PartialEq, Eq, Structural)]
pub enum DriverKind {
    Unbound,
    BochsVbe,
    Nvidia,
    Ati,
    Voodoo,
    Intel,
    Vmware,
    Cirrus,
    Virtio,
    Fallback,
}

/// Facts about the hardware that driver binding depends on, read by the
/// platform layer before binding.
#[derive(Debug, Clone, Copy)]
pub struct BindProbe {
    /// The Bochs VBE interface answered its identification register.
    pub bochs_vbe_present: bool,
    /// Value of the VMware SVGA identification register (all ones when absent).
    pub svga_id: u32,
}

/// The driver bound to a device: the family's driver when its requirements
/// hold (a present VBE interface, an MMIO BAR for the MMIO drivers, an answering
/// SVGA adapter), the framebuffer fallback otherwise.
pub open spec fn chosen_driver(f: GpuFamily, has_mmio: bool, probe: BindProbe) -> DriverKind {
    if f == GpuFamily::BochsVBE && probe.bochs_vbe_present {
        DriverKind::BochsVbe
    } else if is_nvidia_spec(f) {
        if has_mmio { DriverKind::Nvidia } else { DriverKind::Fallback }
    } else if family_vendor(f) == GpuVendor::AtiAmd {
        if has_mmio { DriverKind::Ati } else { DriverKind::Fallback }
    } else if family_vendor(f) == GpuVendor::ThreeDfx {
        if has_mmio { DriverKind::Voodoo } else { DriverKind::Fallback }
    } else if family_vendor(f) == GpuVendor::Intel {
        if has_mmio { DriverKind::Intel } else { DriverKind::Fallback }
    } else if is_vmware_spec(f) {
        if has_mmio && probe.svga_id != 0xFFFF_FFFF { DriverKind::Vmware } else { DriverKind::Fallback }
    } else if family_vendor(f) == GpuVendor::CirrusLogic {
        DriverKind::Cirrus
    } else if is_virtio_spec(f) {
        DriverKind::Virtio
    } else {
        DriverKind::Fallback
    }
}

/// The driver a device gets follows its family: an Nvidia, ATI, 3dfx or
/// Intel device gets its vendor's MMIO driver when it has an MMIO BAR and
/// the fallback without; a VMware adapter the SVGA driver when it has one
/// and answers; Cirrus and VirtIO devices their drivers; a Bochs VBE device
/// the VBE driver when the interface is present; every other family the
/// framebuffer fallback.
pub proof fn lemma_driver_by_family(f: GpuFamily, has_mmio: bool, probe: BindProbe)
    ensures
        f == GpuFamily::BochsVBE ==> chosen_driver(f, has_mmio, probe)
            == (if probe.bochs_vbe_present { DriverKind::BochsVbe } else { DriverKind::Fallback }),
        is_nvidia_spec(f) ==> chosen_driver(f, has_mmio, probe)
            == (if has_mmio { DriverKind::Nvidia } else { DriverKind::Fallback }),
        family_vendor(f) == GpuVendor::AtiAmd ==> chosen_driver(f, has_mmio, probe)
            == (if has_mmio { DriverKind::Ati } else { DriverKind::Fallback }),
        family_vendor(f) == GpuVendor::ThreeDfx ==> chosen_driver(f, has_mmio, probe)
            == (if has_mmio { DriverKind::Voodoo } else { DriverKind::Fallback }),
        family_vendor(f) == GpuVendor::Intel ==> chosen_driver(f, has_mmio, probe)
            == (if has_mmio { DriverKind::Intel } else { DriverKind::Fallback }),
        is_vmware_spec(f) ==> chosen_driver(f, has_mmio, probe)
            == (if has_mmio && probe.svga_id != 0xFFFF_FFFF { DriverKind::Vmware } else { DriverKind::Fallback }),
        family_vendor(f) == GpuVendor::CirrusLogic ==> chosen_driver(f, has_mmio, probe) == DriverKind::Cirrus,
        is_virtio_spec(f) ==> chosen_driver(f, has_mmio, probe) == DriverKind::Virtio,
        f != GpuFamily::BochsVBE && !is_nvidia_spec(f) && family_vendor(f) != GpuVendor::AtiAmd
            && family_vendor(f) != GpuVendor::ThreeDfx && family_vendor(f) != GpuVendor::Intel
            && !is_vmware_spec(f) && family_vendor(f) != GpuVendor::CirrusLogic && !is_virtio_spec(f)
            ==> chosen_driver(f, has_mmio, probe) == DriverKind::Fallback,
{
}

/// The mode drivers are bound with: `w` x `h` at 32 bits per pixel.
pub open spec fn bind_mode(device: GpuDevice, fb: u64, w: usize, h: usize) -> GpuMode {
    GpuMode {
        width: w,
        height: h,
        bpp: 32,
        pitch: (w * 4) as usize,
        framebuffer_addr: match device.framebuffer_base {
            Some(b) => b,
            None => fb,
        },
        framebuffer_size: (w * h * 4) as usize,
        double_buffered: false,
    }
}

/// The mode of the framebuffer fallback: `w` x `h` at 32 bits per pixel over
/// the framebuffer at `fb`.
pub open spec fn fallback_mode(fb: u64, w: usize, h: usize) -> GpuMode {
    GpuMode {
        width: w,
        height: h,
        bpp: 32,
        pitch: (w * 4) as usize,
        framebuffer_addr: fb,
        framebuffer_size: (w * h * 4) as usize,
        double_buffered: false,
    }
}

/// The concrete driver bound to a GPU.
pub enum ConcreteGpuDriver {
    Unbound,
    BochsVbe(BochsVbeDriver),
    Nvidia(NvidiaMmioDriver),
    Ati(AtiMmioDriver),
    Voodoo(VoodooBansheeDriver),
    Intel(IntelGfxDriver),
    Vmware(VmwareSvgaDriver),
    Cirrus(CirrusVgaDriver),
    Virtio(VirtioGpuDriver),
    Fallback(FallbackFbDriver),
}

impl ConcreteGpuDriver {
    pub open spec fn kind(&self) -> DriverKind {
        match self {
            ConcreteGpuDriver::Unbound => DriverKind::Unbound,
            ConcreteGpuDriver::BochsVbe(_) => DriverKind::BochsVbe,
            ConcreteGpuDriver::Nvidia(_) => DriverKind::Nvidia,
            ConcreteGpuDriver::Ati(_) => DriverKind::Ati,
            ConcreteGpuDriver::Voodoo(_) => DriverKind::Voodoo,
            ConcreteGpuDriver::Intel(_) => DriverKind::Intel,
            ConcreteGpuDriver::Vmware(_) => DriverKind::Vmware,
            ConcreteGpuDriver::Cirrus(_) => DriverKind::Cirrus,
            ConcreteGpuDriver::Virtio(_) => DriverKind::Virtio,
            ConcreteGpuDriver::Fallback(_) => DriverKind::Fallback,
        }
    }

    /// The bound driver keeps its offset invariant (false for `None`).
    pub open spec fn bound_inv(&self) -> bool {
        match self {
            ConcreteGpuDriver::Unbound => false,
            ConcreteGpuDriver::BochsVbe(d) => d.inv(),
            ConcreteGpuDriver::Nvidia(d) => d.inv(),
            ConcreteGpuDriver::Ati(d) => d.inv(),
            ConcreteGpuDriver::Voodoo(d) => d.inv(),
            ConcreteGpuDriver::Intel(d) => d.inv(),
            ConcreteGpuDriver::Vmware(d) => d.inv(),
            ConcreteGpuDriver::Cirrus(d) => d.inv(),
            ConcreteGpuDriver::Virtio(d) => d.inv(),
            ConcreteGpuDriver::Fallback(d) => d.inv(),
        }
    }

    /// Mode of the bound driver (arbitrary for `None`).
    pub open spec fn bound_mode(&self) -> GpuMode {
        match self {
            ConcreteGpuDriver::Unbound => arbitrary(),
            ConcreteGpuDriver::BochsVbe(d) => d.mode_view(),
            ConcreteGpuDriver::Nvidia(d) => d.mode_view(),
            ConcreteGpuDriver::Ati(d) => d.mode_view(),
            ConcreteGpuDriver::Voodoo(d) => d.mode_view(),
            ConcreteGpuDriver::Intel(d) => d.mode_view(),
            ConcreteGpuDriver::Vmware(d) => d.mode_view(),
            ConcreteGpuDriver::Cirrus(d) => d.mode_view(),
            ConcreteGpuDriver::Virtio(d) => d.mode_view(),
            ConcreteGpuDriver::Fallback(d) => d.mode_view(),
        }
    }

    /// Backbuffer of the bound driver.
    pub open spec fn bound_frame(&self) -> Seq<u8> {
        match self {
            ConcreteGpuDriver::Unbound => Seq::empty(),
            ConcreteGpuDriver::BochsVbe(d) => d.frame(),
            ConcreteGpuDriver::Nvidia(d) => d.frame(),
            ConcreteGpuDriver::Ati(d) => d.frame(),
            ConcreteGpuDriver::Voodoo(d) => d.frame(),
            ConcreteGpuDriver::Intel(d) => d.frame(),
            ConcreteGpuDriver::Vmware(d) => d.frame(),
            ConcreteGpuDriver::Cirrus(d) => d.frame(),
            ConcreteGpuDriver::Virtio(d) => d.frame(),
            ConcreteGpuDriver::Fallback(d) => d.frame(),
        }
    }

    /// Presentation address of the bound driver.
    pub open spec fn bound_target(&self) -> u64 {
        match self {
            ConcreteGpuDriver::Unbound => 0,
            ConcreteGpuDriver::BochsVbe(d) => d.target(),
            ConcreteGpuDriver::Nvidia(d) => d.target(),
            ConcreteGpuDriver::Ati(d) => d.target(),
            ConcreteGpuDriver::Voodoo(d) => d.target(),
            ConcreteGpuDriver::Intel(d) => d.target(),
            ConcreteGpuDriver::Vmware(d) => d.target(),
            ConcreteGpuDriver::Cirrus(d) => d.target(),
            ConcreteGpuDriver::Virtio(d) => d.target(),
            ConcreteGpuDriver::Fallback(d) => d.target(),
        }
    }

    /// Family reported by the bound driver.
    pub open spec fn bound_family(&self) -> GpuFamily {
        match self {
            ConcreteGpuDriver::Unbound => GpuFamily::Unknown,
            ConcreteGpuDriver::BochsVbe(d) => d.family_view(),
            ConcreteGpuDriver::Nvidia(d) => d.family_view(),
            ConcreteGpuDriver::Ati(d) => d.family_view(),
            ConcreteGpuDriver::Voodoo(d) => d.family_view(),
            ConcreteGpuDriver::Intel(d) => d.family_view(),
            ConcreteGpuDriver::Vmware(d) => d.family_view(),
            ConcreteGpuDriver::Cirrus(d) => d.family_view(),
            ConcreteGpuDriver::Virtio(d) => d.family_view(),
            ConcreteGpuDriver::Fallback(d) => d.family_view(),
        }
    }

    /// Chooses the driver for `device`, builds it over the device's framebuffer
    /// (or `fb` when the device has none) and initialises it with a `w` x `h`
    /// 32-bit mode; unsupported devices get the framebuffer fallback.
    pub fn detect_and_bind(device: &GpuDevice, fb: u64, desired_w: usize, desired_h: usize, probe: BindProbe) -> (d: Self)
        requires
            desired_w * desired_h * 4 <= usize::MAX,
            desired_h * (desired_w * 4) + desired_w * 4 + 4 <= usize::MAX,
        ensures
            d.kind() == chosen_driver(device.family, device.mmio_base is Some, probe),
            d.bound_inv(),
            d.kind() != DriverKind::Fallback ==> d.bound_mode() == bind_mode(*device, fb, desired_w, desired_h),
            d.kind() == DriverKind::Fallback ==> d.bound_mode() == fallback_mode(fb, desired_w, desired_h),
            d.bound_frame() == Seq::new((desired_w * desired_h * 4) as nat, |i: int| 0u8),
            d.kind() != DriverKind::Fallback && d.kind() != DriverKind::BochsVbe ==> d.bound_family() == device.family,
            d.kind() == DriverKind::Fallback ==> d.bound_target() == fb,
    {
        let mode = GpuMode {
            width: desired_w,
            height: desired_h,
            bpp: 32,
            pitch: desired_w * 4,
            framebuffer_addr: match device.framebuffer_base {
                Some(b) => b,
                None => fb,
            },
            framebuffer_size: desired_w * desired_h * 4,
            double_buffered: false,
        };
        assert(mode_supported(mode));
        let family = device.family;
        let fb_base = match device.framebuffer_base {
            Some(b) => b,
            None => fb,
        };
        if family == GpuFamily::BochsVBE && probe.bochs_vbe_present {
            let mut drv = BochsVbeDriver::new(fb);
            let _ = drv.init(&mode);
            return ConcreteGpuDriver::BochsVbe(drv);
        }
        if is_nvidia_family(family) {
            return match device.mmio_base {
                Some(mmio_base) => {
                    let mut drv = NvidiaMmioDriver::new(mmio_base, fb_base, family);
                    let _ = drv.init(&mode);
                    ConcreteGpuDriver::Nvidia(drv)
                },
                None => Self::fallback(fb, mode),
            };
        }
        if is_ati_family(family) {
            return match device.mmio_base {
                Some(mmio_base) => {
                    let mut drv = AtiMmioDriver::new(mmio_base, fb_base, family);
                    let _ = drv.init(&mode);
                    ConcreteGpuDriver::Ati(drv)
                },
                None => Self::fallback(fb, mode),
            };
        }
        if is_3dfx_family(family) {
            return match device.mmio_base {
                Some(mmio_base) => {
                    let mut drv = VoodooBansheeDriver::new(mmio_base, fb_base, family);
                    let _ = drv.init(&mode);
                    ConcreteGpuDriver::Voodoo(drv)
                },
                None => Self::fallback(fb, mode),
            };
        }
        if is_intel_family(family) {
            return match device.mmio_base {
                Some(mmio_base) => {
                    let mut drv = IntelGfxDriver::new(mmio_base, fb_base, family);
                    let _ = drv.init(&mode);
                    ConcreteGpuDriver::Intel(drv)
                },
                None => Self::fallback(fb, mode),
            };
        }
        if is_vmware_family(family) {
            return match device.mmio_base {
                Some(mmio_base) => {
                    if probe.svga_id == 0xFFFF_FFFF {
                        Self::fallback(fb, mode)
                    } else {
                        let mut drv = VmwareSvgaDriver::new(mmio_base, fb_base, family);
                        let _ = drv.init(&mode);
                        ConcreteGpuDriver::Vmware(drv)
                    }
                },
                None => Self::fallback(fb, mode),
            };
        }
        if is_cirrus_family(family) {
            let mut drv = CirrusVgaDriver::new(fb, family);
            let _ = drv.init(&mode);
            return ConcreteGpuDriver::Cirrus(drv);
        }
        if is_virtio_family(family) {
            let mut drv = VirtioGpuDriver::new(fb_base, family);
            let _ = drv.init(&mode);
            return ConcreteGpuDriver::Virtio(drv);
        }
        Self::fallback(fb, mode)
    }

    /// The mode of the bound driver; none when unbound.
    pub fn current_mode(&self) -> (m: Option<GpuMode>)
        ensures
            self.kind() == DriverKind::Unbound ==> m is None,
            self.kind() != DriverKind::Unbound ==> m == Some(self.bound_mode()),
    {
        match self {
            ConcreteGpuDriver::Unbound => None,
            ConcreteGpuDriver::BochsVbe(d) => Some(d.current_mode()),
            ConcreteGpuDriver::Nvidia(d) => Some(d.current_mode()),
            ConcreteGpuDriver::Ati(d) => Some(d.current_mode()),
            ConcreteGpuDriver::Voodoo(d) => Some(d.current_mode()),
            ConcreteGpuDriver::Intel(d) => Some(d.current_mode()),
            ConcreteGpuDriver::Vmware(d) => Some(d.current_mode()),
            ConcreteGpuDriver::Cirrus(d) => Some(d.current_mode()),
            ConcreteGpuDriver::Virtio(d) => Some(d.current_mode()),
            ConcreteGpuDriver::Fallback(d) => Some(d.current_mode()),
        }
    }

    /// The framebuffer fallback over `fb`, sized like `mode`.
    fn fallback(fb: u64, mode: GpuMode) -> (d: Self)
        requires
            mode.width * mode.height * 4 <= usize::MAX,
            mode.height * (mode.width * 4) + mode.width * 4 + 4 <= usize::MAX,
            mode_supported(mode),
        ensures
            d.kind() == DriverKind::Fallback,
            d.bound_inv(),
            d.bound_target() == fb,
            d.bound_mode() == fallback_mode(fb, mode.width, mode.height),
            d.bound_frame() == Seq::new((mode.width * mode.height * 4) as nat, |i: int| 0u8),
    {
        let mut drv = FallbackFbDriver::new(fb, mode.width, mode.height);
        let _ = drv.init(&mode);
        ConcreteGpuDriver::Fallback(drv)
    }
}

} // verus!
