use vstd::prelude::*;
use crate::gpu::family::GpuFamily;
use crate::strings::str_eq;

verus! {

/// A set of GPU feature flags, one bit per feature.
#[derive(Debug, Clone, Copy)]
pub struct GpuCaps(pub u32);

impl GpuCaps {
    /// No flag.
    pub const NONE: u32 = 0;
    pub const HARDWARE_CURSOR: u32 = 1 << 0;
    pub const ACCEL_2D: u32 = 1 << 1;
    pub const ACCEL_3D: u32 = 1 << 2;
    pub const HARDWARE_BLT: u32 = 1 << 3;
    pub const DOUBLE_BUFFER: u32 = 1 << 4;
    pub const HARDWARE_Z: u32 = 1 << 5;
    pub const TEXTURE_UNITS: u32 = 1 << 6;
    pub const TRILINEAR: u32 = 1 << 7;
    pub const ANTI_ALIASING: u32 = 1 << 8;
    pub const SHADER_V2: u32 = 1 << 9;
    pub const VERTEX_PROGRAM: u32 = 1 << 10;
    pub const FRAMEBUFFER: u32 = 1 << 11;
    pub const VBE: u32 = 1 << 12;
    pub const TESSELATION: u32 = 1 << 13;
    pub const COMPUTE: u32 = 1 << 14;
    pub const RAY_TRACING: u32 = 1 << 15;
    pub const DLSS: u32 = 1 << 16;

    /// Every flag of `other` is set in `self`.
    pub fn contains(&self, other: GpuCaps) -> (r: bool)
        ensures
            r == (self.0 & other.0 == other.0),
    {
        (self.0 & other.0) == other.0
    }

    /// The union of both flag sets.
    pub fn merge(self, other: GpuCaps) -> (r: GpuCaps)
        ensures
            r.0 == self.0 | other.0,
    {
        GpuCaps(self.0 | other.0)
    }
}

/// Families of the GeForce 2 MX era and later that share the full fixed-function feature set.
pub open spec fn is_geforce4_plus(family: GpuFamily) -> bool {
    match family {
        GpuFamily::GeForce4MX | GpuFamily::GeForce4Ti | GpuFamily::GeForce4 | GpuFamily::GeForceFX | GpuFamily::GeForceFX5200 | GpuFamily::GeForceFX5600 | GpuFamily::GeForceFX5700 | GpuFamily::GeForceFX5800 | GpuFamily::GeForceFX5900 | GpuFamily::GeForceFX5950 | GpuFamily::GeForce6 | GpuFamily::GeForce6200 | GpuFamily::GeForce6600 | GpuFamily::GeForce6800 | GpuFamily::GeForce7 | GpuFamily::GeForce7300 | GpuFamily::GeForce7400 | GpuFamily::GeForce7600 | GpuFamily::GeForce7800 | GpuFamily::GeForce7900 | GpuFamily::GeForce7950 | GpuFamily::GeForce8 | GpuFamily::GeForce8300 | GpuFamily::GeForce8400 | GpuFamily::GeForce8500 | GpuFamily::GeForce8600 | GpuFamily::GeForce8800 | GpuFamily::GeForce9 | GpuFamily::GeForce9600 | GpuFamily::GeForce9800 | GpuFamily::GeForceGTX200 | GpuFamily::GTX260 | GpuFamily::GTX280 | GpuFamily::GTX285 | GpuFamily::GTX295 | GpuFamily::GeForceGTX400 | GpuFamily::GTX460 | GpuFamily::GTX465 | GpuFamily::GTX470 | GpuFamily::GTX480 | GpuFamily::GeForceGTX500 | GpuFamily::GTX550 | GpuFamily::GTX560 | GpuFamily::GTX570 | GpuFamily::GTX580 | GpuFamily::GTX590 | GpuFamily::GeForceGTX600 | GpuFamily::GTX650 | GpuFamily::GTX660 | GpuFamily::GTX670 | GpuFamily::GTX680 | GpuFamily::GTX690 | GpuFamily::GeForceGTX700 | GpuFamily::GTX760 | GpuFamily::GTX770 | GpuFamily::GTX780 | GpuFamily::GTX780Ti | GpuFamily::GTXTitan | GpuFamily::GeForceGTX900 | GpuFamily::GTX960 | GpuFamily::GTX970 | GpuFamily::GTX980 | GpuFamily::GTX980Ti | GpuFamily::GTXTitanX | GpuFamily::GeForceGTX10 | GpuFamily::GTX1050 | GpuFamily::GTX1060 | GpuFamily::GTX1070 | GpuFamily::GTX1080 | GpuFamily::GTX1080Ti | GpuFamily::GTXTitanXP | GpuFamily::GeForceGTX16 | GpuFamily::GTX1650 | GpuFamily::GTX1660 | GpuFamily::GTX1660Super | GpuFamily::GTX1660Ti | GpuFamily::GeForceRTX20 | GpuFamily::RTX2060 | GpuFamily::RTX2070 | GpuFamily::RTX2080 | GpuFamily::RTX2080Ti | GpuFamily::TitanRTX | GpuFamily::GeForceRTX30 | GpuFamily::RTX3060 | GpuFamily::RTX3070 | GpuFamily::RTX3080 | GpuFamily::RTX3090 | GpuFamily::RTX3090Ti | GpuFamily::GeForceRTX40 | GpuFamily::RTX4060 | GpuFamily::RTX4070 | GpuFamily::RTX4080 | GpuFamily::RTX4090 | GpuFamily::GeForceRTX50 | GpuFamily::RTX5060 | GpuFamily::RTX5070 | GpuFamily::RTX5080 | GpuFamily::RTX5090 | GpuFamily::NvidiaQuadro | GpuFamily::NvidiaTesla | GpuFamily::GeForce2MX | GpuFamily::GeForce2GTS | GpuFamily::GeForce2Ultra | GpuFamily::GeForce2Go | GpuFamily::GeForce3 | GpuFamily::GeForce3Ti => true,
        _ => false,
    }
}

/// Whether `family` belongs to the named era; "geforce4+" is the only era known.
fn family_belongs_to(family: GpuFamily, era: &str) -> (r: bool)
    ensures
        r == (era@ == "geforce4+"@ && is_geforce4_plus(family)),
{
    if str_eq(era, "geforce4+") {
        match family {
            GpuFamily::GeForce4MX | GpuFamily::GeForce4Ti | GpuFamily::GeForce4 | GpuFamily::GeForceFX | GpuFamily::GeForceFX5200 | GpuFamily::GeForceFX5600 | GpuFamily::GeForceFX5700 | GpuFamily::GeForceFX5800 | GpuFamily::GeForceFX5900 | GpuFamily::GeForceFX5950 | GpuFamily::GeForce6 | GpuFamily::GeForce6200 | GpuFamily::GeForce6600 | GpuFamily::GeForce6800 | GpuFamily::GeForce7 | GpuFamily::GeForce7300 | GpuFamily::GeForce7400 | GpuFamily::GeForce7600 | GpuFamily::GeForce7800 | GpuFamily::GeForce7900 | GpuFamily::GeForce7950 | GpuFamily::GeForce8 | GpuFamily::GeForce8300 | GpuFamily::GeForce8400 | GpuFamily::GeForce8500 | GpuFamily::GeForce8600 | GpuFamily::GeForce8800 | GpuFamily::GeForce9 | GpuFamily::GeForce9600 | GpuFamily::GeForce9800 | GpuFamily::GeForceGTX200 | GpuFamily::GTX260 | GpuFamily::GTX280 | GpuFamily::GTX285 | GpuFamily::GTX295 | GpuFamily::GeForceGTX400 | GpuFamily::GTX460 | GpuFamily::GTX465 | GpuFamily::GTX470 | GpuFamily::GTX480 | GpuFamily::GeForceGTX500 | GpuFamily::GTX550 | GpuFamily::GTX560 | GpuFamily::GTX570 | GpuFamily::GTX580 | GpuFamily::GTX590 | GpuFamily::GeForceGTX600 | GpuFamily::GTX650 | GpuFamily::GTX660 | GpuFamily::GTX670 | GpuFamily::GTX680 | GpuFamily::GTX690 | GpuFamily::GeForceGTX700 | GpuFamily::GTX760 | GpuFamily::GTX770 | GpuFamily::GTX780 | GpuFamily::GTX780Ti | GpuFamily::GTXTitan | GpuFamily::GeForceGTX900 | GpuFamily::GTX960 | GpuFamily::GTX970 | GpuFamily::GTX980 | GpuFamily::GTX980Ti | GpuFamily::GTXTitanX | GpuFamily::GeForceGTX10 | GpuFamily::GTX1050 | GpuFamily::GTX1060 | GpuFamily::GTX1070 | GpuFamily::GTX1080 | GpuFamily::GTX1080Ti | GpuFamily::GTXTitanXP | GpuFamily::GeForceGTX16 | GpuFamily::GTX1650 | GpuFamily::GTX1660 | GpuFamily::GTX1660Super | GpuFamily::GTX1660Ti | GpuFamily::GeForceRTX20 | GpuFamily::RTX2060 | GpuFamily::RTX2070 | GpuFamily::RTX2080 | GpuFamily::RTX2080Ti | GpuFamily::TitanRTX | GpuFamily::GeForceRTX30 | GpuFamily::RTX3060 | GpuFamily::RTX3070 | GpuFamily::RTX3080 | GpuFamily::RTX3090 | GpuFamily::RTX3090Ti | GpuFamily::GeForceRTX40 | GpuFamily::RTX4060 | GpuFamily::RTX4070 | GpuFamily::RTX4080 | GpuFamily::RTX4090 | GpuFamily::GeForceRTX50 | GpuFamily::RTX5060 | GpuFamily::RTX5070 | GpuFamily::RTX5080 | GpuFamily::RTX5090 | GpuFamily::NvidiaQuadro | GpuFamily::NvidiaTesla | GpuFamily::GeForce2MX | GpuFamily::GeForce2GTS | GpuFamily::GeForce2Ultra | GpuFamily::GeForce2Go | GpuFamily::GeForce3 | GpuFamily::GeForce3Ti => true,
            _ => false,
        }
    } else {
        false
    }
}

/// Capability bits of each family.
pub open spec fn capability_bits(family: GpuFamily) -> u32 {
    match family {
        GpuFamily::Voodoo1 | GpuFamily::Voodoo2 | GpuFamily::VoodooRush => {
            GpuCaps::ACCEL_2D | GpuCaps::ACCEL_3D | GpuCaps::DOUBLE_BUFFER | GpuCaps::HARDWARE_CURSOR | GpuCaps::TEXTURE_UNITS
        }
        GpuFamily::VoodooBanshee | GpuFamily::Voodoo3 => {
            GpuCaps::ACCEL_2D | GpuCaps::ACCEL_3D | GpuCaps::DOUBLE_BUFFER | GpuCaps::HARDWARE_CURSOR | GpuCaps::TEXTURE_UNITS
        }
        GpuFamily::Voodoo4 | GpuFamily::Voodoo5 => {
            GpuCaps::ACCEL_2D | GpuCaps::ACCEL_3D | GpuCaps::DOUBLE_BUFFER | GpuCaps::HARDWARE_CURSOR | GpuCaps::TEXTURE_UNITS | GpuCaps::TRILINEAR
        }
        GpuFamily::Nv1 | GpuFamily::Nv2 => GpuCaps::ACCEL_2D | GpuCaps::HARDWARE_CURSOR,
        GpuFamily::Nv3 | GpuFamily::Nv4 | GpuFamily::Riva128 | GpuFamily::Riva128ZX => {
            GpuCaps::ACCEL_2D | GpuCaps::ACCEL_3D | GpuCaps::HARDWARE_CURSOR
        }
        GpuFamily::Nv5 | GpuFamily::RivaTNT | GpuFamily::RivaTNT2 => {
            GpuCaps::ACCEL_2D | GpuCaps::ACCEL_3D | GpuCaps::DOUBLE_BUFFER | GpuCaps::HARDWARE_CURSOR | GpuCaps::TEXTURE_UNITS | GpuCaps::HARDWARE_BLT
        }
        GpuFamily::GeForce256 | GpuFamily::GeForceDDR => {
            GpuCaps::ACCEL_2D | GpuCaps::ACCEL_3D | GpuCaps::DOUBLE_BUFFER | GpuCaps::HARDWARE_CURSOR | GpuCaps::TEXTURE_UNITS | GpuCaps::HARDWARE_BLT | GpuCaps::HARDWARE_Z
        }
        GpuFamily::GeForce2 | GpuFamily::GeForce2MX | GpuFamily::GeForce2GTS |
        GpuFamily::GeForce2Ultra | GpuFamily::GeForce2Go => {
            GpuCaps::ACCEL_2D | GpuCaps::ACCEL_3D | GpuCaps::DOUBLE_BUFFER | GpuCaps::HARDWARE_CURSOR | GpuCaps::TEXTURE_UNITS | GpuCaps::HARDWARE_BLT | GpuCaps::HARDWARE_Z | GpuCaps::TRILINEAR
        }
        GpuFamily::GeForce3 | GpuFamily::GeForce3Ti => {
            GpuCaps::ACCEL_2D | GpuCaps::ACCEL_3D | GpuCaps::DOUBLE_BUFFER | GpuCaps::HARDWARE_CURSOR | GpuCaps::TEXTURE_UNITS | GpuCaps::HARDWARE_BLT | GpuCaps::HARDWARE_Z | GpuCaps::TRILINEAR | GpuCaps::SHADER_V2
        }
        _ if is_geforce4_plus(family) => {
            GpuCaps::ACCEL_2D | GpuCaps::ACCEL_3D | GpuCaps::DOUBLE_BUFFER | GpuCaps::HARDWARE_CURSOR | GpuCaps::TEXTURE_UNITS | GpuCaps::HARDWARE_BLT | GpuCaps::HARDWARE_Z | GpuCaps::TRILINEAR
        }
        GpuFamily::S3Trio64 => GpuCaps::ACCEL_2D | GpuCaps::HARDWARE_CURSOR,
        GpuFamily::S3Virge => {
            GpuCaps::ACCEL_2D | GpuCaps::ACCEL_3D | GpuCaps::HARDWARE_CURSOR
        }
        GpuFamily::S3Savage3D | GpuFamily::S3Savage4 => {
            GpuCaps::ACCEL_2D | GpuCaps::ACCEL_3D | GpuCaps::DOUBLE_BUFFER | GpuCaps::HARDWARE_CURSOR | GpuCaps::TEXTURE_UNITS
        }
        GpuFamily::S3Savage2000 | GpuFamily::S3ChromeS20 | GpuFamily::S3ChromeS25 |
        GpuFamily::S3ChromeS27 | GpuFamily::S3DeltaChrome | GpuFamily::S3GammaChrome => {
            GpuCaps::ACCEL_2D | GpuCaps::ACCEL_3D | GpuCaps::DOUBLE_BUFFER | GpuCaps::HARDWARE_CURSOR | GpuCaps::TEXTURE_UNITS | GpuCaps::HARDWARE_BLT | GpuCaps::HARDWARE_Z
        }
        GpuFamily::MatroxMGA | GpuFamily::MatroxG100 => GpuCaps::ACCEL_2D | GpuCaps::HARDWARE_CURSOR,
        GpuFamily::MatroxG200 | GpuFamily::MatroxG400 | GpuFamily::MatroxG450 | GpuFamily::MatroxG550 => {
            GpuCaps::ACCEL_2D | GpuCaps::ACCEL_3D | GpuCaps::DOUBLE_BUFFER | GpuCaps::HARDWARE_CURSOR | GpuCaps::TEXTURE_UNITS | GpuCaps::HARDWARE_BLT
        }
        GpuFamily::VMWareSVGA | GpuFamily::VMWareSVGA3 | GpuFamily::VirtIOGPU |
        GpuFamily::VirtIOGPU3D | GpuFamily::BochsVBE => {
            GpuCaps::ACCEL_2D | GpuCaps::DOUBLE_BUFFER | GpuCaps::HARDWARE_CURSOR | GpuCaps::HARDWARE_BLT | GpuCaps::FRAMEBUFFER
        }
        GpuFamily::QXL | GpuFamily::VirtualBoxVGA | GpuFamily::HyperVSynthetic => {
            GpuCaps::ACCEL_2D | GpuCaps::DOUBLE_BUFFER | GpuCaps::HARDWARE_CURSOR | GpuCaps::HARDWARE_BLT
        }
        GpuFamily::AST2000 | GpuFamily::AST2100 | GpuFamily::AST2300 |
        GpuFamily::AST2400 | GpuFamily::AST2500 | GpuFamily::AST2600 => {
            GpuCaps::ACCEL_2D | GpuCaps::HARDWARE_CURSOR | GpuCaps::FRAMEBUFFER
        }
        _ => GpuCaps::FRAMEBUFFER | GpuCaps::HARDWARE_CURSOR,
    }
}

/// Capabilities supported by a GPU family.
pub fn gpu_capabilities(family: GpuFamily) -> (caps: GpuCaps)
    ensures
        caps.0 == capability_bits(family),
{
    match family {
        GpuFamily::Voodoo1 | GpuFamily::Voodoo2 | GpuFamily::VoodooRush => {
            GpuCaps(GpuCaps::ACCEL_2D | GpuCaps::ACCEL_3D | GpuCaps::DOUBLE_BUFFER | GpuCaps::HARDWARE_CURSOR | GpuCaps::TEXTURE_UNITS)
        }
        GpuFamily::VoodooBanshee | GpuFamily::Voodoo3 => {
            GpuCaps(GpuCaps::ACCEL_2D | GpuCaps::ACCEL_3D | GpuCaps::DOUBLE_BUFFER | GpuCaps::HARDWARE_CURSOR | GpuCaps::TEXTURE_UNITS)
        }
        GpuFamily::Voodoo4 | GpuFamily::Voodoo5 => {
            GpuCaps(GpuCaps::ACCEL_2D | GpuCaps::ACCEL_3D | GpuCaps::DOUBLE_BUFFER | GpuCaps::HARDWARE_CURSOR | GpuCaps::TEXTURE_UNITS | GpuCaps::TRILINEAR)
        }
        GpuFamily::Nv1 | GpuFamily::Nv2 => GpuCaps(GpuCaps::ACCEL_2D | GpuCaps::HARDWARE_CURSOR),
        GpuFamily::Nv3 | GpuFamily::Nv4 | GpuFamily::Riva128 | GpuFamily::Riva128ZX => {
            GpuCaps(GpuCaps::ACCEL_2D | GpuCaps::ACCEL_3D | GpuCaps::HARDWARE_CURSOR)
        }
        GpuFamily::Nv5 | GpuFamily::RivaTNT | GpuFamily::RivaTNT2 => {
            GpuCaps(GpuCaps::ACCEL_2D | GpuCaps::ACCEL_3D | GpuCaps::DOUBLE_BUFFER | GpuCaps::HARDWARE_CURSOR | GpuCaps::TEXTURE_UNITS | GpuCaps::HARDWARE_BLT)
        }
        GpuFamily::GeForce256 | GpuFamily::GeForceDDR => {
            GpuCaps(GpuCaps::ACCEL_2D | GpuCaps::ACCEL_3D | GpuCaps::DOUBLE_BUFFER | GpuCaps::HARDWARE_CURSOR | GpuCaps::TEXTURE_UNITS | GpuCaps::HARDWARE_BLT | GpuCaps::HARDWARE_Z)
        }
        GpuFamily::GeForce2 | GpuFamily::GeForce2MX | GpuFamily::GeForce2GTS |
        GpuFamily::GeForce2Ultra | GpuFamily::GeForce2Go => {
            GpuCaps(GpuCaps::ACCEL_2D | GpuCaps::ACCEL_3D | GpuCaps::DOUBLE_BUFFER | GpuCaps::HARDWARE_CURSOR | GpuCaps::TEXTURE_UNITS | GpuCaps::HARDWARE_BLT | GpuCaps::HARDWARE_Z | GpuCaps::TRILINEAR)
        }
        GpuFamily::GeForce3 | GpuFamily::GeForce3Ti => {
            GpuCaps(GpuCaps::ACCEL_2D | GpuCaps::ACCEL_3D | GpuCaps::DOUBLE_BUFFER | GpuCaps::HARDWARE_CURSOR | GpuCaps::TEXTURE_UNITS | GpuCaps::HARDWARE_BLT | GpuCaps::HARDWARE_Z | GpuCaps::TRILINEAR | GpuCaps::SHADER_V2)
        }
        _ if family_belongs_to(family, "geforce4+") => {
            GpuCaps(GpuCaps::ACCEL_2D | GpuCaps::ACCEL_3D | GpuCaps::DOUBLE_BUFFER | GpuCaps::HARDWARE_CURSOR | GpuCaps::TEXTURE_UNITS | GpuCaps::HARDWARE_BLT | GpuCaps::HARDWARE_Z | GpuCaps::TRILINEAR)
        }
        GpuFamily::S3Trio64 => GpuCaps(GpuCaps::ACCEL_2D | GpuCaps::HARDWARE_CURSOR),
        GpuFamily::S3Virge => {
            GpuCaps(GpuCaps::ACCEL_2D | GpuCaps::ACCEL_3D | GpuCaps::HARDWARE_CURSOR)
        }
        GpuFamily::S3Savage3D | GpuFamily::S3Savage4 => {
            GpuCaps(GpuCaps::ACCEL_2D | GpuCaps::ACCEL_3D | GpuCaps::DOUBLE_BUFFER | GpuCaps::HARDWARE_CURSOR | GpuCaps::TEXTURE_UNITS)
        }
        GpuFamily::S3Savage2000 | GpuFamily::S3ChromeS20 | GpuFamily::S3ChromeS25 |
        GpuFamily::S3ChromeS27 | GpuFamily::S3DeltaChrome | GpuFamily::S3GammaChrome => {
            GpuCaps(GpuCaps::ACCEL_2D | GpuCaps::ACCEL_3D | GpuCaps::DOUBLE_BUFFER | GpuCaps::HARDWARE_CURSOR | GpuCaps::TEXTURE_UNITS | GpuCaps::HARDWARE_BLT | GpuCaps::HARDWARE_Z)
        }
        GpuFamily::MatroxMGA | GpuFamily::MatroxG100 => GpuCaps(GpuCaps::ACCEL_2D | GpuCaps::HARDWARE_CURSOR),
        GpuFamily::MatroxG200 | GpuFamily::MatroxG400 | GpuFamily::MatroxG450 | GpuFamily::MatroxG550 => {
            GpuCaps(GpuCaps::ACCEL_2D | GpuCaps::ACCEL_3D | GpuCaps::DOUBLE_BUFFER | GpuCaps::HARDWARE_CURSOR | GpuCaps::TEXTURE_UNITS | GpuCaps::HARDWARE_BLT)
        }
        GpuFamily::VMWareSVGA | GpuFamily::VMWareSVGA3 | GpuFamily::VirtIOGPU |
        GpuFamily::VirtIOGPU3D | GpuFamily::BochsVBE => {
            GpuCaps(GpuCaps::ACCEL_2D | GpuCaps::DOUBLE_BUFFER | GpuCaps::HARDWARE_CURSOR | GpuCaps::HARDWARE_BLT | GpuCaps::FRAMEBUFFER)
        }
        GpuFamily::QXL | GpuFamily::VirtualBoxVGA | GpuFamily::HyperVSynthetic => {
            GpuCaps(GpuCaps::ACCEL_2D | GpuCaps::DOUBLE_BUFFER | GpuCaps::HARDWARE_CURSOR | GpuCaps::HARDWARE_BLT)
        }
        GpuFamily::AST2000 | GpuFamily::AST2100 | GpuFamily::AST2300 |
        GpuFamily::AST2400 | GpuFamily::AST2500 | GpuFamily::AST2600 => {
            GpuCaps(GpuCaps::ACCEL_2D | GpuCaps::HARDWARE_CURSOR | GpuCaps::FRAMEBUFFER)
        }
        _ => GpuCaps(GpuCaps::FRAMEBUFFER | GpuCaps::HARDWARE_CURSOR),
    }
}

/// Merging keeps every flag of both operands: the union contains each side.
pub proof fn lemma_merge_contains_both(a: GpuCaps, b: GpuCaps)
    ensures
        (a.0 | b.0) & a.0 == a.0,
        (a.0 | b.0) & b.0 == b.0,
{
    let x = a.0;
    let y = b.0;
    assert((x | y) & x == x) by (bit_vector);
    assert((x | y) & y == y) by (bit_vector);
}

/// Merging is commutative and idempotent, and every set contains itself and the empty set.
pub proof fn lemma_merge_algebra(a: GpuCaps, b: GpuCaps)
    ensures
        a.0 | b.0 == b.0 | a.0,
        a.0 | a.0 == a.0,
        a.0 & a.0 == a.0,
        a.0 & GpuCaps::NONE == GpuCaps::NONE,
{
    let x = a.0;
    let y = b.0;
    assert(x | y == y | x) by (bit_vector);
    assert(x | x == x) by (bit_vector);
    assert(x & x == x) by (bit_vector);
    assert(x & 0u32 == 0u32) by (bit_vector);
}

} // verus!
