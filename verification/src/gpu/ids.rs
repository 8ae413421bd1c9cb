//! The PCI IDs of the GPUs the kernel knows, and what it takes them for.
use vstd::prelude::*;
use crate::gpu::family::{GpuFamily, identify_gpu_spec};

verus! {

/// How many (vendor, device) IDs are known.
pub open spec fn known_gpu_id_count() -> int {
    184
}

/// The `k`-th known (vendor, device) ID and the family it is.
pub open spec fn known_gpu_id(k: u8) -> (u16, u16, GpuFamily) {
    match k {
        0 => (0x121Au16, 0x0001u16, GpuFamily::Voodoo1),
        1 => (0x121Au16, 0x0002u16, GpuFamily::Voodoo2),
        2 => (0x121Au16, 0x0003u16, GpuFamily::VoodooBanshee),
        3 => (0x121Au16, 0x0004u16, GpuFamily::VoodooBanshee),
        4 => (0x121Au16, 0x0005u16, GpuFamily::Voodoo3),
        5 => (0x121Au16, 0x0007u16, GpuFamily::Voodoo4),
        6 => (0x121Au16, 0x0009u16, GpuFamily::Voodoo5),
        7 => (0x121Au16, 0x000Bu16, GpuFamily::VoodooRush),
        8 => (0x10DEu16, 0x0010u16, GpuFamily::Riva128),
        9 => (0x10DEu16, 0x0018u16, GpuFamily::Riva128ZX),
        10 => (0x10DEu16, 0x0020u16, GpuFamily::RivaTNT),
        11 => (0x10DEu16, 0x0028u16, GpuFamily::RivaTNT2),
        12 => (0x10DEu16, 0x002Cu16, GpuFamily::RivaTNT2),
        13 => (0x10DEu16, 0x0100u16, GpuFamily::GeForce256),
        14 => (0x10DEu16, 0x0101u16, GpuFamily::GeForceDDR),
        15 => (0x10DEu16, 0x0110u16, GpuFamily::GeForce2MX),
        16 => (0x10DEu16, 0x0151u16, GpuFamily::GeForce2MX),
        17 => (0x10DEu16, 0x0152u16, GpuFamily::GeForce2MX),
        18 => (0x10DEu16, 0x0150u16, GpuFamily::GeForce2GTS),
        19 => (0x10DEu16, 0x0200u16, GpuFamily::GeForce3),
        20 => (0x10DEu16, 0x0201u16, GpuFamily::GeForce3Ti),
        21 => (0x10DEu16, 0x0250u16, GpuFamily::GeForce4Ti),
        22 => (0x10DEu16, 0x0251u16, GpuFamily::GeForce4Ti),
        23 => (0x10DEu16, 0x0170u16, GpuFamily::GeForce4MX),
        24 => (0x10DEu16, 0x0171u16, GpuFamily::GeForce4MX),
        25 => (0x10DEu16, 0x0280u16, GpuFamily::GeForce4Ti),
        26 => (0x10DEu16, 0x0281u16, GpuFamily::GeForce4Ti),
        27 => (0x10DEu16, 0x0301u16, GpuFamily::GeForceFX5200),
        28 => (0x10DEu16, 0x0302u16, GpuFamily::GeForceFX5600),
        29 => (0x10DEu16, 0x0303u16, GpuFamily::GeForceFX5700),
        30 => (0x10DEu16, 0x0308u16, GpuFamily::GeForceFX5800),
        31 => (0x10DEu16, 0x0330u16, GpuFamily::GeForceFX5900),
        32 => (0x10DEu16, 0x0331u16, GpuFamily::GeForceFX5950),
        33 => (0x10DEu16, 0x0041u16, GpuFamily::GeForce6200),
        34 => (0x10DEu16, 0x00F1u16, GpuFamily::GeForce6200),
        35 => (0x10DEu16, 0x00F2u16, GpuFamily::GeForce6600),
        36 => (0x10DEu16, 0x0045u16, GpuFamily::GeForce6800),
        37 => (0x10DEu16, 0x0160u16, GpuFamily::GeForce7600),
        38 => (0x10DEu16, 0x01D1u16, GpuFamily::GeForce7600),
        39 => (0x10DEu16, 0x01D8u16, GpuFamily::GeForce7600),
        40 => (0x10DEu16, 0x0092u16, GpuFamily::GeForce7900),
        41 => (0x10DEu16, 0x0290u16, GpuFamily::GeForce7900),
        42 => (0x10DEu16, 0x0191u16, GpuFamily::GeForce8600),
        43 => (0x10DEu16, 0x0194u16, GpuFamily::GeForce8600),
        44 => (0x10DEu16, 0x0400u16, GpuFamily::GeForce8800),
        45 => (0x10DEu16, 0x0600u16, GpuFamily::GeForce8800),
        46 => (0x10DEu16, 0x0611u16, GpuFamily::GeForce8800),
        47 => (0x10DEu16, 0x0420u16, GpuFamily::GeForce8800),
        48 => (0x10DEu16, 0x06E0u16, GpuFamily::GeForce9800),
        49 => (0x10DEu16, 0x0609u16, GpuFamily::GeForce9800),
        50 => (0x10DEu16, 0x05E2u16, GpuFamily::GTX260),
        51 => (0x10DEu16, 0x05E3u16, GpuFamily::GTX260),
        52 => (0x10DEu16, 0x0604u16, GpuFamily::GTX280),
        53 => (0x10DEu16, 0x0603u16, GpuFamily::GTX280),
        54 => (0x10DEu16, 0x0C80u16, GpuFamily::GTX460),
        55 => (0x10DEu16, 0x0C81u16, GpuFamily::GTX460),
        56 => (0x10DEu16, 0x0C82u16, GpuFamily::GTX470),
        57 => (0x10DEu16, 0x0C83u16, GpuFamily::GTX480),
        58 => (0x10DEu16, 0x0C84u16, GpuFamily::GTX480),
        59 => (0x10DEu16, 0x1200u16, GpuFamily::GTX560),
        60 => (0x10DEu16, 0x1201u16, GpuFamily::GTX560),
        61 => (0x10DEu16, 0x1081u16, GpuFamily::GTX570),
        62 => (0x10DEu16, 0x1080u16, GpuFamily::GTX580),
        63 => (0x10DEu16, 0x1180u16, GpuFamily::GTX680),
        64 => (0x10DEu16, 0x1004u16, GpuFamily::GTX780),
        65 => (0x10DEu16, 0x13C0u16, GpuFamily::GTX970),
        66 => (0x10DEu16, 0x13C1u16, GpuFamily::GTX980),
        67 => (0x10DEu16, 0x1C01u16, GpuFamily::GTX1060),
        68 => (0x10DEu16, 0x1C02u16, GpuFamily::GTX1060),
        69 => (0x10DEu16, 0x1B00u16, GpuFamily::GTX1080),
        70 => (0x10DEu16, 0x1D81u16, GpuFamily::GTX1080),
        71 => (0x10DEu16, 0x1D82u16, GpuFamily::GTX1080Ti),
        72 => (0x10DEu16, 0x1E84u16, GpuFamily::RTX2080),
        73 => (0x10DEu16, 0x1E04u16, GpuFamily::RTX2080),
        74 => (0x10DEu16, 0x1E07u16, GpuFamily::RTX2080Ti),
        75 => (0x10DEu16, 0x2206u16, GpuFamily::RTX3080),
        76 => (0x10DEu16, 0x2204u16, GpuFamily::RTX3090),
        77 => (0x10DEu16, 0x2684u16, GpuFamily::RTX4090),
        78 => (0x1002u16, 0x4742u16, GpuFamily::RagePro),
        79 => (0x1002u16, 0x4744u16, GpuFamily::RagePro),
        80 => (0x1002u16, 0x4752u16, GpuFamily::RageXL),
        81 => (0x1002u16, 0x4754u16, GpuFamily::RageXL),
        82 => (0x1002u16, 0x4C42u16, GpuFamily::Rage128Pro),
        83 => (0x1002u16, 0x4C46u16, GpuFamily::Rage128Pro),
        84 => (0x1002u16, 0x514Cu16, GpuFamily::Radeon8500),
        85 => (0x1002u16, 0x5159u16, GpuFamily::Radeon7500),
        86 => (0x1002u16, 0x5157u16, GpuFamily::Radeon7500),
        87 => (0x1002u16, 0x4E44u16, GpuFamily::Radeon9700),
        88 => (0x1002u16, 0x4E45u16, GpuFamily::Radeon9700Pro),
        89 => (0x1002u16, 0x4E46u16, GpuFamily::Radeon9800),
        90 => (0x1002u16, 0x4E48u16, GpuFamily::Radeon9800),
        91 => (0x1002u16, 0x5B60u16, GpuFamily::RadeonX300),
        92 => (0x1002u16, 0x5B62u16, GpuFamily::RadeonX300),
        93 => (0x1002u16, 0x5548u16, GpuFamily::RadeonX800),
        94 => (0x1002u16, 0x7100u16, GpuFamily::RadeonX1800),
        95 => (0x1002u16, 0x7240u16, GpuFamily::RadeonX1900),
        96 => (0x1002u16, 0x9440u16, GpuFamily::RadeonHD4870),
        97 => (0x1002u16, 0x9442u16, GpuFamily::RadeonHD4850),
        98 => (0x1002u16, 0x68B0u16, GpuFamily::RadeonHD5770),
        99 => (0x1002u16, 0x689Eu16, GpuFamily::RadeonHD5870),
        100 => (0x1002u16, 0x6718u16, GpuFamily::RadeonHD6970),
        101 => (0x1002u16, 0x6810u16, GpuFamily::RadeonHD7970),
        102 => (0x1002u16, 0x6811u16, GpuFamily::RadeonHD7950),
        103 => (0x1002u16, 0x6640u16, GpuFamily::RadeonR9290),
        104 => (0x1002u16, 0x67DFu16, GpuFamily::RadeonRX480),
        105 => (0x1002u16, 0x67C7u16, GpuFamily::RadeonRX580),
        106 => (0x1002u16, 0x731Fu16, GpuFamily::RadeonRX5700),
        107 => (0x1002u16, 0x73BFu16, GpuFamily::RadeonRX6800),
        108 => (0x1002u16, 0x73C3u16, GpuFamily::RadeonRX6900XT),
        109 => (0x1002u16, 0x744Cu16, GpuFamily::RadeonRX7900XT),
        110 => (0x1002u16, 0x744Du16, GpuFamily::RadeonRX7900XTX),
        111 => (0x8086u16, 0x7800u16, GpuFamily::Intel740),
        112 => (0x8086u16, 0x7121u16, GpuFamily::Intel810),
        113 => (0x8086u16, 0x2582u16, GpuFamily::Intel915),
        114 => (0x8086u16, 0x2772u16, GpuFamily::Intel915),
        115 => (0x8086u16, 0x0152u16, GpuFamily::IntelHDGraphics2500),
        116 => (0x8086u16, 0x0156u16, GpuFamily::IntelHDGraphics2500),
        117 => (0x8086u16, 0x0162u16, GpuFamily::IntelHDGraphics4000),
        118 => (0x8086u16, 0x0166u16, GpuFamily::IntelHDGraphics4000),
        119 => (0x8086u16, 0x0412u16, GpuFamily::IntelHDGraphics4400),
        120 => (0x8086u16, 0x0416u16, GpuFamily::IntelHDGraphics4400),
        121 => (0x8086u16, 0x0D12u16, GpuFamily::IntelHDGraphics4600),
        122 => (0x8086u16, 0x0D16u16, GpuFamily::IntelHDGraphics4600),
        123 => (0x8086u16, 0x0A06u16, GpuFamily::IntelHDGraphics5000),
        124 => (0x8086u16, 0x0A0Eu16, GpuFamily::IntelHDGraphics5000),
        125 => (0x8086u16, 0x1616u16, GpuFamily::IntelHDGraphics5500),
        126 => (0x8086u16, 0x5916u16, GpuFamily::IntelHDGraphics620),
        127 => (0x8086u16, 0x5912u16, GpuFamily::IntelHDGraphics630),
        128 => (0x8086u16, 0x591Bu16, GpuFamily::IntelHDGraphics630),
        129 => (0x8086u16, 0x5923u16, GpuFamily::IntelIrisPlus640),
        130 => (0x8086u16, 0x9B41u16, GpuFamily::IntelIrisXe),
        131 => (0x8086u16, 0x56A0u16, GpuFamily::IntelArcA750),
        132 => (0x8086u16, 0x56A2u16, GpuFamily::IntelArcA770),
        133 => (0x8086u16, 0x56B0u16, GpuFamily::IntelArcB580),
        134 => (0x5333u16, 0x8811u16, GpuFamily::S3Trio64),
        135 => (0x5333u16, 0x8812u16, GpuFamily::S3Trio64),
        136 => (0x5333u16, 0x5631u16, GpuFamily::S3Virge),
        137 => (0x5333u16, 0x8A01u16, GpuFamily::S3Savage3D),
        138 => (0x5333u16, 0x8A22u16, GpuFamily::S3Savage4),
        139 => (0x5333u16, 0x8A23u16, GpuFamily::S3Savage4),
        140 => (0x5333u16, 0x9102u16, GpuFamily::S3Savage2000),
        141 => (0x5333u16, 0x9103u16, GpuFamily::S3Savage2000),
        142 => (0x5333u16, 0x9050u16, GpuFamily::S3ChromeS20),
        143 => (0x5333u16, 0x3150u16, GpuFamily::S3ChromeS25),
        144 => (0x102Bu16, 0x0519u16, GpuFamily::MatroxMGA),
        145 => (0x102Bu16, 0x0520u16, GpuFamily::MatroxG100),
        146 => (0x102Bu16, 0x0521u16, GpuFamily::MatroxG200),
        147 => (0x102Bu16, 0x0522u16, GpuFamily::MatroxG200),
        148 => (0x102Bu16, 0x0525u16, GpuFamily::MatroxG400),
        149 => (0x102Bu16, 0x0527u16, GpuFamily::MatroxG450),
        150 => (0x102Bu16, 0x0528u16, GpuFamily::MatroxG550),
        151 => (0x1039u16, 0x6300u16, GpuFamily::SiS300),
        152 => (0x1039u16, 0x6330u16, GpuFamily::SiS315),
        153 => (0x1039u16, 0x5030u16, GpuFamily::SiSXabre200),
        154 => (0x1039u16, 0x5031u16, GpuFamily::SiSXabre400),
        155 => (0x10D2u16, 0x0001u16, GpuFamily::RenditionV1000),
        156 => (0x10D2u16, 0x0002u16, GpuFamily::RenditionV2000),
        157 => (0x10D2u16, 0x0003u16, GpuFamily::RenditionV2200),
        158 => (0x10E3u16, 0x0001u16, GpuFamily::PowerVRPCX1),
        159 => (0x10E3u16, 0x0003u16, GpuFamily::PowerVRPCX2),
        160 => (0x10E3u16, 0x0005u16, GpuFamily::PowerVRKyro),
        161 => (0x10E3u16, 0x0007u16, GpuFamily::PowerVRKyro2),
        162 => (0x100Eu16, 0x8880u16, GpuFamily::NumberNineImagine128),
        163 => (0x100Eu16, 0x8882u16, GpuFamily::NumberNineImagine128),
        164 => (0x1023u16, 0x9680u16, GpuFamily::TridentProVidia9680),
        165 => (0x1023u16, 0x9682u16, GpuFamily::TridentProVidia9680),
        166 => (0x1023u16, 0x9750u16, GpuFamily::Trident3DImage9750),
        167 => (0x1023u16, 0x9850u16, GpuFamily::Trident3DImage9850),
        168 => (0x1023u16, 0x2040u16, GpuFamily::TridentCyberBlade),
        169 => (0x18CAu16, 0x0022u16, GpuFamily::XGIVolariV3),
        170 => (0x18CAu16, 0x0024u16, GpuFamily::XGIVolariV5),
        171 => (0x18CAu16, 0x0026u16, GpuFamily::XGIVolariV8),
        172 => (0x1013u16, 0x00B8u16, GpuFamily::CirrusLogic5430),
        173 => (0x1013u16, 0x00D0u16, GpuFamily::CirrusLogic5446),
        174 => (0x1013u16, 0x00D4u16, GpuFamily::CirrusLogic5464),
        175 => (0x1A03u16, 0x2000u16, GpuFamily::AST2000),
        176 => (0x1A03u16, 0x2010u16, GpuFamily::AST2100),
        177 => (0x1A03u16, 0x2020u16, GpuFamily::AST2300),
        178 => (0x1A03u16, 0x2030u16, GpuFamily::AST2400),
        179 => (0x1A03u16, 0x2040u16, GpuFamily::AST2500),
        180 => (0x15ADu16, 0x0405u16, GpuFamily::VMWareSVGA),
        181 => (0x15ADu16, 0x0406u16, GpuFamily::VMWareSVGA3),
        182 => (0x1AF4u16, 0x1050u16, GpuFamily::VirtIOGPU),
        183 => (0x1AF4u16, 0x1051u16, GpuFamily::VirtIOGPU3D),
        _ => (0xFFFFu16, 0xFFFFu16, GpuFamily::Unknown),
    }
}

/// How many vendors have every device of one family.
pub open spec fn single_family_vendor_count() -> int {
    4
}

/// The `k`-th vendor whose every device is one family, and that family.
pub open spec fn single_family_vendor(k: u8) -> (u16, GpuFamily) {
    match k {
        0 => (0x1234u16, GpuFamily::BochsVBE),
        1 => (0x1B36u16, GpuFamily::QXL),
        2 => (0x80EEu16, GpuFamily::VirtualBoxVGA),
        3 => (0x1414u16, GpuFamily::HyperVSynthetic),
        _ => (0xFFFFu16, GpuFamily::Unknown),
    }
}

proof fn lemma_known_ids_0_16(k: u8)
    requires
        0 <= k < 16,
    ensures
        identify_gpu_spec(known_gpu_id(k).0, known_gpu_id(k).1) == known_gpu_id(k).2,
{
    if k == 0 {
    } else if k == 1 {
    } else if k == 2 {
    } else if k == 3 {
    } else if k == 4 {
    } else if k == 5 {
    } else if k == 6 {
    } else if k == 7 {
    } else if k == 8 {
    } else if k == 9 {
    } else if k == 10 {
    } else if k == 11 {
    } else if k == 12 {
    } else if k == 13 {
    } else if k == 14 {
    } else if k == 15 {
    }
}

proof fn lemma_known_ids_16_32(k: u8)
    requires
        16 <= k < 32,
    ensures
        identify_gpu_spec(known_gpu_id(k).0, known_gpu_id(k).1) == known_gpu_id(k).2,
{
    if k == 16 {
    } else if k == 17 {
    } else if k == 18 {
    } else if k == 19 {
    } else if k == 20 {
    } else if k == 21 {
    } else if k == 22 {
    } else if k == 23 {
    } else if k == 24 {
    } else if k == 25 {
    } else if k == 26 {
    } else if k == 27 {
    } else if k == 28 {
    } else if k == 29 {
    } else if k == 30 {
    } else if k == 31 {
    }
}

proof fn lemma_known_ids_32_48(k: u8)
    requires
        32 <= k < 48,
    ensures
        identify_gpu_spec(known_gpu_id(k).0, known_gpu_id(k).1) == known_gpu_id(k).2,
{
    if k == 32 {
    } else if k == 33 {
    } else if k == 34 {
    } else if k == 35 {
    } else if k == 36 {
    } else if k == 37 {
    } else if k == 38 {
    } else if k == 39 {
    } else if k == 40 {
    } else if k == 41 {
    } else if k == 42 {
    } else if k == 43 {
    } else if k == 44 {
    } else if k == 45 {
    } else if k == 46 {
    } else if k == 47 {
    }
}

proof fn lemma_known_ids_48_64(k: u8)
    requires
        48 <= k < 64,
    ensures
        identify_gpu_spec(known_gpu_id(k).0, known_gpu_id(k).1) == known_gpu_id(k).2,
{
    if k == 48 {
    } else if k == 49 {
    } else if k == 50 {
    } else if k == 51 {
    } else if k == 52 {
    } else if k == 53 {
    } else if k == 54 {
    } else if k == 55 {
    } else if k == 56 {
    } else if k == 57 {
    } else if k == 58 {
    } else if k == 59 {
    } else if k == 60 {
    } else if k == 61 {
    } else if k == 62 {
    } else if k == 63 {
    }
}

proof fn lemma_known_ids_64_80(k: u8)
    requires
        64 <= k < 80,
    ensures
        identify_gpu_spec(known_gpu_id(k).0, known_gpu_id(k).1) == known_gpu_id(k).2,
{
    if k == 64 {
    } else if k == 65 {
    } else if k == 66 {
    } else if k == 67 {
    } else if k == 68 {
    } else if k == 69 {
    } else if k == 70 {
    } else if k == 71 {
    } else if k == 72 {
    } else if k == 73 {
    } else if k == 74 {
    } else if k == 75 {
    } else if k == 76 {
    } else if k == 77 {
    } else if k == 78 {
    } else if k == 79 {
    }
}

proof fn lemma_known_ids_80_96(k: u8)
    requires
        80 <= k < 96,
    ensures
        identify_gpu_spec(known_gpu_id(k).0, known_gpu_id(k).1) == known_gpu_id(k).2,
{
    if k == 80 {
    } else if k == 81 {
    } else if k == 82 {
    } else if k == 83 {
    } else if k == 84 {
    } else if k == 85 {
    } else if k == 86 {
    } else if k == 87 {
    } else if k == 88 {
    } else if k == 89 {
    } else if k == 90 {
    } else if k == 91 {
    } else if k == 92 {
    } else if k == 93 {
    } else if k == 94 {
    } else if k == 95 {
    }
}

proof fn lemma_known_ids_96_112(k: u8)
    requires
        96 <= k < 112,
    ensures
        identify_gpu_spec(known_gpu_id(k).0, known_gpu_id(k).1) == known_gpu_id(k).2,
{
    if k == 96 {
    } else if k == 97 {
    } else if k == 98 {
    } else if k == 99 {
    } else if k == 100 {
    } else if k == 101 {
    } else if k == 102 {
    } else if k == 103 {
    } else if k == 104 {
    } else if k == 105 {
    } else if k == 106 {
    } else if k == 107 {
    } else if k == 108 {
    } else if k == 109 {
    } else if k == 110 {
    } else if k == 111 {
    }
}

proof fn lemma_known_ids_112_128(k: u8)
    requires
        112 <= k < 128,
    ensures
        identify_gpu_spec(known_gpu_id(k).0, known_gpu_id(k).1) == known_gpu_id(k).2,
{
    if k == 112 {
    } else if k == 113 {
    } else if k == 114 {
    } else if k == 115 {
    } else if k == 116 {
    } else if k == 117 {
    } else if k == 118 {
    } else if k == 119 {
    } else if k == 120 {
    } else if k == 121 {
    } else if k == 122 {
    } else if k == 123 {
    } else if k == 124 {
    } else if k == 125 {
    } else if k == 126 {
    } else if k == 127 {
    }
}

proof fn lemma_known_ids_128_144(k: u8)
    requires
        128 <= k < 144,
    ensures
        identify_gpu_spec(known_gpu_id(k).0, known_gpu_id(k).1) == known_gpu_id(k).2,
{
    if k == 128 {
    } else if k == 129 {
    } else if k == 130 {
    } else if k == 131 {
    } else if k == 132 {
    } else if k == 133 {
    } else if k == 134 {
    } else if k == 135 {
    } else if k == 136 {
    } else if k == 137 {
    } else if k == 138 {
    } else if k == 139 {
    } else if k == 140 {
    } else if k == 141 {
    } else if k == 142 {
    } else if k == 143 {
    }
}

proof fn lemma_known_ids_144_160(k: u8)
    requires
        144 <= k < 160,
    ensures
        identify_gpu_spec(known_gpu_id(k).0, known_gpu_id(k).1) == known_gpu_id(k).2,
{
    if k == 144 {
    } else if k == 145 {
    } else if k == 146 {
    } else if k == 147 {
    } else if k == 148 {
    } else if k == 149 {
    } else if k == 150 {
    } else if k == 151 {
    } else if k == 152 {
    } else if k == 153 {
    } else if k == 154 {
    } else if k == 155 {
    } else if k == 156 {
    } else if k == 157 {
    } else if k == 158 {
    } else if k == 159 {
    }
}

proof fn lemma_known_ids_160_176(k: u8)
    requires
        160 <= k < 176,
    ensures
        identify_gpu_spec(known_gpu_id(k).0, known_gpu_id(k).1) == known_gpu_id(k).2,
{
    if k == 160 {
    } else if k == 161 {
    } else if k == 162 {
    } else if k == 163 {
    } else if k == 164 {
    } else if k == 165 {
    } else if k == 166 {
    } else if k == 167 {
    } else if k == 168 {
    } else if k == 169 {
    } else if k == 170 {
    } else if k == 171 {
    } else if k == 172 {
    } else if k == 173 {
    } else if k == 174 {
    } else if k == 175 {
    }
}

proof fn lemma_known_ids_176_184(k: u8)
    requires
        176 <= k < 184,
    ensures
        identify_gpu_spec(known_gpu_id(k).0, known_gpu_id(k).1) == known_gpu_id(k).2,
{
    if k == 176 {
    } else if k == 177 {
    } else if k == 178 {
    } else if k == 179 {
    } else if k == 180 {
    } else if k == 181 {
    } else if k == 182 {
    } else if k == 183 {
    }
}

/// Every known ID is identified as its family.
pub proof fn lemma_known_gpu_ids(k: u8)
    requires
        0 <= k < known_gpu_id_count(),
    ensures
        identify_gpu_spec(known_gpu_id(k).0, known_gpu_id(k).1) == known_gpu_id(k).2,
{
    if k < 16 {
        lemma_known_ids_0_16(k);
    } else if k < 32 {
        lemma_known_ids_16_32(k);
    } else if k < 48 {
        lemma_known_ids_32_48(k);
    } else if k < 64 {
        lemma_known_ids_48_64(k);
    } else if k < 80 {
        lemma_known_ids_64_80(k);
    } else if k < 96 {
        lemma_known_ids_80_96(k);
    } else if k < 112 {
        lemma_known_ids_96_112(k);
    } else if k < 128 {
        lemma_known_ids_112_128(k);
    } else if k < 144 {
        lemma_known_ids_128_144(k);
    } else if k < 160 {
        lemma_known_ids_144_160(k);
    } else if k < 176 {
        lemma_known_ids_160_176(k);
    } else if k < 184 {
        lemma_known_ids_176_184(k);
    }
}

/// Every device of a single-family vendor is identified as that family.
pub proof fn lemma_single_family_vendors(k: u8, device: u16)
    requires
        0 <= k < single_family_vendor_count(),
    ensures
        identify_gpu_spec(single_family_vendor(k).0, device) == single_family_vendor(k).1,
{
}

/// How many vendors have devices listed individually.
pub open spec fn vendor_default_count() -> int {
    16
}

/// The `k`-th vendor with devices listed individually, and the family an
/// unlisted device of that vendor is taken for.
pub open spec fn vendor_default(k: u8) -> (u16, GpuFamily) {
    match k {
        0 => (0x121Au16, GpuFamily::Unknown),
        1 => (0x10DEu16, GpuFamily::NvidiaQuadro),
        2 => (0x1002u16, GpuFamily::Unknown),
        3 => (0x8086u16, GpuFamily::IntelHDGraphics),
        4 => (0x5333u16, GpuFamily::S3Virge),
        5 => (0x102Bu16, GpuFamily::MatroxG200),
        6 => (0x1039u16, GpuFamily::SiSMirage),
        7 => (0x10D2u16, GpuFamily::RenditionV2200),
        8 => (0x10E3u16, GpuFamily::PowerVRKyro),
        9 => (0x100Eu16, GpuFamily::NumberNineImagine128),
        10 => (0x1023u16, GpuFamily::TridentCyberBlade),
        11 => (0x18CAu16, GpuFamily::XGIVolariV8),
        12 => (0x1013u16, GpuFamily::StandardVGA),
        13 => (0x1A03u16, GpuFamily::StandardVGA),
        14 => (0x15ADu16, GpuFamily::VMWareSVGA),
        15 => (0x1AF4u16, GpuFamily::VirtIOGPU),
        _ => (0xFFFFu16, GpuFamily::Unknown),
    }
}

/// (vendor, device) is one of the known IDs.
pub open spec fn listed(vendor: u16, device: u16) -> bool {
    exists|k: u8| (k as int) < known_gpu_id_count() && #[trigger] known_gpu_id(k).0 == vendor && known_gpu_id(k).1 == device
}

/// A device of a vendor with individually listed devices whose ID is not
/// listed is taken for that vendor's default family.
pub proof fn lemma_unlisted_devices(k: u8, device: u16)
    requires
        (k as int) < vendor_default_count(),
        !listed(vendor_default(k).0, device),
    ensures
        identify_gpu_spec(vendor_default(k).0, device) == vendor_default(k).1,
{
    let v = vendor_default(k).0;
    if k == 0 {
        assert(!(known_gpu_id(0u8).0 == v && known_gpu_id(0u8).1 == device));
        assert(!(known_gpu_id(1u8).0 == v && known_gpu_id(1u8).1 == device));
        assert(!(known_gpu_id(2u8).0 == v && known_gpu_id(2u8).1 == device));
        assert(!(known_gpu_id(3u8).0 == v && known_gpu_id(3u8).1 == device));
        assert(!(known_gpu_id(4u8).0 == v && known_gpu_id(4u8).1 == device));
        assert(!(known_gpu_id(5u8).0 == v && known_gpu_id(5u8).1 == device));
        assert(!(known_gpu_id(6u8).0 == v && known_gpu_id(6u8).1 == device));
        assert(!(known_gpu_id(7u8).0 == v && known_gpu_id(7u8).1 == device));
    } else if k == 1 {
        assert(!(known_gpu_id(8u8).0 == v && known_gpu_id(8u8).1 == device));
        assert(!(known_gpu_id(9u8).0 == v && known_gpu_id(9u8).1 == device));
        assert(!(known_gpu_id(10u8).0 == v && known_gpu_id(10u8).1 == device));
        assert(!(known_gpu_id(11u8).0 == v && known_gpu_id(11u8).1 == device));
        assert(!(known_gpu_id(12u8).0 == v && known_gpu_id(12u8).1 == device));
        assert(!(known_gpu_id(13u8).0 == v && known_gpu_id(13u8).1 == device));
        assert(!(known_gpu_id(14u8).0 == v && known_gpu_id(14u8).1 == device));
        assert(!(known_gpu_id(15u8).0 == v && known_gpu_id(15u8).1 == device));
        assert(!(known_gpu_id(16u8).0 == v && known_gpu_id(16u8).1 == device));
        assert(!(known_gpu_id(17u8).0 == v && known_gpu_id(17u8).1 == device));
        assert(!(known_gpu_id(18u8).0 == v && known_gpu_id(18u8).1 == device));
        assert(!(known_gpu_id(19u8).0 == v && known_gpu_id(19u8).1 == device));
        assert(!(known_gpu_id(20u8).0 == v && known_gpu_id(20u8).1 == device));
        assert(!(known_gpu_id(21u8).0 == v && known_gpu_id(21u8).1 == device));
        assert(!(known_gpu_id(22u8).0 == v && known_gpu_id(22u8).1 == device));
        assert(!(known_gpu_id(23u8).0 == v && known_gpu_id(23u8).1 == device));
        assert(!(known_gpu_id(24u8).0 == v && known_gpu_id(24u8).1 == device));
        assert(!(known_gpu_id(25u8).0 == v && known_gpu_id(25u8).1 == device));
        assert(!(known_gpu_id(26u8).0 == v && known_gpu_id(26u8).1 == device));
        assert(!(known_gpu_id(27u8).0 == v && known_gpu_id(27u8).1 == device));
        assert(!(known_gpu_id(28u8).0 == v && known_gpu_id(28u8).1 == device));
        assert(!(known_gpu_id(29u8).0 == v && known_gpu_id(29u8).1 == device));
        assert(!(known_gpu_id(30u8).0 == v && known_gpu_id(30u8).1 == device));
        assert(!(known_gpu_id(31u8).0 == v && known_gpu_id(31u8).1 == device));
        assert(!(known_gpu_id(32u8).0 == v && known_gpu_id(32u8).1 == device));
        assert(!(known_gpu_id(33u8).0 == v && known_gpu_id(33u8).1 == device));
        assert(!(known_gpu_id(34u8).0 == v && known_gpu_id(34u8).1 == device));
        assert(!(known_gpu_id(35u8).0 == v && known_gpu_id(35u8).1 == device));
        assert(!(known_gpu_id(36u8).0 == v && known_gpu_id(36u8).1 == device));
        assert(!(known_gpu_id(37u8).0 == v && known_gpu_id(37u8).1 == device));
        assert(!(known_gpu_id(38u8).0 == v && known_gpu_id(38u8).1 == device));
        assert(!(known_gpu_id(39u8).0 == v && known_gpu_id(39u8).1 == device));
        assert(!(known_gpu_id(40u8).0 == v && known_gpu_id(40u8).1 == device));
        assert(!(known_gpu_id(41u8).0 == v && known_gpu_id(41u8).1 == device));
        assert(!(known_gpu_id(42u8).0 == v && known_gpu_id(42u8).1 == device));
        assert(!(known_gpu_id(43u8).0 == v && known_gpu_id(43u8).1 == device));
        assert(!(known_gpu_id(44u8).0 == v && known_gpu_id(44u8).1 == device));
        assert(!(known_gpu_id(45u8).0 == v && known_gpu_id(45u8).1 == device));
        assert(!(known_gpu_id(46u8).0 == v && known_gpu_id(46u8).1 == device));
        assert(!(known_gpu_id(47u8).0 == v && known_gpu_id(47u8).1 == device));
        assert(!(known_gpu_id(48u8).0 == v && known_gpu_id(48u8).1 == device));
        assert(!(known_gpu_id(49u8).0 == v && known_gpu_id(49u8).1 == device));
        assert(!(known_gpu_id(50u8).0 == v && known_gpu_id(50u8).1 == device));
        assert(!(known_gpu_id(51u8).0 == v && known_gpu_id(51u8).1 == device));
        assert(!(known_gpu_id(52u8).0 == v && known_gpu_id(52u8).1 == device));
        assert(!(known_gpu_id(53u8).0 == v && known_gpu_id(53u8).1 == device));
        assert(!(known_gpu_id(54u8).0 == v && known_gpu_id(54u8).1 == device));
        assert(!(known_gpu_id(55u8).0 == v && known_gpu_id(55u8).1 == device));
        assert(!(known_gpu_id(56u8).0 == v && known_gpu_id(56u8).1 == device));
        assert(!(known_gpu_id(57u8).0 == v && known_gpu_id(57u8).1 == device));
        assert(!(known_gpu_id(58u8).0 == v && known_gpu_id(58u8).1 == device));
        assert(!(known_gpu_id(59u8).0 == v && known_gpu_id(59u8).1 == device));
        assert(!(known_gpu_id(60u8).0 == v && known_gpu_id(60u8).1 == device));
        assert(!(known_gpu_id(61u8).0 == v && known_gpu_id(61u8).1 == device));
        assert(!(known_gpu_id(62u8).0 == v && known_gpu_id(62u8).1 == device));
        assert(!(known_gpu_id(63u8).0 == v && known_gpu_id(63u8).1 == device));
        assert(!(known_gpu_id(64u8).0 == v && known_gpu_id(64u8).1 == device));
        assert(!(known_gpu_id(65u8).0 == v && known_gpu_id(65u8).1 == device));
        assert(!(known_gpu_id(66u8).0 == v && known_gpu_id(66u8).1 == device));
        assert(!(known_gpu_id(67u8).0 == v && known_gpu_id(67u8).1 == device));
        assert(!(known_gpu_id(68u8).0 == v && known_gpu_id(68u8).1 == device));
        assert(!(known_gpu_id(69u8).0 == v && known_gpu_id(69u8).1 == device));
        assert(!(known_gpu_id(70u8).0 == v && known_gpu_id(70u8).1 == device));
        assert(!(known_gpu_id(71u8).0 == v && known_gpu_id(71u8).1 == device));
        assert(!(known_gpu_id(72u8).0 == v && known_gpu_id(72u8).1 == device));
        assert(!(known_gpu_id(73u8).0 == v && known_gpu_id(73u8).1 == device));
        assert(!(known_gpu_id(74u8).0 == v && known_gpu_id(74u8).1 == device));
        assert(!(known_gpu_id(75u8).0 == v && known_gpu_id(75u8).1 == device));
        assert(!(known_gpu_id(76u8).0 == v && known_gpu_id(76u8).1 == device));
        assert(!(known_gpu_id(77u8).0 == v && known_gpu_id(77u8).1 == device));
    } else if k == 2 {
        assert(!(known_gpu_id(78u8).0 == v && known_gpu_id(78u8).1 == device));
        assert(!(known_gpu_id(79u8).0 == v && known_gpu_id(79u8).1 == device));
        assert(!(known_gpu_id(80u8).0 == v && known_gpu_id(80u8).1 == device));
        assert(!(known_gpu_id(81u8).0 == v && known_gpu_id(81u8).1 == device));
        assert(!(known_gpu_id(82u8).0 == v && known_gpu_id(82u8).1 == device));
        assert(!(known_gpu_id(83u8).0 == v && known_gpu_id(83u8).1 == device));
        assert(!(known_gpu_id(84u8).0 == v && known_gpu_id(84u8).1 == device));
        assert(!(known_gpu_id(85u8).0 == v && known_gpu_id(85u8).1 == device));
        assert(!(known_gpu_id(86u8).0 == v && known_gpu_id(86u8).1 == device));
        assert(!(known_gpu_id(87u8).0 == v && known_gpu_id(87u8).1 == device));
        assert(!(known_gpu_id(88u8).0 == v && known_gpu_id(88u8).1 == device));
        assert(!(known_gpu_id(89u8).0 == v && known_gpu_id(89u8).1 == device));
        assert(!(known_gpu_id(90u8).0 == v && known_gpu_id(90u8).1 == device));
        assert(!(known_gpu_id(91u8).0 == v && known_gpu_id(91u8).1 == device));
        assert(!(known_gpu_id(92u8).0 == v && known_gpu_id(92u8).1 == device));
        assert(!(known_gpu_id(93u8).0 == v && known_gpu_id(93u8).1 == device));
        assert(!(known_gpu_id(94u8).0 == v && known_gpu_id(94u8).1 == device));
        assert(!(known_gpu_id(95u8).0 == v && known_gpu_id(95u8).1 == device));
        assert(!(known_gpu_id(96u8).0 == v && known_gpu_id(96u8).1 == device));
        assert(!(known_gpu_id(97u8).0 == v && known_gpu_id(97u8).1 == device));
        assert(!(known_gpu_id(98u8).0 == v && known_gpu_id(98u8).1 == device));
        assert(!(known_gpu_id(99u8).0 == v && known_gpu_id(99u8).1 == device));
        assert(!(known_gpu_id(100u8).0 == v && known_gpu_id(100u8).1 == device));
        assert(!(known_gpu_id(101u8).0 == v && known_gpu_id(101u8).1 == device));
        assert(!(known_gpu_id(102u8).0 == v && known_gpu_id(102u8).1 == device));
        assert(!(known_gpu_id(103u8).0 == v && known_gpu_id(103u8).1 == device));
        assert(!(known_gpu_id(104u8).0 == v && known_gpu_id(104u8).1 == device));
        assert(!(known_gpu_id(105u8).0 == v && known_gpu_id(105u8).1 == device));
        assert(!(known_gpu_id(106u8).0 == v && known_gpu_id(106u8).1 == device));
        assert(!(known_gpu_id(107u8).0 == v && known_gpu_id(107u8).1 == device));
        assert(!(known_gpu_id(108u8).0 == v && known_gpu_id(108u8).1 == device));
        assert(!(known_gpu_id(109u8).0 == v && known_gpu_id(109u8).1 == device));
        assert(!(known_gpu_id(110u8).0 == v && known_gpu_id(110u8).1 == device));
    } else if k == 3 {
        assert(!(known_gpu_id(111u8).0 == v && known_gpu_id(111u8).1 == device));
        assert(!(known_gpu_id(112u8).0 == v && known_gpu_id(112u8).1 == device));
        assert(!(known_gpu_id(113u8).0 == v && known_gpu_id(113u8).1 == device));
        assert(!(known_gpu_id(114u8).0 == v && known_gpu_id(114u8).1 == device));
        assert(!(known_gpu_id(115u8).0 == v && known_gpu_id(115u8).1 == device));
        assert(!(known_gpu_id(116u8).0 == v && known_gpu_id(116u8).1 == device));
        assert(!(known_gpu_id(117u8).0 == v && known_gpu_id(117u8).1 == device));
        assert(!(known_gpu_id(118u8).0 == v && known_gpu_id(118u8).1 == device));
        assert(!(known_gpu_id(119u8).0 == v && known_gpu_id(119u8).1 == device));
        assert(!(known_gpu_id(120u8).0 == v && known_gpu_id(120u8).1 == device));
        assert(!(known_gpu_id(121u8).0 == v && known_gpu_id(121u8).1 == device));
        assert(!(known_gpu_id(122u8).0 == v && known_gpu_id(122u8).1 == device));
        assert(!(known_gpu_id(123u8).0 == v && known_gpu_id(123u8).1 == device));
        assert(!(known_gpu_id(124u8).0 == v && known_gpu_id(124u8).1 == device));
        assert(!(known_gpu_id(125u8).0 == v && known_gpu_id(125u8).1 == device));
        assert(!(known_gpu_id(126u8).0 == v && known_gpu_id(126u8).1 == device));
        assert(!(known_gpu_id(127u8).0 == v && known_gpu_id(127u8).1 == device));
        assert(!(known_gpu_id(128u8).0 == v && known_gpu_id(128u8).1 == device));
        assert(!(known_gpu_id(129u8).0 == v && known_gpu_id(129u8).1 == device));
        assert(!(known_gpu_id(130u8).0 == v && known_gpu_id(130u8).1 == device));
        assert(!(known_gpu_id(131u8).0 == v && known_gpu_id(131u8).1 == device));
        assert(!(known_gpu_id(132u8).0 == v && known_gpu_id(132u8).1 == device));
        assert(!(known_gpu_id(133u8).0 == v && known_gpu_id(133u8).1 == device));
    } else if k == 4 {
        assert(!(known_gpu_id(134u8).0 == v && known_gpu_id(134u8).1 == device));
        assert(!(known_gpu_id(135u8).0 == v && known_gpu_id(135u8).1 == device));
        assert(!(known_gpu_id(136u8).0 == v && known_gpu_id(136u8).1 == device));
        assert(!(known_gpu_id(137u8).0 == v && known_gpu_id(137u8).1 == device));
        assert(!(known_gpu_id(138u8).0 == v && known_gpu_id(138u8).1 == device));
        assert(!(known_gpu_id(139u8).0 == v && known_gpu_id(139u8).1 == device));
        assert(!(known_gpu_id(140u8).0 == v && known_gpu_id(140u8).1 == device));
        assert(!(known_gpu_id(141u8).0 == v && known_gpu_id(141u8).1 == device));
        assert(!(known_gpu_id(142u8).0 == v && known_gpu_id(142u8).1 == device));
        assert(!(known_gpu_id(143u8).0 == v && known_gpu_id(143u8).1 == device));
    } else if k == 5 {
        assert(!(known_gpu_id(144u8).0 == v && known_gpu_id(144u8).1 == device));
        assert(!(known_gpu_id(145u8).0 == v && known_gpu_id(145u8).1 == device));
        assert(!(known_gpu_id(146u8).0 == v && known_gpu_id(146u8).1 == device));
        assert(!(known_gpu_id(147u8).0 == v && known_gpu_id(147u8).1 == device));
        assert(!(known_gpu_id(148u8).0 == v && known_gpu_id(148u8).1 == device));
        assert(!(known_gpu_id(149u8).0 == v && known_gpu_id(149u8).1 == device));
        assert(!(known_gpu_id(150u8).0 == v && known_gpu_id(150u8).1 == device));
    } else if k == 6 {
        assert(!(known_gpu_id(151u8).0 == v && known_gpu_id(151u8).1 == device));
        assert(!(known_gpu_id(152u8).0 == v && known_gpu_id(152u8).1 == device));
        assert(!(known_gpu_id(153u8).0 == v && known_gpu_id(153u8).1 == device));
        assert(!(known_gpu_id(154u8).0 == v && known_gpu_id(154u8).1 == device));
    } else if k == 7 {
        assert(!(known_gpu_id(155u8).0 == v && known_gpu_id(155u8).1 == device));
        assert(!(known_gpu_id(156u8).0 == v && known_gpu_id(156u8).1 == device));
        assert(!(known_gpu_id(157u8).0 == v && known_gpu_id(157u8).1 == device));
    } else if k == 8 {
        assert(!(known_gpu_id(158u8).0 == v && known_gpu_id(158u8).1 == device));
        assert(!(known_gpu_id(159u8).0 == v && known_gpu_id(159u8).1 == device));
        assert(!(known_gpu_id(160u8).0 == v && known_gpu_id(160u8).1 == device));
        assert(!(known_gpu_id(161u8).0 == v && known_gpu_id(161u8).1 == device));
    } else if k == 9 {
        assert(!(known_gpu_id(162u8).0 == v && known_gpu_id(162u8).1 == device));
        assert(!(known_gpu_id(163u8).0 == v && known_gpu_id(163u8).1 == device));
    } else if k == 10 {
        assert(!(known_gpu_id(164u8).0 == v && known_gpu_id(164u8).1 == device));
        assert(!(known_gpu_id(165u8).0 == v && known_gpu_id(165u8).1 == device));
        assert(!(known_gpu_id(166u8).0 == v && known_gpu_id(166u8).1 == device));
        assert(!(known_gpu_id(167u8).0 == v && known_gpu_id(167u8).1 == device));
        assert(!(known_gpu_id(168u8).0 == v && known_gpu_id(168u8).1 == device));
    } else if k == 11 {
        assert(!(known_gpu_id(169u8).0 == v && known_gpu_id(169u8).1 == device));
        assert(!(known_gpu_id(170u8).0 == v && known_gpu_id(170u8).1 == device));
        assert(!(known_gpu_id(171u8).0 == v && known_gpu_id(171u8).1 == device));
    } else if k == 12 {
        assert(!(known_gpu_id(172u8).0 == v && known_gpu_id(172u8).1 == device));
        assert(!(known_gpu_id(173u8).0 == v && known_gpu_id(173u8).1 == device));
        assert(!(known_gpu_id(174u8).0 == v && known_gpu_id(174u8).1 == device));
    } else if k == 13 {
        assert(!(known_gpu_id(175u8).0 == v && known_gpu_id(175u8).1 == device));
        assert(!(known_gpu_id(176u8).0 == v && known_gpu_id(176u8).1 == device));
        assert(!(known_gpu_id(177u8).0 == v && known_gpu_id(177u8).1 == device));
        assert(!(known_gpu_id(178u8).0 == v && known_gpu_id(178u8).1 == device));
        assert(!(known_gpu_id(179u8).0 == v && known_gpu_id(179u8).1 == device));
    } else if k == 14 {
        assert(!(known_gpu_id(180u8).0 == v && known_gpu_id(180u8).1 == device));
        assert(!(known_gpu_id(181u8).0 == v && known_gpu_id(181u8).1 == device));
    } else if k == 15 {
        assert(!(known_gpu_id(182u8).0 == v && known_gpu_id(182u8).1 == device));
        assert(!(known_gpu_id(183u8).0 == v && known_gpu_id(183u8).1 == device));
    }
}

/// A device of any other vendor is unknown.
pub proof fn lemma_unknown_vendors(vendor: u16, device: u16)
    requires
        forall|k: u8| (k as int) < vendor_default_count() ==> (#[trigger] vendor_default(k)).0 != vendor,
        forall|k: u8| (k as int) < single_family_vendor_count() ==> (#[trigger] single_family_vendor(k)).0 != vendor,
    ensures
        identify_gpu_spec(vendor, device) == GpuFamily::Unknown,
{
    assert(vendor_default(0u8).0 != vendor);
    assert(vendor_default(1u8).0 != vendor);
    assert(vendor_default(2u8).0 != vendor);
    assert(vendor_default(3u8).0 != vendor);
    assert(vendor_default(4u8).0 != vendor);
    assert(vendor_default(5u8).0 != vendor);
    assert(vendor_default(6u8).0 != vendor);
    assert(vendor_default(7u8).0 != vendor);
    assert(vendor_default(8u8).0 != vendor);
    assert(vendor_default(9u8).0 != vendor);
    assert(vendor_default(10u8).0 != vendor);
    assert(vendor_default(11u8).0 != vendor);
    assert(vendor_default(12u8).0 != vendor);
    assert(vendor_default(13u8).0 != vendor);
    assert(vendor_default(14u8).0 != vendor);
    assert(vendor_default(15u8).0 != vendor);
    assert(single_family_vendor(0u8).0 != vendor);
    assert(single_family_vendor(1u8).0 != vendor);
    assert(single_family_vendor(2u8).0 != vendor);
    assert(single_family_vendor(3u8).0 != vendor);
}

} // verus!
