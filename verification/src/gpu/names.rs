//! What the family names say of the vendor: each starts with the vendor's
//! name.
use vstd::prelude::*;
use crate::gpu::family::{GpuFamily, GpuVendor, family_vendor, gpu_name_spec};

verus! {

/// The name of every Nvidia family starts with "Nvidia ".
pub proof fn lemma_nvidia_names(f: GpuFamily)
    requires
        family_vendor(f) == GpuVendor::Nvidia,
    ensures
        gpu_name_spec(f)@.len() > 7,
        gpu_name_spec(f)@.take(7) == "Nvidia "@,
{
    reveal_strlit("Nvidia ");
    match f {
        GpuFamily::Nv1 => {
            reveal_strlit("Nvidia NV1");
            assert(gpu_name_spec(f)@.take(7) =~= "Nvidia "@);
        },
        GpuFamily::Nv2 => {
            reveal_strlit("Nvidia NV2");
            assert(gpu_name_spec(f)@.take(7) =~= "Nvidia "@);
        },
        GpuFamily::Nv3 => {
            reveal_strlit("Nvidia NV3 (RIVA 128)");
            assert(gpu_name_spec(f)@.take(7) =~= "Nvidia "@);
        },
        GpuFamily::Nv4 => {
            reveal_strlit("Nvidia NV4 (RIVA TNT)");
            assert(gpu_name_spec(f)@.take(7) =~= "Nvidia "@);
        },
        GpuFamily::Nv5 => {
            reveal_strlit("Nvidia NV5 (RIVA TNT2)");
            assert(gpu_name_spec(f)@.take(7) =~= "Nvidia "@);
        },
        GpuFamily::Riva128 => {
            reveal_strlit("Nvidia RIVA 128");
            assert(gpu_name_spec(f)@.take(7) =~= "Nvidia "@);
        },
        GpuFamily::Riva128ZX => {
            reveal_strlit("Nvidia RIVA 128 ZX");
            assert(gpu_name_spec(f)@.take(7) =~= "Nvidia "@);
        },
        GpuFamily::RivaTNT => {
            reveal_strlit("Nvidia RIVA TNT");
            assert(gpu_name_spec(f)@.take(7) =~= "Nvidia "@);
        },
        GpuFamily::RivaTNT2 => {
            reveal_strlit("Nvidia RIVA TNT2");
            assert(gpu_name_spec(f)@.take(7) =~= "Nvidia "@);
        },
        GpuFamily::GeForce256 => {
            reveal_strlit("Nvidia GeForce 256");
            assert(gpu_name_spec(f)@.take(7) =~= "Nvidia "@);
        },
        GpuFamily::GeForceDDR => {
            reveal_strlit("Nvidia GeForce 256 DDR");
            assert(gpu_name_spec(f)@.take(7) =~= "Nvidia "@);
        },
        GpuFamily::GeForce2MX => {
            reveal_strlit("Nvidia GeForce2 MX");
            assert(gpu_name_spec(f)@.take(7) =~= "Nvidia "@);
        },
        GpuFamily::GeForce2GTS => {
            reveal_strlit("Nvidia GeForce2 GTS");
            assert(gpu_name_spec(f)@.take(7) =~= "Nvidia "@);
        },
        GpuFamily::GeForce2Ultra => {
            reveal_strlit("Nvidia GeForce2 Ultra");
            assert(gpu_name_spec(f)@.take(7) =~= "Nvidia "@);
        },
        GpuFamily::GeForce2Go => {
            reveal_strlit("Nvidia GeForce2 Go");
            assert(gpu_name_spec(f)@.take(7) =~= "Nvidia "@);
        },
        GpuFamily::GeForce2 => {
            reveal_strlit("Nvidia GeForce2");
            assert(gpu_name_spec(f)@.take(7) =~= "Nvidia "@);
        },
        GpuFamily::GeForce3 => {
            reveal_strlit("Nvidia GeForce3");
            assert(gpu_name_spec(f)@.take(7) =~= "Nvidia "@);
        },
        GpuFamily::GeForce3Ti => {
            reveal_strlit("Nvidia GeForce3 Ti");
            assert(gpu_name_spec(f)@.take(7) =~= "Nvidia "@);
        },
        GpuFamily::GeForce4MX => {
            reveal_strlit("Nvidia GeForce4 MX");
            assert(gpu_name_spec(f)@.take(7) =~= "Nvidia "@);
        },
        GpuFamily::GeForce4Ti => {
            reveal_strlit("Nvidia GeForce4 Ti");
            assert(gpu_name_spec(f)@.take(7) =~= "Nvidia "@);
        },
        GpuFamily::GeForce4Go => {
            reveal_strlit("Nvidia GeForce4 Go");
            assert(gpu_name_spec(f)@.take(7) =~= "Nvidia "@);
        },
        GpuFamily::GeForce4 => {
            reveal_strlit("Nvidia GeForce4");
            assert(gpu_name_spec(f)@.take(7) =~= "Nvidia "@);
        },
        GpuFamily::GeForceFX5200 => {
            reveal_strlit("Nvidia GeForce FX 5200");
            assert(gpu_name_spec(f)@.take(7) =~= "Nvidia "@);
        },
        GpuFamily::GeForceFX5600 => {
            reveal_strlit("Nvidia GeForce FX 5600");
            assert(gpu_name_spec(f)@.take(7) =~= "Nvidia "@);
        },
        GpuFamily::GeForceFX5700 => {
            reveal_strlit("Nvidia GeForce FX 5700");
            assert(gpu_name_spec(f)@.take(7) =~= "Nvidia "@);
        },
        GpuFamily::GeForceFX5800 => {
            reveal_strlit("Nvidia GeForce FX 5800");
            assert(gpu_name_spec(f)@.take(7) =~= "Nvidia "@);
        },
        GpuFamily::GeForceFX5900 => {
            reveal_strlit("Nvidia GeForce FX 5900");
            assert(gpu_name_spec(f)@.take(7) =~= "Nvidia "@);
        },
        GpuFamily::GeForceFX5950 => {
            reveal_strlit("Nvidia GeForce FX 5950");
            assert(gpu_name_spec(f)@.take(7) =~= "Nvidia "@);
        },
        GpuFamily::GeForceFXGo => {
            reveal_strlit("Nvidia GeForce FX Go");
            assert(gpu_name_spec(f)@.take(7) =~= "Nvidia "@);
        },
        GpuFamily::GeForceFX => {
            reveal_strlit("Nvidia GeForce FX");
            assert(gpu_name_spec(f)@.take(7) =~= "Nvidia "@);
        },
        GpuFamily::GeForce6 => {
            reveal_strlit("Nvidia GeForce 6");
            assert(gpu_name_spec(f)@.take(7) =~= "Nvidia "@);
        },
        GpuFamily::GeForce6200 => {
            reveal_strlit("Nvidia GeForce 6200");
            assert(gpu_name_spec(f)@.take(7) =~= "Nvidia "@);
        },
        GpuFamily::GeForce6600 => {
            reveal_strlit("Nvidia GeForce 6600");
            assert(gpu_name_spec(f)@.take(7) =~= "Nvidia "@);
        },
        GpuFamily::GeForce6800 => {
            reveal_strlit("Nvidia GeForce 6800");
            assert(gpu_name_spec(f)@.take(7) =~= "Nvidia "@);
        },
        GpuFamily::GeForce6Go => {
            reveal_strlit("Nvidia GeForce Go 6");
            assert(gpu_name_spec(f)@.take(7) =~= "Nvidia "@);
        },
        GpuFamily::GeForce7 => {
            reveal_strlit("Nvidia GeForce 7");
            assert(gpu_name_spec(f)@.take(7) =~= "Nvidia "@);
        },
        GpuFamily::GeForce7300 => {
            reveal_strlit("Nvidia GeForce 7300");
            assert(gpu_name_spec(f)@.take(7) =~= "Nvidia "@);
        },
        GpuFamily::GeForce7400 => {
            reveal_strlit("Nvidia GeForce 7400");
            assert(gpu_name_spec(f)@.take(7) =~= "Nvidia "@);
        },
        GpuFamily::GeForce7500 => {
            reveal_strlit("Nvidia GeForce 7500");
            assert(gpu_name_spec(f)@.take(7) =~= "Nvidia "@);
        },
        GpuFamily::GeForce7600 => {
            reveal_strlit("Nvidia GeForce 7600");
            assert(gpu_name_spec(f)@.take(7) =~= "Nvidia "@);
        },
        GpuFamily::GeForce7800 => {
            reveal_strlit("Nvidia GeForce 7800");
            assert(gpu_name_spec(f)@.take(7) =~= "Nvidia "@);
        },
        GpuFamily::GeForce7900 => {
            reveal_strlit("Nvidia GeForce 7900");
            assert(gpu_name_spec(f)@.take(7) =~= "Nvidia "@);
        },
        GpuFamily::GeForce7950 => {
            reveal_strlit("Nvidia GeForce 7950 GX2");
            assert(gpu_name_spec(f)@.take(7) =~= "Nvidia "@);
        },
        GpuFamily::GeForce8 => {
            reveal_strlit("Nvidia GeForce 8");
            assert(gpu_name_spec(f)@.take(7) =~= "Nvidia "@);
        },
        GpuFamily::GeForce8300 => {
            reveal_strlit("Nvidia GeForce 8300");
            assert(gpu_name_spec(f)@.take(7) =~= "Nvidia "@);
        },
        GpuFamily::GeForce8400 => {
            reveal_strlit("Nvidia GeForce 8400");
            assert(gpu_name_spec(f)@.take(7) =~= "Nvidia "@);
        },
        GpuFamily::GeForce8500 => {
            reveal_strlit("Nvidia GeForce 8500");
            assert(gpu_name_spec(f)@.take(7) =~= "Nvidia "@);
        },
        GpuFamily::GeForce8600 => {
            reveal_strlit("Nvidia GeForce 8600");
            assert(gpu_name_spec(f)@.take(7) =~= "Nvidia "@);
        },
        GpuFamily::GeForce8800 => {
            reveal_strlit("Nvidia GeForce 8800");
            assert(gpu_name_spec(f)@.take(7) =~= "Nvidia "@);
        },
        GpuFamily::GeForce9 => {
            reveal_strlit("Nvidia GeForce 9");
            assert(gpu_name_spec(f)@.take(7) =~= "Nvidia "@);
        },
        GpuFamily::GeForce9600 => {
            reveal_strlit("Nvidia GeForce 9600");
            assert(gpu_name_spec(f)@.take(7) =~= "Nvidia "@);
        },
        GpuFamily::GeForce9800 => {
            reveal_strlit("Nvidia GeForce 9800");
            assert(gpu_name_spec(f)@.take(7) =~= "Nvidia "@);
        },
        GpuFamily::GeForceGTX200 => {
            reveal_strlit("Nvidia GeForce GTX 200");
            assert(gpu_name_spec(f)@.take(7) =~= "Nvidia "@);
        },
        GpuFamily::GTX260 => {
            reveal_strlit("Nvidia GeForce GTX 260");
            assert(gpu_name_spec(f)@.take(7) =~= "Nvidia "@);
        },
        GpuFamily::GTX280 => {
            reveal_strlit("Nvidia GeForce GTX 280");
            assert(gpu_name_spec(f)@.take(7) =~= "Nvidia "@);
        },
        GpuFamily::GTX285 => {
            reveal_strlit("Nvidia GeForce GTX 285");
            assert(gpu_name_spec(f)@.take(7) =~= "Nvidia "@);
        },
        GpuFamily::GTX295 => {
            reveal_strlit("Nvidia GeForce GTX 295");
            assert(gpu_name_spec(f)@.take(7) =~= "Nvidia "@);
        },
        GpuFamily::GeForceGTX400 => {
            reveal_strlit("Nvidia GeForce GTX 400");
            assert(gpu_name_spec(f)@.take(7) =~= "Nvidia "@);
        },
        GpuFamily::GTX460 => {
            reveal_strlit("Nvidia GeForce GTX 460");
            assert(gpu_name_spec(f)@.take(7) =~= "Nvidia "@);
        },
        GpuFamily::GTX465 => {
            reveal_strlit("Nvidia GeForce GTX 465");
            assert(gpu_name_spec(f)@.take(7) =~= "Nvidia "@);
        },
        GpuFamily::GTX470 => {
            reveal_strlit("Nvidia GeForce GTX 470");
            assert(gpu_name_spec(f)@.take(7) =~= "Nvidia "@);
        },
        GpuFamily::GTX480 => {
            reveal_strlit("Nvidia GeForce GTX 480");
            assert(gpu_name_spec(f)@.take(7) =~= "Nvidia "@);
        },
        GpuFamily::GeForceGTX500 => {
            reveal_strlit("Nvidia GeForce GTX 500");
            assert(gpu_name_spec(f)@.take(7) =~= "Nvidia "@);
        },
        GpuFamily::GTX550 => {
            reveal_strlit("Nvidia GeForce GTX 550 Ti");
            assert(gpu_name_spec(f)@.take(7) =~= "Nvidia "@);
        },
        GpuFamily::GTX560 => {
            reveal_strlit("Nvidia GeForce GTX 560");
            assert(gpu_name_spec(f)@.take(7) =~= "Nvidia "@);
        },
        GpuFamily::GTX570 => {
            reveal_strlit("Nvidia GeForce GTX 570");
            assert(gpu_name_spec(f)@.take(7) =~= "Nvidia "@);
        },
        GpuFamily::GTX580 => {
            reveal_strlit("Nvidia GeForce GTX 580");
            assert(gpu_name_spec(f)@.take(7) =~= "Nvidia "@);
        },
        GpuFamily::GTX590 => {
            reveal_strlit("Nvidia GeForce GTX 590");
            assert(gpu_name_spec(f)@.take(7) =~= "Nvidia "@);
        },
        GpuFamily::GeForceGTX600 => {
            reveal_strlit("Nvidia GeForce GTX 600 (Kepler)");
            assert(gpu_name_spec(f)@.take(7) =~= "Nvidia "@);
        },
        GpuFamily::GTX650 => {
            reveal_strlit("Nvidia GeForce GTX 650");
            assert(gpu_name_spec(f)@.take(7) =~= "Nvidia "@);
        },
        GpuFamily::GTX660 => {
            reveal_strlit("Nvidia GeForce GTX 660");
            assert(gpu_name_spec(f)@.take(7) =~= "Nvidia "@);
        },
        GpuFamily::GTX670 => {
            reveal_strlit("Nvidia GeForce GTX 670");
            assert(gpu_name_spec(f)@.take(7) =~= "Nvidia "@);
        },
        GpuFamily::GTX680 => {
            reveal_strlit("Nvidia GeForce GTX 680");
            assert(gpu_name_spec(f)@.take(7) =~= "Nvidia "@);
        },
        GpuFamily::GTX690 => {
            reveal_strlit("Nvidia GeForce GTX 690");
            assert(gpu_name_spec(f)@.take(7) =~= "Nvidia "@);
        },
        GpuFamily::GeForceGTX700 => {
            reveal_strlit("Nvidia GeForce GTX 700");
            assert(gpu_name_spec(f)@.take(7) =~= "Nvidia "@);
        },
        GpuFamily::GTX760 => {
            reveal_strlit("Nvidia GeForce GTX 760");
            assert(gpu_name_spec(f)@.take(7) =~= "Nvidia "@);
        },
        GpuFamily::GTX770 => {
            reveal_strlit("Nvidia GeForce GTX 770");
            assert(gpu_name_spec(f)@.take(7) =~= "Nvidia "@);
        },
        GpuFamily::GTX780 => {
            reveal_strlit("Nvidia GeForce GTX 780");
            assert(gpu_name_spec(f)@.take(7) =~= "Nvidia "@);
        },
        GpuFamily::GTX780Ti => {
            reveal_strlit("Nvidia GeForce GTX 780 Ti");
            assert(gpu_name_spec(f)@.take(7) =~= "Nvidia "@);
        },
        GpuFamily::GTXTitan => {
            reveal_strlit("Nvidia GeForce GTX Titan");
            assert(gpu_name_spec(f)@.take(7) =~= "Nvidia "@);
        },
        GpuFamily::GeForceGTX900 => {
            reveal_strlit("Nvidia GeForce GTX 900 (Maxwell)");
            assert(gpu_name_spec(f)@.take(7) =~= "Nvidia "@);
        },
        GpuFamily::GTX960 => {
            reveal_strlit("Nvidia GeForce GTX 960");
            assert(gpu_name_spec(f)@.take(7) =~= "Nvidia "@);
        },
        GpuFamily::GTX970 => {
            reveal_strlit("Nvidia GeForce GTX 970");
            assert(gpu_name_spec(f)@.take(7) =~= "Nvidia "@);
        },
        GpuFamily::GTX980 => {
            reveal_strlit("Nvidia GeForce GTX 980");
            assert(gpu_name_spec(f)@.take(7) =~= "Nvidia "@);
        },
        GpuFamily::GTX980Ti => {
            reveal_strlit("Nvidia GeForce GTX 980 Ti");
            assert(gpu_name_spec(f)@.take(7) =~= "Nvidia "@);
        },
        GpuFamily::GTXTitanX => {
            reveal_strlit("Nvidia GeForce GTX Titan X");
            assert(gpu_name_spec(f)@.take(7) =~= "Nvidia "@);
        },
        GpuFamily::GeForceGTX10 => {
            reveal_strlit("Nvidia GeForce GTX 10 (Pascal)");
            assert(gpu_name_spec(f)@.take(7) =~= "Nvidia "@);
        },
        GpuFamily::GTX1050 => {
            reveal_strlit("Nvidia GeForce GTX 1050");
            assert(gpu_name_spec(f)@.take(7) =~= "Nvidia "@);
        },
        GpuFamily::GTX1060 => {
            reveal_strlit("Nvidia GeForce GTX 1060");
            assert(gpu_name_spec(f)@.take(7) =~= "Nvidia "@);
        },
        GpuFamily::GTX1070 => {
            reveal_strlit("Nvidia GeForce GTX 1070");
            assert(gpu_name_spec(f)@.take(7) =~= "Nvidia "@);
        },
        GpuFamily::GTX1080 => {
            reveal_strlit("Nvidia GeForce GTX 1080");
            assert(gpu_name_spec(f)@.take(7) =~= "Nvidia "@);
        },
        GpuFamily::GTX1080Ti => {
            reveal_strlit("Nvidia GeForce GTX 1080 Ti");
            assert(gpu_name_spec(f)@.take(7) =~= "Nvidia "@);
        },
        GpuFamily::GTXTitanXP => {
            reveal_strlit("Nvidia Titan Xp");
            assert(gpu_name_spec(f)@.take(7) =~= "Nvidia "@);
        },
        GpuFamily::GeForceGTX16 => {
            reveal_strlit("Nvidia GeForce GTX 16 (Turing)");
            assert(gpu_name_spec(f)@.take(7) =~= "Nvidia "@);
        },
        GpuFamily::GTX1650 => {
            reveal_strlit("Nvidia GeForce GTX 1650");
            assert(gpu_name_spec(f)@.take(7) =~= "Nvidia "@);
        },
        GpuFamily::GTX1660 => {
            reveal_strlit("Nvidia GeForce GTX 1660");
            assert(gpu_name_spec(f)@.take(7) =~= "Nvidia "@);
        },
        GpuFamily::GTX1660Super => {
            reveal_strlit("Nvidia GeForce GTX 1660 Super");
            assert(gpu_name_spec(f)@.take(7) =~= "Nvidia "@);
        },
        GpuFamily::GTX1660Ti => {
            reveal_strlit("Nvidia GeForce GTX 1660 Ti");
            assert(gpu_name_spec(f)@.take(7) =~= "Nvidia "@);
        },
        GpuFamily::GeForceRTX20 => {
            reveal_strlit("Nvidia GeForce RTX 20 (Turing)");
            assert(gpu_name_spec(f)@.take(7) =~= "Nvidia "@);
        },
        GpuFamily::RTX2060 => {
            reveal_strlit("Nvidia GeForce RTX 2060");
            assert(gpu_name_spec(f)@.take(7) =~= "Nvidia "@);
        },
        GpuFamily::RTX2070 => {
            reveal_strlit("Nvidia GeForce RTX 2070");
            assert(gpu_name_spec(f)@.take(7) =~= "Nvidia "@);
        },
        GpuFamily::RTX2080 => {
            reveal_strlit("Nvidia GeForce RTX 2080");
            assert(gpu_name_spec(f)@.take(7) =~= "Nvidia "@);
        },
        GpuFamily::RTX2080Ti => {
            reveal_strlit("Nvidia GeForce RTX 2080 Ti");
            assert(gpu_name_spec(f)@.take(7) =~= "Nvidia "@);
        },
        GpuFamily::TitanRTX => {
            reveal_strlit("Nvidia Titan RTX");
            assert(gpu_name_spec(f)@.take(7) =~= "Nvidia "@);
        },
        GpuFamily::GeForceRTX30 => {
            reveal_strlit("Nvidia GeForce RTX 30 (Ampere)");
            assert(gpu_name_spec(f)@.take(7) =~= "Nvidia "@);
        },
        GpuFamily::RTX3060 => {
            reveal_strlit("Nvidia GeForce RTX 3060");
            assert(gpu_name_spec(f)@.take(7) =~= "Nvidia "@);
        },
        GpuFamily::RTX3070 => {
            reveal_strlit("Nvidia GeForce RTX 3070");
            assert(gpu_name_spec(f)@.take(7) =~= "Nvidia "@);
        },
        GpuFamily::RTX3080 => {
            reveal_strlit("Nvidia GeForce RTX 3080");
            assert(gpu_name_spec(f)@.take(7) =~= "Nvidia "@);
        },
        GpuFamily::RTX3090 => {
            reveal_strlit("Nvidia GeForce RTX 3090");
            assert(gpu_name_spec(f)@.take(7) =~= "Nvidia "@);
        },
        GpuFamily::RTX3090Ti => {
            reveal_strlit("Nvidia GeForce RTX 3090 Ti");
            assert(gpu_name_spec(f)@.take(7) =~= "Nvidia "@);
        },
        GpuFamily::GeForceRTX40 => {
            reveal_strlit("Nvidia GeForce RTX 40 (Ada Lovelace)");
            assert(gpu_name_spec(f)@.take(7) =~= "Nvidia "@);
        },
        GpuFamily::RTX4060 => {
            reveal_strlit("Nvidia GeForce RTX 4060");
            assert(gpu_name_spec(f)@.take(7) =~= "Nvidia "@);
        },
        GpuFamily::RTX4070 => {
            reveal_strlit("Nvidia GeForce RTX 4070");
            assert(gpu_name_spec(f)@.take(7) =~= "Nvidia "@);
        },
        GpuFamily::RTX4080 => {
            reveal_strlit("Nvidia GeForce RTX 4080");
            assert(gpu_name_spec(f)@.take(7) =~= "Nvidia "@);
        },
        GpuFamily::RTX4090 => {
            reveal_strlit("Nvidia GeForce RTX 4090");
            assert(gpu_name_spec(f)@.take(7) =~= "Nvidia "@);
        },
        GpuFamily::GeForceRTX50 => {
            reveal_strlit("Nvidia GeForce RTX 50 (Blackwell)");
            assert(gpu_name_spec(f)@.take(7) =~= "Nvidia "@);
        },
        GpuFamily::RTX5060 => {
            reveal_strlit("Nvidia GeForce RTX 5060");
            assert(gpu_name_spec(f)@.take(7) =~= "Nvidia "@);
        },
        GpuFamily::RTX5070 => {
            reveal_strlit("Nvidia GeForce RTX 5070");
            assert(gpu_name_spec(f)@.take(7) =~= "Nvidia "@);
        },
        GpuFamily::RTX5080 => {
            reveal_strlit("Nvidia GeForce RTX 5080");
            assert(gpu_name_spec(f)@.take(7) =~= "Nvidia "@);
        },
        GpuFamily::RTX5090 => {
            reveal_strlit("Nvidia GeForce RTX 5090");
            assert(gpu_name_spec(f)@.take(7) =~= "Nvidia "@);
        },
        GpuFamily::NvidiaQuadro => {
            reveal_strlit("Nvidia Quadro");
            assert(gpu_name_spec(f)@.take(7) =~= "Nvidia "@);
        },
        GpuFamily::NvidiaTesla => {
            reveal_strlit("Nvidia Tesla");
            assert(gpu_name_spec(f)@.take(7) =~= "Nvidia "@);
        },
        _ => {},
    }
}

/// The name of every ATI/AMD family starts with "ATI " or "AMD ".
pub proof fn lemma_ati_names(f: GpuFamily)
    requires
        family_vendor(f) == GpuVendor::AtiAmd,
    ensures
        gpu_name_spec(f)@.len() > 4,
        gpu_name_spec(f)@.take(4) == "ATI "@ || gpu_name_spec(f)@.take(4) == "AMD "@,
{
    reveal_strlit("ATI ");
    reveal_strlit("AMD ");
    match f {
        GpuFamily::RagePro => {
            reveal_strlit("ATI 3D Rage Pro");
            assert(gpu_name_spec(f)@.take(4) =~= "ATI "@);
        },
        GpuFamily::RageXL => {
            reveal_strlit("ATI Rage XL");
            assert(gpu_name_spec(f)@.take(4) =~= "ATI "@);
        },
        GpuFamily::RageFury => {
            reveal_strlit("ATI Rage Fury");
            assert(gpu_name_spec(f)@.take(4) =~= "ATI "@);
        },
        GpuFamily::Rage128VR => {
            reveal_strlit("ATI Rage 128 VR");
            assert(gpu_name_spec(f)@.take(4) =~= "ATI "@);
        },
        GpuFamily::Rage128GL => {
            reveal_strlit("ATI Rage 128 GL");
            assert(gpu_name_spec(f)@.take(4) =~= "ATI "@);
        },
        GpuFamily::Rage128Pro => {
            reveal_strlit("ATI Rage 128 Pro");
            assert(gpu_name_spec(f)@.take(4) =~= "ATI "@);
        },
        GpuFamily::Rage128 => {
            reveal_strlit("ATI Rage 128");
            assert(gpu_name_spec(f)@.take(4) =~= "ATI "@);
        },
        GpuFamily::Radeon7000 => {
            reveal_strlit("ATI Radeon 7000 (R100)");
            assert(gpu_name_spec(f)@.take(4) =~= "ATI "@);
        },
        GpuFamily::Radeon7200 => {
            reveal_strlit("ATI Radeon 7200");
            assert(gpu_name_spec(f)@.take(4) =~= "ATI "@);
        },
        GpuFamily::Radeon7500 => {
            reveal_strlit("ATI Radeon 7500 (RV200)");
            assert(gpu_name_spec(f)@.take(4) =~= "ATI "@);
        },
        GpuFamily::Radeon8500 => {
            reveal_strlit("ATI Radeon 8500 (R200)");
            assert(gpu_name_spec(f)@.take(4) =~= "ATI "@);
        },
        GpuFamily::Radeon8500LE => {
            reveal_strlit("ATI Radeon 8500 LE");
            assert(gpu_name_spec(f)@.take(4) =~= "ATI "@);
        },
        GpuFamily::Radeon9000 => {
            reveal_strlit("ATI Radeon 9000");
            assert(gpu_name_spec(f)@.take(4) =~= "ATI "@);
        },
        GpuFamily::Radeon9100 => {
            reveal_strlit("ATI Radeon 9100");
            assert(gpu_name_spec(f)@.take(4) =~= "ATI "@);
        },
        GpuFamily::Radeon9200 => {
            reveal_strlit("ATI Radeon 9200");
            assert(gpu_name_spec(f)@.take(4) =~= "ATI "@);
        },
        GpuFamily::Radeon9500 => {
            reveal_strlit("ATI Radeon 9500");
            assert(gpu_name_spec(f)@.take(4) =~= "ATI "@);
        },
        GpuFamily::Radeon9550 => {
            reveal_strlit("ATI Radeon 9550");
            assert(gpu_name_spec(f)@.take(4) =~= "ATI "@);
        },
        GpuFamily::Radeon9600 => {
            reveal_strlit("ATI Radeon 9600");
            assert(gpu_name_spec(f)@.take(4) =~= "ATI "@);
        },
        GpuFamily::Radeon9700 => {
            reveal_strlit("ATI Radeon 9700 (R300)");
            assert(gpu_name_spec(f)@.take(4) =~= "ATI "@);
        },
        GpuFamily::Radeon9700Pro => {
            reveal_strlit("ATI Radeon 9700 Pro");
            assert(gpu_name_spec(f)@.take(4) =~= "ATI "@);
        },
        GpuFamily::Radeon9800 => {
            reveal_strlit("ATI Radeon 9800");
            assert(gpu_name_spec(f)@.take(4) =~= "ATI "@);
        },
        GpuFamily::Radeon9800Pro => {
            reveal_strlit("ATI Radeon 9800 Pro");
            assert(gpu_name_spec(f)@.take(4) =~= "ATI "@);
        },
        GpuFamily::RadeonX300 => {
            reveal_strlit("ATI Radeon X300");
            assert(gpu_name_spec(f)@.take(4) =~= "ATI "@);
        },
        GpuFamily::RadeonX600 => {
            reveal_strlit("ATI Radeon X600");
            assert(gpu_name_spec(f)@.take(4) =~= "ATI "@);
        },
        GpuFamily::RadeonX700 => {
            reveal_strlit("ATI Radeon X700");
            assert(gpu_name_spec(f)@.take(4) =~= "ATI "@);
        },
        GpuFamily::RadeonX800 => {
            reveal_strlit("ATI Radeon X800");
            assert(gpu_name_spec(f)@.take(4) =~= "ATI "@);
        },
        GpuFamily::RadeonX850 => {
            reveal_strlit("ATI Radeon X850");
            assert(gpu_name_spec(f)@.take(4) =~= "ATI "@);
        },
        GpuFamily::RadeonX1300 => {
            reveal_strlit("ATI Radeon X1300");
            assert(gpu_name_spec(f)@.take(4) =~= "ATI "@);
        },
        GpuFamily::RadeonX1600 => {
            reveal_strlit("ATI Radeon X1600");
            assert(gpu_name_spec(f)@.take(4) =~= "ATI "@);
        },
        GpuFamily::RadeonX1800 => {
            reveal_strlit("ATI Radeon X1800");
            assert(gpu_name_spec(f)@.take(4) =~= "ATI "@);
        },
        GpuFamily::RadeonX1900 => {
            reveal_strlit("ATI Radeon X1900");
            assert(gpu_name_spec(f)@.take(4) =~= "ATI "@);
        },
        GpuFamily::RadeonX1950 => {
            reveal_strlit("ATI Radeon X1950");
            assert(gpu_name_spec(f)@.take(4) =~= "ATI "@);
        },
        GpuFamily::RadeonHD2400 => {
            reveal_strlit("ATI Radeon HD 2400");
            assert(gpu_name_spec(f)@.take(4) =~= "ATI "@);
        },
        GpuFamily::RadeonHD2600 => {
            reveal_strlit("ATI Radeon HD 2600");
            assert(gpu_name_spec(f)@.take(4) =~= "ATI "@);
        },
        GpuFamily::RadeonHD2900 => {
            reveal_strlit("ATI Radeon HD 2900");
            assert(gpu_name_spec(f)@.take(4) =~= "ATI "@);
        },
        GpuFamily::RadeonHD3450 => {
            reveal_strlit("ATI Radeon HD 3450");
            assert(gpu_name_spec(f)@.take(4) =~= "ATI "@);
        },
        GpuFamily::RadeonHD3650 => {
            reveal_strlit("ATI Radeon HD 3650");
            assert(gpu_name_spec(f)@.take(4) =~= "ATI "@);
        },
        GpuFamily::RadeonHD3850 => {
            reveal_strlit("ATI Radeon HD 3850");
            assert(gpu_name_spec(f)@.take(4) =~= "ATI "@);
        },
        GpuFamily::RadeonHD3870 => {
            reveal_strlit("ATI Radeon HD 3870");
            assert(gpu_name_spec(f)@.take(4) =~= "ATI "@);
        },
        GpuFamily::RadeonHD4350 => {
            reveal_strlit("ATI Radeon HD 4350");
            assert(gpu_name_spec(f)@.take(4) =~= "ATI "@);
        },
        GpuFamily::RadeonHD4550 => {
            reveal_strlit("ATI Radeon HD 4550");
            assert(gpu_name_spec(f)@.take(4) =~= "ATI "@);
        },
        GpuFamily::RadeonHD4650 => {
            reveal_strlit("ATI Radeon HD 4650");
            assert(gpu_name_spec(f)@.take(4) =~= "ATI "@);
        },
        GpuFamily::RadeonHD4670 => {
            reveal_strlit("ATI Radeon HD 4670");
            assert(gpu_name_spec(f)@.take(4) =~= "ATI "@);
        },
        GpuFamily::RadeonHD4770 => {
            reveal_strlit("ATI Radeon HD 4770");
            assert(gpu_name_spec(f)@.take(4) =~= "ATI "@);
        },
        GpuFamily::RadeonHD4830 => {
            reveal_strlit("ATI Radeon HD 4830");
            assert(gpu_name_spec(f)@.take(4) =~= "ATI "@);
        },
        GpuFamily::RadeonHD4850 => {
            reveal_strlit("ATI Radeon HD 4850");
            assert(gpu_name_spec(f)@.take(4) =~= "ATI "@);
        },
        GpuFamily::RadeonHD4870 => {
            reveal_strlit("ATI Radeon HD 4870");
            assert(gpu_name_spec(f)@.take(4) =~= "ATI "@);
        },
        GpuFamily::RadeonHD4870X2 => {
            reveal_strlit("ATI Radeon HD 4870 X2");
            assert(gpu_name_spec(f)@.take(4) =~= "ATI "@);
        },
        GpuFamily::RadeonHD5450 => {
            reveal_strlit("ATI Radeon HD 5450");
            assert(gpu_name_spec(f)@.take(4) =~= "ATI "@);
        },
        GpuFamily::RadeonHD5570 => {
            reveal_strlit("ATI Radeon HD 5570");
            assert(gpu_name_spec(f)@.take(4) =~= "ATI "@);
        },
        GpuFamily::RadeonHD5670 => {
            reveal_strlit("ATI Radeon HD 5670");
            assert(gpu_name_spec(f)@.take(4) =~= "ATI "@);
        },
        GpuFamily::RadeonHD5750 => {
            reveal_strlit("ATI Radeon HD 5750");
            assert(gpu_name_spec(f)@.take(4) =~= "ATI "@);
        },
        GpuFamily::RadeonHD5770 => {
            reveal_strlit("ATI Radeon HD 5770");
            assert(gpu_name_spec(f)@.take(4) =~= "ATI "@);
        },
        GpuFamily::RadeonHD5830 => {
            reveal_strlit("ATI Radeon HD 5830");
            assert(gpu_name_spec(f)@.take(4) =~= "ATI "@);
        },
        GpuFamily::RadeonHD5850 => {
            reveal_strlit("ATI Radeon HD 5850");
            assert(gpu_name_spec(f)@.take(4) =~= "ATI "@);
        },
        GpuFamily::RadeonHD5870 => {
            reveal_strlit("ATI Radeon HD 5870");
            assert(gpu_name_spec(f)@.take(4) =~= "ATI "@);
        },
        GpuFamily::RadeonHD5970 => {
            reveal_strlit("ATI Radeon HD 5970");
            assert(gpu_name_spec(f)@.take(4) =~= "ATI "@);
        },
        GpuFamily::RadeonHD6450 => {
            reveal_strlit("AMD Radeon HD 6450");
            assert(gpu_name_spec(f)@.take(4) =~= "AMD "@);
        },
        GpuFamily::RadeonHD6570 => {
            reveal_strlit("AMD Radeon HD 6570");
            assert(gpu_name_spec(f)@.take(4) =~= "AMD "@);
        },
        GpuFamily::RadeonHD6670 => {
            reveal_strlit("AMD Radeon HD 6670");
            assert(gpu_name_spec(f)@.take(4) =~= "AMD "@);
        },
        GpuFamily::RadeonHD6750 => {
            reveal_strlit("AMD Radeon HD 6750");
            assert(gpu_name_spec(f)@.take(4) =~= "AMD "@);
        },
        GpuFamily::RadeonHD6770 => {
            reveal_strlit("AMD Radeon HD 6770");
            assert(gpu_name_spec(f)@.take(4) =~= "AMD "@);
        },
        GpuFamily::RadeonHD6790 => {
            reveal_strlit("AMD Radeon HD 6790");
            assert(gpu_name_spec(f)@.take(4) =~= "AMD "@);
        },
        GpuFamily::RadeonHD6850 => {
            reveal_strlit("AMD Radeon HD 6850");
            assert(gpu_name_spec(f)@.take(4) =~= "AMD "@);
        },
        GpuFamily::RadeonHD6870 => {
            reveal_strlit("AMD Radeon HD 6870");
            assert(gpu_name_spec(f)@.take(4) =~= "AMD "@);
        },
        GpuFamily::RadeonHD6950 => {
            reveal_strlit("AMD Radeon HD 6950");
            assert(gpu_name_spec(f)@.take(4) =~= "AMD "@);
        },
        GpuFamily::RadeonHD6970 => {
            reveal_strlit("AMD Radeon HD 6970");
            assert(gpu_name_spec(f)@.take(4) =~= "AMD "@);
        },
        GpuFamily::RadeonHD6990 => {
            reveal_strlit("AMD Radeon HD 6990");
            assert(gpu_name_spec(f)@.take(4) =~= "AMD "@);
        },
        GpuFamily::RadeonHD7750 => {
            reveal_strlit("AMD Radeon HD 7750");
            assert(gpu_name_spec(f)@.take(4) =~= "AMD "@);
        },
        GpuFamily::RadeonHD7770 => {
            reveal_strlit("AMD Radeon HD 7770");
            assert(gpu_name_spec(f)@.take(4) =~= "AMD "@);
        },
        GpuFamily::RadeonHD7850 => {
            reveal_strlit("AMD Radeon HD 7850");
            assert(gpu_name_spec(f)@.take(4) =~= "AMD "@);
        },
        GpuFamily::RadeonHD7870 => {
            reveal_strlit("AMD Radeon HD 7870");
            assert(gpu_name_spec(f)@.take(4) =~= "AMD "@);
        },
        GpuFamily::RadeonHD7950 => {
            reveal_strlit("AMD Radeon HD 7950");
            assert(gpu_name_spec(f)@.take(4) =~= "AMD "@);
        },
        GpuFamily::RadeonHD7970 => {
            reveal_strlit("AMD Radeon HD 7970");
            assert(gpu_name_spec(f)@.take(4) =~= "AMD "@);
        },
        GpuFamily::RadeonHD7990 => {
            reveal_strlit("AMD Radeon HD 7990");
            assert(gpu_name_spec(f)@.take(4) =~= "AMD "@);
        },
        GpuFamily::RadeonR7240 => {
            reveal_strlit("AMD Radeon R7 240");
            assert(gpu_name_spec(f)@.take(4) =~= "AMD "@);
        },
        GpuFamily::RadeonR7250 => {
            reveal_strlit("AMD Radeon R7 250");
            assert(gpu_name_spec(f)@.take(4) =~= "AMD "@);
        },
        GpuFamily::RadeonR7260 => {
            reveal_strlit("AMD Radeon R7 260");
            assert(gpu_name_spec(f)@.take(4) =~= "AMD "@);
        },
        GpuFamily::RadeonR7270 => {
            reveal_strlit("AMD Radeon R7 270");
            assert(gpu_name_spec(f)@.take(4) =~= "AMD "@);
        },
        GpuFamily::RadeonR7280 => {
            reveal_strlit("AMD Radeon R7 280");
            assert(gpu_name_spec(f)@.take(4) =~= "AMD "@);
        },
        GpuFamily::RadeonR9280 => {
            reveal_strlit("AMD Radeon R9 280");
            assert(gpu_name_spec(f)@.take(4) =~= "AMD "@);
        },
        GpuFamily::RadeonR9290 => {
            reveal_strlit("AMD Radeon R9 290");
            assert(gpu_name_spec(f)@.take(4) =~= "AMD "@);
        },
        GpuFamily::RadeonR9290X => {
            reveal_strlit("AMD Radeon R9 290X");
            assert(gpu_name_spec(f)@.take(4) =~= "AMD "@);
        },
        GpuFamily::RadeonR9390 => {
            reveal_strlit("AMD Radeon R9 390");
            assert(gpu_name_spec(f)@.take(4) =~= "AMD "@);
        },
        GpuFamily::RadeonR9390X => {
            reveal_strlit("AMD Radeon R9 390X");
            assert(gpu_name_spec(f)@.take(4) =~= "AMD "@);
        },
        GpuFamily::RadeonR7460 => {
            reveal_strlit("AMD Radeon R7 460");
            assert(gpu_name_spec(f)@.take(4) =~= "AMD "@);
        },
        GpuFamily::RadeonR7470 => {
            reveal_strlit("AMD Radeon R7 470");
            assert(gpu_name_spec(f)@.take(4) =~= "AMD "@);
        },
        GpuFamily::RadeonR7480 => {
            reveal_strlit("AMD Radeon R7 480");
            assert(gpu_name_spec(f)@.take(4) =~= "AMD "@);
        },
        GpuFamily::RadeonR7570 => {
            reveal_strlit("AMD Radeon R7 570");
            assert(gpu_name_spec(f)@.take(4) =~= "AMD "@);
        },
        GpuFamily::RadeonR7580 => {
            reveal_strlit("AMD Radeon R7 580");
            assert(gpu_name_spec(f)@.take(4) =~= "AMD "@);
        },
        GpuFamily::RadeonR7590 => {
            reveal_strlit("AMD Radeon R7 590");
            assert(gpu_name_spec(f)@.take(4) =~= "AMD "@);
        },
        GpuFamily::RadeonRX460 => {
            reveal_strlit("AMD Radeon RX 460");
            assert(gpu_name_spec(f)@.take(4) =~= "AMD "@);
        },
        GpuFamily::RadeonRX470 => {
            reveal_strlit("AMD Radeon RX 470");
            assert(gpu_name_spec(f)@.take(4) =~= "AMD "@);
        },
        GpuFamily::RadeonRX480 => {
            reveal_strlit("AMD Radeon RX 480");
            assert(gpu_name_spec(f)@.take(4) =~= "AMD "@);
        },
        GpuFamily::RadeonRX550 => {
            reveal_strlit("AMD Radeon RX 550");
            assert(gpu_name_spec(f)@.take(4) =~= "AMD "@);
        },
        GpuFamily::RadeonRX560 => {
            reveal_strlit("AMD Radeon RX 560");
            assert(gpu_name_spec(f)@.take(4) =~= "AMD "@);
        },
        GpuFamily::RadeonRX570 => {
            reveal_strlit("AMD Radeon RX 570");
            assert(gpu_name_spec(f)@.take(4) =~= "AMD "@);
        },
        GpuFamily::RadeonRX580 => {
            reveal_strlit("AMD Radeon RX 580");
            assert(gpu_name_spec(f)@.take(4) =~= "AMD "@);
        },
        GpuFamily::RadeonRX590 => {
            reveal_strlit("AMD Radeon RX 590");
            assert(gpu_name_spec(f)@.take(4) =~= "AMD "@);
        },
        GpuFamily::RadeonRX5500 => {
            reveal_strlit("AMD Radeon RX 5500");
            assert(gpu_name_spec(f)@.take(4) =~= "AMD "@);
        },
        GpuFamily::RadeonRX5600 => {
            reveal_strlit("AMD Radeon RX 5600");
            assert(gpu_name_spec(f)@.take(4) =~= "AMD "@);
        },
        GpuFamily::RadeonRX5700 => {
            reveal_strlit("AMD Radeon RX 5700");
            assert(gpu_name_spec(f)@.take(4) =~= "AMD "@);
        },
        GpuFamily::RadeonRX6400 => {
            reveal_strlit("AMD Radeon RX 6400");
            assert(gpu_name_spec(f)@.take(4) =~= "AMD "@);
        },
        GpuFamily::RadeonRX6500XT => {
            reveal_strlit("AMD Radeon RX 6500 XT");
            assert(gpu_name_spec(f)@.take(4) =~= "AMD "@);
        },
        GpuFamily::RadeonRX6600 => {
            reveal_strlit("AMD Radeon RX 6600");
            assert(gpu_name_spec(f)@.take(4) =~= "AMD "@);
        },
        GpuFamily::RadeonRX6700XT => {
            reveal_strlit("AMD Radeon RX 6700 XT");
            assert(gpu_name_spec(f)@.take(4) =~= "AMD "@);
        },
        GpuFamily::RadeonRX6800 => {
            reveal_strlit("AMD Radeon RX 6800");
            assert(gpu_name_spec(f)@.take(4) =~= "AMD "@);
        },
        GpuFamily::RadeonRX6800XT => {
            reveal_strlit("AMD Radeon RX 6800 XT");
            assert(gpu_name_spec(f)@.take(4) =~= "AMD "@);
        },
        GpuFamily::RadeonRX6900XT => {
            reveal_strlit("AMD Radeon RX 6900 XT");
            assert(gpu_name_spec(f)@.take(4) =~= "AMD "@);
        },
        GpuFamily::RadeonRX7600 => {
            reveal_strlit("AMD Radeon RX 7600");
            assert(gpu_name_spec(f)@.take(4) =~= "AMD "@);
        },
        GpuFamily::RadeonRX7700XT => {
            reveal_strlit("AMD Radeon RX 7700 XT");
            assert(gpu_name_spec(f)@.take(4) =~= "AMD "@);
        },
        GpuFamily::RadeonRX7800XT => {
            reveal_strlit("AMD Radeon RX 7800 XT");
            assert(gpu_name_spec(f)@.take(4) =~= "AMD "@);
        },
        GpuFamily::RadeonRX7900GRE => {
            reveal_strlit("AMD Radeon RX 7900 GRE");
            assert(gpu_name_spec(f)@.take(4) =~= "AMD "@);
        },
        GpuFamily::RadeonRX7900XT => {
            reveal_strlit("AMD Radeon RX 7900 XT");
            assert(gpu_name_spec(f)@.take(4) =~= "AMD "@);
        },
        GpuFamily::RadeonRX7900XTX => {
            reveal_strlit("AMD Radeon RX 7900 XTX");
            assert(gpu_name_spec(f)@.take(4) =~= "AMD "@);
        },
        GpuFamily::RadeonRX9070 => {
            reveal_strlit("AMD Radeon RX 9070");
            assert(gpu_name_spec(f)@.take(4) =~= "AMD "@);
        },
        GpuFamily::RadeonRX9070XT => {
            reveal_strlit("AMD Radeon RX 9070 XT");
            assert(gpu_name_spec(f)@.take(4) =~= "AMD "@);
        },
        GpuFamily::AMDFirePro => {
            reveal_strlit("AMD FirePro");
            assert(gpu_name_spec(f)@.take(4) =~= "AMD "@);
        },
        GpuFamily::AMDInstinct => {
            reveal_strlit("AMD Instinct");
            assert(gpu_name_spec(f)@.take(4) =~= "AMD "@);
        },
        _ => {},
    }
}

/// The name of every 3dfx family starts with "3dfx ".
pub proof fn lemma_3dfx_names(f: GpuFamily)
    requires
        family_vendor(f) == GpuVendor::ThreeDfx,
    ensures
        gpu_name_spec(f)@.len() > 5,
        gpu_name_spec(f)@.take(5) == "3dfx "@,
{
    reveal_strlit("3dfx ");
    match f {
        GpuFamily::Voodoo1 => {
            reveal_strlit("3dfx Voodoo Graphics");
            assert(gpu_name_spec(f)@.take(5) =~= "3dfx "@);
        },
        GpuFamily::Voodoo2 => {
            reveal_strlit("3dfx Voodoo2");
            assert(gpu_name_spec(f)@.take(5) =~= "3dfx "@);
        },
        GpuFamily::VoodooRush => {
            reveal_strlit("3dfx Voodoo Rush");
            assert(gpu_name_spec(f)@.take(5) =~= "3dfx "@);
        },
        GpuFamily::VoodooBanshee => {
            reveal_strlit("3dfx Voodoo Banshee");
            assert(gpu_name_spec(f)@.take(5) =~= "3dfx "@);
        },
        GpuFamily::Voodoo3 => {
            reveal_strlit("3dfx Voodoo3");
            assert(gpu_name_spec(f)@.take(5) =~= "3dfx "@);
        },
        GpuFamily::Voodoo4 => {
            reveal_strlit("3dfx Voodoo4 4500");
            assert(gpu_name_spec(f)@.take(5) =~= "3dfx "@);
        },
        GpuFamily::Voodoo5 => {
            reveal_strlit("3dfx Voodoo5 5500");
            assert(gpu_name_spec(f)@.take(5) =~= "3dfx "@);
        },
        _ => {},
    }
}

/// The name of every Intel family starts with "Intel ".
pub proof fn lemma_intel_names(f: GpuFamily)
    requires
        family_vendor(f) == GpuVendor::Intel,
    ensures
        gpu_name_spec(f)@.len() > 6,
        gpu_name_spec(f)@.take(6) == "Intel "@,
{
    reveal_strlit("Intel ");
    match f {
        GpuFamily::Intel740 => {
            reveal_strlit("Intel i740");
            assert(gpu_name_spec(f)@.take(6) =~= "Intel "@);
        },
        GpuFamily::Intel810 => {
            reveal_strlit("Intel i810");
            assert(gpu_name_spec(f)@.take(6) =~= "Intel "@);
        },
        GpuFamily::Intel915 => {
            reveal_strlit("Intel GMA 915/950");
            assert(gpu_name_spec(f)@.take(6) =~= "Intel "@);
        },
        GpuFamily::IntelGMA3000 => {
            reveal_strlit("Intel GMA 3000");
            assert(gpu_name_spec(f)@.take(6) =~= "Intel "@);
        },
        GpuFamily::IntelGMA3100 => {
            reveal_strlit("Intel GMA 3100");
            assert(gpu_name_spec(f)@.take(6) =~= "Intel "@);
        },
        GpuFamily::IntelGMAX3100 => {
            reveal_strlit("Intel GMA X3100");
            assert(gpu_name_spec(f)@.take(6) =~= "Intel "@);
        },
        GpuFamily::IntelGMAX3500 => {
            reveal_strlit("Intel GMA X3500");
            assert(gpu_name_spec(f)@.take(6) =~= "Intel "@);
        },
        GpuFamily::IntelHDGraphics => {
            reveal_strlit("Intel HD Graphics");
            assert(gpu_name_spec(f)@.take(6) =~= "Intel "@);
        },
        GpuFamily::IntelHDGraphics2000 => {
            reveal_strlit("Intel HD Graphics 2000");
            assert(gpu_name_spec(f)@.take(6) =~= "Intel "@);
        },
        GpuFamily::IntelHDGraphics2500 => {
            reveal_strlit("Intel HD Graphics 2500");
            assert(gpu_name_spec(f)@.take(6) =~= "Intel "@);
        },
        GpuFamily::IntelHDGraphics3000 => {
            reveal_strlit("Intel HD Graphics 3000");
            assert(gpu_name_spec(f)@.take(6) =~= "Intel "@);
        },
        GpuFamily::IntelHDGraphics4000 => {
            reveal_strlit("Intel HD Graphics 4000");
            assert(gpu_name_spec(f)@.take(6) =~= "Intel "@);
        },
        GpuFamily::IntelHDGraphics4200 => {
            reveal_strlit("Intel HD Graphics 4200");
            assert(gpu_name_spec(f)@.take(6) =~= "Intel "@);
        },
        GpuFamily::IntelHDGraphics4400 => {
            reveal_strlit("Intel HD Graphics 4400");
            assert(gpu_name_spec(f)@.take(6) =~= "Intel "@);
        },
        GpuFamily::IntelHDGraphics4600 => {
            reveal_strlit("Intel HD Graphics 4600");
            assert(gpu_name_spec(f)@.take(6) =~= "Intel "@);
        },
        GpuFamily::IntelHDGraphics5000 => {
            reveal_strlit("Intel HD Graphics 5000");
            assert(gpu_name_spec(f)@.take(6) =~= "Intel "@);
        },
        GpuFamily::IntelHDGraphics5100 => {
            reveal_strlit("Intel HD Graphics 5100");
            assert(gpu_name_spec(f)@.take(6) =~= "Intel "@);
        },
        GpuFamily::IntelHDGraphics5200 => {
            reveal_strlit("Intel HD Graphics 5200 (Iris Pro)");
            assert(gpu_name_spec(f)@.take(6) =~= "Intel "@);
        },
        GpuFamily::IntelHDGraphics5300 => {
            reveal_strlit("Intel HD Graphics 5300");
            assert(gpu_name_spec(f)@.take(6) =~= "Intel "@);
        },
        GpuFamily::IntelHDGraphics5500 => {
            reveal_strlit("Intel HD Graphics 5500");
            assert(gpu_name_spec(f)@.take(6) =~= "Intel "@);
        },
        GpuFamily::IntelHDGraphics6000 => {
            reveal_strlit("Intel HD Graphics 6000");
            assert(gpu_name_spec(f)@.take(6) =~= "Intel "@);
        },
        GpuFamily::IntelHDGraphics6100 => {
            reveal_strlit("Intel HD Graphics 610");
            assert(gpu_name_spec(f)@.take(6) =~= "Intel "@);
        },
        GpuFamily::IntelHDGraphics615 => {
            reveal_strlit("Intel HD Graphics 615");
            assert(gpu_name_spec(f)@.take(6) =~= "Intel "@);
        },
        GpuFamily::IntelHDGraphics620 => {
            reveal_strlit("Intel HD Graphics 620");
            assert(gpu_name_spec(f)@.take(6) =~= "Intel "@);
        },
        GpuFamily::IntelHDGraphics630 => {
            reveal_strlit("Intel HD Graphics 630");
            assert(gpu_name_spec(f)@.take(6) =~= "Intel "@);
        },
        GpuFamily::IntelHDGraphics640 => {
            reveal_strlit("Intel HD Graphics 640");
            assert(gpu_name_spec(f)@.take(6) =~= "Intel "@);
        },
        GpuFamily::IntelHDGraphics650 => {
            reveal_strlit("Intel HD Graphics 650");
            assert(gpu_name_spec(f)@.take(6) =~= "Intel "@);
        },
        GpuFamily::IntelHDGraphicsP630 => {
            reveal_strlit("Intel HD Graphics P630");
            assert(gpu_name_spec(f)@.take(6) =~= "Intel "@);
        },
        GpuFamily::IntelIrisPlus640 => {
            reveal_strlit("Intel Iris Plus 640");
            assert(gpu_name_spec(f)@.take(6) =~= "Intel "@);
        },
        GpuFamily::IntelIrisPlus645 => {
            reveal_strlit("Intel Iris Plus 645");
            assert(gpu_name_spec(f)@.take(6) =~= "Intel "@);
        },
        GpuFamily::IntelIrisPlus650 => {
            reveal_strlit("Intel Iris Plus 650");
            assert(gpu_name_spec(f)@.take(6) =~= "Intel "@);
        },
        GpuFamily::IntelIrisPro580 => {
            reveal_strlit("Intel Iris Pro 580");
            assert(gpu_name_spec(f)@.take(6) =~= "Intel "@);
        },
        GpuFamily::IntelIrisXe => {
            reveal_strlit("Intel Iris Xe");
            assert(gpu_name_spec(f)@.take(6) =~= "Intel "@);
        },
        GpuFamily::IntelIrisXeMax => {
            reveal_strlit("Intel Iris Xe MAX");
            assert(gpu_name_spec(f)@.take(6) =~= "Intel "@);
        },
        GpuFamily::IntelArcA310 => {
            reveal_strlit("Intel Arc A310");
            assert(gpu_name_spec(f)@.take(6) =~= "Intel "@);
        },
        GpuFamily::IntelArcA380 => {
            reveal_strlit("Intel Arc A380");
            assert(gpu_name_spec(f)@.take(6) =~= "Intel "@);
        },
        GpuFamily::IntelArcA580 => {
            reveal_strlit("Intel Arc A580");
            assert(gpu_name_spec(f)@.take(6) =~= "Intel "@);
        },
        GpuFamily::IntelArcA750 => {
            reveal_strlit("Intel Arc A750");
            assert(gpu_name_spec(f)@.take(6) =~= "Intel "@);
        },
        GpuFamily::IntelArcA770 => {
            reveal_strlit("Intel Arc A770");
            assert(gpu_name_spec(f)@.take(6) =~= "Intel "@);
        },
        GpuFamily::IntelArcB580 => {
            reveal_strlit("Intel Arc B580");
            assert(gpu_name_spec(f)@.take(6) =~= "Intel "@);
        },
        GpuFamily::IntelArcB770 => {
            reveal_strlit("Intel Arc B770");
            assert(gpu_name_spec(f)@.take(6) =~= "Intel "@);
        },
        GpuFamily::IntelXeLLVM => {
            reveal_strlit("Intel Xe²");
            assert(gpu_name_spec(f)@.take(6) =~= "Intel "@);
        },
        _ => {},
    }
}

/// The name of every Cirrus Logic family starts with "Cirrus Logic ".
pub proof fn lemma_cirrus_names(f: GpuFamily)
    requires
        family_vendor(f) == GpuVendor::CirrusLogic,
    ensures
        gpu_name_spec(f)@.len() > 13,
        gpu_name_spec(f)@.take(13) == "Cirrus Logic "@,
{
    reveal_strlit("Cirrus Logic ");
    match f {
        GpuFamily::CirrusLogic5430 => {
            reveal_strlit("Cirrus Logic CL-GD5430");
            assert(gpu_name_spec(f)@.take(13) =~= "Cirrus Logic "@);
        },
        GpuFamily::CirrusLogic5446 => {
            reveal_strlit("Cirrus Logic CL-GD5446");
            assert(gpu_name_spec(f)@.take(13) =~= "Cirrus Logic "@);
        },
        GpuFamily::CirrusLogic5464 => {
            reveal_strlit("Cirrus Logic CL-GD5464");
            assert(gpu_name_spec(f)@.take(13) =~= "Cirrus Logic "@);
        },
        GpuFamily::CirrusLogic5465 => {
            reveal_strlit("Cirrus Logic CL-GD5465");
            assert(gpu_name_spec(f)@.take(13) =~= "Cirrus Logic "@);
        },
        GpuFamily::CirrusLogic67200 => {
            reveal_strlit("Cirrus Logic CL-GD67200");
            assert(gpu_name_spec(f)@.take(13) =~= "Cirrus Logic "@);
        },
        GpuFamily::CirrusLogic7548 => {
            reveal_strlit("Cirrus Logic CL-GD7548");
            assert(gpu_name_spec(f)@.take(13) =~= "Cirrus Logic "@);
        },
        _ => {},
    }
}

/// The name of each VMware adapter starts with "VMware ".
pub proof fn lemma_vmware_names(f: GpuFamily)
    requires
        f == GpuFamily::VMWareSVGA || f == GpuFamily::VMWareSVGA3,
    ensures
        gpu_name_spec(f)@.len() > 7,
        gpu_name_spec(f)@.take(7) == "VMware "@,
{
    reveal_strlit("VMware ");
    match f {
        GpuFamily::VMWareSVGA => {
            reveal_strlit("VMware SVGA II");
            assert(gpu_name_spec(f)@.take(7) =~= "VMware "@);
        },
        GpuFamily::VMWareSVGA3 => {
            reveal_strlit("VMware SVGA 3D");
            assert(gpu_name_spec(f)@.take(7) =~= "VMware "@);
        },
        _ => {},
    }
}

/// No family has an empty name.
pub proof fn lemma_names_nonempty(f: GpuFamily)
    ensures
        gpu_name_spec(f)@.len() > 0,
{
    match f {
        GpuFamily::Voodoo1 => {
            reveal_strlit("3dfx Voodoo Graphics");
        },
        GpuFamily::Voodoo2 => {
            reveal_strlit("3dfx Voodoo2");
        },
        GpuFamily::VoodooRush => {
            reveal_strlit("3dfx Voodoo Rush");
        },
        GpuFamily::VoodooBanshee => {
            reveal_strlit("3dfx Voodoo Banshee");
        },
        GpuFamily::Voodoo3 => {
            reveal_strlit("3dfx Voodoo3");
        },
        GpuFamily::Voodoo4 => {
            reveal_strlit("3dfx Voodoo4 4500");
        },
        GpuFamily::Voodoo5 => {
            reveal_strlit("3dfx Voodoo5 5500");
        },
        GpuFamily::Nv1 => {
            reveal_strlit("Nvidia NV1");
        },
        GpuFamily::Nv2 => {
            reveal_strlit("Nvidia NV2");
        },
        GpuFamily::Nv3 => {
            reveal_strlit("Nvidia NV3 (RIVA 128)");
        },
        GpuFamily::Nv4 => {
            reveal_strlit("Nvidia NV4 (RIVA TNT)");
        },
        GpuFamily::Nv5 => {
            reveal_strlit("Nvidia NV5 (RIVA TNT2)");
        },
        GpuFamily::Riva128 => {
            reveal_strlit("Nvidia RIVA 128");
        },
        GpuFamily::Riva128ZX => {
            reveal_strlit("Nvidia RIVA 128 ZX");
        },
        GpuFamily::RivaTNT => {
            reveal_strlit("Nvidia RIVA TNT");
        },
        GpuFamily::RivaTNT2 => {
            reveal_strlit("Nvidia RIVA TNT2");
        },
        GpuFamily::GeForce256 => {
            reveal_strlit("Nvidia GeForce 256");
        },
        GpuFamily::GeForceDDR => {
            reveal_strlit("Nvidia GeForce 256 DDR");
        },
        GpuFamily::GeForce2MX => {
            reveal_strlit("Nvidia GeForce2 MX");
        },
        GpuFamily::GeForce2GTS => {
            reveal_strlit("Nvidia GeForce2 GTS");
        },
        GpuFamily::GeForce2Ultra => {
            reveal_strlit("Nvidia GeForce2 Ultra");
        },
        GpuFamily::GeForce2Go => {
            reveal_strlit("Nvidia GeForce2 Go");
        },
        GpuFamily::GeForce2 => {
            reveal_strlit("Nvidia GeForce2");
        },
        GpuFamily::GeForce3 => {
            reveal_strlit("Nvidia GeForce3");
        },
        GpuFamily::GeForce3Ti => {
            reveal_strlit("Nvidia GeForce3 Ti");
        },
        GpuFamily::GeForce4MX => {
            reveal_strlit("Nvidia GeForce4 MX");
        },
        GpuFamily::GeForce4Ti => {
            reveal_strlit("Nvidia GeForce4 Ti");
        },
        GpuFamily::GeForce4Go => {
            reveal_strlit("Nvidia GeForce4 Go");
        },
        GpuFamily::GeForce4 => {
            reveal_strlit("Nvidia GeForce4");
        },
        GpuFamily::GeForceFX5200 => {
            reveal_strlit("Nvidia GeForce FX 5200");
        },
        GpuFamily::GeForceFX5600 => {
            reveal_strlit("Nvidia GeForce FX 5600");
        },
        GpuFamily::GeForceFX5700 => {
            reveal_strlit("Nvidia GeForce FX 5700");
        },
        GpuFamily::GeForceFX5800 => {
            reveal_strlit("Nvidia GeForce FX 5800");
        },
        GpuFamily::GeForceFX5900 => {
            reveal_strlit("Nvidia GeForce FX 5900");
        },
        GpuFamily::GeForceFX5950 => {
            reveal_strlit("Nvidia GeForce FX 5950");
        },
        GpuFamily::GeForceFXGo => {
            reveal_strlit("Nvidia GeForce FX Go");
        },
        GpuFamily::GeForceFX => {
            reveal_strlit("Nvidia GeForce FX");
        },
        GpuFamily::GeForce6 => {
            reveal_strlit("Nvidia GeForce 6");
        },
        GpuFamily::GeForce6200 => {
            reveal_strlit("Nvidia GeForce 6200");
        },
        GpuFamily::GeForce6600 => {
            reveal_strlit("Nvidia GeForce 6600");
        },
        GpuFamily::GeForce6800 => {
            reveal_strlit("Nvidia GeForce 6800");
        },
        GpuFamily::GeForce6Go => {
            reveal_strlit("Nvidia GeForce Go 6");
        },
        GpuFamily::GeForce7 => {
            reveal_strlit("Nvidia GeForce 7");
        },
        GpuFamily::GeForce7300 => {
            reveal_strlit("Nvidia GeForce 7300");
        },
        GpuFamily::GeForce7400 => {
            reveal_strlit("Nvidia GeForce 7400");
        },
        GpuFamily::GeForce7500 => {
            reveal_strlit("Nvidia GeForce 7500");
        },
        GpuFamily::GeForce7600 => {
            reveal_strlit("Nvidia GeForce 7600");
        },
        GpuFamily::GeForce7800 => {
            reveal_strlit("Nvidia GeForce 7800");
        },
        GpuFamily::GeForce7900 => {
            reveal_strlit("Nvidia GeForce 7900");
        },
        GpuFamily::GeForce7950 => {
            reveal_strlit("Nvidia GeForce 7950 GX2");
        },
        GpuFamily::GeForce8 => {
            reveal_strlit("Nvidia GeForce 8");
        },
        GpuFamily::GeForce8300 => {
            reveal_strlit("Nvidia GeForce 8300");
        },
        GpuFamily::GeForce8400 => {
            reveal_strlit("Nvidia GeForce 8400");
        },
        GpuFamily::GeForce8500 => {
            reveal_strlit("Nvidia GeForce 8500");
        },
        GpuFamily::GeForce8600 => {
            reveal_strlit("Nvidia GeForce 8600");
        },
        GpuFamily::GeForce8800 => {
            reveal_strlit("Nvidia GeForce 8800");
        },
        GpuFamily::GeForce9 => {
            reveal_strlit("Nvidia GeForce 9");
        },
        GpuFamily::GeForce9600 => {
            reveal_strlit("Nvidia GeForce 9600");
        },
        GpuFamily::GeForce9800 => {
            reveal_strlit("Nvidia GeForce 9800");
        },
        GpuFamily::GeForceGTX200 => {
            reveal_strlit("Nvidia GeForce GTX 200");
        },
        GpuFamily::GTX260 => {
            reveal_strlit("Nvidia GeForce GTX 260");
        },
        GpuFamily::GTX280 => {
            reveal_strlit("Nvidia GeForce GTX 280");
        },
        GpuFamily::GTX285 => {
            reveal_strlit("Nvidia GeForce GTX 285");
        },
        GpuFamily::GTX295 => {
            reveal_strlit("Nvidia GeForce GTX 295");
        },
        GpuFamily::GeForceGTX400 => {
            reveal_strlit("Nvidia GeForce GTX 400");
        },
        GpuFamily::GTX460 => {
            reveal_strlit("Nvidia GeForce GTX 460");
        },
        GpuFamily::GTX465 => {
            reveal_strlit("Nvidia GeForce GTX 465");
        },
        GpuFamily::GTX470 => {
            reveal_strlit("Nvidia GeForce GTX 470");
        },
        GpuFamily::GTX480 => {
            reveal_strlit("Nvidia GeForce GTX 480");
        },
        GpuFamily::GeForceGTX500 => {
            reveal_strlit("Nvidia GeForce GTX 500");
        },
        GpuFamily::GTX550 => {
            reveal_strlit("Nvidia GeForce GTX 550 Ti");
        },
        GpuFamily::GTX560 => {
            reveal_strlit("Nvidia GeForce GTX 560");
        },
        GpuFamily::GTX570 => {
            reveal_strlit("Nvidia GeForce GTX 570");
        },
        GpuFamily::GTX580 => {
            reveal_strlit("Nvidia GeForce GTX 580");
        },
        GpuFamily::GTX590 => {
            reveal_strlit("Nvidia GeForce GTX 590");
        },
        GpuFamily::GeForceGTX600 => {
            reveal_strlit("Nvidia GeForce GTX 600 (Kepler)");
        },
        GpuFamily::GTX650 => {
            reveal_strlit("Nvidia GeForce GTX 650");
        },
        GpuFamily::GTX660 => {
            reveal_strlit("Nvidia GeForce GTX 660");
        },
        GpuFamily::GTX670 => {
            reveal_strlit("Nvidia GeForce GTX 670");
        },
        GpuFamily::GTX680 => {
            reveal_strlit("Nvidia GeForce GTX 680");
        },
        GpuFamily::GTX690 => {
            reveal_strlit("Nvidia GeForce GTX 690");
        },
        GpuFamily::GeForceGTX700 => {
            reveal_strlit("Nvidia GeForce GTX 700");
        },
        GpuFamily::GTX760 => {
            reveal_strlit("Nvidia GeForce GTX 760");
        },
        GpuFamily::GTX770 => {
            reveal_strlit("Nvidia GeForce GTX 770");
        },
        GpuFamily::GTX780 => {
            reveal_strlit("Nvidia GeForce GTX 780");
        },
        GpuFamily::GTX780Ti => {
            reveal_strlit("Nvidia GeForce GTX 780 Ti");
        },
        GpuFamily::GTXTitan => {
            reveal_strlit("Nvidia GeForce GTX Titan");
        },
        GpuFamily::GeForceGTX900 => {
            reveal_strlit("Nvidia GeForce GTX 900 (Maxwell)");
        },
        GpuFamily::GTX960 => {
            reveal_strlit("Nvidia GeForce GTX 960");
        },
        GpuFamily::GTX970 => {
            reveal_strlit("Nvidia GeForce GTX 970");
        },
        GpuFamily::GTX980 => {
            reveal_strlit("Nvidia GeForce GTX 980");
        },
        GpuFamily::GTX980Ti => {
            reveal_strlit("Nvidia GeForce GTX 980 Ti");
        },
        GpuFamily::GTXTitanX => {
            reveal_strlit("Nvidia GeForce GTX Titan X");
        },
        GpuFamily::GeForceGTX10 => {
            reveal_strlit("Nvidia GeForce GTX 10 (Pascal)");
        },
        GpuFamily::GTX1050 => {
            reveal_strlit("Nvidia GeForce GTX 1050");
        },
        GpuFamily::GTX1060 => {
            reveal_strlit("Nvidia GeForce GTX 1060");
        },
        GpuFamily::GTX1070 => {
            reveal_strlit("Nvidia GeForce GTX 1070");
        },
        GpuFamily::GTX1080 => {
            reveal_strlit("Nvidia GeForce GTX 1080");
        },
        GpuFamily::GTX1080Ti => {
            reveal_strlit("Nvidia GeForce GTX 1080 Ti");
        },
        GpuFamily::GTXTitanXP => {
            reveal_strlit("Nvidia Titan Xp");
        },
        GpuFamily::GeForceGTX16 => {
            reveal_strlit("Nvidia GeForce GTX 16 (Turing)");
        },
        GpuFamily::GTX1650 => {
            reveal_strlit("Nvidia GeForce GTX 1650");
        },
        GpuFamily::GTX1660 => {
            reveal_strlit("Nvidia GeForce GTX 1660");
        },
        GpuFamily::GTX1660Super => {
            reveal_strlit("Nvidia GeForce GTX 1660 Super");
        },
        GpuFamily::GTX1660Ti => {
            reveal_strlit("Nvidia GeForce GTX 1660 Ti");
        },
        GpuFamily::GeForceRTX20 => {
            reveal_strlit("Nvidia GeForce RTX 20 (Turing)");
        },
        GpuFamily::RTX2060 => {
            reveal_strlit("Nvidia GeForce RTX 2060");
        },
        GpuFamily::RTX2070 => {
            reveal_strlit("Nvidia GeForce RTX 2070");
        },
        GpuFamily::RTX2080 => {
            reveal_strlit("Nvidia GeForce RTX 2080");
        },
        GpuFamily::RTX2080Ti => {
            reveal_strlit("Nvidia GeForce RTX 2080 Ti");
        },
        GpuFamily::TitanRTX => {
            reveal_strlit("Nvidia Titan RTX");
        },
        GpuFamily::GeForceRTX30 => {
            reveal_strlit("Nvidia GeForce RTX 30 (Ampere)");
        },
        GpuFamily::RTX3060 => {
            reveal_strlit("Nvidia GeForce RTX 3060");
        },
        GpuFamily::RTX3070 => {
            reveal_strlit("Nvidia GeForce RTX 3070");
        },
        GpuFamily::RTX3080 => {
            reveal_strlit("Nvidia GeForce RTX 3080");
        },
        GpuFamily::RTX3090 => {
            reveal_strlit("Nvidia GeForce RTX 3090");
        },
        GpuFamily::RTX3090Ti => {
            reveal_strlit("Nvidia GeForce RTX 3090 Ti");
        },
        GpuFamily::GeForceRTX40 => {
            reveal_strlit("Nvidia GeForce RTX 40 (Ada Lovelace)");
        },
        GpuFamily::RTX4060 => {
            reveal_strlit("Nvidia GeForce RTX 4060");
        },
        GpuFamily::RTX4070 => {
            reveal_strlit("Nvidia GeForce RTX 4070");
        },
        GpuFamily::RTX4080 => {
            reveal_strlit("Nvidia GeForce RTX 4080");
        },
        GpuFamily::RTX4090 => {
            reveal_strlit("Nvidia GeForce RTX 4090");
        },
        GpuFamily::GeForceRTX50 => {
            reveal_strlit("Nvidia GeForce RTX 50 (Blackwell)");
        },
        GpuFamily::RTX5060 => {
            reveal_strlit("Nvidia GeForce RTX 5060");
        },
        GpuFamily::RTX5070 => {
            reveal_strlit("Nvidia GeForce RTX 5070");
        },
        GpuFamily::RTX5080 => {
            reveal_strlit("Nvidia GeForce RTX 5080");
        },
        GpuFamily::RTX5090 => {
            reveal_strlit("Nvidia GeForce RTX 5090");
        },
        GpuFamily::NvidiaQuadro => {
            reveal_strlit("Nvidia Quadro");
        },
        GpuFamily::NvidiaTesla => {
            reveal_strlit("Nvidia Tesla");
        },
        GpuFamily::RagePro => {
            reveal_strlit("ATI 3D Rage Pro");
        },
        GpuFamily::RageXL => {
            reveal_strlit("ATI Rage XL");
        },
        GpuFamily::RageFury => {
            reveal_strlit("ATI Rage Fury");
        },
        GpuFamily::Rage128VR => {
            reveal_strlit("ATI Rage 128 VR");
        },
        GpuFamily::Rage128GL => {
            reveal_strlit("ATI Rage 128 GL");
        },
        GpuFamily::Rage128Pro => {
            reveal_strlit("ATI Rage 128 Pro");
        },
        GpuFamily::Rage128 => {
            reveal_strlit("ATI Rage 128");
        },
        GpuFamily::Radeon7000 => {
            reveal_strlit("ATI Radeon 7000 (R100)");
        },
        GpuFamily::Radeon7200 => {
            reveal_strlit("ATI Radeon 7200");
        },
        GpuFamily::Radeon7500 => {
            reveal_strlit("ATI Radeon 7500 (RV200)");
        },
        GpuFamily::Radeon8500 => {
            reveal_strlit("ATI Radeon 8500 (R200)");
        },
        GpuFamily::Radeon8500LE => {
            reveal_strlit("ATI Radeon 8500 LE");
        },
        GpuFamily::Radeon9000 => {
            reveal_strlit("ATI Radeon 9000");
        },
        GpuFamily::Radeon9100 => {
            reveal_strlit("ATI Radeon 9100");
        },
        GpuFamily::Radeon9200 => {
            reveal_strlit("ATI Radeon 9200");
        },
        GpuFamily::Radeon9500 => {
            reveal_strlit("ATI Radeon 9500");
        },
        GpuFamily::Radeon9550 => {
            reveal_strlit("ATI Radeon 9550");
        },
        GpuFamily::Radeon9600 => {
            reveal_strlit("ATI Radeon 9600");
        },
        GpuFamily::Radeon9700 => {
            reveal_strlit("ATI Radeon 9700 (R300)");
        },
        GpuFamily::Radeon9700Pro => {
            reveal_strlit("ATI Radeon 9700 Pro");
        },
        GpuFamily::Radeon9800 => {
            reveal_strlit("ATI Radeon 9800");
        },
        GpuFamily::Radeon9800Pro => {
            reveal_strlit("ATI Radeon 9800 Pro");
        },
        GpuFamily::RadeonX300 => {
            reveal_strlit("ATI Radeon X300");
        },
        GpuFamily::RadeonX600 => {
            reveal_strlit("ATI Radeon X600");
        },
        GpuFamily::RadeonX700 => {
            reveal_strlit("ATI Radeon X700");
        },
        GpuFamily::RadeonX800 => {
            reveal_strlit("ATI Radeon X800");
        },
        GpuFamily::RadeonX850 => {
            reveal_strlit("ATI Radeon X850");
        },
        GpuFamily::RadeonX1300 => {
            reveal_strlit("ATI Radeon X1300");
        },
        GpuFamily::RadeonX1600 => {
            reveal_strlit("ATI Radeon X1600");
        },
        GpuFamily::RadeonX1800 => {
            reveal_strlit("ATI Radeon X1800");
        },
        GpuFamily::RadeonX1900 => {
            reveal_strlit("ATI Radeon X1900");
        },
        GpuFamily::RadeonX1950 => {
            reveal_strlit("ATI Radeon X1950");
        },
        GpuFamily::RadeonHD2400 => {
            reveal_strlit("ATI Radeon HD 2400");
        },
        GpuFamily::RadeonHD2600 => {
            reveal_strlit("ATI Radeon HD 2600");
        },
        GpuFamily::RadeonHD2900 => {
            reveal_strlit("ATI Radeon HD 2900");
        },
        GpuFamily::RadeonHD3450 => {
            reveal_strlit("ATI Radeon HD 3450");
        },
        GpuFamily::RadeonHD3650 => {
            reveal_strlit("ATI Radeon HD 3650");
        },
        GpuFamily::RadeonHD3850 => {
            reveal_strlit("ATI Radeon HD 3850");
        },
        GpuFamily::RadeonHD3870 => {
            reveal_strlit("ATI Radeon HD 3870");
        },
        GpuFamily::RadeonHD4350 => {
            reveal_strlit("ATI Radeon HD 4350");
        },
        GpuFamily::RadeonHD4550 => {
            reveal_strlit("ATI Radeon HD 4550");
        },
        GpuFamily::RadeonHD4650 => {
            reveal_strlit("ATI Radeon HD 4650");
        },
        GpuFamily::RadeonHD4670 => {
            reveal_strlit("ATI Radeon HD 4670");
        },
        GpuFamily::RadeonHD4770 => {
            reveal_strlit("ATI Radeon HD 4770");
        },
        GpuFamily::RadeonHD4830 => {
            reveal_strlit("ATI Radeon HD 4830");
        },
        GpuFamily::RadeonHD4850 => {
            reveal_strlit("ATI Radeon HD 4850");
        },
        GpuFamily::RadeonHD4870 => {
            reveal_strlit("ATI Radeon HD 4870");
        },
        GpuFamily::RadeonHD4870X2 => {
            reveal_strlit("ATI Radeon HD 4870 X2");
        },
        GpuFamily::RadeonHD5450 => {
            reveal_strlit("ATI Radeon HD 5450");
        },
        GpuFamily::RadeonHD5570 => {
            reveal_strlit("ATI Radeon HD 5570");
        },
        GpuFamily::RadeonHD5670 => {
            reveal_strlit("ATI Radeon HD 5670");
        },
        GpuFamily::RadeonHD5750 => {
            reveal_strlit("ATI Radeon HD 5750");
        },
        GpuFamily::RadeonHD5770 => {
            reveal_strlit("ATI Radeon HD 5770");
        },
        GpuFamily::RadeonHD5830 => {
            reveal_strlit("ATI Radeon HD 5830");
        },
        GpuFamily::RadeonHD5850 => {
            reveal_strlit("ATI Radeon HD 5850");
        },
        GpuFamily::RadeonHD5870 => {
            reveal_strlit("ATI Radeon HD 5870");
        },
        GpuFamily::RadeonHD5970 => {
            reveal_strlit("ATI Radeon HD 5970");
        },
        GpuFamily::RadeonHD6450 => {
            reveal_strlit("AMD Radeon HD 6450");
        },
        GpuFamily::RadeonHD6570 => {
            reveal_strlit("AMD Radeon HD 6570");
        },
        GpuFamily::RadeonHD6670 => {
            reveal_strlit("AMD Radeon HD 6670");
        },
        GpuFamily::RadeonHD6750 => {
            reveal_strlit("AMD Radeon HD 6750");
        },
        GpuFamily::RadeonHD6770 => {
            reveal_strlit("AMD Radeon HD 6770");
        },
        GpuFamily::RadeonHD6790 => {
            reveal_strlit("AMD Radeon HD 6790");
        },
        GpuFamily::RadeonHD6850 => {
            reveal_strlit("AMD Radeon HD 6850");
        },
        GpuFamily::RadeonHD6870 => {
            reveal_strlit("AMD Radeon HD 6870");
        },
        GpuFamily::RadeonHD6950 => {
            reveal_strlit("AMD Radeon HD 6950");
        },
        GpuFamily::RadeonHD6970 => {
            reveal_strlit("AMD Radeon HD 6970");
        },
        GpuFamily::RadeonHD6990 => {
            reveal_strlit("AMD Radeon HD 6990");
        },
        GpuFamily::RadeonHD7750 => {
            reveal_strlit("AMD Radeon HD 7750");
        },
        GpuFamily::RadeonHD7770 => {
            reveal_strlit("AMD Radeon HD 7770");
        },
        GpuFamily::RadeonHD7850 => {
            reveal_strlit("AMD Radeon HD 7850");
        },
        GpuFamily::RadeonHD7870 => {
            reveal_strlit("AMD Radeon HD 7870");
        },
        GpuFamily::RadeonHD7950 => {
            reveal_strlit("AMD Radeon HD 7950");
        },
        GpuFamily::RadeonHD7970 => {
            reveal_strlit("AMD Radeon HD 7970");
        },
        GpuFamily::RadeonHD7990 => {
            reveal_strlit("AMD Radeon HD 7990");
        },
        GpuFamily::RadeonR7240 => {
            reveal_strlit("AMD Radeon R7 240");
        },
        GpuFamily::RadeonR7250 => {
            reveal_strlit("AMD Radeon R7 250");
        },
        GpuFamily::RadeonR7260 => {
            reveal_strlit("AMD Radeon R7 260");
        },
        GpuFamily::RadeonR7270 => {
            reveal_strlit("AMD Radeon R7 270");
        },
        GpuFamily::RadeonR7280 => {
            reveal_strlit("AMD Radeon R7 280");
        },
        GpuFamily::RadeonR9280 => {
            reveal_strlit("AMD Radeon R9 280");
        },
        GpuFamily::RadeonR9290 => {
            reveal_strlit("AMD Radeon R9 290");
        },
        GpuFamily::RadeonR9290X => {
            reveal_strlit("AMD Radeon R9 290X");
        },
        GpuFamily::RadeonR9390 => {
            reveal_strlit("AMD Radeon R9 390");
        },
        GpuFamily::RadeonR9390X => {
            reveal_strlit("AMD Radeon R9 390X");
        },
        GpuFamily::RadeonR7460 => {
            reveal_strlit("AMD Radeon R7 460");
        },
        GpuFamily::RadeonR7470 => {
            reveal_strlit("AMD Radeon R7 470");
        },
        GpuFamily::RadeonR7480 => {
            reveal_strlit("AMD Radeon R7 480");
        },
        GpuFamily::RadeonR7570 => {
            reveal_strlit("AMD Radeon R7 570");
        },
        GpuFamily::RadeonR7580 => {
            reveal_strlit("AMD Radeon R7 580");
        },
        GpuFamily::RadeonR7590 => {
            reveal_strlit("AMD Radeon R7 590");
        },
        GpuFamily::RadeonRX460 => {
            reveal_strlit("AMD Radeon RX 460");
        },
        GpuFamily::RadeonRX470 => {
            reveal_strlit("AMD Radeon RX 470");
        },
        GpuFamily::RadeonRX480 => {
            reveal_strlit("AMD Radeon RX 480");
        },
        GpuFamily::RadeonRX550 => {
            reveal_strlit("AMD Radeon RX 550");
        },
        GpuFamily::RadeonRX560 => {
            reveal_strlit("AMD Radeon RX 560");
        },
        GpuFamily::RadeonRX570 => {
            reveal_strlit("AMD Radeon RX 570");
        },
        GpuFamily::RadeonRX580 => {
            reveal_strlit("AMD Radeon RX 580");
        },
        GpuFamily::RadeonRX590 => {
            reveal_strlit("AMD Radeon RX 590");
        },
        GpuFamily::RadeonRX5500 => {
            reveal_strlit("AMD Radeon RX 5500");
        },
        GpuFamily::RadeonRX5600 => {
            reveal_strlit("AMD Radeon RX 5600");
        },
        GpuFamily::RadeonRX5700 => {
            reveal_strlit("AMD Radeon RX 5700");
        },
        GpuFamily::RadeonRX6400 => {
            reveal_strlit("AMD Radeon RX 6400");
        },
        GpuFamily::RadeonRX6500XT => {
            reveal_strlit("AMD Radeon RX 6500 XT");
        },
        GpuFamily::RadeonRX6600 => {
            reveal_strlit("AMD Radeon RX 6600");
        },
        GpuFamily::RadeonRX6700XT => {
            reveal_strlit("AMD Radeon RX 6700 XT");
        },
        GpuFamily::RadeonRX6800 => {
            reveal_strlit("AMD Radeon RX 6800");
        },
        GpuFamily::RadeonRX6800XT => {
            reveal_strlit("AMD Radeon RX 6800 XT");
        },
        GpuFamily::RadeonRX6900XT => {
            reveal_strlit("AMD Radeon RX 6900 XT");
        },
        GpuFamily::RadeonRX7600 => {
            reveal_strlit("AMD Radeon RX 7600");
        },
        GpuFamily::RadeonRX7700XT => {
            reveal_strlit("AMD Radeon RX 7700 XT");
        },
        GpuFamily::RadeonRX7800XT => {
            reveal_strlit("AMD Radeon RX 7800 XT");
        },
        GpuFamily::RadeonRX7900GRE => {
            reveal_strlit("AMD Radeon RX 7900 GRE");
        },
        GpuFamily::RadeonRX7900XT => {
            reveal_strlit("AMD Radeon RX 7900 XT");
        },
        GpuFamily::RadeonRX7900XTX => {
            reveal_strlit("AMD Radeon RX 7900 XTX");
        },
        GpuFamily::RadeonRX9070 => {
            reveal_strlit("AMD Radeon RX 9070");
        },
        GpuFamily::RadeonRX9070XT => {
            reveal_strlit("AMD Radeon RX 9070 XT");
        },
        GpuFamily::AMDFirePro => {
            reveal_strlit("AMD FirePro");
        },
        GpuFamily::AMDInstinct => {
            reveal_strlit("AMD Instinct");
        },
        GpuFamily::Intel740 => {
            reveal_strlit("Intel i740");
        },
        GpuFamily::Intel810 => {
            reveal_strlit("Intel i810");
        },
        GpuFamily::Intel915 => {
            reveal_strlit("Intel GMA 915/950");
        },
        GpuFamily::IntelGMA3000 => {
            reveal_strlit("Intel GMA 3000");
        },
        GpuFamily::IntelGMA3100 => {
            reveal_strlit("Intel GMA 3100");
        },
        GpuFamily::IntelGMAX3100 => {
            reveal_strlit("Intel GMA X3100");
        },
        GpuFamily::IntelGMAX3500 => {
            reveal_strlit("Intel GMA X3500");
        },
        GpuFamily::IntelHDGraphics => {
            reveal_strlit("Intel HD Graphics");
        },
        GpuFamily::IntelHDGraphics2000 => {
            reveal_strlit("Intel HD Graphics 2000");
        },
        GpuFamily::IntelHDGraphics2500 => {
            reveal_strlit("Intel HD Graphics 2500");
        },
        GpuFamily::IntelHDGraphics3000 => {
            reveal_strlit("Intel HD Graphics 3000");
        },
        GpuFamily::IntelHDGraphics4000 => {
            reveal_strlit("Intel HD Graphics 4000");
        },
        GpuFamily::IntelHDGraphics4200 => {
            reveal_strlit("Intel HD Graphics 4200");
        },
        GpuFamily::IntelHDGraphics4400 => {
            reveal_strlit("Intel HD Graphics 4400");
        },
        GpuFamily::IntelHDGraphics4600 => {
            reveal_strlit("Intel HD Graphics 4600");
        },
        GpuFamily::IntelHDGraphics5000 => {
            reveal_strlit("Intel HD Graphics 5000");
        },
        GpuFamily::IntelHDGraphics5100 => {
            reveal_strlit("Intel HD Graphics 5100");
        },
        GpuFamily::IntelHDGraphics5200 => {
            reveal_strlit("Intel HD Graphics 5200 (Iris Pro)");
        },
        GpuFamily::IntelHDGraphics5300 => {
            reveal_strlit("Intel HD Graphics 5300");
        },
        GpuFamily::IntelHDGraphics5500 => {
            reveal_strlit("Intel HD Graphics 5500");
        },
        GpuFamily::IntelHDGraphics6000 => {
            reveal_strlit("Intel HD Graphics 6000");
        },
        GpuFamily::IntelHDGraphics6100 => {
            reveal_strlit("Intel HD Graphics 610");
        },
        GpuFamily::IntelHDGraphics615 => {
            reveal_strlit("Intel HD Graphics 615");
        },
        GpuFamily::IntelHDGraphics620 => {
            reveal_strlit("Intel HD Graphics 620");
        },
        GpuFamily::IntelHDGraphics630 => {
            reveal_strlit("Intel HD Graphics 630");
        },
        GpuFamily::IntelHDGraphics640 => {
            reveal_strlit("Intel HD Graphics 640");
        },
        GpuFamily::IntelHDGraphics650 => {
            reveal_strlit("Intel HD Graphics 650");
        },
        GpuFamily::IntelHDGraphicsP630 => {
            reveal_strlit("Intel HD Graphics P630");
        },
        GpuFamily::IntelIrisPlus640 => {
            reveal_strlit("Intel Iris Plus 640");
        },
        GpuFamily::IntelIrisPlus645 => {
            reveal_strlit("Intel Iris Plus 645");
        },
        GpuFamily::IntelIrisPlus650 => {
            reveal_strlit("Intel Iris Plus 650");
        },
        GpuFamily::IntelIrisPro580 => {
            reveal_strlit("Intel Iris Pro 580");
        },
        GpuFamily::IntelIrisXe => {
            reveal_strlit("Intel Iris Xe");
        },
        GpuFamily::IntelIrisXeMax => {
            reveal_strlit("Intel Iris Xe MAX");
        },
        GpuFamily::IntelArcA310 => {
            reveal_strlit("Intel Arc A310");
        },
        GpuFamily::IntelArcA380 => {
            reveal_strlit("Intel Arc A380");
        },
        GpuFamily::IntelArcA580 => {
            reveal_strlit("Intel Arc A580");
        },
        GpuFamily::IntelArcA750 => {
            reveal_strlit("Intel Arc A750");
        },
        GpuFamily::IntelArcA770 => {
            reveal_strlit("Intel Arc A770");
        },
        GpuFamily::IntelArcB580 => {
            reveal_strlit("Intel Arc B580");
        },
        GpuFamily::IntelArcB770 => {
            reveal_strlit("Intel Arc B770");
        },
        GpuFamily::IntelXeLLVM => {
            reveal_strlit("Intel Xe²");
        },
        GpuFamily::S3Trio64 => {
            reveal_strlit("S3 Trio64");
        },
        GpuFamily::S3Virge => {
            reveal_strlit("S3 ViRGE");
        },
        GpuFamily::S3Savage3D => {
            reveal_strlit("S3 Savage3D");
        },
        GpuFamily::S3Savage4 => {
            reveal_strlit("S3 Savage4");
        },
        GpuFamily::S3Savage2000 => {
            reveal_strlit("S3 Savage2000");
        },
        GpuFamily::S3ChromeS20 => {
            reveal_strlit("S3 Chrome S20");
        },
        GpuFamily::S3ChromeS25 => {
            reveal_strlit("S3 Chrome S25");
        },
        GpuFamily::S3ChromeS27 => {
            reveal_strlit("S3 Chrome S27");
        },
        GpuFamily::S3DeltaChrome => {
            reveal_strlit("S3 DeltaChrome");
        },
        GpuFamily::S3GammaChrome => {
            reveal_strlit("S3 GammaChrome");
        },
        GpuFamily::MatroxMGA => {
            reveal_strlit("Matrox Millennium");
        },
        GpuFamily::MatroxG100 => {
            reveal_strlit("Matrox Millennium G100");
        },
        GpuFamily::MatroxG200 => {
            reveal_strlit("Matrox Millennium G200");
        },
        GpuFamily::MatroxG400 => {
            reveal_strlit("Matrox Millennium G400");
        },
        GpuFamily::MatroxG450 => {
            reveal_strlit("Matrox Millennium G450");
        },
        GpuFamily::MatroxG550 => {
            reveal_strlit("Matrox Millennium G550");
        },
        GpuFamily::MatroxParhelia => {
            reveal_strlit("Matrox Parhelia");
        },
        GpuFamily::MatroxP650 => {
            reveal_strlit("Matrox P650");
        },
        GpuFamily::MatroxP690 => {
            reveal_strlit("Matrox P690");
        },
        GpuFamily::MatroxM9148 => {
            reveal_strlit("Matrox M9148");
        },
        GpuFamily::SiS300 => {
            reveal_strlit("SiS 300");
        },
        GpuFamily::SiS315 => {
            reveal_strlit("SiS 315");
        },
        GpuFamily::SiS330 => {
            reveal_strlit("SiS 330");
        },
        GpuFamily::SiS340 => {
            reveal_strlit("SiS 340");
        },
        GpuFamily::SiSXabre200 => {
            reveal_strlit("SiS Xabre 200");
        },
        GpuFamily::SiSXabre400 => {
            reveal_strlit("SiS Xabre 400");
        },
        GpuFamily::SiSXabre600 => {
            reveal_strlit("SiS Xabre 600");
        },
        GpuFamily::SiSMirage => {
            reveal_strlit("SiS Mirage");
        },
        GpuFamily::SiSMirage2 => {
            reveal_strlit("SiS Mirage 2");
        },
        GpuFamily::SiSMirage3 => {
            reveal_strlit("SiS Mirage 3");
        },
        GpuFamily::SiSM771 => {
            reveal_strlit("SiS M771");
        },
        GpuFamily::RenditionV1000 => {
            reveal_strlit("Rendition Vérité V1000");
        },
        GpuFamily::RenditionV2000 => {
            reveal_strlit("Rendition Vérité V2000");
        },
        GpuFamily::RenditionV2200 => {
            reveal_strlit("Rendition Vérité V2200");
        },
        GpuFamily::PowerVRPCX1 => {
            reveal_strlit("PowerVR PCX1");
        },
        GpuFamily::PowerVRPCX2 => {
            reveal_strlit("PowerVR PCX2");
        },
        GpuFamily::PowerVRKyro => {
            reveal_strlit("PowerVR Kyro");
        },
        GpuFamily::PowerVRKyro2 => {
            reveal_strlit("PowerVR Kyro II");
        },
        GpuFamily::PowerVRMBX => {
            reveal_strlit("PowerVR MBX");
        },
        GpuFamily::PowerVR5SGX => {
            reveal_strlit("PowerVR SGX 5 Series");
        },
        GpuFamily::PowerVR6Rogue => {
            reveal_strlit("PowerVR 6 Series (Rogue)");
        },
        GpuFamily::PowerVR7XT => {
            reveal_strlit("PowerVR 7 Series (XT)");
        },
        GpuFamily::NumberNineImagine128 => {
            reveal_strlit("Number Nine Imagine 128");
        },
        GpuFamily::NumberNineRevolution4 => {
            reveal_strlit("Number Nine Revolution 4");
        },
        GpuFamily::TridentProVidia9680 => {
            reveal_strlit("Trident ProVidia 9680");
        },
        GpuFamily::Trident3DImage9750 => {
            reveal_strlit("Trident 3DImage 9750");
        },
        GpuFamily::Trident3DImage9850 => {
            reveal_strlit("Trident 3DImage 9850");
        },
        GpuFamily::TridentCyberBlade => {
            reveal_strlit("Trident CyberBlade");
        },
        GpuFamily::TridentCyberBladeXP => {
            reveal_strlit("Trident CyberBlade XP");
        },
        GpuFamily::TridentBlade3D => {
            reveal_strlit("Trident Blade 3D");
        },
        GpuFamily::TridentXP4 => {
            reveal_strlit("Trident XP4");
        },
        GpuFamily::XGIVolariV3 => {
            reveal_strlit("XGI Volari V3");
        },
        GpuFamily::XGIVolariV5 => {
            reveal_strlit("XGI Volari V5");
        },
        GpuFamily::XGIVolariV8 => {
            reveal_strlit("XGI Volari V8");
        },
        GpuFamily::XGIVolariZ7 => {
            reveal_strlit("XGI Volari Z7");
        },
        GpuFamily::XGIVolariZ9 => {
            reveal_strlit("XGI Volari Z9");
        },
        GpuFamily::RealtekRV280 => {
            reveal_strlit("Realtek RV280");
        },
        GpuFamily::RealtekRV380 => {
            reveal_strlit("Realtek RV380");
        },
        GpuFamily::ARMMali400 => {
            reveal_strlit("ARM Mali-400 MP");
        },
        GpuFamily::ARMMali450 => {
            reveal_strlit("ARM Mali-450 MP");
        },
        GpuFamily::ARMMaliT604 => {
            reveal_strlit("ARM Mali-T604");
        },
        GpuFamily::ARMMaliT628 => {
            reveal_strlit("ARM Mali-T628");
        },
        GpuFamily::ARMMaliT760 => {
            reveal_strlit("ARM Mali-T760");
        },
        GpuFamily::ARMMaliT860 => {
            reveal_strlit("ARM Mali-T860");
        },
        GpuFamily::ARMMaliG71 => {
            reveal_strlit("ARM Mali-G71");
        },
        GpuFamily::ARMMaliG76 => {
            reveal_strlit("ARM Mali-G76");
        },
        GpuFamily::ARMMaliG78 => {
            reveal_strlit("ARM Mali-G78");
        },
        GpuFamily::ARMMaliG310 => {
            reveal_strlit("ARM Mali-G310");
        },
        GpuFamily::Adreno200 => {
            reveal_strlit("Qualcomm Adreno 200");
        },
        GpuFamily::Adreno205 => {
            reveal_strlit("Qualcomm Adreno 205");
        },
        GpuFamily::Adreno220 => {
            reveal_strlit("Qualcomm Adreno 220");
        },
        GpuFamily::Adreno225 => {
            reveal_strlit("Qualcomm Adreno 225");
        },
        GpuFamily::Adreno302 => {
            reveal_strlit("Qualcomm Adreno 302");
        },
        GpuFamily::Adreno305 => {
            reveal_strlit("Qualcomm Adreno 305");
        },
        GpuFamily::Adreno320 => {
            reveal_strlit("Qualcomm Adreno 320");
        },
        GpuFamily::Adreno330 => {
            reveal_strlit("Qualcomm Adreno 330");
        },
        GpuFamily::Adreno405 => {
            reveal_strlit("Qualcomm Adreno 405");
        },
        GpuFamily::Adreno418 => {
            reveal_strlit("Qualcomm Adreno 418");
        },
        GpuFamily::Adreno420 => {
            reveal_strlit("Qualcomm Adreno 420");
        },
        GpuFamily::Adreno430 => {
            reveal_strlit("Qualcomm Adreno 430");
        },
        GpuFamily::Adreno504 => {
            reveal_strlit("Qualcomm Adreno 504");
        },
        GpuFamily::Adreno505 => {
            reveal_strlit("Qualcomm Adreno 505");
        },
        GpuFamily::Adreno506 => {
            reveal_strlit("Qualcomm Adreno 506");
        },
        GpuFamily::Adreno508 => {
            reveal_strlit("Qualcomm Adreno 508");
        },
        GpuFamily::Adreno509 => {
            reveal_strlit("Qualcomm Adreno 509");
        },
        GpuFamily::Adreno510 => {
            reveal_strlit("Qualcomm Adreno 510");
        },
        GpuFamily::Adreno512 => {
            reveal_strlit("Qualcomm Adreno 512");
        },
        GpuFamily::Adreno530 => {
            reveal_strlit("Qualcomm Adreno 530");
        },
        GpuFamily::Adreno540 => {
            reveal_strlit("Qualcomm Adreno 540");
        },
        GpuFamily::Adreno615 => {
            reveal_strlit("Qualcomm Adreno 615");
        },
        GpuFamily::Adreno616 => {
            reveal_strlit("Qualcomm Adreno 616");
        },
        GpuFamily::Adreno618 => {
            reveal_strlit("Qualcomm Adreno 618");
        },
        GpuFamily::Adreno619 => {
            reveal_strlit("Qualcomm Adreno 619");
        },
        GpuFamily::Adreno620 => {
            reveal_strlit("Qualcomm Adreno 620");
        },
        GpuFamily::Adreno630 => {
            reveal_strlit("Qualcomm Adreno 630");
        },
        GpuFamily::Adreno640 => {
            reveal_strlit("Qualcomm Adreno 640");
        },
        GpuFamily::Adreno650 => {
            reveal_strlit("Qualcomm Adreno 650");
        },
        GpuFamily::Adreno660 => {
            reveal_strlit("Qualcomm Adreno 660");
        },
        GpuFamily::Adreno670 => {
            reveal_strlit("Qualcomm Adreno 670");
        },
        GpuFamily::Adreno680 => {
            reveal_strlit("Qualcomm Adreno 680");
        },
        GpuFamily::Adreno730 => {
            reveal_strlit("Qualcomm Adreno 730");
        },
        GpuFamily::Adreno740 => {
            reveal_strlit("Qualcomm Adreno 740");
        },
        GpuFamily::Adreno750 => {
            reveal_strlit("Qualcomm Adreno 750");
        },
        GpuFamily::VideoCoreIV => {
            reveal_strlit("Broadcom VideoCore IV");
        },
        GpuFamily::VideoCoreV => {
            reveal_strlit("Broadcom VideoCore V");
        },
        GpuFamily::VideoCoreVI => {
            reveal_strlit("Broadcom VideoCore VI");
        },
        GpuFamily::MediatekMaliG52 => {
            reveal_strlit("MediaTek Mali-G52");
        },
        GpuFamily::MediatekMaliG57 => {
            reveal_strlit("MediaTek Mali-G57");
        },
        GpuFamily::MediatekMaliG68 => {
            reveal_strlit("MediaTek Mali-G68");
        },
        GpuFamily::MediatekMaliG77 => {
            reveal_strlit("MediaTek Mali-G77");
        },
        GpuFamily::MediatekMaliG610 => {
            reveal_strlit("MediaTek Mali-G610");
        },
        GpuFamily::MediatekMaliG615 => {
            reveal_strlit("MediaTek Mali-G615");
        },
        GpuFamily::RockchipMali400 => {
            reveal_strlit("Rockchip Mali-400");
        },
        GpuFamily::RockchipMaliT760 => {
            reveal_strlit("Rockchip Mali-T760");
        },
        GpuFamily::AllwinnerMali400 => {
            reveal_strlit("Allwinner Mali-400");
        },
        GpuFamily::RockchipMaliT860 => {
            reveal_strlit("Rockchip Mali-T860");
        },
        GpuFamily::AST2000 => {
            reveal_strlit("ASpeed AST2000");
        },
        GpuFamily::AST2100 => {
            reveal_strlit("ASpeed AST2100");
        },
        GpuFamily::AST2300 => {
            reveal_strlit("ASpeed AST2300");
        },
        GpuFamily::AST2400 => {
            reveal_strlit("ASpeed AST2400");
        },
        GpuFamily::AST2500 => {
            reveal_strlit("ASpeed AST2500");
        },
        GpuFamily::AST2600 => {
            reveal_strlit("ASpeed AST2600");
        },
        GpuFamily::CirrusLogic5430 => {
            reveal_strlit("Cirrus Logic CL-GD5430");
        },
        GpuFamily::CirrusLogic5446 => {
            reveal_strlit("Cirrus Logic CL-GD5446");
        },
        GpuFamily::CirrusLogic5464 => {
            reveal_strlit("Cirrus Logic CL-GD5464");
        },
        GpuFamily::CirrusLogic5465 => {
            reveal_strlit("Cirrus Logic CL-GD5465");
        },
        GpuFamily::CirrusLogic67200 => {
            reveal_strlit("Cirrus Logic CL-GD67200");
        },
        GpuFamily::CirrusLogic7548 => {
            reveal_strlit("Cirrus Logic CL-GD7548");
        },
        GpuFamily::VMWareSVGA => {
            reveal_strlit("VMware SVGA II");
        },
        GpuFamily::VMWareSVGA3 => {
            reveal_strlit("VMware SVGA 3D");
        },
        GpuFamily::VirtIOGPU => {
            reveal_strlit("VirtIO GPU");
        },
        GpuFamily::VirtIOGPU3D => {
            reveal_strlit("VirtIO GPU 3D (VirGL)");
        },
        GpuFamily::BochsVBE => {
            reveal_strlit("Bochs/QEMU VBE");
        },
        GpuFamily::QXL => {
            reveal_strlit("SPICE QXL");
        },
        GpuFamily::VirtualBoxVGA => {
            reveal_strlit("Oracle VirtualBox VGA");
        },
        GpuFamily::HyperVSynthetic => {
            reveal_strlit("Microsoft Hyper-V Synthetic GPU");
        },
        GpuFamily::StandardVGA => {
            reveal_strlit("Standard VGA");
        },
        GpuFamily::VesaVBE => {
            reveal_strlit("VESA BIOS Extensions");
        },
        GpuFamily::Unknown => {
            reveal_strlit("Unknown GPU");
        },
    }
}

} // verus!
