//! The VirtIO network interface record.
use vstd::prelude::*;
use crate::device_manager::{Device, DeviceClass, IrqType, MmioRegion};

verus! {

/// The device record the VirtIO network interface is registered under:
/// 1AF4:1000, network class, at 0:0.0, enabled, no BARs, no IRQ.
pub fn init() -> (d: Device)
    ensures
        d.id.vendor == 0x1AF4 && d.id.device == 0x1000,
        d.id.subsystem_vendor == 0 && d.id.subsystem_device == 0 && d.id.revision == 0,
        d.name@ == "VirtIO Interface 0"@,
        d.class == DeviceClass::Network,
        d.bus == 0 && d.slot == 0 && d.function == 0,
        forall|i: int| 0 <= i < 6 ==> #[trigger] d.bars@[i] == MmioRegion::empty_spec(),
        d.irq == 0,
        d.irq_type == IrqType::Unassigned,
        d.enabled,
        d.driver_name is None,
        d.custom_data is None,
{
    let mut d = Device::new(0x1AF4, 0x1000, DeviceClass::Network, 0, 0, 0);
    d.name = "VirtIO Interface 0";
    d.enabled = true;
    d
}

} // verus!
