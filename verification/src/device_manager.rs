use vstd::prelude::*;

verus! {

/// Hardware categories.
#[derive(Debug, Clone, Copy, PartialEq, Eq, Structural)]
pub enum DeviceClass {
    /// Display controllers / GPUs (PCI class 0x03)
    Display,
    /// Mass storage (PCI class 0x01)
    Storage,
    /// Network controllers (PCI class 0x02)
    Network,
    /// Audio devices (PCI class 0x04)
    Audio,
    /// Bridge devices (PCI class 0x06)
    Bridge,
    /// Keyboards, touchpads, touchscreens
    Input,
    /// Accelerometers, gyroscopes, light and temperature sensors
    Sensor,
    /// Power management / embedded controller
    Power,
    /// USB controllers (PCI class 0x0C, subclass 0x03)
    Usb,
    /// Everything else
    System,
}

/// Device class of a PCI class/subclass pair.
pub open spec fn class_of_pci(class: u8, subclass: u8) -> DeviceClass {
    if class == 0x01 {
        DeviceClass::Storage
    } else if class == 0x02 {
        DeviceClass::Network
    } else if class == 0x03 {
        DeviceClass::Display
    } else if class == 0x04 {
        DeviceClass::Audio
    } else if class == 0x06 {
        DeviceClass::Bridge
    } else if class == 0x0C && subclass == 0x03 {
        DeviceClass::Usb
    } else {
        DeviceClass::System
    }
}

/// Display name of each class.
pub open spec fn class_name(c: DeviceClass) -> &'static str {
    match c {
        DeviceClass::Display => "Display",
        DeviceClass::Storage => "Storage",
        DeviceClass::Network => "Network",
        DeviceClass::Audio => "Audio",
        DeviceClass::Bridge => "Bridge",
        DeviceClass::Input => "Input",
        DeviceClass::Sensor => "Sensor",
        DeviceClass::Power => "Power",
        DeviceClass::Usb => "USB",
        DeviceClass::System => "System",
    }
}

impl DeviceClass {
    /// Classifies a PCI class code (with its subclass for serial-bus controllers).
    pub fn from_pci(class: u8, subclass: u8) -> (c: Self)
        ensures
            c == class_of_pci(class, subclass),
    {
        match class {
            0x01 => DeviceClass::Storage,
            0x02 => DeviceClass::Network,
            0x03 => DeviceClass::Display,
            0x04 => DeviceClass::Audio,
            0x06 => DeviceClass::Bridge,
            0x0C => {
                match subclass {
                    0x03 => DeviceClass::Usb,
                    _ => DeviceClass::System,
                }
            },
            _ => DeviceClass::System,
        }
    }

    pub fn name(&self) -> (n: &'static str)
        ensures
            n == class_name(*self),
    {
        match self {
            DeviceClass::Display => "Display",
            DeviceClass::Storage => "Storage",
            DeviceClass::Network => "Network",
            DeviceClass::Audio => "Audio",
            DeviceClass::Bridge => "Bridge",
            DeviceClass::Input => "Input",
            DeviceClass::Sensor => "Sensor",
            DeviceClass::Power => "Power",
            DeviceClass::Usb => "USB",
            DeviceClass::System => "System",
        }
    }
}

/// PCI identification of a device.
#[derive(Debug, Clone, Copy, PartialEq, Eq, Structural)]
pub struct DeviceId {
    pub vendor: u16,
    pub device: u16,
    pub subsystem_vendor: u16,
    pub subsystem_device: u16,
    pub revision: u8,
}

impl DeviceId {
    /// All-zero identification.
    pub fn unknown() -> (id: Self)
        ensures
            id == (DeviceId { vendor: 0, device: 0, subsystem_vendor: 0, subsystem_device: 0, revision: 0 }),
    {
        DeviceId { vendor: 0, device: 0, subsystem_vendor: 0, subsystem_device: 0, revision: 0 }
    }
}

/// A memory-mapped or I/O-port region decoded from a BAR.
#[derive(Debug, Clone, Copy, PartialEq, Eq, Structural)]
pub struct MmioRegion {
    pub base: u64,
    pub len: usize,
    pub prefetchable: bool,
    /// false for an I/O-port region
    pub is_mmio: bool,
}

impl MmioRegion {
    /// An unimplemented BAR: base and length 0, memory space, not prefetchable.
    pub fn empty() -> (r: Self)
        ensures
            r == (MmioRegion { base: 0, len: 0, prefetchable: false, is_mmio: true }),
    {
        MmioRegion { base: 0, len: 0, prefetchable: false, is_mmio: true }
    }
}

/// How a device signals interrupts.
#[derive(Debug, Clone, Copy, PartialEq, Eq, Structural)]
pub enum IrqType {
    Legacy,
    Msi,
    Msix,
    Unassigned,
}

/// A discovered hardware device.
#[derive(Debug)]
pub struct Device {
    pub id: DeviceId,
    pub name: &'static str,
    pub class: DeviceClass,
    pub bus: u8,
    pub slot: u8,
    pub function: u8,
    pub bars: [MmioRegion; 6],
    pub irq: u8,
    pub irq_type: IrqType,
    pub enabled: bool,
    pub driver_name: Option<&'static str>,
    pub custom_data: Option<Vec<u8>>,
}

/// First BAR satisfying `pred`, scanning from index `i`.
pub open spec fn first_bar_from(bars: Seq<MmioRegion>, i: int, want_prefetch: bool) -> Option<u64>
    decreases 6 - i,
{
    if i >= 6 || i < 0 {
        None
    } else if bars[i].base != 0 && bars[i].is_mmio && (!want_prefetch || bars[i].prefetchable) {
        Some(bars[i].base)
    } else {
        first_bar_from(bars, i + 1, want_prefetch)
    }
}

impl Device {
    /// A disabled, unnamed device with the given IDs and location, no BARs and no IRQ.
    pub fn new(vendor: u16, device: u16, class: DeviceClass, bus: u8, slot: u8, function: u8) -> (d: Self)
        ensures
            d.id == (DeviceId { vendor, device, subsystem_vendor: 0, subsystem_device: 0, revision: 0 }),
            d.name == "Unknown Device",
            d.class == class,
            d.bus == bus,
            d.slot == slot,
            d.function == function,
            forall|i: int| 0 <= i < 6 ==> #[trigger] d.bars@[i] == MmioRegion::empty_spec(),
            d.irq == 0,
            d.irq_type == IrqType::Unassigned,
            !d.enabled,
            d.driver_name is None,
            d.custom_data is None,
    {
        Device {
            id: DeviceId { vendor, device, subsystem_vendor: 0, subsystem_device: 0, revision: 0 },
            name: "Unknown Device",
            class,
            bus,
            slot,
            function,
            bars: [MmioRegion::empty(), MmioRegion::empty(), MmioRegion::empty(), MmioRegion::empty(), MmioRegion::empty(), MmioRegion::empty()],
            irq: 0,
            irq_type: IrqType::Unassigned,
            enabled: false,
            driver_name: None,
            custom_data: None,
        }
    }

    /// The device has the given vendor:device ID.
    pub fn matches_id(&self, vendor: u16, device: u16) -> (r: bool)
        ensures
            r == (self.id.vendor == vendor && self.id.device == device),
    {
        self.id.vendor == vendor && self.id.device == device
    }

    /// Base of the first memory BAR with a non-zero base.
    pub fn mmio_base(&self) -> (r: Option<u64>)
        ensures
            r == first_bar_from(self.bars@, 0, false),
    {
        let mut i: usize = 0;
        while i < 6
            invariant
                i <= 6,
                first_bar_from(self.bars@, 0, false) == first_bar_from(self.bars@, i as int, false),
            decreases 6 - i,
        {
            let bar = self.bars[i];
            if bar.base != 0 && bar.is_mmio {
                return Some(bar.base);
            }
            i = i + 1;
        }
        None
    }

    /// Base of the first prefetchable memory BAR with a non-zero base.
    pub fn framebuffer_base(&self) -> (r: Option<u64>)
        ensures
            r == first_bar_from(self.bars@, 0, true),
    {
        let mut i: usize = 0;
        while i < 6
            invariant
                i <= 6,
                first_bar_from(self.bars@, 0, true) == first_bar_from(self.bars@, i as int, true),
            decreases 6 - i,
        {
            let bar = self.bars[i];
            if bar.base != 0 && bar.is_mmio && bar.prefetchable {
                return Some(bar.base);
            }
            i = i + 1;
        }
        None
    }
}

impl MmioRegion {
    pub open spec fn empty_spec() -> MmioRegion {
        MmioRegion { base: 0, len: 0, prefetchable: false, is_mmio: true }
    }
}

/// A hardware driver with a probe/init/shutdown lifecycle.
pub trait Driver {
    /// Human-readable driver name.
    fn name(&self) -> &'static str;

    /// Whether this driver handles a vendor:device pair of the given class.
    fn probe(&self, vendor: u16, device: u16, class: DeviceClass) -> bool;

    /// Initialises the device hardware.
    fn init(&mut self, device: &mut Device) -> Result<(), &'static str>;

    /// Shuts the device down.
    fn shutdown(&mut self, device: &mut Device) -> Result<(), &'static str>;

    /// Handles an IRQ from the device; true when handled.
    fn handle_irq(&mut self, device: &mut Device) -> bool {
        false
    }
}

/// A registered driver and the device it is bound to.
pub struct DriverEntry<D> {
    pub driver: D,
    /// Index of the bound device.
    pub bound_device: Option<usize>,
    pub initialized: bool,
}

/// Registry of devices and drivers.
pub struct DeviceManager<D> {
    pub devices: Vec<Device>,
    pub drivers: Vec<DriverEntry<D>>,
}

/// Bindings of the driver entries: which device each is bound to.
pub open spec fn bindings<D>(drivers: Seq<DriverEntry<D>>) -> Seq<Option<usize>> {
    drivers.map_values(|e: DriverEntry<D>| e.bound_device)
}

/// Every binding names an existing device, no device has two drivers, and
/// only bound drivers are initialised.
pub open spec fn bindings_wf(bound: Seq<Option<usize>>, initialized: Seq<bool>, n_devices: int) -> bool {
    &&& bound.len() == initialized.len()
    &&& forall|i: int| 0 <= i < bound.len() && (#[trigger] bound[i]) is Some ==> bound[i]->0 < n_devices
    &&& forall|i: int, j: int|
        0 <= i < bound.len() && 0 <= j < bound.len() && i != j && (#[trigger] bound[i]) is Some
            ==> bound[i] != #[trigger] bound[j]
    &&& forall|i: int| 0 <= i < initialized.len() && #[trigger] initialized[i] ==> bound[i] is Some
}

/// Device `d` has a driver among the bindings.
pub open spec fn device_bound(bound: Seq<Option<usize>>, d: int) -> bool {
    exists|i: int| 0 <= i < bound.len() && #[trigger] bound[i] == Some(d as usize)
}

impl<D: Driver> DeviceManager<D> {
    pub open spec fn bound(&self) -> Seq<Option<usize>> {
        bindings(self.drivers@)
    }

    pub open spec fn initialized(&self) -> Seq<bool> {
        self.drivers@.map_values(|e: DriverEntry<D>| e.initialized)
    }

    pub open spec fn wf(&self) -> bool {
        bindings_wf(self.bound(), self.initialized(), self.devices@.len() as int)
    }

    /// An empty registry.
    pub fn new() -> (m: Self)
        ensures
            m.devices@.len() == 0,
            m.drivers@.len() == 0,
            m.wf(),
    {
        DeviceManager { devices: Vec::new(), drivers: Vec::new() }
    }

    /// Appends a device; returns its index.
    pub fn register(&mut self, device: Device) -> (idx: usize)
        requires
            old(self).wf(),
        ensures
            final(self).wf(),
            idx == old(self).devices@.len(),
            final(self).devices@ == old(self).devices@.push(device),
            final(self).drivers@ == old(self).drivers@,
    {
        let idx = self.devices.len();
        self.devices.push(device);
        idx
    }

    /// Appends an unbound, uninitialised driver; returns its index.
    pub fn register_driver(&mut self, driver: D) -> (idx: usize)
        requires
            old(self).wf(),
        ensures
            final(self).wf(),
            idx == old(self).drivers@.len(),
            final(self).devices@ == old(self).devices@,
            final(self).drivers@ == old(self).drivers@.push(
                DriverEntry { driver, bound_device: None, initialized: false },
            ),
    {
        let idx = self.drivers.len();
        self.drivers.push(DriverEntry { driver, bound_device: None, initialized: false });
        proof {
            assert(self.bound() =~= old(self).bound().push(None));
            assert(self.initialized() =~= old(self).initialized().push(false));
        }
        idx
    }

    /// Some driver is bound to device `dev_idx`.
    fn device_has_driver(&self, dev_idx: usize) -> (r: bool)
        ensures
            r == device_bound(self.bound(), dev_idx as int),
    {
        let mut i: usize = 0;
        while i < self.drivers.len()
            invariant
                i <= self.drivers@.len(),
                forall|j: int| 0 <= j < i ==> self.bound()[j] != Some(dev_idx),
            decreases self.drivers@.len() - i,
        {
            if self.drivers[i].bound_device == Some(dev_idx) {
                assert(self.bound()[i as int] == Some(dev_idx));
                return true;
            }
            i = i + 1;
        }
        false
    }

    /// Offers every unbound device, in order, to the unbound drivers in order;
    /// the first driver whose probe accepts it is bound to it.
    pub fn probe_all(&mut self)
        requires
            old(self).wf(),
        ensures
            final(self).wf(),
            final(self).devices@ == old(self).devices@,
            final(self).drivers@.len() == old(self).drivers@.len(),
            forall|i: int| 0 <= i < old(self).drivers@.len() ==> {
                &&& (#[trigger] final(self).drivers@[i]).driver == old(self).drivers@[i].driver
                &&& final(self).drivers@[i].initialized == old(self).drivers@[i].initialized
                &&& old(self).drivers@[i].bound_device is Some
                    ==> final(self).drivers@[i].bound_device == old(self).drivers@[i].bound_device
                &&& (old(self).drivers@[i].bound_device is None && final(self).drivers@[i].bound_device is Some)
                    ==> !device_bound(old(self).bound(), final(self).drivers@[i].bound_device->0 as int)
            },
    {
        let ghost orig = self.drivers@;
        let n_dev = self.devices.len();
        let mut dev_idx: usize = 0;
        while dev_idx < n_dev
            invariant
                n_dev == self.devices@.len(),
                dev_idx <= n_dev,
                self.wf(),
                self.devices@ == old(self).devices@,
                orig == old(self).drivers@,
                self.drivers@.len() == orig.len(),
                forall|i: int| 0 <= i < orig.len() ==> {
                    &&& (#[trigger] self.drivers@[i]).driver == orig[i].driver
                    &&& self.drivers@[i].initialized == orig[i].initialized
                    &&& orig[i].bound_device is Some ==> self.drivers@[i].bound_device == orig[i].bound_device
                    &&& (orig[i].bound_device is None && self.drivers@[i].bound_device is Some) ==> {
                        &&& !device_bound(bindings(orig), self.drivers@[i].bound_device->0 as int)
                        &&& self.drivers@[i].bound_device->0 < dev_idx
                    }
                },
            decreases n_dev - dev_idx,
        {
            let ghost bb = self.bound();
            if self.device_has_driver(dev_idx) {
                dev_idx = dev_idx + 1;
                continue;
            }
            let ghost dev = self.devices@[dev_idx as int];
            let vendor = self.devices[dev_idx].id.vendor;
            let device = self.devices[dev_idx].id.device;
            let class = self.devices[dev_idx].class;
            let mut drv_idx: usize = 0;
            while drv_idx < self.drivers.len()
                invariant_except_break
                    !device_bound(self.bound(), dev_idx as int),
                    self.bound() == bb,
                invariant
                    !device_bound(bb, dev_idx as int),
                    dev == self.devices@[dev_idx as int],
                    vendor == dev.id.vendor && device == dev.id.device && class == dev.class,
                    n_dev == self.devices@.len(),
                    dev_idx < n_dev,
                    drv_idx <= self.drivers@.len(),
                    self.wf(),
                    self.devices@ == old(self).devices@,
                    orig == old(self).drivers@,
                    self.drivers@.len() == orig.len(),
                    forall|i: int| 0 <= i < orig.len() ==> {
                        &&& (#[trigger] self.drivers@[i]).driver == orig[i].driver
                        &&& self.drivers@[i].initialized == orig[i].initialized
                        &&& orig[i].bound_device is Some ==> self.drivers@[i].bound_device == orig[i].bound_device
                        &&& (orig[i].bound_device is None && self.drivers@[i].bound_device is Some) ==> {
                            &&& !device_bound(bindings(orig), self.drivers@[i].bound_device->0 as int)
                            &&& self.drivers@[i].bound_device->0 <= dev_idx
                        }
                    },
                decreases self.drivers@.len() - drv_idx,
            {
                if self.drivers[drv_idx].bound_device.is_some() {
                    proof {
                        assert(bb[drv_idx as int] == self.drivers@[drv_idx as int].bound_device);
                    }
                    drv_idx = drv_idx + 1;
                    continue;
                }
                proof {
                    assert(bb[drv_idx as int] == self.drivers@[drv_idx as int].bound_device);
                    assert(self.drivers@[drv_idx as int].driver == orig[drv_idx as int].driver);
                }
                if self.drivers[drv_idx].driver.probe(vendor, device, class) {
                    let ghost before = self.drivers@;
                    self.drivers[drv_idx].bound_device = Some(dev_idx);
                    proof {
                        assert(self.bound() =~= bindings(before).update(drv_idx as int, Some(dev_idx)));
                        assert(self.initialized() =~= before.map_values(|e: DriverEntry<D>| e.initialized));
                        assert(!device_bound(bindings(orig), dev_idx as int)) by {
                            if device_bound(bindings(orig), dev_idx as int) {
                                let k = choose|k: int| 0 <= k < bindings(orig).len() && #[trigger] bindings(orig)[k] == Some(dev_idx);
                                assert(bindings(orig)[k] == orig[k].bound_device);
                                assert(before[k].bound_device == orig[k].bound_device);
                                assert(bindings(before)[k] == Some(dev_idx));
                            }
                        }
                    }
                    proof {
                        assert(self.bound() =~= bb.update(drv_idx as int, Some(dev_idx)));
                    }
                    break;
                }
                drv_idx = drv_idx + 1;
            }
            dev_idx = dev_idx + 1;
        }
    }

    /// Initialises every bound driver that is not initialised yet, in order. On
    /// success the device is enabled and records the driver's name.
    pub fn init_all(&mut self)
        requires
            old(self).wf(),
        ensures
            final(self).wf(),
            final(self).devices@.len() == old(self).devices@.len(),
            final(self).drivers@.len() == old(self).drivers@.len(),
            final(self).bound() == old(self).bound(),
            forall|i: int| 0 <= i < old(self).drivers@.len() && #[trigger] old(self).drivers@[i].initialized
                ==> final(self).drivers@[i].initialized,
            forall|i: int| 0 <= i < old(self).drivers@.len() && (#[trigger] old(self).drivers@[i]).bound_device is None
                ==> final(self).drivers@[i] == old(self).drivers@[i],
            forall|i: int| 0 <= i < old(self).drivers@.len()
                && !old(self).drivers@[i].initialized
                && (#[trigger] final(self).drivers@[i]).initialized
                ==> {
                    let d = final(self).drivers@[i].bound_device->0 as int;
                    &&& final(self).devices@[d].enabled
                    &&& final(self).devices@[d].driver_name is Some
                },
            forall|i: int| 0 <= i < old(self).drivers@.len() && #[trigger] old(self).drivers@[i].initialized
                ==> final(self).drivers@[i] == old(self).drivers@[i],
    {
        let n = self.drivers.len();
        let mut i: usize = 0;
        while i < n
            invariant
                n == self.drivers@.len(),
                i <= n,
                self.wf(),
                self.devices@.len() == old(self).devices@.len(),
                self.drivers@.len() == old(self).drivers@.len(),
                self.bound() == old(self).bound(),
                forall|k: int| 0 <= k < n && #[trigger] old(self).drivers@[k].initialized
                    ==> self.drivers@[k].initialized,
                forall|k: int| i <= k < n ==> #[trigger] self.drivers@[k] == old(self).drivers@[k],
                forall|k: int| 0 <= k < n && #[trigger] old(self).drivers@[k].initialized
                    ==> self.drivers@[k] == old(self).drivers@[k],
                forall|k: int| 0 <= k < n && (#[trigger] old(self).drivers@[k]).bound_device is None
                    ==> self.drivers@[k] == old(self).drivers@[k],
                forall|k: int| 0 <= k < i
                    && !old(self).drivers@[k].initialized
                    && (#[trigger] self.drivers@[k]).initialized
                    ==> {
                        let d = self.drivers@[k].bound_device->0 as int;
                        &&& self.devices@[d].enabled
                        &&& self.devices@[d].driver_name is Some
                    },
            decreases n - i,
        {
            if self.drivers[i].initialized {
                i = i + 1;
                continue;
            }
            match self.drivers[i].bound_device {
                Some(dev_idx) => {
                    proof {
                        assert(self.bound()[i as int] == Some(dev_idx));
                    }
                    let ghost before = self.drivers@;
                    let ghost dev_before = self.devices@;
                    let result = self.drivers[i].driver.init(&mut self.devices[dev_idx]);
                    match result {
                        Ok(()) => {
                            let name = self.drivers[i].driver.name();
                            self.devices[dev_idx].enabled = true;
                            self.devices[dev_idx].driver_name = Some(name);
                            self.drivers[i].initialized = true;
                        },
                        Err(_) => {},
                    }
                    proof {
                        assert(self.bound() =~= bindings(before));
                        assert forall|k: int| 0 <= k < n && k != i implies
                            (#[trigger] self.drivers@[k]).bound_device == before[k].bound_device
                            && self.drivers@[k].initialized == before[k].initialized by {}
                        assert forall|k: int| 0 <= k < i && (#[trigger] before[k]).bound_device is Some implies
                            before[k].bound_device->0 != dev_idx by {
                            assert(bindings(before)[k] == before[k].bound_device);
                            assert(bindings(before)[i as int] == Some(dev_idx));
                        }
                        assert forall|d: int| 0 <= d < self.devices@.len() && d != dev_idx implies
                            #[trigger] self.devices@[d] == dev_before[d] by {}
                        assert(self.drivers@[i as int].bound_device == Some(dev_idx));
                        assert forall|k: int| 0 <= k < self.initialized().len() && #[trigger] self.initialized()[k]
                            implies self.bound()[k] is Some by {
                            if k != i {
                                assert(before.map_values(|e: DriverEntry<D>| e.initialized)[k]);
                            }
                        }
                        assert(self.devices@.len() == dev_before.len());
                        assert forall|k: int| 0 <= k < i + 1
                            && !old(self).drivers@[k].initialized
                            && (#[trigger] self.drivers@[k]).initialized
                            implies {
                                let d = self.drivers@[k].bound_device->0 as int;
                                &&& self.devices@[d].enabled
                                &&& self.devices@[d].driver_name is Some
                            } by {
                            if k < i {
                                assert(before[k] == self.drivers@[k]);
                                let d = before[k].bound_device->0 as int;
                                assert(bindings(before)[k] == before[k].bound_device);
                                assert(self.devices@[d] == dev_before[d]);
                            }
                        }
                    }
                },
                None => {},
            }
            i = i + 1;
        }
    }

    /// The indices of the devices of class `class`, for a caller that goes on
    /// to change them through `devices`, in increasing order.
    pub fn find_by_class_mut(&mut self, class: DeviceClass) -> (r: Vec<usize>)
        ensures
            *final(self) == *old(self),
            forall|k: int| 0 <= k < r@.len() ==> #[trigger] r@[k] < old(self).devices@.len()
                && old(self).devices@[r@[k] as int].class == class,
            forall|j: int| 0 <= j < old(self).devices@.len() && old(self).devices@[j].class == class
                ==> r@.contains(j as usize),
            forall|a: int, b: int| 0 <= a < b < r@.len() ==> r@[a] < r@[b],
    {
        self.find_by_class(class)
    }

    /// Indices of the devices of a class, in registration order.
    pub fn find_by_class(&self, class: DeviceClass) -> (r: Vec<usize>)
        ensures
            forall|k: int| 0 <= k < r@.len() ==> #[trigger] r@[k] < self.devices@.len()
                && self.devices@[r@[k] as int].class == class,
            forall|j: int| 0 <= j < self.devices@.len() && self.devices@[j].class == class
                ==> r@.contains(j as usize),
            forall|a: int, b: int| 0 <= a < b < r@.len() ==> r@[a] < r@[b],
    {
        let mut r: Vec<usize> = Vec::new();
        let mut i: usize = 0;
        while i < self.devices.len()
            invariant
                i <= self.devices@.len(),
                forall|k: int| 0 <= k < r@.len() ==> #[trigger] r@[k] < i
                    && self.devices@[r@[k] as int].class == class,
                forall|j: int| 0 <= j < i && self.devices@[j].class == class ==> r@.contains(j as usize),
                forall|a: int, b: int| 0 <= a < b < r@.len() ==> r@[a] < r@[b],
            decreases self.devices@.len() - i,
        {
            if self.devices[i].class == class {
                let ghost old_r = r@;
                r.push(i);
                proof {
                    assert forall|j: int| 0 <= j <= i && self.devices@[j].class == class implies r@.contains(j as usize) by {
                        if j < i {
                            let k = choose|k: int| 0 <= k < old_r.len() && old_r[k] == j as usize;
                            assert(r@[k] == j as usize);
                        } else {
                            assert(r@[r@.len() - 1] == i);
                        }
                    }
                }
            }
            i = i + 1;
        }
        r
    }

    /// Index of the first driver bound to a device of the class.
    pub fn find_driver_for_class(&self, class: DeviceClass) -> (r: Option<usize>)
        requires
            self.wf(),
        ensures
            match r {
                Some(i) => i < self.drivers@.len() && self.drivers@[i as int].bound_device is Some
                    && self.devices@[self.drivers@[i as int].bound_device->0 as int].class == class
                    && forall|j: int| 0 <= j < i && (#[trigger] self.drivers@[j]).bound_device is Some
                        ==> self.devices@[self.drivers@[j].bound_device->0 as int].class != class,
                None => forall|j: int| 0 <= j < self.drivers@.len() && (#[trigger] self.drivers@[j]).bound_device is Some
                    ==> self.devices@[self.drivers@[j].bound_device->0 as int].class != class,
            },
    {
        let mut i: usize = 0;
        while i < self.drivers.len()
            invariant
                i <= self.drivers@.len(),
                self.wf(),
                forall|j: int| 0 <= j < i && (#[trigger] self.drivers@[j]).bound_device is Some
                    ==> self.devices@[self.drivers@[j].bound_device->0 as int].class != class,
            decreases self.drivers@.len() - i,
        {
            match self.drivers[i].bound_device {
                Some(dev_idx) => {
                    proof {
                        assert(self.bound()[i as int] == Some(dev_idx));
                    }
                    if self.devices[dev_idx].class == class {
                        return Some(i);
                    }
                },
                None => {},
            }
            i = i + 1;
        }
        None
    }
}

/// Registers a device with the system's manager; returns its index.
pub fn register_device<D: Driver>(manager: &mut DeviceManager<D>, device: Device) -> (idx: usize)
    requires
        old(manager).wf(),
    ensures
        final(manager).wf(),
        idx == old(manager).devices@.len(),
        final(manager).devices@ == old(manager).devices@.push(device),
        final(manager).drivers@ == old(manager).drivers@,
{
    manager.register(device)
}

} // verus!
