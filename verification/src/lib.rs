//! Verified core of the JARVIS kernel: device tables, protocol codecs,
//! allocators and subsystem state machines.
pub mod acpi;
pub mod ai;
pub mod audio;
pub mod cros_ec;
pub mod allocator;
pub mod apic;
pub mod device_manager;
pub mod entropy;
pub mod gpu;
pub mod storage;
pub mod strings;
pub mod vad;
pub mod gui;
pub mod gui_3d;
pub mod hpet;
pub mod i2c;
pub mod interrupts;
pub mod memory;
pub mod net;
pub mod notifications;
pub mod pci;
pub mod port;
pub mod renderer;
pub mod security;
pub mod sensors;
