# jarvis_kernel

The hardware and system logic of a small x86-64 hobby kernel, written in
Verus: the functions in `src/` carry contracts that Verus proves.

## Layout

- `src/` — the verified library.
  - `pci.rs`, `acpi.rs`, `apic.rs`, `hpet.rs`, `interrupts.rs`: PCI
    configuration space (scans, capabilities, BARs, MSI) and the platform
    tables and timers, stated over traces of the accesses they make.
  - `i2c/`: I²C masters (GPIO bit-banging, PIIX4 and ICH9 SMBus hosts), the
    bus registry, SMBus register helpers and EDID parsing.
  - `gpu/`: GPU identification, capabilities, mode selection and the drivers'
    framebuffer operations; `audio/`, `sensors/`, `cros_ec.rs`: devices on I²C.
  - `storage/`, `net/`, `ai/`, `renderer/`, `gui.rs`, `gui_3d.rs`: the
    filesystem layers, the mesh and discovery protocols, the voice shell and
    the drawing code.
  - `port.rs`: the traits through which the library reaches I/O ports and
    memory-mapped registers. Their contracts speak of the accesses made; the
    hardware layer implements plain `Raw*` traits, and a verified `Logged*`
    wrapper records each access with the value the hardware gave (`pci.rs`
    and `i2c/bitbang.rs` do the same for configuration space and the GPIO
    lines). Recording and scripted implementations serve the tests.
- `tests/` — the tests, run against the compiled library.
- `app/` — the kernel's entry point and the hardware access behind the
  `Raw*` traits (port instructions, MMIO, the serial console), plus the
  floating-point rendering.

Outside crates are reached through a few trusted wrappers, each documented
where it is declared.
