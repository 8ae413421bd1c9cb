//! PCI / PCIe configuration space: address encodings for the legacy
//! CF8/CFC mechanism and for ECAM, sub-dword accesses, the capability list,
//! MSI programming, BAR decoding, function enumeration with bridge
//! traversal, and the conversion of a function into a `Device`.
use vstd::prelude::*;
use crate::device_manager::{Device, DeviceClass, IrqType, MmioRegion, class_of_pci};

verus! {

/// How configuration space is reached.
#[derive(Debug, Clone, Copy, PartialEq, Eq, Structural)]
pub enum PciAccess {
    /// CF8/CFC port I/O.
    Legacy,
    /// Memory-mapped (MCFG) for buses 0..=end_bus.
    Ecam { base: u64, end_bus: u8 },
}

/// Where one configuration dword access goes.
#[derive(Debug, Clone, Copy, PartialEq, Eq, Structural)]
pub enum ConfigTarget {
    /// Write this value to port 0xCF8, then access port 0xCFC.
    Port(u32),
    /// Access the dword at this physical address.
    Mmio(u64),
}

/// The CF8 value selecting a configuration dword: enable bit, bus, device,
/// function, and the offset rounded down to a dword.
pub open spec fn legacy_address_spec(bus: u8, slot: u8, func: u8, offset: u16) -> u32 {
    (0x80000000u32 | ((bus as u32) << 16u32) | ((slot as u32) << 11u32) | ((func as u32) << 8u32)
        | ((offset as u32) & 0xFCu32)) as u32
}

/// The CF8 value selecting a configuration dword.
pub fn legacy_address(bus: u8, slot: u8, func: u8, offset: u16) -> (a: u32)
    ensures
        a == legacy_address_spec(bus, slot, func, offset),
{
    0x80000000u32 | ((bus as u32) << 16u32) | ((slot as u32) << 11u32) | ((func as u32) << 8u32)
        | ((offset as u32) & 0xFC)
}

/// The ECAM address of a configuration dword: base + bus * 2^20 +
/// slot * 2^15 + func * 2^12 + the offset rounded down to a dword.
pub open spec fn ecam_address_spec(base: u64, bus: u8, slot: u8, func: u8, offset: u16) -> int {
    base + bus * 1048576 + slot * 32768 + func * 4096 + (offset as int / 4) * 4 % 4096
}

/// The ECAM address of a configuration dword; None when it would pass the
/// top of the address space.
pub fn ecam_address(base: u64, bus: u8, slot: u8, func: u8, offset: u16) -> (a: Option<u64>)
    ensures
        ecam_address_spec(base, bus, slot, func, offset) <= u64::MAX ==> a == Some(ecam_address_spec(base, bus, slot, func, offset) as u64),
        ecam_address_spec(base, bus, slot, func, offset) > u64::MAX ==> a is None,
{
    let off: u64 = (offset as u64 / 4) * 4 % 4096;
    let rel: u64 = bus as u64 * 1048576 + slot as u64 * 32768 + func as u64 * 4096 + off;
    base.checked_add(rel)
}

/// Where an access to (bus, slot, func, offset) goes under `mode`: ECAM for
/// buses it covers, legacy ports otherwise.
pub fn config_target(mode: PciAccess, bus: u8, slot: u8, func: u8, offset: u16) -> (t: Option<ConfigTarget>)
    ensures
        match mode {
            PciAccess::Ecam { base, end_bus } => if bus <= end_bus {
                t == (if ecam_address_spec(base, bus, slot, func, offset) <= u64::MAX {
                    Some(ConfigTarget::Mmio(ecam_address_spec(base, bus, slot, func, offset) as u64))
                } else {
                    None
                })
            } else {
                t == Some(ConfigTarget::Port(legacy_address_spec(bus, slot, func, offset)))
            },
            PciAccess::Legacy => t == Some(ConfigTarget::Port(legacy_address_spec(bus, slot, func, offset))),
        },
{
    match mode {
        PciAccess::Ecam { base, end_bus } => {
            if bus <= end_bus {
                match ecam_address(base, bus, slot, func, offset) {
                    Some(a) => Some(ConfigTarget::Mmio(a)),
                    None => None,
                }
            } else {
                Some(ConfigTarget::Port(legacy_address(bus, slot, func, offset)))
            }
        },
        PciAccess::Legacy => Some(ConfigTarget::Port(legacy_address(bus, slot, func, offset))),
    }
}

/// Whether ECAM is in use.
pub fn use_ecam(mode: PciAccess) -> (b: bool)
    ensures
        b == (mode is Ecam),
{
    match mode {
        PciAccess::Ecam { .. } => true,
        PciAccess::Legacy => false,
    }
}

/// The value a legacy dword write stores: at an aligned offset the value
/// itself; at an unaligned one the bytes of `orig` below the offset's
/// position within the dword are kept and the value is OR-ed in.
pub open spec fn legacy_merge_spec(orig: u32, offset: u16, value: u32) -> u32 {
    if offset % 4 == 0 {
        value
    } else {
        (orig & !(0xFFFFFFFFu32 << (((offset % 4) * 8) as u32))) | value
    }
}

/// The value a legacy dword write stores.
pub fn legacy_merge(orig: u32, offset: u16, value: u32) -> (v: u32)
    ensures
        v == legacy_merge_spec(orig, offset, value),
        offset % 4 == 0 ==> v == value,
{
    if offset % 4 == 0 {
        value
    } else {
        (orig & !(0xFFFFFFFFu32 << (((offset % 4) * 8) as u32))) | value
    }
}

/// One configuration space access.
#[derive(Debug, Clone, Copy, PartialEq, Eq, Structural)]
pub enum CfgEvent {
    Read { bus: u8, slot: u8, func: u8, offset: u16, value: u32 },
    Write { bus: u8, slot: u8, func: u8, offset: u16, value: u32 },
}

/// Configuration space of the machine; `events` is every access so far.
pub trait PciConfig {
    /// The accesses made so far.
    spec fn events(&self) -> Seq<CfgEvent>;

    /// Reads the dword at `offset` (rounded down to a dword).
    fn read_config(&mut self, bus: u8, slot: u8, func: u8, offset: u16) -> (value: u32)
        ensures
            final(self).events() == old(self).events().push(CfgEvent::Read { bus, slot, func, offset, value });

    /// Writes the dword at `offset`.
    fn write_config(&mut self, bus: u8, slot: u8, func: u8, offset: u16, value: u32)
        ensures
            final(self).events() == old(self).events().push(CfgEvent::Write { bus, slot, func, offset, value });
}

/// Configuration space of the machine, as the hardware layer gives it.
pub trait RawConfig {
    /// Reads the dword at `offset` (rounded down to a dword).
    fn read_config(&mut self, bus: u8, slot: u8, func: u8, offset: u16) -> u32;

    /// Writes the dword at `offset`.
    fn write_config(&mut self, bus: u8, slot: u8, func: u8, offset: u16, value: u32);
}

/// Hardware configuration space with every access recorded: each read as
/// the value the hardware gave, each write as issued.
pub struct LoggedConfig<R: RawConfig> {
    pub raw: R,
    pub log: Ghost<Seq<CfgEvent>>,
}

impl<R: RawConfig> LoggedConfig<R> {
    /// `raw`, with no access recorded yet.
    pub fn new(raw: R) -> (c: Self)
        ensures
            c.raw == raw,
            c.log@ == Seq::<CfgEvent>::empty(),
    {
        LoggedConfig { raw, log: Ghost(Seq::empty()) }
    }
}

impl<R: RawConfig> PciConfig for LoggedConfig<R> {
    open spec fn events(&self) -> Seq<CfgEvent> {
        self.log@
    }

    fn read_config(&mut self, bus: u8, slot: u8, func: u8, offset: u16) -> (value: u32) {
        let value = self.raw.read_config(bus, slot, func, offset);
        proof {
            self.log@ = self.log@.push(CfgEvent::Read { bus, slot, func, offset, value });
        }
        value
    }

    fn write_config(&mut self, bus: u8, slot: u8, func: u8, offset: u16, value: u32) {
        self.raw.write_config(bus, slot, func, offset, value);
        proof {
            self.log@ = self.log@.push(CfgEvent::Write { bus, slot, func, offset, value });
        }
    }
}

/// `e` is a read of (bus, slot, func, offset).
pub open spec fn cfg_read(e: CfgEvent, bus: u8, slot: u8, func: u8, offset: u16) -> bool {
    match e {
        CfgEvent::Read { bus: b, slot: s, func: f, offset: o, .. } => b == bus && s == slot && f == func && o == offset,
        _ => false,
    }
}

/// The dword an access carried.
pub open spec fn cfg_value(e: CfgEvent) -> u32 {
    match e {
        CfgEvent::Read { value, .. } => value,
        CfgEvent::Write { value, .. } => value,
    }
}

/// The accesses of `new` after the first `old.len()`.
pub open spec fn cfg_after(old: Seq<CfgEvent>, new: Seq<CfgEvent>) -> Seq<CfgEvent> {
    new.subrange(old.len() as int, new.len() as int)
}

/// `new` extends `old`.
pub open spec fn cfg_extends(old: Seq<CfgEvent>, new: Seq<CfgEvent>) -> bool {
    old.len() <= new.len() && forall|i: int| 0 <= i < old.len() ==> #[trigger] new[i] == old[i]
}

/// The 16 bits at byte `offset & 3` of a dword.
pub open spec fn word_of(v: u32, offset: u16) -> u16 {
    (v >> (((offset % 4) * 8) as u32)) as u16
}

/// `new` is `old` plus one read of (bus, slot, func, offset), which gave `v`.
pub open spec fn one_read(old: Seq<CfgEvent>, new: Seq<CfgEvent>, bus: u8, slot: u8, func: u8, offset: u16, v: u32) -> bool {
    new == old.push(CfgEvent::Read { bus, slot, func, offset, value: v })
}

/// The value of the last event.
pub open spec fn last_value(e: Seq<CfgEvent>) -> u32 {
    match e.last() {
        CfgEvent::Read { value, .. } => value,
        CfgEvent::Write { value, .. } => value,
    }
}

/// Reads the 16-bit register at `offset`: the dword at `offset & 0xFC`,
/// shifted by the byte position.
pub fn pci_read_word<C: PciConfig>(cfg: &mut C, bus: u8, slot: u8, func: u8, offset: u16) -> (w: u16)
    ensures
        one_read(old(cfg).events(), final(cfg).events(), bus, slot, func, offset & 0xFCu16, last_value(final(cfg).events())),
        w == word_of(last_value(final(cfg).events()), offset),
{
    let aligned = offset & 0xFC;
    let shift = ((offset % 4) * 8) as u32;
    let v = cfg.read_config(bus, slot, func, aligned);
    (v >> shift) as u16
}

/// Writes the 16-bit register at `offset`: the dword is read, the word's
/// bits replaced, and the dword written back.
pub fn pci_write_word<C: PciConfig>(cfg: &mut C, bus: u8, slot: u8, func: u8, offset: u16, value: u16)
    ensures
        final(cfg).events().len() == old(cfg).events().len() + 2,
        final(cfg).events().subrange(0, old(cfg).events().len() as int) == old(cfg).events(),
        word_written(final(cfg).events(), old(cfg).events().len() as int, bus, slot, func, offset, value),
{
    let aligned = offset & 0xFC;
    let shift = ((offset % 4) * 8) as u32;
    let orig = cfg.read_config(bus, slot, func, aligned);
    let mask = 0xFFFFu32 << shift;
    cfg.write_config(bus, slot, func, aligned, (orig & !mask) | ((value as u32) << shift));
    assert(cfg.events().subrange(0, old(cfg).events().len() as int) =~= old(cfg).events());
}

/// Events `k` and `k + 1` of `e` rewrite the 16-bit register at `offset`
/// with `value`: the dword at `offset & 0xFC` read, then written back with
/// those 16 bits replaced.
pub open spec fn word_written(e: Seq<CfgEvent>, k: int, bus: u8, slot: u8, func: u8, offset: u16, value: u16) -> bool {
    let shift = ((offset % 4) * 8) as u32;
    &&& e[k] matches CfgEvent::Read { bus: b, slot: s, func: f, offset: o, value: orig }
    &&& b == bus && s == slot && f == func && o == offset & 0xFCu16
    &&& e[k + 1] == CfgEvent::Write {
        bus,
        slot,
        func,
        offset: offset & 0xFCu16,
        value: (orig & !(0xFFFFu32 << shift)) | ((value as u32) << shift),
    }
}

/// Reads the 8-bit register at `offset`: the low byte of the word there.
pub fn pci_read_byte<C: PciConfig>(cfg: &mut C, bus: u8, slot: u8, func: u8, offset: u16) -> (b: u8)
    ensures
        one_read(old(cfg).events(), final(cfg).events(), bus, slot, func, offset & 0xFCu16, last_value(final(cfg).events())),
        b == (word_of(last_value(final(cfg).events()), offset) & 0xFFu16) as u8,
{
    (pci_read_word(cfg, bus, slot, func, offset) & 0xFF) as u8
}

/// `pci_read_word` with an 8-bit offset.
pub fn pci_read_word_compat<C: PciConfig>(cfg: &mut C, bus: u8, slot: u8, func: u8, offset: u8) -> (w: u16)
    ensures
        one_read(old(cfg).events(), final(cfg).events(), bus, slot, func, (offset as u16) & 0xFCu16, last_value(final(cfg).events())),
        w == word_of(last_value(final(cfg).events()), offset as u16),
{
    pci_read_word(cfg, bus, slot, func, offset as u16)
}

/// `pci_write_word` with an 8-bit offset.
pub fn pci_write_word_compat<C: PciConfig>(cfg: &mut C, bus: u8, slot: u8, func: u8, offset: u8, value: u16)
    ensures
        final(cfg).events().len() == old(cfg).events().len() + 2,
        final(cfg).events().last() matches CfgEvent::Write { offset: o, .. } && o == (offset as u16) & 0xFCu16,
{
    pci_write_word(cfg, bus, slot, func, offset as u16, value)
}

/// Reads the configuration dword at an 8-bit offset.
pub fn pci_read_dword<C: PciConfig>(cfg: &mut C, bus: u8, slot: u8, func: u8, offset: u8) -> (v: u32)
    ensures
        one_read(old(cfg).events(), final(cfg).events(), bus, slot, func, offset as u16, v),
{
    cfg.read_config(bus, slot, func, offset as u16)
}

/// Writes the configuration dword at an 8-bit offset.
pub fn pci_write_dword<C: PciConfig>(cfg: &mut C, bus: u8, slot: u8, func: u8, offset: u8, value: u32)
    ensures
        final(cfg).events() == old(cfg).events().push(CfgEvent::Write { bus, slot, func, offset: offset as u16, value }),
{
    cfg.write_config(bus, slot, func, offset as u16, value)
}

/// The access mode once ACPI has given an ECAM window.
pub fn set_ecam(base: u64, end_bus: u8) -> (m: PciAccess)
    ensures
        m == (PciAccess::Ecam { base, end_bus }),
{
    PciAccess::Ecam { base, end_bus }
}

/// Power Management capability.
pub const CAP_PM: u8 = 0x01;
/// MSI capability.
pub const CAP_MSI: u8 = 0x05;
/// PCI Express capability.
pub const CAP_PCIEXPRESS: u8 = 0x10;
/// MSI-X capability.
pub const CAP_MSIX: u8 = 0x11;

/// Longest capability list walked: a list that runs longer loops.
pub const MAX_CAPS: usize = 48;

/// A well-formed capability list: each entry at a nonzero dword-aligned
/// offset inside the 256-byte header space.
pub open spec fn caps_wf(caps: Seq<(u8, u16)>) -> bool {
    &&& caps.len() <= MAX_CAPS
    &&& forall|k: int| 0 <= k < caps.len() ==> (#[trigger] caps[k]).1 % 4 == 0 && 0 < caps[k].1 < 256
}

/// The byte at `offset` of the dword an access carried.
pub open spec fn cfg_byte(e: CfgEvent, offset: u16) -> u8 {
    (word_of(cfg_value(e), offset) & 0xFFu16) as u8
}

/// The capability list read from the pair reads in `t`, starting at
/// `offset` with room for `room` more entries: each entry is the id byte
/// at its offset and the next offset is the following byte rounded down to
/// a dword; the walk ends at offset 0 or when the room is used up.
pub open spec fn caps_chain(t: Seq<CfgEvent>, bus: u8, slot: u8, func: u8, caps: Seq<(u8, u16)>, offset: u16, room: nat) -> bool
    decreases caps.len(),
{
    if caps.len() == 0 {
        t.len() == 0 && (offset == 0 || room == 0)
    } else {
        &&& room > 0 && offset != 0
        &&& t.len() >= 2
        &&& cfg_read(t[0], bus, slot, func, offset)
        &&& cfg_read(t[1], bus, slot, func, offset)
        &&& caps[0] == (cfg_byte(t[0], offset), offset)
        &&& caps_chain(t.skip(2), bus, slot, func, caps.drop_first(), (cfg_byte(t[1], (offset + 1) as u16) / 4 * 4) as u16, (room - 1) as nat)
    }
}

/// The reads of a capability walk and the list it gives: the status word
/// (bit 4 says whether there is a list), then the pointer at 0x34, then
/// the chain.
pub open spec fn caps_trace(s: Seq<CfgEvent>, bus: u8, slot: u8, func: u8, caps: Seq<(u8, u16)>) -> bool {
    &&& s.len() >= 1
    &&& cfg_read(s[0], bus, slot, func, 0x04)
    &&& word_of(cfg_value(s[0]), 0x06) & 0x10 == 0 ==> s.len() == 1 && caps.len() == 0
    &&& word_of(cfg_value(s[0]), 0x06) & 0x10 != 0 ==> {
        &&& s.len() >= 2
        &&& cfg_read(s[1], bus, slot, func, 0x34)
        &&& caps_chain(s.skip(2), bus, slot, func, caps, (cfg_byte(s[1], 0x34) / 4 * 4) as u16, MAX_CAPS as nat)
    }
}

/// The capability list of a function as (id, offset) pairs, following the
/// next pointers from the byte at 0x34; empty when status bit 4 is clear.
pub fn read_capabilities<C: PciConfig>(cfg: &mut C, bus: u8, slot: u8, func: u8) -> (caps: Vec<(u8, u16)>)
    ensures
        caps_wf(caps@),
        cfg_extends(old(cfg).events(), final(cfg).events()),
        caps_trace(cfg_after(old(cfg).events(), final(cfg).events()), bus, slot, func, caps@),
{
    let ghost e0 = cfg.events();
    let mut caps: Vec<(u8, u16)> = Vec::new();
    let status = pci_read_word(cfg, bus, slot, func, 0x06);
    proof {
        assert(0x06u16 & 0xFCu16 == 0x04u16) by (bit_vector);
        assert(cfg.events().subrange(0, e0.len() as int) =~= e0);
        assert(cfg_after(e0, cfg.events()) =~= seq![cfg.events().last()]);
    }
    if status & 0x10 == 0 {
        return caps;
    }
    let first = pci_read_byte(cfg, bus, slot, func, 0x34);
    let ghost head = cfg.events();
    proof {
        assert(0x34u16 & 0xFCu16 == 0x34u16) by (bit_vector);
        assert(head.subrange(0, e0.len() as int) =~= e0);
        assert(head.subrange(0, head.len() as int) =~= head);
        assert(cfg_after(e0, head).len() == 2);
    }
    let mut offset: u16 = (first / 4 * 4) as u16;
    let ghost first_off = offset;
    proof {
        assert forall|rest: Seq<CfgEvent>, cr: Seq<(u8, u16)>| #[trigger] caps_chain(rest, bus, slot, func, cr, offset, MAX_CAPS as nat)
            implies caps_chain(cfg_after(head, cfg.events()) + rest, bus, slot, func, caps@ + cr, first_off, MAX_CAPS as nat) by {
            assert(cfg_after(head, cfg.events()) + rest =~= rest);
            assert(caps@ + cr =~= cr);
        }
    }
    while offset != 0 && offset != 0xFF && caps.len() < MAX_CAPS
        invariant
            caps_wf(caps@),
            offset % 4 == 0,
            offset < 256,
            cfg_extends(head, cfg.events()),
            cfg_extends(e0, head),
            e0 == old(cfg).events(),
            cfg_after(e0, head).len() == 2,
            forall|rest: Seq<CfgEvent>, cr: Seq<(u8, u16)>| #[trigger] caps_chain(rest, bus, slot, func, cr, offset, (MAX_CAPS - caps@.len()) as nat)
                ==> caps_chain(cfg_after(head, cfg.events()) + rest, bus, slot, func, caps@ + cr, first_off, MAX_CAPS as nat),
        decreases MAX_CAPS - caps@.len(),
    {
        let ghost t = cfg_after(head, cfg.events());
        let ghost c0 = caps@;
        let cap_id = pci_read_byte(cfg, bus, slot, func, offset);
        let ghost r0 = cfg.events().last();
        let next_raw = pci_read_byte(cfg, bus, slot, func, offset + 1);
        let ghost r1 = cfg.events().last();
        caps.push((cap_id, offset));
        let ghost cur = offset;
        offset = (next_raw / 4 * 4) as u16;
        proof {
            assert(cur & 0xFCu16 == cur) by (bit_vector)
                requires
                    cur % 4 == 0,
                    cur < 256,;
            assert(((cur + 1) as u16) & 0xFCu16 == cur) by (bit_vector)
                requires
                    cur % 4 == 0,
                    cur < 256,;
            assert(cfg.events().subrange(0, head.len() as int) =~= head);
            assert(cfg_after(head, cfg.events()) =~= t + seq![r0, r1]);
            assert forall|rest: Seq<CfgEvent>, cr: Seq<(u8, u16)>| #[trigger] caps_chain(rest, bus, slot, func, cr, offset, (MAX_CAPS - caps@.len()) as nat)
                implies caps_chain(cfg_after(head, cfg.events()) + rest, bus, slot, func, caps@ + cr, first_off, MAX_CAPS as nat) by {
                let step = seq![r0, r1] + rest;
                let cs = seq![(cap_id, cur)] + cr;
                assert(step.skip(2) =~= rest);
                assert(cs.drop_first() =~= cr);
                assert(caps_chain(step, bus, slot, func, cs, cur, (MAX_CAPS - c0.len()) as nat));
                assert(cfg_after(head, cfg.events()) + rest =~= t + step);
                assert(caps@ + cr =~= c0 + cs);
            }
        }
    }
    proof {
        let e = cfg.events();
        assert(caps_chain(Seq::<CfgEvent>::empty(), bus, slot, func, Seq::<(u8, u16)>::empty(), offset, (MAX_CAPS - caps@.len()) as nat));
        assert(cfg_after(head, e) + Seq::<CfgEvent>::empty() =~= cfg_after(head, e));
        assert(caps@ + Seq::<(u8, u16)>::empty() =~= caps@);
        assert(e.subrange(0, e0.len() as int) =~= e0);
        let s = cfg_after(e0, e);
        assert(s.skip(2) =~= cfg_after(head, e));
        assert(s[0] == cfg_after(e0, head)[0]);
        assert(s[1] == cfg_after(e0, head)[1]);
    }
    caps
}

/// Whether `caps` lists an MSI capability.
pub open spec fn has_cap(caps: Seq<(u8, u16)>, id: u8) -> bool {
    exists|k: int| 0 <= k < caps.len() && (#[trigger] caps[k]).0 == id
}

/// Index of the first entry of `caps` from `i` on with capability `id`, or
/// the length when there is none.
pub open spec fn first_cap_from(caps: Seq<(u8, u16)>, id: u8, i: int) -> int
    decreases caps.len() - i,
{
    if i >= caps.len() {
        caps.len() as int
    } else if caps[i].0 == id {
        i
    } else {
        first_cap_from(caps, id, i + 1)
    }
}

/// The accesses that program the MSI capability at `o` with message address
/// `addr` and data `data`: message control (the word at `o + 2`) read; the
/// address low dword written at `o + 4`; for a 64-bit capability (control
/// bit 7) the high dword at `o + 8` and the data word at `o + 0x0C`, else
/// the data word at `o + 8`; last, message control rewritten with bit 0
/// (enable) set.
pub open spec fn msi_trace(e: Seq<CfgEvent>, bus: u8, slot: u8, func: u8, o: u16, addr: u64, data: u16) -> bool {
    let ctrl = word_of(cfg_value(e[0]), (o + 2) as u16);
    let lo = (addr % 4294967296) as u32;
    let hi = (addr / 4294967296) as u32;
    &&& e.len() >= 2
    &&& cfg_read(e[0], bus, slot, func, ((o + 2) as u16) & 0xFCu16)
    &&& e[1] == CfgEvent::Write { bus, slot, func, offset: (o + 4) as u16, value: lo }
    &&& if (ctrl >> 7u16) & 1 != 0 {
        &&& e.len() == 7
        &&& e[2] == CfgEvent::Write { bus, slot, func, offset: (o + 8) as u16, value: hi }
        &&& word_written(e, 3, bus, slot, func, (o + 0x0C) as u16, data)
        &&& word_written(e, 5, bus, slot, func, (o + 2) as u16, ctrl | 1)
    } else {
        &&& e.len() == 6
        &&& word_written(e, 2, bus, slot, func, (o + 8) as u16, data)
        &&& word_written(e, 4, bus, slot, func, (o + 2) as u16, ctrl | 1)
    }
}

/// Programs the first MSI capability in `caps` with the message address and
/// data, and enables it; false (and nothing written) when there is none.
pub fn program_msi<C: PciConfig>(cfg: &mut C, bus: u8, slot: u8, func: u8, caps: &[(u8, u16)], msi_address: u64, msi_data: u16) -> (ok: bool)
    requires
        forall|k: int| 0 <= k < caps@.len() ==> (#[trigger] caps@[k]).1 <= 0xFF00,
    ensures
        ok == has_cap(caps@, CAP_MSI),
        !ok ==> final(cfg).events() == old(cfg).events(),
        ok ==> cfg_extends(old(cfg).events(), final(cfg).events()) && msi_trace(
            cfg_after(old(cfg).events(), final(cfg).events()),
            bus,
            slot,
            func,
            caps@[first_cap_from(caps@, CAP_MSI, 0)].1,
            msi_address,
            msi_data,
        ),
{
    let mut i: usize = 0;
    while i < caps.len()
        invariant
            i <= caps@.len(),
            forall|k: int| 0 <= k < caps@.len() ==> (#[trigger] caps@[k]).1 <= 0xFF00,
            forall|k: int| 0 <= k < i ==> (#[trigger] caps@[k]).0 != CAP_MSI,
            first_cap_from(caps@, CAP_MSI, 0) == first_cap_from(caps@, CAP_MSI, i as int),
            cfg.events() == old(cfg).events(),
        decreases caps@.len() - i,
    {
        let (id, offset) = caps[i];
        if id == CAP_MSI {
            let ghost e0 = cfg.events();
            let ghost n = e0.len() as int;
            let mut msg_ctrl = pci_read_word(cfg, bus, slot, func, offset + 2);
            let ghost ctrl0 = msg_ctrl;
            let is_64bit = (msg_ctrl >> 7u16) & 1 != 0;
            msg_ctrl = msg_ctrl | 1;
            let lo: u32 = (msi_address % 4294967296) as u32;
            let hi: u32 = (msi_address / 4294967296) as u32;
            let ghost e1 = cfg.events();
            if is_64bit {
                cfg.write_config(bus, slot, func, offset + 4, lo);
                cfg.write_config(bus, slot, func, offset + 8, hi);
                let ghost e3 = cfg.events();
                pci_write_word(cfg, bus, slot, func, offset + 0x0C, msi_data);
                let ghost e5 = cfg.events();
                pci_write_word(cfg, bus, slot, func, offset + 2, msg_ctrl);
                proof {
                    let e = cfg.events();
                    let t = cfg_after(e0, e);
                    assert(e5.subrange(0, e3.len() as int) == e3);
                    assert(e.subrange(0, e5.len() as int) == e5);
                    assert(e5.subrange(0, e3.len() as int)[n] == e5[n]);
                    assert(e.subrange(0, e5.len() as int)[n] == e[n]);
                    assert(e5.subrange(0, e3.len() as int)[n + 1] == e5[n + 1]);
                    assert(e.subrange(0, e5.len() as int)[n + 1] == e[n + 1]);
                    assert(e5.subrange(0, e3.len() as int)[n + 2] == e5[n + 2]);
                    assert(e.subrange(0, e5.len() as int)[n + 2] == e[n + 2]);
                    assert(e.subrange(0, e5.len() as int)[n + 3] == e[n + 3]);
                    assert(e.subrange(0, e5.len() as int)[n + 4] == e[n + 4]);
                    assert(e[n] == e1[n]);
                    assert(e[n + 1] == e3[n + 1]);
                    assert(e[n + 2] == e3[n + 2]);
                    assert(e[n + 3] == e5[n + 3]);
                    assert(e[n + 4] == e5[n + 4]);
                    assert(t[0] == e[n]);
                    assert(t[1] == e[n + 1]);
                    assert(t[2] == e[n + 2]);
                    assert(t[3] == e[n + 3]);
                    assert(t[4] == e[n + 4]);
                    assert(t[5] == e[n + 5]);
                    assert(t[6] == e[n + 6]);
                    assert(ctrl0 == word_of(cfg_value(t[0]), (offset + 2) as u16));
                    assert forall|k: int| 0 <= k < e0.len() implies #[trigger] e[k] == e0[k] by {
                        assert(e5.subrange(0, e3.len() as int)[k] == e5[k]);
                        assert(e.subrange(0, e5.len() as int)[k] == e[k]);
                        assert(e1[k] == e0[k]);
                    }
                }
            } else {
                cfg.write_config(bus, slot, func, offset + 4, lo);
                let ghost e2 = cfg.events();
                pci_write_word(cfg, bus, slot, func, offset + 0x08, msi_data);
                let ghost e4 = cfg.events();
                pci_write_word(cfg, bus, slot, func, offset + 2, msg_ctrl);
                proof {
                    let e = cfg.events();
                    let t = cfg_after(e0, e);
                    assert(e4.subrange(0, e2.len() as int) == e2);
                    assert(e.subrange(0, e4.len() as int) == e4);
                    assert(e4.subrange(0, e2.len() as int)[n] == e4[n]);
                    assert(e.subrange(0, e4.len() as int)[n] == e[n]);
                    assert(e4.subrange(0, e2.len() as int)[n + 1] == e4[n + 1]);
                    assert(e.subrange(0, e4.len() as int)[n + 1] == e[n + 1]);
                    assert(e.subrange(0, e4.len() as int)[n + 2] == e[n + 2]);
                    assert(e.subrange(0, e4.len() as int)[n + 3] == e[n + 3]);
                    assert(e[n] == e1[n]);
                    assert(e[n + 1] == e2[n + 1]);
                    assert(e[n + 2] == e4[n + 2]);
                    assert(e[n + 3] == e4[n + 3]);
                    assert(t[0] == e[n]);
                    assert(t[1] == e[n + 1]);
                    assert(t[2] == e[n + 2]);
                    assert(t[3] == e[n + 3]);
                    assert(t[4] == e[n + 4]);
                    assert(t[5] == e[n + 5]);
                    assert(ctrl0 == word_of(cfg_value(t[0]), (offset + 2) as u16));
                    assert forall|k: int| 0 <= k < e0.len() implies #[trigger] e[k] == e0[k] by {
                        assert(e4.subrange(0, e2.len() as int)[k] == e4[k]);
                        assert(e.subrange(0, e4.len() as int)[k] == e[k]);
                        assert(e1[k] == e0[k]);
                    }
                }
            }
            proof {
                assert(caps@[i as int].0 == CAP_MSI);
            }
            return true;
        }
        i = i + 1;
    }
    false
}

/// An I/O BAR: base with the flag bits cleared, 256 ports.
pub open spec fn io_bar(raw: u32) -> MmioRegion {
    MmioRegion { base: (raw & 0xFFFFFFFCu32) as u64, len: 256, prefetchable: false, is_mmio: false }
}

/// A 32-bit memory BAR; its size is the two's complement of the size
/// probe with the flag bits cleared.
pub open spec fn mmio32_bar(raw: u32, size_raw: u32) -> MmioRegion {
    MmioRegion {
        base: (raw & 0xFFFFFFF0u32) as u64,
        len: vstd::wrapping::u32_specs::wrapping_add(!(size_raw & 0xFFFFFFF0u32), 1u32) as usize,
        prefetchable: (raw >> 3u32) & 1u32 != 0,
        is_mmio: true,
    }
}

/// A 64-bit memory BAR over two slots.
pub open spec fn mmio64_bar(raw: u32, high: u32, size_lo: u32, size_hi: u32) -> MmioRegion {
    let size_raw = (size_lo as u64 | ((size_hi as u64) << 32u64)) as u64;
    MmioRegion {
        base: ((raw & 0xFFFFFFF0u32) as u64 | ((high as u64) << 32u64)) as u64,
        len: vstd::wrapping::u64_specs::wrapping_add(!(size_raw & 0xFFFFFFF0_FFFFFFF0u64), 1u64) as usize,
        prefetchable: (raw >> 3u32) & 1u32 != 0,
        is_mmio: true,
    }
}

/// Decodes an I/O BAR.
pub fn decode_io_bar(raw: u32) -> (r: MmioRegion)
    ensures
        r == io_bar(raw),
{
    MmioRegion { base: (raw & 0xFFFFFFFC) as u64, len: 256, prefetchable: false, is_mmio: false }
}

/// Decodes a 32-bit memory BAR from its value and its size probe.
pub fn decode_mmio32_bar(raw: u32, size_raw: u32) -> (r: MmioRegion)
    ensures
        r == mmio32_bar(raw, size_raw),
{
    MmioRegion {
        base: (raw & 0xFFFFFFF0) as u64,
        len: (!(size_raw & 0xFFFFFFF0)).wrapping_add(1) as usize,
        prefetchable: (raw >> 3u32) & 1 != 0,
        is_mmio: true,
    }
}

/// Decodes a 64-bit memory BAR from its two halves and their size probes.
pub fn decode_mmio64_bar(raw: u32, high: u32, size_lo: u32, size_hi: u32) -> (r: MmioRegion)
    ensures
        r == mmio64_bar(raw, high, size_lo, size_hi),
{
    let size_raw: u64 = size_lo as u64 | ((size_hi as u64) << 32u64);
    MmioRegion {
        base: (raw & 0xFFFFFFF0) as u64 | ((high as u64) << 32u64),
        len: (!(size_raw & 0xFFFFFFF0_FFFFFFF0u64)).wrapping_add(1) as usize,
        prefetchable: (raw >> 3u32) & 1 != 0,
        is_mmio: true,
    }
}

/// The base of a 64-bit memory BAR: the low dword with its flag bits
/// cleared, plus the high dword times 2^32.
pub proof fn lemma_mmio64_base(raw: u32, high: u32, size_lo: u32, size_hi: u32)
    ensures
        mmio64_bar(raw, high, size_lo, size_hi).base == (raw & 0xFFFFFFF0u32) as int + high * 0x1_0000_0000,
        mmio64_bar(raw, high, size_lo, size_hi).is_mmio,
{
    assert(((raw & 0xFFFFFFF0u32) as u64 | ((high as u64) << 32u64)) as u64 == (raw & 0xFFFFFFF0u32) as int + high * 0x1_0000_0000)
        by (bit_vector);
}

/// How a BAR dword decodes, by the PCI layout: an I/O BAR's base is the
/// dword without its two low bits, 256 ports long; a memory BAR's base is
/// the dword without its four flag bits, prefetchable when bit 3 is set,
/// and a 32-bit one is as long as the two's complement of its size probe
/// without the flag bits.
pub proof fn lemma_bar_decoding(raw: u32, size_raw: u32)
    ensures
        io_bar(raw).base == raw - raw % 4,
        io_bar(raw).len == 256 && !io_bar(raw).is_mmio && !io_bar(raw).prefetchable,
        mmio32_bar(raw, size_raw).base == raw - raw % 16,
        mmio32_bar(raw, size_raw).prefetchable == (raw / 8 % 2 == 1),
        mmio32_bar(raw, size_raw).is_mmio,
        mmio32_bar(raw, size_raw).len == (0x1_0000_0000 - (size_raw - size_raw % 16)) % 0x1_0000_0000,
{
    assert(raw & 0xFFFFFFFCu32 == raw - raw % 4) by (bit_vector);
    assert(raw & 0xFFFFFFF0u32 == raw - raw % 16) by (bit_vector);
    assert(((raw >> 3u32) & 1u32 != 0) == (raw / 8 % 2 == 1)) by (bit_vector);
    assert(size_raw & 0xFFFFFFF0u32 == size_raw - size_raw % 16) by (bit_vector);
    assert(!(size_raw & 0xFFFFFFF0u32) == 0xFFFF_FFFFu32 - (size_raw & 0xFFFFFFF0u32)) by (bit_vector);
}

/// A 64-bit memory BAR is prefetchable when bit 3 of its low dword is set.
pub proof fn lemma_mmio64_flags(raw: u32, high: u32, size_lo: u32, size_hi: u32)
    ensures
        mmio64_bar(raw, high, size_lo, size_hi).prefetchable == (raw / 8 % 2 == 1),
{
    assert(((raw >> 3u32) & 1u32 != 0) == (raw / 8 % 2 == 1)) by (bit_vector);
}

/// The accesses joined in order.
pub open spec fn joined(segs: Seq<Seq<CfgEvent>>) -> Seq<CfgEvent>
    decreases segs.len(),
{
    if segs.len() == 0 {
        Seq::empty()
    } else {
        joined(segs.drop_last()) + segs.last()
    }
}

/// `seg` are the accesses that read BAR slot `k` of (bus, slot, func), and
/// `r` the region they give. The slot's dword (at 0x10 + 4k) is read first.
/// Zero is an empty slot, bit 0 an I/O BAR; a 32-bit memory BAR is sized by
/// writing all ones, reading back and restoring; a 64-bit one (type 2) also
/// reads its high dword (at 0x14 + 4k) before sizing both halves, and its
/// base is the low dword's address bits with the high dword above them. A
/// slot holding the high half of the slot before is not read at all.
pub open spec fn bar_slot_trace(seg: Seq<CfgEvent>, bus: u8, slot: u8, func: u8, k: int, high_half: bool, r: MmioRegion) -> bool {
    let o = (0x10 + 4 * k) as u16;
    let o4 = (0x14 + 4 * k) as u16;
    let raw = cfg_value(seg[0]);
    let empty = MmioRegion { base: 0, len: 0, prefetchable: false, is_mmio: true };
    if high_half {
        seg.len() == 0 && r == empty
    } else {
        &&& seg.len() >= 1
        &&& cfg_read(seg[0], bus, slot, func, o)
        &&& if raw == 0 {
            seg.len() == 1 && r == empty
        } else if raw % 2 == 1 {
            seg.len() == 1 && r == io_bar(raw)
        } else if (raw / 2) % 4 == 0 {
            &&& seg.len() == 4
            &&& seg[1] == CfgEvent::Write { bus, slot, func, offset: o, value: 0xFFFF_FFFF }
            &&& cfg_read(seg[2], bus, slot, func, o)
            &&& seg[3] == CfgEvent::Write { bus, slot, func, offset: o, value: raw }
            &&& r == mmio32_bar(raw, cfg_value(seg[2]))
        } else if (raw / 2) % 4 == 2 {
            &&& seg.len() == 8
            &&& cfg_read(seg[1], bus, slot, func, o4)
            &&& seg[2] == CfgEvent::Write { bus, slot, func, offset: o, value: 0xFFFF_FFFF }
            &&& seg[3] == CfgEvent::Write { bus, slot, func, offset: o4, value: 0xFFFF_FFFF }
            &&& cfg_read(seg[4], bus, slot, func, o)
            &&& cfg_read(seg[5], bus, slot, func, o4)
            &&& seg[6] == CfgEvent::Write { bus, slot, func, offset: o, value: raw }
            &&& seg[7] == CfgEvent::Write { bus, slot, func, offset: o4, value: cfg_value(seg[1]) }
            &&& r == mmio64_bar(raw, cfg_value(seg[1]), cfg_value(seg[4]), cfg_value(seg[5]))
        } else {
            seg.len() == 1 && r == empty
        }
    }
}

/// `t` reads the six BARs of (bus, slot, func) in order, slot by slot, and
/// `bars` are the regions the slots give.
pub open spec fn bars_trace(t: Seq<CfgEvent>, bus: u8, slot: u8, func: u8, bars: Seq<MmioRegion>) -> bool {
    exists|segs: Seq<Seq<CfgEvent>>| {
        &&& segs.len() == 6
        &&& #[trigger] joined(segs) == t
        &&& forall|k: int| 0 <= k < 6 ==> bar_slot_trace(#[trigger] segs[k], bus, slot, func, k, k > 0 && segs[k - 1].len() == 8, bars[k])
    }
}

/// Reads and decodes the six BARs of a function. A zero BAR stays empty;
/// bit 0 set is an I/O BAR; otherwise type 0 is a 32-bit and type 2 a
/// 64-bit memory BAR (sized by writing all ones and restoring), the
/// latter taking the next slot too, which stays empty.
pub fn read_bars<C: PciConfig>(cfg: &mut C, bus: u8, slot: u8, func: u8) -> (bars: [MmioRegion; 6])
    ensures
        forall|k: int| 0 <= k < 6 ==> (!(#[trigger] bars@[k]).is_mmio ==> bars@[k].len == 256),
        cfg_extends(old(cfg).events(), final(cfg).events()),
        bars_trace(cfg_after(old(cfg).events(), final(cfg).events()), bus, slot, func, bars@),
{
    let ghost e0 = cfg.events();
    assert(cfg.events().subrange(0, e0.len() as int) =~= e0);
    let mut bars: [MmioRegion; 6] = [MmioRegion::empty(), MmioRegion::empty(), MmioRegion::empty(),
        MmioRegion::empty(), MmioRegion::empty(), MmioRegion::empty()];
    let ghost empty = MmioRegion { base: 0, len: 0, prefetchable: false, is_mmio: true };
    let ghost mut segs: Seq<Seq<CfgEvent>> = Seq::empty();
    let mut bar64_high = false;
    let mut i: usize = 0;
    proof {
        assert(cfg_after(e0, cfg.events()) =~= Seq::<CfgEvent>::empty());
    }
    while i < 6
        invariant
            i <= 6,
            forall|k: int| 0 <= k < 6 ==> (!(#[trigger] bars@[k]).is_mmio ==> bars@[k].len == 256),
            e0 == old(cfg).events(),
            cfg_extends(e0, cfg.events()),
            segs.len() == i,
            joined(segs) == cfg_after(e0, cfg.events()),
            forall|k: int| 0 <= k < i ==> bar_slot_trace(#[trigger] segs[k], bus, slot, func, k, k > 0 && segs[k - 1].len() == 8, bars@[k]),
            bar64_high == (i > 0 && segs[i - 1].len() == 8),
            forall|k: int| i <= k < 6 ==> #[trigger] bars@[k] == empty,
            empty == (MmioRegion { base: 0, len: 0, prefetchable: false, is_mmio: true }),
        decreases 6 - i,
    {
        let ghost before = cfg.events();
        let ghost bars_before = bars@;
        let ghost high_half = bar64_high;
        if bar64_high {
            bar64_high = false;
        } else {
            let offset: u16 = 0x10 + (i as u16) * 4;
            let bar_raw = cfg.read_config(bus, slot, func, offset);
            if bar_raw != 0 {
                if bar_raw % 2 == 1 {
                    bars[i] = decode_io_bar(bar_raw);
                } else {
                    let mmio_type = (bar_raw / 2) % 4;
                    if mmio_type == 0 {
                        cfg.write_config(bus, slot, func, offset, 0xFFFFFFFF);
                        let size_raw = cfg.read_config(bus, slot, func, offset);
                        cfg.write_config(bus, slot, func, offset, bar_raw);
                        bars[i] = decode_mmio32_bar(bar_raw, size_raw);
                    } else if mmio_type == 2 {
                        let base_high = cfg.read_config(bus, slot, func, offset + 4);
                        cfg.write_config(bus, slot, func, offset, 0xFFFFFFFF);
                        cfg.write_config(bus, slot, func, offset + 4, 0xFFFFFFFF);
                        let size_lo = cfg.read_config(bus, slot, func, offset);
                        let size_hi = cfg.read_config(bus, slot, func, offset + 4);
                        cfg.write_config(bus, slot, func, offset, bar_raw);
                        cfg.write_config(bus, slot, func, offset + 4, base_high);
                        bars[i] = decode_mmio64_bar(bar_raw, base_high, size_lo, size_hi);
                        bar64_high = true;
                    }
                }
            }
        }
        proof {
            let now = cfg.events();
            let seg = cfg_after(before, now);
            assert(now.subrange(0, before.len() as int) =~= before);
            assert(cfg_after(e0, now) =~= cfg_after(e0, before) + seg);
            assert(segs.push(seg).drop_last() =~= segs);
            assert forall|k: int| 0 <= k < e0.len() implies #[trigger] now[k] == e0[k] by {
                assert(now.subrange(0, before.len() as int)[k] == now[k]);
            }
            assert(bar_slot_trace(seg, bus, slot, func, i as int, high_half, bars@[i as int]));
            segs = segs.push(seg);
        }
        i = i + 1;
    }
    proof {
        assert(joined(segs) == cfg_after(e0, cfg.events()));
    }
    bars
}

/// A function found on the bus.
#[derive(Debug, Clone)]
pub struct PciFunctionInfo {
    pub bus: u8,
    pub slot: u8,
    pub func: u8,
    pub vendor_id: u16,
    pub device_id: u16,
    pub revision: u8,
    pub class: u8,
    pub subclass: u8,
    pub prog_if: u8,
    pub subsystem_vendor: u16,
    pub subsystem_device: u16,
    pub bars: [MmioRegion; 6],
    pub irq_pin: u8,
    pub irq_line: u8,
    pub is_pci_pci_bridge: bool,
    pub secondary_bus: u8,
    pub capabilities: Vec<(u8, u16)>,
}

impl PciFunctionInfo {
    /// The device class of the class and subclass codes.
    pub fn device_class(&self) -> (c: DeviceClass)
        ensures
            c == class_of_pci(self.class, self.subclass),
    {
        DeviceClass::from_pci(self.class, self.subclass)
    }
}

/// A vendor ID that names a device (not all ones, not zero).
pub open spec fn valid_vendor(vendor: u16) -> bool {
    vendor != 0xFFFF && vendor != 0x0000
}

fn is_valid_device(vendor: u16, device: u16) -> (b: bool)
    ensures
        b == valid_vendor(vendor),
{
    vendor != 0xFFFF && vendor != 0x0000
}

/// The (revision, prog-if, subclass, class) bytes of the dword at 0x08.
pub open spec fn class_rev_bytes(dw: u32) -> (u8, u8, u8, u8) {
    ((dw % 256) as u8, (dw / 256 % 256) as u8, (dw / 65536 % 256) as u8, (dw / 16777216) as u8)
}

/// Splits the class/revision dword.
pub fn decode_class_rev(dw: u32) -> (r: (u8, u8, u8, u8))
    ensures
        r == class_rev_bytes(dw),
{
    ((dw % 256) as u8, (dw / 256 % 256) as u8, (dw / 65536 % 256) as u8, (dw / 16777216) as u8)
}

/// Position of a function within its bus: slot * 8 + function.
pub open spec fn fpos(f: PciFunctionInfo) -> int {
    f.slot * 8 + f.func
}

/// What `scan_function` promises of a record for (bus, slot, func).
pub open spec fn function_ok(f: PciFunctionInfo, bus: u8, slot: u8, func: u8) -> bool {
    &&& f.bus == bus && f.slot == slot && f.func == func
    &&& valid_vendor(f.vendor_id)
    &&& f.is_pci_pci_bridge == (f.class == 0x06 && f.subclass == 0x04)
    &&& !f.is_pci_pci_bridge ==> f.secondary_bus == 0
    &&& caps_wf(f.capabilities@)
}

/// Reads one function: None when no device answers (vendor all ones or
/// zero); else its IDs, class codes, subsystem, interrupt pin and line,
/// BARs, capabilities, and for a PCI-PCI bridge its secondary bus.
pub fn scan_function<C: PciConfig>(cfg: &mut C, bus: u8, slot: u8, func: u8) -> (r: Option<PciFunctionInfo>)
    ensures
        r matches Some(f) ==> function_ok(f, bus, slot, func),
        cfg_extends(old(cfg).events(), final(cfg).events()),
        old(cfg).events().len() < final(cfg).events().len(),
        function_trace(cfg_after(old(cfg).events(), final(cfg).events()), bus, slot, func, r),
{
    let ghost e0 = cfg.events();
    proof {
        assert(0u16 & 0xFCu16 == 0u16) by (bit_vector);
        assert(2u16 & 0xFCu16 == 0u16) by (bit_vector);
        assert(0x19u16 & 0xFCu16 == 0x18u16) by (bit_vector);
    }
    let vendor = pci_read_word(cfg, bus, slot, func, 0);
    if vendor == 0xFFFF {
        proof {
            assert(cfg_after(e0, cfg.events())[0] == cfg.events()[e0.len() as int]);
        }
        return None;
    }
    let device = pci_read_word(cfg, bus, slot, func, 2);
    if !is_valid_device(vendor, device) {
        proof {
            assert(cfg_after(e0, cfg.events())[0] == cfg.events()[e0.len() as int]);
            assert(cfg_after(e0, cfg.events())[1] == cfg.events()[e0.len() as int + 1]);
        }
        return None;
    }
    let class_rev = cfg.read_config(bus, slot, func, 0x08);
    let (revision, prog_if, subclass, class) = decode_class_rev(class_rev);
    let subsys = cfg.read_config(bus, slot, func, 0x2C);
    let subsystem_vendor = (subsys % 65536) as u16;
    let subsystem_device = (subsys / 65536) as u16;
    let irq_info = cfg.read_config(bus, slot, func, 0x3C);
    let irq_line = (irq_info % 256) as u8;
    let irq_pin = (irq_info / 256 % 256) as u8;
    let ghost head = cfg.events();
    let bars = read_bars(cfg, bus, slot, func);
    let caps = read_capabilities(cfg, bus, slot, func);
    let is_pci_pci_bridge = class == 0x06 && subclass == 0x04;
    let secondary_bus = if is_pci_pci_bridge {
        pci_read_byte(cfg, bus, slot, func, 0x19)
    } else {
        0
    };
    proof {
        let e = cfg.events();
        let n = e0.len() as int;
        let s = cfg_after(e0, e);
        assert forall|k: int| 0 <= k < 5 implies s[k] == #[trigger] head[n + k] by {
            assert(s[k] == e[n + k]);
        }
        assert(s.last() == e.last());
    }
    Some(PciFunctionInfo {
        bus,
        slot,
        func,
        vendor_id: vendor,
        device_id: device,
        revision,
        class,
        subclass,
        prog_if,
        subsystem_vendor,
        subsystem_device,
        bars,
        irq_pin,
        irq_line,
        is_pci_pci_bridge,
        secondary_bus,
        capabilities: caps,
    })
}

/// The reads of `scan_function` and the record it gives: the vendor word
/// (all ones: no device), the device word (an invalid vendor: no device),
/// then the class/revision, subsystem and interrupt dwords, whose fields the
/// record carries, and for a bridge the secondary bus byte last.
pub open spec fn function_trace(s: Seq<CfgEvent>, bus: u8, slot: u8, func: u8, r: Option<PciFunctionInfo>) -> bool {
    let vendor = word_of(cfg_value(s[0]), 0);
    &&& s.len() >= 1
    &&& cfg_read(s[0], bus, slot, func, 0)
    &&& vendor == 0xFFFF ==> r is None && s.len() == 1
    &&& vendor != 0xFFFF ==> {
        &&& s.len() >= 2
        &&& cfg_read(s[1], bus, slot, func, 0)
        &&& !valid_vendor(vendor) ==> r is None && s.len() == 2
        &&& valid_vendor(vendor) ==> {
            &&& s.len() >= 5
            &&& cfg_read(s[2], bus, slot, func, 0x08)
            &&& cfg_read(s[3], bus, slot, func, 0x2C)
            &&& cfg_read(s[4], bus, slot, func, 0x3C)
            &&& r matches Some(f)
            &&& f.vendor_id == vendor
            &&& f.device_id == word_of(cfg_value(s[1]), 2)
            &&& (f.revision, f.prog_if, f.subclass, f.class) == class_rev_bytes(cfg_value(s[2]))
            &&& f.subsystem_vendor == (cfg_value(s[3]) % 65536) as u16
            &&& f.subsystem_device == (cfg_value(s[3]) / 65536) as u16
            &&& f.irq_line == (cfg_value(s[4]) % 256) as u8
            &&& f.irq_pin == (cfg_value(s[4]) / 256 % 256) as u8
            &&& f.is_pci_pci_bridge ==> cfg_read(s.last(), bus, slot, func, 0x18) && f.secondary_bus == cfg_byte(s.last(), 0x19)
        }
    }
}

/// Records found on one bus, in strictly increasing position, each well
/// formed for its place.
pub open spec fn bus_records(s: Seq<PciFunctionInfo>, bus: u8) -> bool {
    &&& forall|k: int| 0 <= k < s.len() ==> (#[trigger] s[k]).bus == bus
        && function_ok(s[k], bus, s[k].slot, s[k].func) && s[k].func <= 7
    &&& forall|j: int, k: int| 0 <= j < k < s.len() ==> fpos(#[trigger] s[j]) < fpos(#[trigger] s[k])
}

/// The reads of functions `func` to 7 of a multi-function slot, each as
/// `scan_function` makes them, and the records of those that answered.
pub open spec fn multi_trace(t: Seq<CfgEvent>, bus: u8, slot: u8, func: u8, app: Seq<PciFunctionInfo>) -> bool
    decreases 8 - func,
{
    if func >= 8 {
        t.len() == 0 && app.len() == 0
    } else {
        exists|k: int, r: Option<PciFunctionInfo>|
            {
                &&& 0 <= k <= t.len()
                &&& #[trigger] function_trace(t.take(k), bus, slot, func, r)
                &&& match r {
                    None => multi_trace(t.skip(k), bus, slot, (func + 1) as u8, app),
                    Some(f) => app.len() >= 1 && app[0] == f && multi_trace(t.skip(k), bus, slot, (func + 1) as u8, app.drop_first()),
                }
            }
    }
}

/// The reads of a slot scan and the records it appends: function 0 (no
/// answer: nothing more); then the header type byte, and when its bit 7 is
/// set functions 1 to 7.
pub open spec fn slot_trace(s: Seq<CfgEvent>, bus: u8, slot: u8, app: Seq<PciFunctionInfo>) -> bool {
    exists|k: int, r0: Option<PciFunctionInfo>|
        {
            &&& 0 <= k <= s.len()
            &&& #[trigger] function_trace(s.take(k), bus, slot, 0, r0)
            &&& match r0 {
                None => k == s.len() && app.len() == 0,
                Some(f0) => {
                    &&& app.len() >= 1 && app[0] == f0
                    &&& k < s.len()
                    &&& cfg_read(s[k], bus, slot, 0, 0x0C)
                    &&& cfg_byte(s[k], 0x0E) < 0x80 ==> app.len() == 1 && s.len() == k + 1
                    &&& cfg_byte(s[k], 0x0E) >= 0x80 ==> multi_trace(s.skip(k + 1), bus, slot, 1, app.drop_first())
                },
            }
        }
}

/// Scans function 0 of a slot and, for a multi-function device (header type
/// bit 7), functions 1 to 7; appends what answers.
pub fn scan_slot<C: PciConfig>(cfg: &mut C, bus: u8, slot: u8, functions: &mut Vec<PciFunctionInfo>)
    requires
        slot <= 31,
        bus_records(old(functions)@, bus),
        forall|k: int| 0 <= k < old(functions)@.len() ==> fpos(#[trigger] old(functions)@[k]) < slot * 8,
    ensures
        final(functions)@.len() >= old(functions)@.len(),
        final(functions)@.subrange(0, old(functions)@.len() as int) == old(functions)@,
        bus_records(final(functions)@, bus),
        forall|k: int| 0 <= k < final(functions)@.len() ==> fpos(#[trigger] final(functions)@[k]) < slot * 8 + 8,
        cfg_extends(old(cfg).events(), final(cfg).events()),
        old(cfg).events().len() < final(cfg).events().len(),
        slot_trace(
            cfg_after(old(cfg).events(), final(cfg).events()),
            bus,
            slot,
            final(functions)@.skip(old(functions)@.len() as int),
        ),
{
    let ghost start = functions@;
    let ghost e0 = cfg.events();
    let r0 = scan_function(cfg, bus, slot, 0);
    let ghost e1 = cfg.events();
    proof {
        assert(cfg_after(e0, e1) =~= cfg_after(e0, e1).take(cfg_after(e0, e1).len() as int));
    }
    match r0 {
        Some(info) => {
            functions.push(info);
            assert(functions@.subrange(0, start.len() as int) =~= start);
            let header_type = pci_read_byte(cfg, bus, slot, 0, 0x0E);
            let ghost e2 = cfg.events();
            let ghost k = cfg_after(e0, e1).len() as int;
            proof {
                assert(0x0Eu16 & 0xFCu16 == 0x0Cu16) by (bit_vector);
                assert(cfg_after(e0, e2).take(k) =~= cfg_after(e0, e1));
                assert(cfg_after(e0, e2)[k] == e2.last());
            }
            if header_type >= 0x80 {
                let mut func: u8 = 1;
                proof {
                    assert forall|rest: Seq<CfgEvent>, ar: Seq<PciFunctionInfo>| #[trigger] multi_trace(rest, bus, slot, func, ar)
                        implies multi_trace(cfg_after(e2, cfg.events()) + rest, bus, slot, 1, functions@.skip(start.len() as int + 1) + ar) by {
                        assert(cfg_after(e2, cfg.events()) + rest =~= rest);
                        assert(functions@.skip(start.len() as int + 1) + ar =~= ar);
                    }
                }
                while func <= 7
                    invariant
                        1 <= func <= 8,
                        slot <= 31,
                        start.len() < functions@.len(),
                        functions@.subrange(0, start.len() as int) == start,
                        functions@[start.len() as int] == info,
                        bus_records(functions@, bus),
                        forall|k: int| 0 <= k < functions@.len() ==> fpos(#[trigger] functions@[k]) < slot * 8 + func,
                        cfg_extends(e2, cfg.events()),
                        forall|rest: Seq<CfgEvent>, ar: Seq<PciFunctionInfo>| #[trigger] multi_trace(rest, bus, slot, func, ar)
                            ==> multi_trace(cfg_after(e2, cfg.events()) + rest, bus, slot, 1, functions@.skip(start.len() as int + 1) + ar),
                    decreases 8 - func,
                {
                    let ghost before = cfg.events();
                    let ghost fbefore = functions@;
                    let r = scan_function(cfg, bus, slot, func);
                    let ghost step = cfg_after(before, cfg.events());
                    match r {
                        Some(info2) => {
                            functions.push(info2);
                            assert(functions@.subrange(0, start.len() as int) =~= fbefore.subrange(0, start.len() as int));
                        },
                        None => {},
                    }
                    proof {
                        assert(cfg_after(e2, cfg.events()) =~= cfg_after(e2, before) + step);
                        assert forall|rest: Seq<CfgEvent>, ar: Seq<PciFunctionInfo>| #[trigger] multi_trace(rest, bus, slot, (func + 1) as u8, ar)
                            implies multi_trace(cfg_after(e2, cfg.events()) + rest, bus, slot, 1, functions@.skip(start.len() as int + 1) + ar) by {
                            let t = step + rest;
                            assert(t.take(step.len() as int) =~= step);
                            assert(t.skip(step.len() as int) =~= rest);
                            let mine = match r {
                                Some(f) => seq![f],
                                None => Seq::<PciFunctionInfo>::empty(),
                            };
                            let ar2 = mine + ar;
                            assert(function_trace(t.take(step.len() as int), bus, slot, func, r));
                            match r {
                                Some(f) => {
                                    assert(ar2.drop_first() =~= ar);
                                },
                                None => {
                                    assert(ar2 =~= ar);
                                },
                            }
                            assert(multi_trace(t, bus, slot, func, ar2));
                            assert(cfg_after(e2, cfg.events()) + rest =~= cfg_after(e2, before) + t);
                            assert(functions@.skip(start.len() as int + 1) + ar =~= fbefore.skip(start.len() as int + 1) + ar2);
                        }
                    }
                    func = func + 1;
                }
                proof {
                    let e = cfg.events();
                    assert(multi_trace(Seq::<CfgEvent>::empty(), bus, slot, 8, Seq::<PciFunctionInfo>::empty()));
                    assert(cfg_after(e2, e) + Seq::<CfgEvent>::empty() =~= cfg_after(e2, e));
                    assert(functions@.skip(start.len() as int + 1) + Seq::<PciFunctionInfo>::empty() =~= functions@.skip(start.len() as int + 1));
                    let s = cfg_after(e0, e);
                    assert(s.take(k) =~= cfg_after(e0, e1));
                    assert(s[k] == e2.last());
                    assert(s.skip(k + 1) =~= cfg_after(e2, e));
                    assert(functions@.skip(start.len() as int).drop_first() =~= functions@.skip(start.len() as int + 1));
                    assert(function_trace(s.take(k), bus, slot, 0, r0));
                }
            } else {
                proof {
                    let s = cfg_after(e0, e2);
                    assert(function_trace(s.take(k), bus, slot, 0, r0));
                }
            }
        },
        None => {
            assert(functions@.subrange(0, start.len() as int) =~= start);
            proof {
                let s = cfg_after(e0, e1);
                assert(functions@.skip(start.len() as int) =~= Seq::<PciFunctionInfo>::empty());
                assert(function_trace(s.take(s.len() as int), bus, slot, 0, r0));
            }
        },
    }
}

/// The reads of slots `slot` to 31 of a bus, each as `scan_slot` makes
/// them, and the records they append, in order.
#[verifier::opaque]
pub open spec fn slots_trace(t: Seq<CfgEvent>, bus: u8, slot: u8, app: Seq<PciFunctionInfo>) -> bool
    decreases 32 - slot,
{
    if slot >= 32 {
        t.len() == 0 && app.len() == 0
    } else {
        exists|k: int, n: int|
            {
                &&& 0 <= k <= t.len()
                &&& 0 <= n <= app.len()
                &&& #[trigger] slot_trace(t.take(k), bus, slot, app.take(n))
                &&& slots_trace(t.skip(k), bus, (slot + 1) as u8, app.skip(n))
            }
    }
}

proof fn lemma_slots_step(step: Seq<CfgEvent>, rest: Seq<CfgEvent>, mine: Seq<PciFunctionInfo>, ar: Seq<PciFunctionInfo>, bus: u8, slot: u8)
    requires
        slot < 32,
        slot_trace(step, bus, slot, mine),
        slots_trace(rest, bus, (slot + 1) as u8, ar),
    ensures
        slots_trace(step + rest, bus, slot, mine + ar),
{
    reveal(slots_trace);
    let t = step + rest;
    let a2 = mine + ar;
    assert(t.take(step.len() as int) =~= step);
    assert(t.skip(step.len() as int) =~= rest);
    assert(a2.take(mine.len() as int) =~= mine);
    assert(a2.skip(mine.len() as int) =~= ar);
    assert(slot_trace(t.take(step.len() as int), bus, slot, a2.take(mine.len() as int)));
}

proof fn lemma_bus_loop_step(
    e0: Seq<CfgEvent>,
    before: Seq<CfgEvent>,
    cur: Seq<CfgEvent>,
    fbefore: Seq<PciFunctionInfo>,
    found: Seq<PciFunctionInfo>,
    bus: u8,
    slot: u8,
)
    requires
        slot < 32,
        cfg_extends(e0, before),
        cfg_extends(before, cur),
        found.len() >= fbefore.len(),
        found.subrange(0, fbefore.len() as int) == fbefore,
        slot_trace(cfg_after(before, cur), bus, slot, found.skip(fbefore.len() as int)),
        forall|rest: Seq<CfgEvent>, ar: Seq<PciFunctionInfo>| #[trigger] slots_trace(rest, bus, slot, ar)
            ==> slots_trace(cfg_after(e0, before) + rest, bus, 0, fbefore + ar),
    ensures
        cfg_extends(e0, cur),
        forall|rest: Seq<CfgEvent>, ar: Seq<PciFunctionInfo>| #[trigger] slots_trace(rest, bus, (slot + 1) as u8, ar)
            ==> slots_trace(cfg_after(e0, cur) + rest, bus, 0, found + ar),
{
    let step = cfg_after(before, cur);
    let mine = found.skip(fbefore.len() as int);
    assert(found =~= fbefore + mine);
    assert(cfg_after(e0, cur) =~= cfg_after(e0, before) + step);
    assert forall|rest: Seq<CfgEvent>, ar: Seq<PciFunctionInfo>| #[trigger] slots_trace(rest, bus, (slot + 1) as u8, ar)
        implies slots_trace(cfg_after(e0, cur) + rest, bus, 0, found + ar) by {
        lemma_slots_step(step, rest, mine, ar, bus, slot);
        assert(cfg_after(e0, cur) + rest =~= cfg_after(e0, before) + (step + rest));
        assert(found + ar =~= fbefore + (mine + ar));
    }
}

/// Scans the 32 slots of a bus; appends what answers.
pub fn scan_bus<C: PciConfig>(cfg: &mut C, bus: u8, functions: &mut Vec<PciFunctionInfo>)
    ensures
        final(functions)@.subrange(0, old(functions)@.len() as int) == old(functions)@,
        bus_records(final(functions)@.subrange(old(functions)@.len() as int, final(functions)@.len() as int), bus),
        cfg_extends(old(cfg).events(), final(cfg).events()),
        old(cfg).events().len() < final(cfg).events().len(),
        slots_trace(
            cfg_after(old(cfg).events(), final(cfg).events()),
            bus,
            0,
            final(functions)@.subrange(old(functions)@.len() as int, final(functions)@.len() as int),
        ),
{
    let ghost start = functions@;
    let ghost e0 = cfg.events();
    let mut found: Vec<PciFunctionInfo> = Vec::new();
    let mut slot: u8 = 0;
    proof {
        assert forall|rest: Seq<CfgEvent>, ar: Seq<PciFunctionInfo>| #[trigger] slots_trace(rest, bus, slot, ar)
            implies slots_trace(cfg_after(e0, cfg.events()) + rest, bus, 0, found@ + ar) by {
            assert(cfg_after(e0, cfg.events()) + rest =~= rest);
            assert(found@ + ar =~= ar);
        }
    }
    while slot <= 31
        invariant
            slot <= 32,
            bus_records(found@, bus),
            forall|k: int| 0 <= k < found@.len() ==> fpos(#[trigger] found@[k]) < slot * 8,
            e0 == old(cfg).events(),
            cfg_extends(e0, cfg.events()),
            slot > 0 ==> e0.len() < cfg.events().len(),
            e0.len() <= cfg.events().len(),
            forall|rest: Seq<CfgEvent>, ar: Seq<PciFunctionInfo>| #[trigger] slots_trace(rest, bus, slot, ar)
                ==> slots_trace(cfg_after(e0, cfg.events()) + rest, bus, 0, found@ + ar),
        decreases 32 - slot,
    {
        let ghost before = cfg.events();
        let ghost fbefore = found@;
        scan_slot(cfg, bus, slot, &mut found);
        proof {
            lemma_bus_loop_step(e0, before, cfg.events(), fbefore, found@, bus, slot);
        }
        slot = slot + 1;
    }
    proof {
        reveal(slots_trace);
        assert(slots_trace(Seq::<CfgEvent>::empty(), bus, 32, Seq::<PciFunctionInfo>::empty()));
        assert(cfg_after(e0, cfg.events()) + Seq::<CfgEvent>::empty() =~= cfg_after(e0, cfg.events()));
        assert(found@ + Seq::<PciFunctionInfo>::empty() =~= found@);
    }
    let ghost found_v = found@;
    functions.append(&mut found);
    assert(functions@.subrange(0, start.len() as int) =~= start);
    assert(functions@.subrange(start.len() as int, functions@.len() as int) =~= found_v);
}

/// Accesses made of whole bus scans one after another, and the records
/// they found, in the same order.
#[verifier::opaque]
pub open spec fn bus_blocks(t: Seq<CfgEvent>, app: Seq<PciFunctionInfo>) -> bool
    decreases t.len(),
{
    if t.len() == 0 {
        app.len() == 0
    } else {
        exists|k: int, n: int, b: u8|
            {
                &&& 0 < k <= t.len()
                &&& 0 <= n <= app.len()
                &&& #[trigger] slots_trace(t.take(k), b, 0, app.take(n))
                &&& bus_blocks(t.skip(k), app.skip(n))
            }
    }
}

/// A marker naming a continuation of a scan: it holds of every pair and
/// only serves to choose which ones a quantifier is applied to.
pub open spec fn blocks_pick(rest: Seq<CfgEvent>, ar: Seq<PciFunctionInfo>) -> bool {
    true
}

proof fn lemma_blocks_step(step: Seq<CfgEvent>, rest: Seq<CfgEvent>, bf: Seq<PciFunctionInfo>, ar: Seq<PciFunctionInfo>, bus: u8)
    requires
        step.len() > 0,
        slots_trace(step, bus, 0, bf),
        bus_blocks(rest, ar),
    ensures
        bus_blocks(step + rest, bf + ar),
{
    reveal(bus_blocks);
    let t = step + rest;
    let a = bf + ar;
    assert(t.take(step.len() as int) =~= step);
    assert(t.skip(step.len() as int) =~= rest);
    assert(a.take(bf.len() as int) =~= bf);
    assert(a.skip(bf.len() as int) =~= ar);
    assert(slots_trace(t.take(step.len() as int), bus, 0, a.take(bf.len() as int)));
}

/// The scan-all invariant carried over one more bus scan.
proof fn lemma_all_step(
    e0: Seq<CfgEvent>,
    before: Seq<CfgEvent>,
    cur: Seq<CfgEvent>,
    fbefore: Seq<PciFunctionInfo>,
    bf: Seq<PciFunctionInfo>,
    bus: u8,
    first: bool,
)
    requires
        cfg_extends(e0, before),
        cfg_extends(before, cur),
        before.len() < cur.len(),
        slots_trace(cfg_after(before, cur), bus, 0, bf),
        forall|rest: Seq<CfgEvent>, ar: Seq<PciFunctionInfo>| #[trigger] blocks_pick(rest, ar) && bus_blocks(rest, ar)
            ==> bus_blocks(cfg_after(e0, before) + rest, fbefore + ar),
        first ==> bus == 0 && before == e0 && fbefore.len() == 0,
        !first ==> exists|k: int, n: int|
            0 < k <= cfg_after(e0, before).len() && 0 <= n <= fbefore.len()
                && #[trigger] slots_trace(cfg_after(e0, before).take(k), 0, 0, fbefore.take(n)),
    ensures
        cfg_extends(e0, cur),
        forall|rest: Seq<CfgEvent>, ar: Seq<PciFunctionInfo>| #[trigger] blocks_pick(rest, ar) && bus_blocks(rest, ar)
            ==> bus_blocks(cfg_after(e0, cur) + rest, fbefore + bf + ar),
        exists|k: int, n: int|
            0 < k <= cfg_after(e0, cur).len() && 0 <= n <= (fbefore + bf).len()
                && #[trigger] slots_trace(cfg_after(e0, cur).take(k), 0, 0, (fbefore + bf).take(n)),
{
    let step = cfg_after(before, cur);
    let pre = cfg_after(e0, before);
    let all = cfg_after(e0, cur);
    assert(all =~= pre + step);
    lemma_all_blocks(pre, step, fbefore, bf, bus);
    if first {
        assert(pre =~= Seq::<CfgEvent>::empty());
        assert(all.take(step.len() as int) =~= step);
        assert((fbefore + bf).take(bf.len() as int) =~= bf);
        assert(slots_trace(all.take(step.len() as int), 0, 0, (fbefore + bf).take(bf.len() as int)));
    } else {
        let (k, n) = choose|k: int, n: int|
            0 < k <= pre.len() && 0 <= n <= fbefore.len() && #[trigger] slots_trace(pre.take(k), 0, 0, fbefore.take(n));
        assert(all.take(k) =~= pre.take(k));
        assert((fbefore + bf).take(n) =~= fbefore.take(n));
        assert(slots_trace(all.take(k), 0, 0, (fbefore + bf).take(n)));
    }
}

proof fn lemma_all_blocks(pre: Seq<CfgEvent>, step: Seq<CfgEvent>, fbefore: Seq<PciFunctionInfo>, bf: Seq<PciFunctionInfo>, bus: u8)
    requires
        step.len() > 0,
        slots_trace(step, bus, 0, bf),
        forall|rest: Seq<CfgEvent>, ar: Seq<PciFunctionInfo>| #[trigger] blocks_pick(rest, ar) && bus_blocks(rest, ar)
            ==> bus_blocks(pre + rest, fbefore + ar),
    ensures
        forall|rest: Seq<CfgEvent>, ar: Seq<PciFunctionInfo>| #[trigger] blocks_pick(rest, ar) && bus_blocks(rest, ar)
            ==> bus_blocks(pre + step + rest, fbefore + bf + ar),
{
    assert forall|rest: Seq<CfgEvent>, ar: Seq<PciFunctionInfo>| #[trigger] blocks_pick(rest, ar) && bus_blocks(rest, ar)
        implies bus_blocks(pre + step + rest, fbefore + bf + ar) by {
        lemma_blocks_step(step, rest, bf, ar, bus);
        assert(blocks_pick(step + rest, bf + ar));
        assert(pre + step + rest =~= pre + (step + rest));
        assert(fbefore + bf + ar =~= fbefore + (bf + ar));
    }
}

/// No two records are for the same (bus, slot, function).
pub open spec fn distinct_functions(s: Seq<PciFunctionInfo>) -> bool {
    forall|j: int, k: int| 0 <= j < k < s.len() ==>
        ((#[trigger] s[j]).bus, s[j].slot, s[j].func) != ((#[trigger] s[k]).bus, s[k].slot, s[k].func)
}

proof fn lemma_append_bus(a: Seq<PciFunctionInfo>, b: Seq<PciFunctionInfo>, bus: u8)
    requires
        distinct_functions(a),
        forall|k: int| 0 <= k < a.len() ==> (#[trigger] a[k]).bus != bus,
        bus_records(b, bus),
    ensures
        distinct_functions(a + b),
{
    let c = a + b;
    assert forall|j: int, k: int| 0 <= j < k < c.len() implies
        ((#[trigger] c[j]).bus, c[j].slot, c[j].func) != ((#[trigger] c[k]).bus, c[k].slot, c[k].func) by {
        if k < a.len() {
            assert(c[j] == a[j] && c[k] == a[k]);
        } else if j < a.len() {
            assert(c[j] == a[j] && c[k] == b[k - a.len()]);
        } else {
            assert(c[j] == b[j - a.len()] && c[k] == b[k - a.len()]);
            assert(fpos(b[j - a.len()]) < fpos(b[k - a.len()]));
        }
    }
}

/// Number of buses not yet marked scanned.
pub open spec fn count_unscanned(s: Seq<bool>) -> nat
    decreases s.len(),
{
    if s.len() == 0 {
        0
    } else {
        count_unscanned(s.drop_last()) + if s.last() { 0nat } else { 1nat }
    }
}

proof fn lemma_mark_scanned(s: Seq<bool>, i: int)
    requires
        0 <= i < s.len(),
        !s[i],
    ensures
        count_unscanned(s.update(i, true)) + 1 == count_unscanned(s),
    decreases s.len(),
{
    if i < s.len() - 1 {
        assert(s.update(i, true).drop_last() =~= s.drop_last().update(i, true));
        lemma_mark_scanned(s.drop_last(), i);
    } else {
        assert(s.update(i, true).drop_last() =~= s.drop_last());
    }
}

/// The walk over bus numbers: buses reached through bridges from bus 0 are
/// scanned, each once, and with an ECAM window every bus up to its end bus
/// not yet scanned. No function is reported twice.
pub fn scan_all_buses<C: PciConfig>(cfg: &mut C, ecam_end_bus: Option<u8>) -> (functions: Vec<PciFunctionInfo>)
    ensures
        distinct_functions(functions@),
        forall|k: int| 0 <= k < functions@.len() ==> function_ok(#[trigger] functions@[k], functions@[k].bus, functions@[k].slot, functions@[k].func),
        cfg_extends(old(cfg).events(), final(cfg).events()),
        bus_blocks(cfg_after(old(cfg).events(), final(cfg).events()), functions@),
        exists|k: int, n: int|
            0 < k <= cfg_after(old(cfg).events(), final(cfg).events()).len() && 0 <= n <= functions@.len()
                && #[trigger] slots_trace(cfg_after(old(cfg).events(), final(cfg).events()).take(k), 0, 0, functions@.take(n)),
{
    let ghost e0 = cfg.events();
    let ghost mut first = true;
    let mut functions: Vec<PciFunctionInfo> = Vec::new();
    let mut scanned: Vec<bool> = Vec::new();
    let mut n: usize = 0;
    while n < 256
        invariant
            n <= 256,
            scanned@.len() == n,
            forall|k: int| 0 <= k < n ==> !(#[trigger] scanned@[k]),
        decreases 256 - n,
    {
        scanned.push(false);
        n = n + 1;
    }
    let mut worklist: Vec<u8> = Vec::new();
    worklist.push(0);
    proof {
        lemma_mark_scanned(scanned@, 0);
    }
    scanned.set(0, true);
    while worklist.len() > 0
        invariant
            scanned@.len() == 256,
            distinct_functions(functions@),
            forall|k: int| 0 <= k < functions@.len() ==> function_ok(#[trigger] functions@[k], functions@[k].bus, functions@[k].slot, functions@[k].func),
            forall|k: int| 0 <= k < functions@.len() ==> scanned@[(#[trigger] functions@[k]).bus as int],
            forall|k: int, w: int| 0 <= k < functions@.len() && 0 <= w < worklist@.len() ==>
                (#[trigger] functions@[k]).bus != #[trigger] worklist@[w],
            forall|w: int| 0 <= w < worklist@.len() ==> scanned@[#[trigger] worklist@[w] as int],
            forall|v: int, w: int| 0 <= v < w < worklist@.len() ==> #[trigger] worklist@[v] != #[trigger] worklist@[w],
            e0 == old(cfg).events(),
            cfg_extends(e0, cfg.events()),
            forall|rest: Seq<CfgEvent>, ar: Seq<PciFunctionInfo>| #[trigger] blocks_pick(rest, ar) && bus_blocks(rest, ar)
                ==> bus_blocks(cfg_after(e0, cfg.events()) + rest, functions@ + ar),
            first ==> worklist@ == seq![0u8] && functions@.len() == 0 && cfg.events() == e0,
            !first ==> exists|k: int, n: int|
                0 < k <= cfg_after(e0, cfg.events()).len() && 0 <= n <= functions@.len()
                    && #[trigger] slots_trace(cfg_after(e0, cfg.events()).take(k), 0, 0, functions@.take(n)),
        decreases 2 * count_unscanned(scanned@) + worklist@.len(),
    {
        let ghost measure = 2 * count_unscanned(scanned@) + worklist@.len();
        let ghost before = cfg.events();
        let ghost fbefore = functions@;
        let bus = worklist.pop().unwrap();
        let mut bus_functions: Vec<PciFunctionInfo> = Vec::new();
        scan_bus(cfg, bus, &mut bus_functions);
        proof {
            assert(bus_functions@.subrange(0, 0) =~= Seq::<PciFunctionInfo>::empty());
            assert(bus_functions@.subrange(0, bus_functions@.len() as int) =~= bus_functions@);
            lemma_all_step(e0, before, cfg.events(), fbefore, bus_functions@, bus, first);
            first = false;
        }
        let ghost cur = cfg.events();
        let ghost bf0 = bus_functions@;
        assert(bus_functions@.subrange(0, bus_functions@.len() as int) =~= bus_functions@);
        let mut i: usize = 0;
        while i < bus_functions.len()
            invariant
                i <= bus_functions@.len(),
                scanned@.len() == 256,
                bus_records(bus_functions@, bus),
                scanned@[bus as int],
                2 * count_unscanned(scanned@) + worklist@.len() < measure,
                forall|k: int| 0 <= k < functions@.len() ==> scanned@[(#[trigger] functions@[k]).bus as int],
                forall|k: int| 0 <= k < functions@.len() ==> (#[trigger] functions@[k]).bus != bus,
                forall|k: int, w: int| 0 <= k < functions@.len() && 0 <= w < worklist@.len() ==>
                    (#[trigger] functions@[k]).bus != #[trigger] worklist@[w],
                forall|w: int| 0 <= w < worklist@.len() ==> scanned@[#[trigger] worklist@[w] as int],
                forall|w: int| 0 <= w < worklist@.len() ==> #[trigger] worklist@[w] != bus,
                forall|v: int, w: int| 0 <= v < w < worklist@.len() ==> #[trigger] worklist@[v] != #[trigger] worklist@[w],
                cfg.events() == cur,
                functions@ == fbefore,
                bus_functions@ == bf0,
            decreases bus_functions@.len() - i,
        {
            let is_bridge = bus_functions[i].is_pci_pci_bridge;
            let sec_bus = bus_functions[i].secondary_bus;
            if is_bridge && sec_bus != 0 {
                if !scanned[sec_bus as usize] {
                    proof {
                        lemma_mark_scanned(scanned@, sec_bus as int);
                    }
                    worklist.push(sec_bus);
                    scanned.set(sec_bus as usize, true);
                }
            }
            i = i + 1;
        }
        proof {
            lemma_append_bus(functions@, bus_functions@, bus);
        }
        let ghost bf = bus_functions@;
        functions.append(&mut bus_functions);
        assert(functions@ =~= fbefore + bf);
        assert(functions@.len() >= 0);
        assert forall|k: int| 0 <= k < functions@.len() implies scanned@[(#[trigger] functions@[k]).bus as int] by {
            if k >= functions@.len() - bf.len() {
                assert(functions@[k] == bf[k - (functions@.len() - bf.len())]);
            }
        }
    }
    match ecam_end_bus {
        Some(end_bus) => {
            let mut b: u16 = 0;
            while b <= end_bus as u16
                invariant
                    b <= 256,
                    scanned@.len() == 256,
                    distinct_functions(functions@),
                    forall|k: int| 0 <= k < functions@.len() ==> function_ok(#[trigger] functions@[k], functions@[k].bus, functions@[k].slot, functions@[k].func),
                    forall|k: int| 0 <= k < functions@.len() ==> scanned@[(#[trigger] functions@[k]).bus as int],
                    e0 == old(cfg).events(),
                    cfg_extends(e0, cfg.events()),
                    forall|rest: Seq<CfgEvent>, ar: Seq<PciFunctionInfo>| #[trigger] blocks_pick(rest, ar) && bus_blocks(rest, ar)
                        ==> bus_blocks(cfg_after(e0, cfg.events()) + rest, functions@ + ar),
                    exists|k: int, n: int|
                        0 < k <= cfg_after(e0, cfg.events()).len() && 0 <= n <= functions@.len()
                            && #[trigger] slots_trace(cfg_after(e0, cfg.events()).take(k), 0, 0, functions@.take(n)),
                decreases 256 - b,
            {
                if !scanned[b as usize] {
                    let ghost before = functions@;
                    let ghost ebefore = cfg.events();
                    let mut found: Vec<PciFunctionInfo> = Vec::new();
                    scan_bus(cfg, b as u8, &mut found);
                    proof {
                        assert(found@.subrange(0, 0) =~= Seq::<PciFunctionInfo>::empty());
                        assert(found@.subrange(0, found@.len() as int) =~= found@);
                        lemma_all_step(e0, ebefore, cfg.events(), before, found@, b as u8, false);
                    }
                    assert(found@.subrange(0, found@.len() as int) =~= found@);
                    proof {
                        lemma_append_bus(functions@, found@, b as u8);
                    }
                    let ghost fv = found@;
                    functions.append(&mut found);
                    assert(functions@ =~= before + fv);
                    scanned.set(b as usize, true);
                    assert forall|k: int| 0 <= k < functions@.len() implies scanned@[(#[trigger] functions@[k]).bus as int] by {
                        if k >= before.len() {
                            assert(functions@[k] == fv[k - before.len()]);
                        }
                    }
                }
                b = b + 1;
            }
        },
        None => {},
    }
    proof {
        reveal(bus_blocks);
        assert(bus_blocks(Seq::<CfgEvent>::empty(), Seq::<PciFunctionInfo>::empty()));
        assert(blocks_pick(Seq::<CfgEvent>::empty(), Seq::<PciFunctionInfo>::empty()));
        assert(cfg_after(e0, cfg.events()) + Seq::<CfgEvent>::empty() =~= cfg_after(e0, cfg.events()));
        assert(functions@ + Seq::<PciFunctionInfo>::empty() =~= functions@);
    }
    functions
}

/// The name a function is shown under, by class, subclass and (for USB)
/// programming interface.
pub open spec fn pci_name(class: u8, subclass: u8, prog_if: u8) -> Seq<char> {
    if class == 0x01 && subclass == 0x01 {
        "IDE Controller"@
    } else if class == 0x01 && subclass == 0x06 {
        "SATA AHCI Controller"@
    } else if class == 0x01 && subclass == 0x08 {
        "NVMe Controller"@
    } else if class == 0x02 && subclass == 0x00 {
        "Ethernet Controller"@
    } else if class == 0x02 && subclass == 0x01 {
        "Token Ring Controller"@
    } else if class == 0x02 && subclass == 0x80 {
        "Network Controller"@
    } else if class == 0x03 && subclass == 0x00 {
        "VGA/Display Controller"@
    } else if class == 0x03 && subclass == 0x01 {
        "XGA Controller"@
    } else if class == 0x03 && subclass == 0x02 {
        "3D Controller"@
    } else if class == 0x04 && subclass == 0x00 {
        "Multimedia Video"@
    } else if class == 0x04 && subclass == 0x01 {
        "Multimedia Audio"@
    } else if class == 0x04 && subclass == 0x03 {
        "High Definition Audio"@
    } else if class == 0x06 && subclass == 0x00 {
        "Host Bridge"@
    } else if class == 0x06 && subclass == 0x01 {
        "ISA Bridge"@
    } else if class == 0x06 && subclass == 0x04 {
        "PCI-PCI Bridge"@
    } else if class == 0x06 && subclass == 0x80 {
        "Bridge"@
    } else if class == 0x07 && subclass == 0x00 {
        "Serial Controller"@
    } else if class == 0x07 && subclass == 0x01 {
        "Parallel Controller"@
    } else if class == 0x08 && subclass == 0x00 {
        "Interrupt Controller"@
    } else if class == 0x08 && subclass == 0x01 {
        "DMA Controller"@
    } else if class == 0x08 && subclass == 0x02 {
        "Timer"@
    } else if class == 0x08 && subclass == 0x03 {
        "RTC Controller"@
    } else if class == 0x09 && subclass == 0x00 {
        "Keyboard Controller"@
    } else if class == 0x09 && subclass == 0x01 {
        "Digitizer"@
    } else if class == 0x09 && subclass == 0x02 {
        "Mouse Controller"@
    } else if class == 0x0C && subclass == 0x03 {
        if prog_if == 0x00 {
            "USB UHCI Controller"@
        } else if prog_if == 0x10 {
            "USB OHCI Controller"@
        } else if prog_if == 0x20 {
            "USB EHCI Controller"@
        } else if prog_if == 0x30 {
            "USB xHCI Controller"@
        } else if prog_if == 0x80 {
            "USB Controller"@
        } else if prog_if == 0xFE {
            "USB Device"@
        } else {
            "USB Controller"@
        }
    } else if class == 0x0C && subclass == 0x05 {
        "SMBus Controller"@
    } else if class == 0x0D && subclass == 0x00 {
        "Network/Computing Encryption"@
    } else if class == 0x0D && subclass == 0x10 {
        "Entertainment Encryption"@
    } else {
        "PCI Device"@
    }
}

/// The name a function is shown under.
pub fn pci_function_name(class: u8, subclass: u8, prog_if: u8) -> (n: &'static str)
    ensures
        n@ == pci_name(class, subclass, prog_if),
{
    if class == 0x01 && subclass == 0x01 {
        "IDE Controller"
    } else if class == 0x01 && subclass == 0x06 {
        "SATA AHCI Controller"
    } else if class == 0x01 && subclass == 0x08 {
        "NVMe Controller"
    } else if class == 0x02 && subclass == 0x00 {
        "Ethernet Controller"
    } else if class == 0x02 && subclass == 0x01 {
        "Token Ring Controller"
    } else if class == 0x02 && subclass == 0x80 {
        "Network Controller"
    } else if class == 0x03 && subclass == 0x00 {
        "VGA/Display Controller"
    } else if class == 0x03 && subclass == 0x01 {
        "XGA Controller"
    } else if class == 0x03 && subclass == 0x02 {
        "3D Controller"
    } else if class == 0x04 && subclass == 0x00 {
        "Multimedia Video"
    } else if class == 0x04 && subclass == 0x01 {
        "Multimedia Audio"
    } else if class == 0x04 && subclass == 0x03 {
        "High Definition Audio"
    } else if class == 0x06 && subclass == 0x00 {
        "Host Bridge"
    } else if class == 0x06 && subclass == 0x01 {
        "ISA Bridge"
    } else if class == 0x06 && subclass == 0x04 {
        "PCI-PCI Bridge"
    } else if class == 0x06 && subclass == 0x80 {
        "Bridge"
    } else if class == 0x07 && subclass == 0x00 {
        "Serial Controller"
    } else if class == 0x07 && subclass == 0x01 {
        "Parallel Controller"
    } else if class == 0x08 && subclass == 0x00 {
        "Interrupt Controller"
    } else if class == 0x08 && subclass == 0x01 {
        "DMA Controller"
    } else if class == 0x08 && subclass == 0x02 {
        "Timer"
    } else if class == 0x08 && subclass == 0x03 {
        "RTC Controller"
    } else if class == 0x09 && subclass == 0x00 {
        "Keyboard Controller"
    } else if class == 0x09 && subclass == 0x01 {
        "Digitizer"
    } else if class == 0x09 && subclass == 0x02 {
        "Mouse Controller"
    } else if class == 0x0C && subclass == 0x03 {
        if prog_if == 0x00 {
            "USB UHCI Controller"
        } else if prog_if == 0x10 {
            "USB OHCI Controller"
        } else if prog_if == 0x20 {
            "USB EHCI Controller"
        } else if prog_if == 0x30 {
            "USB xHCI Controller"
        } else if prog_if == 0x80 {
            "USB Controller"
        } else if prog_if == 0xFE {
            "USB Device"
        } else {
            "USB Controller"
        }
    } else if class == 0x0C && subclass == 0x05 {
        "SMBus Controller"
    } else if class == 0x0D && subclass == 0x00 {
        "Network/Computing Encryption"
    } else if class == 0x0D && subclass == 0x10 {
        "Entertainment Encryption"
    } else {
        "PCI Device"
    }
}

/// How a function with an interrupt line signals: MSI when it lists an MSI
/// capability, else MSI-X when it lists one, else the legacy line.
pub open spec fn irq_kind(caps: Seq<(u8, u16)>) -> IrqType {
    if has_cap(caps, CAP_MSI) {
        IrqType::Msi
    } else if has_cap(caps, CAP_MSIX) {
        IrqType::Msix
    } else {
        IrqType::Legacy
    }
}

/// The device record of a function: IDs, class, location, name, subsystem,
/// revision and BARs; with a nonzero interrupt line, that line and its
/// signalling kind.
pub fn pci_function_to_device(info: &PciFunctionInfo) -> (d: Device)
    ensures
        d.id.vendor == info.vendor_id && d.id.device == info.device_id,
        d.id.subsystem_vendor == info.subsystem_vendor,
        d.id.subsystem_device == info.subsystem_device,
        d.id.revision == info.revision,
        d.class == class_of_pci(info.class, info.subclass),
        d.bus == info.bus && d.slot == info.slot && d.function == info.func,
        d.name@ == pci_name(info.class, info.subclass, info.prog_if),
        d.bars@ == info.bars@,
        info.irq_line != 0 ==> d.irq == info.irq_line && d.irq_type == irq_kind(info.capabilities@),
        info.irq_line == 0 ==> d.irq == 0 && d.irq_type == IrqType::Unassigned,
        !d.enabled,
        d.driver_name is None,
        d.custom_data is None,
{
    let class = DeviceClass::from_pci(info.class, info.subclass);
    let name = pci_function_name(info.class, info.subclass, info.prog_if);
    let mut device = Device::new(info.vendor_id, info.device_id, class, info.bus, info.slot, info.func);
    device.name = name;
    device.id.subsystem_vendor = info.subsystem_vendor;
    device.id.subsystem_device = info.subsystem_device;
    device.id.revision = info.revision;
    device.bars = info.bars;
    if info.irq_line != 0 {
        device.irq = info.irq_line;
        device.irq_type = IrqType::Legacy;
        let mut i: usize = 0;
        let mut seen_msix = false;
        while i < info.capabilities.len()
            invariant
                i <= info.capabilities@.len(),
                forall|k: int| 0 <= k < i ==> (#[trigger] info.capabilities@[k]).0 != CAP_MSI,
                seen_msix == exists|k: int| 0 <= k < i && (#[trigger] info.capabilities@[k]).0 == CAP_MSIX,
                device.irq_type == (if seen_msix { IrqType::Msix } else { IrqType::Legacy }),
                device.irq == info.irq_line,
                info.irq_line != 0,
                device.name@ == pci_name(info.class, info.subclass, info.prog_if),
                device.id.vendor == info.vendor_id && device.id.device == info.device_id,
                device.id.subsystem_vendor == info.subsystem_vendor,
                device.id.subsystem_device == info.subsystem_device,
                device.id.revision == info.revision,
                device.class == class_of_pci(info.class, info.subclass),
                device.bus == info.bus && device.slot == info.slot && device.function == info.func,
                device.bars@ == info.bars@,
                !device.enabled,
                device.driver_name is None,
                device.custom_data is None,
            decreases info.capabilities@.len() - i,
        {
            let cap_id = info.capabilities[i].0;
            if cap_id == CAP_MSI {
                device.irq_type = IrqType::Msi;
                return device;
            }
            if cap_id == CAP_MSIX {
                device.irq_type = IrqType::Msix;
                seen_msix = true;
            }
            i = i + 1;
        }
    }
    device
}

/// The MSI message address that targets the local APIC of `cpu_id`.
pub open spec fn msi_address(cpu_id: u8) -> u32 {
    (0xFEE00000u32 | ((cpu_id as u32) << 12u32)) as u32
}

/// `e` writes `v`.
pub open spec fn is_write_of(e: CfgEvent, v: u32) -> bool {
    e matches CfgEvent::Write { value, .. } && value == v
}

/// Longest capability chain `configure_msi` follows.
pub const MAX_CAP_HOPS: usize = 256;

/// Finds the MSI capability by following the chain from the word at 0x34,
/// and programs it: message address to the APIC of `cpu_id`, message data
/// `vector`, enable bit set. An error when there is none.
pub fn configure_msi<C: PciConfig>(cfg: &mut C, bus: u8, slot: u8, func: u8, vector: u8, cpu_id: u8) -> (r: Result<(), &'static str>)
    ensures
        r matches Err(msg) ==> msg@ == "MSI capability not found"@ && final(cfg).events().len() >= old(cfg).events().len(),
        r is Ok ==> exists|k: int| 0 <= k < final(cfg).events().len() && is_write_of(#[trigger] final(cfg).events()[k], msi_address(cpu_id)),
{
    let mut cap_ptr: u16 = pci_read_word(cfg, bus, slot, func, 0x34) % 256;
    let mut msi_off: u16 = 0;
    let mut hops: usize = 0;
    while cap_ptr != 0 && hops < MAX_CAP_HOPS
        invariant
            cap_ptr < 256,
            msi_off < 256,
            hops <= MAX_CAP_HOPS,
            cfg.events().len() >= old(cfg).events().len(),
        decreases MAX_CAP_HOPS - hops,
    {
        let cap_id = pci_read_word(cfg, bus, slot, func, cap_ptr) % 256;
        if cap_id == 0x05 {
            msi_off = cap_ptr;
            break;
        }
        cap_ptr = (pci_read_word(cfg, bus, slot, func, cap_ptr) / 256) % 256;
        hops = hops + 1;
    }
    if msi_off == 0 {
        return Err("MSI capability not found");
    }
    let addr: u32 = 0xFEE00000u32 | ((cpu_id as u32) << 12u32);
    cfg.write_config(bus, slot, func, msi_off + 4, addr);
    let ghost k = cfg.events().len() - 1;
    assert(is_write_of(cfg.events()[k], msi_address(cpu_id)));
    cfg.write_config(bus, slot, func, msi_off + 8, vector as u32);
    assert(cfg.events()[k] == cfg.events().drop_last()[k]);
    let ctrl = pci_read_word(cfg, bus, slot, func, msi_off + 2) | 0x0001;
    assert(cfg.events()[k] == cfg.events().drop_last()[k]);
    let ghost e1 = cfg.events();
    pci_write_word(cfg, bus, slot, func, msi_off + 2, ctrl);
    assert(cfg.events()[k] == cfg.events().subrange(0, e1.len() as int)[k]);
    assert(is_write_of(cfg.events()[k], msi_address(cpu_id)));
    Ok(())
}

/// The display functions (class 0x03) among `s`, in order.
pub open spec fn displays(s: Seq<PciFunctionInfo>) -> Seq<PciFunctionInfo> {
    s.filter(|f: PciFunctionInfo| f.class == 0x03)
}

/// Keeps the display functions of `all`, in order.
fn keep_displays(all: Vec<PciFunctionInfo>) -> (out: Vec<PciFunctionInfo>)
    ensures
        out@ == displays(all@),
{
    let ghost orig = all@;
    let _n = all.len();
    let mut all = all;
    let mut out: Vec<PciFunctionInfo> = Vec::new();
    let mut taken: usize = 0;
    while all.len() > 0
        invariant
            taken + all@.len() == orig.len(),
            orig.len() <= usize::MAX,
            all@ == orig.skip(taken as int),
            out@ == displays(orig.take(taken as int)),
        decreases all@.len(),
    {
        let f = all.remove(0);
        proof {
            assert(orig.take(taken + 1).drop_last() =~= orig.take(taken as int));
            assert(orig.take(taken + 1).last() == f);
            orig.take(taken as int).lemma_filter_push(f, |g: PciFunctionInfo| g.class == 0x03);
            assert(orig.take(taken as int).push(f) =~= orig.take(taken + 1));
        }
        if f.class == 0x03 {
            out.push(f);
        }
        taken = taken + 1;
        assert(all@ =~= orig.skip(taken as int));
    }
    assert(orig.take(taken as int) =~= orig);
    out
}

/// The accesses of a whole enumeration and the records it gives: whole bus
/// scans one after another, the first of bus 0.
pub open spec fn scan_outcome(s: Seq<CfgEvent>, all: Seq<PciFunctionInfo>) -> bool {
    &&& bus_blocks(s, all)
    &&& exists|k: int, n: int| 0 < k <= s.len() && 0 <= n <= all.len() && #[trigger] slots_trace(s.take(k), 0, 0, all.take(n))
}

/// Enumerates all functions and returns the display controllers.
pub fn find_display_devices<C: PciConfig>(cfg: &mut C, ecam_end_bus: Option<u8>) -> (out: Vec<PciFunctionInfo>)
    ensures
        forall|k: int| 0 <= k < out@.len() ==> (#[trigger] out@[k]).class == 0x03,
        cfg_extends(old(cfg).events(), final(cfg).events()),
        exists|all: Seq<PciFunctionInfo>|
            #[trigger] scan_outcome(cfg_after(old(cfg).events(), final(cfg).events()), all)
                && out@ == all.filter(|g: PciFunctionInfo| g.class == 0x03),
{
    let all = scan_all_buses(cfg, ecam_end_bus);
    let ghost av = all@;
    assert(scan_outcome(cfg_after(old(cfg).events(), cfg.events()), av));
    let out = keep_displays(all);
    proof {
        broadcast use vstd::seq_lib::group_filter_ensures;
        assert(av.filter(|g: PciFunctionInfo| g.class == 0x03) == out@);
    }
    out
}

/// What the device record of a function carries of it.
pub open spec fn device_of(d: Device, f: PciFunctionInfo) -> bool {
    &&& d.bus == f.bus && d.slot == f.slot && d.function == f.func
    &&& d.id.vendor == f.vendor_id && d.id.device == f.device_id
    &&& d.id.subsystem_vendor == f.subsystem_vendor && d.id.subsystem_device == f.subsystem_device
    &&& d.id.revision == f.revision
    &&& d.class == class_of_pci(f.class, f.subclass)
    &&& d.name@ == pci_name(f.class, f.subclass, f.prog_if)
    &&& d.bars@ == f.bars@
    &&& !d.enabled
}

/// The command register updates after the enumeration of `fs`: for each
/// display controller in order, the command word read and written back with
/// I/O space, memory space and bus master set.
pub open spec fn command_trace(t: Seq<CfgEvent>, fs: Seq<PciFunctionInfo>) -> bool
    decreases fs.len(),
{
    if fs.len() == 0 {
        t.len() == 0
    } else if fs.last().class != 0x03 {
        command_trace(t, fs.drop_last())
    } else {
        let f = fs.last();
        let n = t.len() as int;
        &&& t.len() >= 3
        &&& command_trace(t.take(n - 3), fs.drop_last())
        &&& cfg_read(t[n - 3], f.bus, f.slot, f.func, 0x04)
        &&& cfg_read(t[n - 2], f.bus, f.slot, f.func, 0x04)
        &&& t[n - 1] == CfgEvent::Write {
            bus: f.bus,
            slot: f.slot,
            func: f.func,
            offset: 0x04,
            value: (cfg_value(t[n - 2]) & !0xFFFFu32) | ((word_of(cfg_value(t[n - 3]), 0x04) | 0x07u16) as u32),
        }
    }
}

/// PCI bring-up: enumerates every function, turns each into a device record
/// (in enumeration order), and sets I/O space, memory space and bus master
/// in the command register of each display controller.
pub fn init<C: PciConfig>(cfg: &mut C, ecam_end_bus: Option<u8>) -> (devices: Vec<Device>)
    ensures
        forall|j: int, k: int| 0 <= j < k < devices@.len() ==>
            ((#[trigger] devices@[j]).bus, devices@[j].slot, devices@[j].function)
                != ((#[trigger] devices@[k]).bus, devices@[k].slot, devices@[k].function),
        cfg_extends(old(cfg).events(), final(cfg).events()),
        exists|k: int, all: Seq<PciFunctionInfo>|
            {
                &&& 0 <= k <= cfg_after(old(cfg).events(), final(cfg).events()).len()
                &&& #[trigger] scan_outcome(cfg_after(old(cfg).events(), final(cfg).events()).take(k), all)
                &&& command_trace(cfg_after(old(cfg).events(), final(cfg).events()).skip(k), all)
                &&& devices@.len() == all.len()
                &&& forall|i: int| 0 <= i < all.len() ==> device_of(#[trigger] devices@[i], all[i])
            },
{
    let ghost e0 = cfg.events();
    let functions = scan_all_buses(cfg, ecam_end_bus);
    let ghost e1 = cfg.events();
    let mut devices: Vec<Device> = Vec::new();
    let mut i: usize = 0;
    while i < functions.len()
        invariant
            i <= functions@.len(),
            distinct_functions(functions@),
            devices@.len() == i,
            forall|k: int| 0 <= k < i ==> (#[trigger] devices@[k]).bus == functions@[k].bus
                && devices@[k].slot == functions@[k].slot && devices@[k].function == functions@[k].func,
            forall|k: int| 0 <= k < i ==> device_of(#[trigger] devices@[k], functions@[k]),
        decreases functions@.len() - i,
    {
        let dev = pci_function_to_device(&functions[i]);
        devices.push(dev);
        i = i + 1;
    }
    proof {
        assert(0x04u16 & 0xFCu16 == 0x04u16) by (bit_vector);
        assert(((0x04u16 % 4) * 8) as u32 == 0u32);
        assert(0xFFFFu32 << 0u32 == 0xFFFFu32) by (bit_vector);
        assert(cfg_after(e1, cfg.events()) =~= Seq::<CfgEvent>::empty());
        assert(functions@.take(0) =~= Seq::<PciFunctionInfo>::empty());
    }
    let mut j: usize = 0;
    while j < functions.len()
        invariant
            j <= functions@.len(),
            cfg_extends(e1, cfg.events()),
            command_trace(cfg_after(e1, cfg.events()), functions@.take(j as int)),
        decreases functions@.len() - j,
    {
        let ghost before = cfg.events();
        if functions[j].class == 0x03 {
            let (b, s, f) = (functions[j].bus, functions[j].slot, functions[j].func);
            let cmd = pci_read_word(cfg, b, s, f, 0x04) | 0x07;
            let ghost mid = cfg.events();
            pci_write_word(cfg, b, s, f, 0x04, cmd);
            proof {
                let e = cfg.events();
                let t = cfg_after(e1, e);
                let n = t.len() as int;
                assert(e =~= mid + seq![e[mid.len() as int], e[mid.len() as int + 1]]);
                assert(t.take(n - 3) =~= cfg_after(e1, before));
                assert(t[n - 3] == mid.last());
                assert(t[n - 2] == e[mid.len() as int]);
                assert(t[n - 1] == e[mid.len() as int + 1]);
                assert(functions@.take(j + 1).drop_last() =~= functions@.take(j as int));
                assert(functions@.take(j + 1).last() == functions@[j as int]);
                let orig = cfg_value(t[n - 2]);
                assert(0x04u16 & 0xFCu16 == 0x04u16) by (bit_vector);
                assert(((0x04u16 % 4) * 8) as u32 == 0u32);
                assert(0xFFFFu32 << 0u32 == 0xFFFFu32) by (bit_vector);
                assert(((cmd as u32) << 0u32) == cmd as u32) by (bit_vector);
                assert(cfg_read(t[n - 3], b, s, f, 0x04));
                assert(cfg_read(t[n - 2], b, s, f, 0x04));
                assert(cmd == (word_of(cfg_value(t[n - 3]), 0x04) | 0x07u16));
                assert(t[n - 1] == CfgEvent::Write {
                    bus: b,
                    slot: s,
                    func: f,
                    offset: 0x04,
                    value: (orig & !0xFFFFu32) | (cmd as u32),
                });
                assert(command_trace(t, functions@.take(j + 1)));
            }
        } else {
            proof {
                assert(functions@.take(j + 1).drop_last() =~= functions@.take(j as int));
                assert(functions@.take(j + 1).last() == functions@[j as int]);
                assert(command_trace(cfg_after(e1, cfg.events()), functions@.take(j + 1)));
            }
        }
        j = j + 1;
    }
    assert forall|j: int, k: int| 0 <= j < k < devices@.len() implies
        ((#[trigger] devices@[j]).bus, devices@[j].slot, devices@[j].function)
            != ((#[trigger] devices@[k]).bus, devices@[k].slot, devices@[k].function) by {
        assert(((functions@[j]).bus, functions@[j].slot, functions@[j].func) != ((functions@[k]).bus, functions@[k].slot, functions@[k].func));
    }
    proof {
        let s = cfg_after(e0, cfg.events());
        let k = cfg_after(e0, e1).len() as int;
        assert(s.take(k) =~= cfg_after(e0, e1));
        assert(s.skip(k) =~= cfg_after(e1, cfg.events()));
        assert(functions@.take(functions@.len() as int) =~= functions@);
        assert(scan_outcome(s.take(k), functions@));
    }
    devices
}

/// `init` under its older name.
pub fn scan_bus_legacy<C: PciConfig>(cfg: &mut C, ecam_end_bus: Option<u8>) -> (devices: Vec<Device>)
    ensures
        forall|j: int, k: int| 0 <= j < k < devices@.len() ==>
            ((#[trigger] devices@[j]).bus, devices@[j].slot, devices@[j].function)
                != ((#[trigger] devices@[k]).bus, devices@[k].slot, devices@[k].function),
{
    init(cfg, ecam_end_bus)
}

/// Configuration space simulated in memory: the functions present, each
/// with its 64 dwords. Reads of an absent function or past the header give
/// all ones; writes to them are dropped. Every access is logged.
pub struct SimulatedConfig {
    pub functions: Vec<((u8, u8, u8), Vec<u32>)>,
    pub log: Vec<CfgEvent>,
}

impl SimulatedConfig {
    /// No functions present.
    pub fn new() -> (c: Self)
        ensures
            c.functions@.len() == 0,
            c.log@.len() == 0,
    {
        SimulatedConfig { functions: Vec::new(), log: Vec::new() }
    }

    /// Adds a function with the given header dwords (padded with zeros to 64).
    pub fn add_function(&mut self, bus: u8, slot: u8, func: u8, regs: Vec<u32>)
        ensures
            final(self).functions@.len() == old(self).functions@.len() + 1,
            final(self).log@ == old(self).log@,
    {
        let mut r = regs;
        while r.len() < 64
            invariant
                true,
            decreases 64 - r@.len(),
        {
            r.push(0);
        }
        self.functions.push(((bus, slot, func), r));
    }

    fn locate(&self, bus: u8, slot: u8, func: u8, offset: u16) -> (r: Option<(usize, usize)>)
        ensures
            r matches Some((i, k)) ==> {
                &&& i < self.functions@.len()
                &&& self.functions@[i as int].0 == (bus, slot, func)
                &&& forall|j: int| 0 <= j < i ==> (#[trigger] self.functions@[j]).0 != (bus, slot, func)
                &&& k == offset / 4
                &&& k < self.functions@[i as int].1@.len()
            },
            r is None ==> {
                ||| forall|j: int| 0 <= j < self.functions@.len() ==> (#[trigger] self.functions@[j]).0 != (bus, slot, func)
                ||| exists|i: int| {
                    &&& 0 <= i < self.functions@.len()
                    &&& (#[trigger] self.functions@[i]).0 == (bus, slot, func)
                    &&& forall|j: int| 0 <= j < i ==> (#[trigger] self.functions@[j]).0 != (bus, slot, func)
                    &&& offset / 4 >= self.functions@[i].1@.len()
                }
            },
    {
        let k = (offset / 4) as usize;
        let mut i: usize = 0;
        while i < self.functions.len()
            invariant
                i <= self.functions@.len(),
                k == offset / 4,
                forall|j: int| 0 <= j < i ==> (#[trigger] self.functions@[j]).0 != (bus, slot, func),
            decreases self.functions@.len() - i,
        {
            let (key, _) = &self.functions[i];
            if key.0 == bus && key.1 == slot && key.2 == func {
                if k < self.functions[i].1.len() {
                    return Some((i, k));
                }
                return None;
            }
            i = i + 1;
        }
        None
    }
}

impl PciConfig for SimulatedConfig {
    open spec fn events(&self) -> Seq<CfgEvent> {
        self.log@
    }

    fn read_config(&mut self, bus: u8, slot: u8, func: u8, offset: u16) -> (value: u32) {
        let value = match self.locate(bus, slot, func, offset) {
            Some((i, k)) => self.functions[i].1[k],
            None => 0xFFFFFFFF,
        };
        self.log.push(CfgEvent::Read { bus, slot, func, offset, value });
        value
    }

    fn write_config(&mut self, bus: u8, slot: u8, func: u8, offset: u16, value: u32) {
        match self.locate(bus, slot, func, offset) {
            Some((i, k)) => {
                let (key, mut regs) = self.functions.remove(i);
                regs.set(k, value);
                self.functions.insert(i, (key, regs));
            },
            None => {},
        }
        self.log.push(CfgEvent::Write { bus, slot, func, offset, value });
    }
}

} // verus!
