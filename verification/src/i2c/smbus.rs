//! SMBus host controllers (Intel PIIX4 and ICH9): their registers, which
//! protocol a transfer's shape calls for, how a status byte is judged, and
//! how the controllers are found on PCI.
use vstd::prelude::*;
use crate::i2c::I2cError;
use crate::pci::{PciConfig, CfgEvent, cfg_read, cfg_value, cfg_after, cfg_extends, word_of, pci_read_word, pci_write_word};

verus! {

/// Host status register offset.
pub const SMB_HST_STS: u16 = 0x00;
/// Host control register offset.
pub const SMB_HST_CNT: u16 = 0x02;
/// Host command register offset.
pub const SMB_HST_CMD: u16 = 0x03;
/// Host address register offset.
pub const SMB_HST_ADD: u16 = 0x04;
/// Host data 0 register offset.
pub const SMB_HST_DAT0: u16 = 0x05;
/// Host data 1 register offset.
pub const SMB_HST_DAT1: u16 = 0x06;
/// Host block data register offset (32 bytes).
pub const SMB_HST_BLKDAT: u16 = 0x07;

pub const STS_BYTE_DONE: u8 = 0x02;
pub const STS_INUSE_STS: u8 = 0x04;
pub const STS_FAILED: u8 = 0x10;
pub const STS_BUS_ERR: u8 = 0x20;
pub const STS_DEV_ERR: u8 = 0x40;
pub const STS_INTERRUPT: u8 = 0x80;

pub const CNT_START: u8 = 0x40;

/// Quick command (no data).
pub const CMD_QUICK: u8 = 0x00;
/// Send / Receive Byte.
pub const CMD_BYTE: u8 = 0x04;
/// Write / Read Byte (with a command byte).
pub const CMD_BYTE_DATA: u8 = 0x08;
/// Write / Read Word.
pub const CMD_WORD_DATA: u8 = 0x0C;
/// Block Write / Read.
pub const CMD_BLOCK_DATA: u8 = 0x14;

/// How the result of a host command is read back.
#[derive(Debug, Clone, Copy, PartialEq, Eq, Structural)]
pub enum SmbusReadback {
    /// Nothing to read: the byte count is fixed.
    Nothing,
    /// One byte from DAT0.
    Byte,
    /// Two bytes, DAT0 then DAT1.
    Word,
    /// DAT0 holds a count; that many bytes (at most the buffer) from BLKDAT.
    Block,
}

/// The preload of a block write of `w`: the count in DAT0, then each byte
/// into the block data registers.
pub open spec fn block_preload(w: Seq<u8>) -> Seq<(u16, u8)> {
    seq![(SMB_HST_DAT0, w.len() as u8)] + Seq::new(w.len(), |i: int| ((SMB_HST_BLKDAT + i) as u16, w[i]))
}

/// The host command a PIIX4 transfer of `w` then `r` bytes runs, as
/// (preload, command, protocol, readback, bytes written); the error when the
/// shape is not one SMBus can carry.
pub open spec fn piix4_plan(addr: u8, w: Seq<u8>, r: nat) -> Result<(Seq<(u16, u8)>, u8, u8, SmbusReadback, nat), I2cError> {
    if addr > 0x7F {
        Err(I2cError::InvalidParameter)
    } else if w.len() == 0 && r > 0 {
        if r == 1 {
            Ok((Seq::empty(), 0u8, CMD_BYTE, SmbusReadback::Byte, 0nat))
        } else if r <= 32 {
            Ok((Seq::empty(), 0u8, CMD_BLOCK_DATA, SmbusReadback::Block, 0nat))
        } else {
            Err(I2cError::InvalidParameter)
        }
    } else if w.len() > 0 && r == 0 {
        if w.len() == 1 {
            Ok((seq![(SMB_HST_DAT0, w[0])], 0u8, CMD_BYTE, SmbusReadback::Nothing, 1nat))
        } else if w.len() == 2 {
            Ok((seq![(SMB_HST_DAT0, w[0]), (SMB_HST_DAT1, w[1])], 0u8, CMD_WORD_DATA, SmbusReadback::Nothing, 2nat))
        } else if w.len() <= 32 {
            Ok((block_preload(w), 0u8, CMD_BLOCK_DATA, SmbusReadback::Nothing, w.len()))
        } else {
            Err(I2cError::InvalidParameter)
        }
    } else if w.len() > 0 && r > 0 {
        let pre = seq![(SMB_HST_CMD, w[0])];
        if r == 1 {
            Ok((pre, w[0], CMD_BYTE_DATA, SmbusReadback::Byte, 0nat))
        } else if r == 2 {
            Ok((pre, w[0], CMD_WORD_DATA, SmbusReadback::Word, 0nat))
        } else if r <= 32 {
            Ok((pre, w[0], CMD_BLOCK_DATA, SmbusReadback::Block, 0nat))
        } else {
            Err(I2cError::InvalidParameter)
        }
    } else {
        Ok((Seq::empty(), 0u8, CMD_QUICK, SmbusReadback::Nothing, 0nat))
    }
}

/// PIIX4 SMBus host controller at an I/O base.
#[derive(Debug, Clone, Copy)]
pub struct Piix4Smbus {
    pub base_port: u16,
}

/// What a poll of the status register decides.
#[derive(Debug, Clone, Copy)]
pub enum PollStep {
    /// No completion yet: poll again.
    Pending,
    /// The command finished (the status bits are then cleared) with this outcome.
    Finished(Result<(), I2cError>),
}

/// The decision on a status byte: pending until INTERRUPT is set; then a
/// device error, a bus error or a failure, in that order of precedence.
pub open spec fn poll_step(sts: u8) -> PollStep {
    if sts & STS_INTERRUPT == 0 {
        PollStep::Pending
    } else if sts & STS_DEV_ERR != 0 {
        PollStep::Finished(Err(I2cError::DeviceNotReady))
    } else if sts & STS_BUS_ERR != 0 {
        PollStep::Finished(Err(I2cError::BusBusy))
    } else if sts & STS_FAILED != 0 {
        PollStep::Finished(Err(I2cError::Timeout))
    } else {
        PollStep::Finished(Ok(()))
    }
}

impl Piix4Smbus {
    /// A controller at `base_port`.
    pub fn new(base_port: u16) -> (s: Self)
        ensures
            s.base_port == base_port,
    {
        Piix4Smbus { base_port }
    }

    /// The decision on a status byte read while waiting for a command.
    pub fn poll_status(sts: u8) -> (step: PollStep)
        ensures
            step == poll_step(sts),
    {
        if sts & STS_INTERRUPT == 0 {
            PollStep::Pending
        } else if sts & STS_DEV_ERR != 0 {
            PollStep::Finished(Err(I2cError::DeviceNotReady))
        } else if sts & STS_BUS_ERR != 0 {
            PollStep::Finished(Err(I2cError::BusBusy))
        } else if sts & STS_FAILED != 0 {
            PollStep::Finished(Err(I2cError::Timeout))
        } else {
            PollStep::Finished(Ok(()))
        }
    }
}

/// PCI IDs of the PIIX4 power management / SMBus function.
pub open spec fn is_piix4_smbus(vendor: u32, device: u32) -> bool {
    vendor == 0x8086 && device & 0xFFFF == 0x7113
}

/// Whether the IDs read from function 3 name a PIIX4 SMBus controller.
pub fn piix4_ids_match(vendor: u32, device: u32) -> (b: bool)
    ensures
        b == is_piix4_smbus(vendor, device),
{
    vendor == 0x8086 && device & 0xFFFF == 0x7113
}

/// The I/O base a BAR 4 value gives: its low 16 bits with the flag bits
/// cleared, None when that is zero.
pub open spec fn smbus_bar_base(bar4: u32) -> Option<u16> {
    if bar4 % 65536 / 16 == 0 { None } else { Some(((bar4 % 65536) / 16 * 16) as u16) }
}

/// The I/O base an SMBus BAR 4 value gives (its low flag bits cleared), or
/// None when that is zero.
pub fn smbus_base_from_bar(bar4: u32) -> (base: Option<u16>)
    ensures
        base == smbus_bar_base(bar4),
{
    let b: u32 = (bar4 % 65536) / 16 * 16;
    if b == 0 {
        None
    } else {
        Some(b as u16)
    }
}

/// ICH9 SMBus host controller at an I/O base.
#[derive(Debug, Clone, Copy)]
pub struct Ich9Smbus {
    pub base_port: u16,
}

/// A transfer the ICH9 host runs as one block command.
#[derive(Debug, Clone, Copy, PartialEq, Eq, Structural)]
pub enum Ich9Op {
    /// Address byte, command byte (the first data byte), byte count.
    BlockWrite { address: u8, command: u8, count: usize },
    /// Address byte, byte count.
    BlockRead { address: u8, count: usize },
}

/// PCI IDs of an ICH9 SMBus function (00:1f.3).
pub open spec fn is_ich9_smbus(vendor: u32, device: u32) -> bool {
    vendor == 0x8086 && 0x2930 <= device & 0xFFFF <= 0x293C
}

/// The ICH9 command a transfer of `w` then `r` bytes runs.
pub open spec fn ich9_plan(addr: u8, w: Seq<u8>, r: nat) -> Result<Ich9Op, I2cError> {
    if addr > 0x7F {
        Err(I2cError::InvalidParameter)
    } else if w.len() > 0 && r == 0 && w.len() <= 32 {
        Ok(Ich9Op::BlockWrite { address: (addr * 2) as u8, command: w[0], count: w.len() as usize })
    } else if w.len() == 0 && r > 0 && r <= 32 {
        Ok(Ich9Op::BlockRead { address: (addr * 2 + 1) as u8, count: r as usize })
    } else {
        Err(I2cError::InvalidParameter)
    }
}

impl Ich9Smbus {
    /// A controller at `base_port`.
    pub fn new(base_port: u16) -> (s: Self)
        ensures
            s.base_port == base_port,
    {
        Ich9Smbus { base_port }
    }
}

/// Whether the IDs read from 00:1f.3 name an ICH9 SMBus controller.
pub fn ich9_ids_match(vendor: u32, device: u32) -> (b: bool)
    ensures
        b == is_ich9_smbus(vendor, device),
{
    let d = device & 0xFFFF;
    vendor == 0x8086 && d >= 0x2930 && d <= 0x293C
}

/// The reads of a search for a PIIX4 SMBus from `slot` on: the vendor and
/// device words of function 3 of each slot of bus 0 up to slot 31, stopping
/// at the first that names one; `found` tells whether one did.
pub open spec fn present_trace(s: Seq<CfgEvent>, slot: u8, found: bool) -> bool
    decreases 32 - slot,
{
    if slot >= 32 {
        s.len() == 0 && !found
    } else {
        &&& s.len() >= 2
        &&& cfg_read(s[0], 0, slot, 3, 0)
        &&& cfg_read(s[1], 0, slot, 3, 2)
        &&& if is_piix4_smbus(cfg_value(s[0]), cfg_value(s[1])) {
            s.len() == 2 && found
        } else {
            present_trace(s.skip(2), (slot + 1) as u8, found)
        }
    }
}

/// The value `pci_write_word` writes to turn on the host-enable bit of the
/// HOSTC word (at 0xD2, the upper half of the dword at 0xD0): `orig` is the
/// dword read back before the write, `hostc` the dword first read.
pub open spec fn hostc_enable_write(hostc: u32, orig: u32) -> u32 {
    (orig & !(0xFFFFu32 << 16u32)) | (((word_of(hostc, 0xD2) | 0x0001u16) as u32) << 16u32)
}

/// The accesses of the PIIX4 detection from `slot` on and the I/O base it
/// ends with: per slot the vendor and device words; for a PIIX4 the BAR 4
/// dword; when that gives a base, the HOSTC enable (read, read, write) and
/// the end of the search.
pub open spec fn piix4_trace(s: Seq<CfgEvent>, slot: u8, r: Option<u16>) -> bool
    decreases 32 - slot,
{
    if slot >= 32 {
        s.len() == 0 && r is None
    } else {
        &&& s.len() >= 2
        &&& cfg_read(s[0], 0, slot, 3, 0)
        &&& cfg_read(s[1], 0, slot, 3, 2)
        &&& if !is_piix4_smbus(cfg_value(s[0]), cfg_value(s[1])) {
            piix4_trace(s.skip(2), (slot + 1) as u8, r)
        } else {
            &&& s.len() >= 3
            &&& cfg_read(s[2], 0, slot, 3, 0x20)
            &&& match smbus_bar_base(cfg_value(s[2])) {
                None => piix4_trace(s.skip(3), (slot + 1) as u8, r),
                Some(b) => {
                    &&& r == Some(b)
                    &&& s.len() == 6
                    &&& cfg_read(s[3], 0, slot, 3, 0xD0)
                    &&& cfg_read(s[4], 0, slot, 3, 0xD0)
                    &&& s[5] == CfgEvent::Write {
                        bus: 0,
                        slot,
                        func: 3,
                        offset: 0xD0,
                        value: hostc_enable_write(cfg_value(s[3]), cfg_value(s[4])),
                    }
                },
            }
        }
    }
}

/// Whether any slot 1..31 of bus 0 has a PIIX4 SMBus at function 3.
pub fn piix4_smbus_present<C: PciConfig>(cfg: &mut C) -> (found: bool)
    ensures
        cfg_extends(old(cfg).events(), final(cfg).events()),
        present_trace(cfg_after(old(cfg).events(), final(cfg).events()), 1, found),
{
    let ghost e0 = cfg.events();
    assert(cfg.events().subrange(0, e0.len() as int) =~= e0);
    let mut slot: u8 = 1;
    while slot < 32
        invariant
            1 <= slot <= 32,
            e0 == old(cfg).events(),
            cfg_extends(e0, cfg.events()),
            forall|rest: Seq<CfgEvent>, fd: bool| #[trigger] present_trace(rest, slot, fd)
                ==> present_trace(cfg_after(e0, cfg.events()) + rest, 1, fd),
        decreases 32 - slot,
    {
        let ghost t = cfg_after(e0, cfg.events());
        let vendor = cfg.read_config(0, slot, 3, 0);
        let device = cfg.read_config(0, slot, 3, 2);
        let ghost pair = seq![
            CfgEvent::Read { bus: 0, slot, func: 3, offset: 0, value: vendor },
            CfgEvent::Read { bus: 0, slot, func: 3, offset: 2, value: device },
        ];
        proof {
            assert(cfg.events().subrange(0, e0.len() as int) =~= e0);
            assert(cfg_after(e0, cfg.events()) =~= t + pair);
        }
        if piix4_ids_match(vendor, device) {
            proof {
                assert(present_trace(pair, slot, true));
                assert(t + pair =~= t + pair + Seq::<CfgEvent>::empty());
                assert(present_trace(pair + Seq::<CfgEvent>::empty(), slot, true)) by {
                    assert(pair + Seq::<CfgEvent>::empty() =~= pair);
                }
                assert(present_trace(Seq::<CfgEvent>::empty(), 32, false));
            }
            return true;
        }
        proof {
            assert forall|rest: Seq<CfgEvent>, fd: bool| #[trigger] present_trace(rest, (slot + 1) as u8, fd)
                implies present_trace(cfg_after(e0, cfg.events()) + rest, 1, fd) by {
                assert((pair + rest).skip(2) =~= rest);
                assert(present_trace(pair + rest, slot, fd));
                assert(cfg_after(e0, cfg.events()) + rest =~= t + (pair + rest));
            }
        }
        slot = slot + 1;
    }
    proof {
        assert(present_trace(Seq::<CfgEvent>::empty(), 32, false));
        assert(cfg_after(e0, cfg.events()) + Seq::<CfgEvent>::empty() =~= cfg_after(e0, cfg.events()));
    }
    false
}

impl Piix4Smbus {
    /// Finds the PIIX4 SMBus function on bus 0 (slots 1..31, function 3):
    /// its I/O base from BAR 4, with the SMBus host enabled (bit 0 of the
    /// HOSTC word at 0xD2). None when no slot has one with a nonzero base.
    /// The controller still needs its status reset (0xFE to the status
    /// register) through the port.
    pub fn try_new<C: PciConfig>(cfg: &mut C) -> (r: Option<Self>)
        ensures
            r matches Some(s) ==> s.base_port != 0 && s.base_port % 16 == 0,
            cfg_extends(old(cfg).events(), final(cfg).events()),
            piix4_trace(cfg_after(old(cfg).events(), final(cfg).events()), 1, match r {
                Some(s) => Some(s.base_port),
                None => None,
            }),
    {
        let ghost e0 = cfg.events();
        assert(cfg.events().subrange(0, e0.len() as int) =~= e0);
        let mut slot: u8 = 1;
        while slot < 32
            invariant
                1 <= slot <= 32,
                e0 == old(cfg).events(),
                cfg_extends(e0, cfg.events()),
                forall|rest: Seq<CfgEvent>, rr: Option<u16>| #[trigger] piix4_trace(rest, slot, rr)
                    ==> piix4_trace(cfg_after(e0, cfg.events()) + rest, 1, rr),
            decreases 32 - slot,
        {
            let ghost t = cfg_after(e0, cfg.events());
            let vendor = cfg.read_config(0, slot, 3, 0);
            let device = cfg.read_config(0, slot, 3, 2);
            let ghost pair = seq![
                CfgEvent::Read { bus: 0, slot, func: 3, offset: 0, value: vendor },
                CfgEvent::Read { bus: 0, slot, func: 3, offset: 2, value: device },
            ];
            proof {
                assert(cfg.events().subrange(0, e0.len() as int) =~= e0);
                assert(cfg_after(e0, cfg.events()) =~= t + pair);
            }
            if piix4_ids_match(vendor, device) {
                let bar4 = cfg.read_config(0, slot, 3, 0x20);
                let ghost three = pair.push(CfgEvent::Read { bus: 0, slot, func: 3, offset: 0x20, value: bar4 });
                proof {
                    assert(cfg.events().subrange(0, e0.len() as int) =~= e0);
                    assert(cfg_after(e0, cfg.events()) =~= t + three);
                }
                match smbus_base_from_bar(bar4) {
                    Some(base_port) => {
                        let ghost before = cfg.events();
                        let hostc = pci_read_word(cfg, 0, slot, 3, 0xD2) | 0x0001;
                        let ghost mid = cfg.events();
                        pci_write_word(cfg, 0, slot, 3, 0xD2, hostc);
                        proof {
                            let e = cfg.events();
                            let v3 = cfg_value(mid.last());
                            let v4 = cfg_value(e[mid.len() as int]);
                            let six = three + seq![mid.last(), e[mid.len() as int], e[mid.len() as int + 1]];
                            assert(mid == before.push(mid.last()));
                            assert(e.subrange(0, mid.len() as int) == mid);
                            assert(e =~= mid + seq![e[mid.len() as int], e[mid.len() as int + 1]]);
                            assert(e.subrange(0, e0.len() as int) =~= e0);
                            assert(cfg_after(e0, e) =~= t + six);
                            assert(0xD2u16 & 0xFCu16 == 0xD0u16) by (bit_vector);
                            assert(hostc == (word_of(v3, 0xD2) | 0x0001u16));
                            assert(((0xD2u16 % 4) * 8) as u32 == 16u32);
                            assert(cfg_read(six[3], 0, slot, 3, 0xD0));
                            assert(cfg_read(six[4], 0, slot, 3, 0xD0));
                            assert(six[5] == CfgEvent::Write {
                                bus: 0,
                                slot,
                                func: 3,
                                offset: 0xD0,
                                value: hostc_enable_write(v3, v4),
                            });
                            assert(six.len() == 6);
                            assert(six[2] == three[2]);
                            assert(piix4_trace(six, slot, Some(base_port)));
                            assert(six + Seq::<CfgEvent>::empty() =~= six);
                        }
                        return Some(Piix4Smbus { base_port });
                    },
                    None => {
                        proof {
                            assert forall|rest: Seq<CfgEvent>, rr: Option<u16>| #[trigger] piix4_trace(rest, (slot + 1) as u8, rr)
                                implies piix4_trace(cfg_after(e0, cfg.events()) + rest, 1, rr) by {
                                assert((three + rest).skip(3) =~= rest);
                                assert(piix4_trace(three + rest, slot, rr));
                                assert(cfg_after(e0, cfg.events()) + rest =~= t + (three + rest));
                            }
                        }
                    },
                }
            } else {
                proof {
                    assert forall|rest: Seq<CfgEvent>, rr: Option<u16>| #[trigger] piix4_trace(rest, (slot + 1) as u8, rr)
                        implies piix4_trace(cfg_after(e0, cfg.events()) + rest, 1, rr) by {
                        assert((pair + rest).skip(2) =~= rest);
                        assert(piix4_trace(pair + rest, slot, rr));
                        assert(cfg_after(e0, cfg.events()) + rest =~= t + (pair + rest));
                    }
                }
            }
            slot = slot + 1;
        }
        proof {
            assert(piix4_trace(Seq::<CfgEvent>::empty(), 32, None));
            assert(cfg_after(e0, cfg.events()) + Seq::<CfgEvent>::empty() =~= cfg_after(e0, cfg.events()));
        }
        None
    }
}

impl Ich9Smbus {
    /// Finds the ICH9 SMBus function at 00:1f.3: its I/O base from BAR 4.
    /// None when the IDs do not match or the base is zero.
    pub fn try_new<C: PciConfig>(cfg: &mut C) -> (r: Option<Self>)
        ensures
            r matches Some(s) ==> s.base_port != 0 && s.base_port % 16 == 0,
            cfg_extends(old(cfg).events(), final(cfg).events()),
            ({
                let s = cfg_after(old(cfg).events(), final(cfg).events());
                &&& s.len() >= 2
                &&& cfg_read(s[0], 0, 0x1F, 3, 0)
                &&& cfg_read(s[1], 0, 0x1F, 3, 2)
                &&& !is_ich9_smbus(cfg_value(s[0]), cfg_value(s[1])) ==> s.len() == 2 && r is None
                &&& is_ich9_smbus(cfg_value(s[0]), cfg_value(s[1])) ==> {
                    &&& s.len() == 3
                    &&& cfg_read(s[2], 0, 0x1F, 3, 0x20)
                    &&& r == match smbus_bar_base(cfg_value(s[2])) {
                        Some(b) => Some(Ich9Smbus { base_port: b }),
                        None => None::<Ich9Smbus>,
                    }
                }
            }),
    {
        let ghost e0 = cfg.events();
        let vendor = cfg.read_config(0, 0x1F, 3, 0);
        let device = cfg.read_config(0, 0x1F, 3, 2);
        if ich9_ids_match(vendor, device) {
            let bar4 = cfg.read_config(0, 0x1F, 3, 0x20);
            proof {
                assert(cfg.events().subrange(0, e0.len() as int) =~= e0);
                assert(cfg_after(e0, cfg.events()).len() == 3);
                assert(cfg_after(e0, cfg.events())[2] == cfg.events()[e0.len() as int + 2]);
                assert(cfg_after(e0, cfg.events())[1] == cfg.events()[e0.len() as int + 1]);
                assert(cfg_after(e0, cfg.events())[0] == cfg.events()[e0.len() as int]);
            }
            match smbus_base_from_bar(bar4) {
                Some(base_port) => Some(Ich9Smbus { base_port }),
                None => None,
            }
        } else {
            proof {
                assert(cfg.events().subrange(0, e0.len() as int) =~= e0);
                assert(cfg_after(e0, cfg.events())[1] == cfg.events()[e0.len() as int + 1]);
                assert(cfg_after(e0, cfg.events())[0] == cfg.events()[e0.len() as int]);
            }
            None
        }
    }
}

} // verus!
