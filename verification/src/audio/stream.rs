//! HDA audio streams: where a stream's descriptor registers lie, the values
//! a stream start writes into them, and the start and stop sequences.
use vstd::prelude::*;
use crate::port::{RegEvent, RegisterIo};

verus! {

/// The direction of an audio stream.
#[derive(Debug, Clone, Copy, PartialEq, Eq, Structural)]
pub enum StreamDirection {
    Input,
    Output,
}

/// Stream descriptor control register (4 bytes).
pub const SD_CTL: usize = 0x00;
/// Stream descriptor status register (1 byte).
pub const SD_STS: usize = 0x03;
/// Buffer descriptor list pointer, low half.
pub const SD_BDLPL: usize = 0x04;
/// Buffer descriptor list pointer, high half.
pub const SD_BDLPU: usize = 0x08;
/// Cyclic buffer length.
pub const SD_CBL: usize = 0x0C;
/// Last valid index (2 bytes).
pub const SD_LVI: usize = 0x10;
/// Stream format (2 bytes).
pub const SD_FMT: usize = 0x12;

/// Control: run.
pub const SD_CTL_RUN: u32 = 1;
/// Control: stream reset.
pub const SD_CTL_SRST: u32 = 2;
/// Control: traffic priority.
pub const SD_CTL_TP: u32 = 8;
/// Control: interrupt on completion enable.
pub const SD_CTL_IOCE: u32 = 64;
/// Status: buffer completion interrupt.
pub const SD_STS_BCIS: u8 = 4;
/// Status: descriptor error.
pub const SD_STS_DESE: u8 = 16;

/// Offset of stream `stream_id`'s descriptor from the controller base.
pub fn stream_descriptor_offset(stream_id: u8) -> (off: usize)
    ensures
        off == 0x80 * stream_id,
{
    0x80 * (stream_id as usize)
}

/// The stream format word: 16-bit samples, the 48 kHz base rate, and the
/// channel count less one in the low four bits.
pub fn stream_format(channels: u8) -> (fmt: u16)
    requires
        channels >= 1,
    ensures
        fmt == (1u16 << 14) | (0x1Fu16 << 3) | (((channels - 1) as u16) & 0xF),
{
    let sample_bits: u16 = 1u16 << 14;
    let base_rate: u16 = 0x1Fu16 << 3;
    let ch: u16 = ((channels as u16) - 1) & 0xF;
    sample_bits | base_rate | ch
}

/// The low and high halves of the buffer descriptor list's address.
pub fn bdl_pointer_halves(phys: u64) -> (halves: (u32, u32))
    ensures
        halves.0 == phys % 0x1_0000_0000,
        halves.1 == phys / 0x1_0000_0000,
{
    let low = (phys & 0xFFFF_FFFF) as u32;
    let high = (phys >> 32) as u32;
    assert(phys & 0xFFFF_FFFF == phys % 0x1_0000_0000) by (bit_vector);
    assert(phys >> 32 == phys / 0x1_0000_0000) by (bit_vector);
    (low, high)
}

/// The control word that starts a stream: run, interrupt on completion,
/// traffic priority.
pub fn stream_start_control() -> (ctl: u32)
    ensures
        ctl == SD_CTL_RUN | SD_CTL_IOCE | SD_CTL_TP,
{
    SD_CTL_RUN | SD_CTL_IOCE | SD_CTL_TP
}

/// The control word that stops a stream: `ctl` with the run bit cleared.
pub fn stream_stop_control(ctl: u32) -> (r: u32)
    ensures
        r == ctl & !SD_CTL_RUN,
{
    ctl & !SD_CTL_RUN
}

/// How many times a reset or stop is polled again before giving up.
pub const POLL_LIMIT: u32 = 100_000;

/// Channels of every stream (16-bit stereo).
pub const STREAM_CHANNELS: u8 = 2;

/// A physically contiguous DMA buffer: its physical and CPU addresses and its
/// size in bytes.
#[derive(Debug, Clone, Copy)]
pub struct DmaBuffer {
    phys_addr: u64,
    virt_addr: u64,
    size: usize,
}

impl DmaBuffer {
    pub fn new(phys_addr: u64, virt_addr: u64, size: usize) -> (b: Self)
        ensures
            b.spec_phys() == phys_addr,
            b.spec_virt() == virt_addr,
            b.spec_size() == size,
    {
        DmaBuffer { phys_addr, virt_addr, size }
    }

    pub closed spec fn spec_phys(&self) -> u64 {
        self.phys_addr
    }

    pub closed spec fn spec_virt(&self) -> u64 {
        self.virt_addr
    }

    pub closed spec fn spec_size(&self) -> usize {
        self.size
    }

    pub fn phys_addr(&self) -> (a: u64)
        ensures
            a == self.spec_phys(),
    {
        self.phys_addr
    }

    /// The address the CPU reaches the buffer at.
    pub fn virt_addr(&self) -> (a: u64)
        ensures
            a == self.spec_virt(),
    {
        self.virt_addr
    }

    pub fn size(&self) -> (n: usize)
        ensures
            n == self.spec_size(),
    {
        self.size
    }
}

/// The reads of a wait for `bit` of the 32-bit register at `offset` to
/// clear: at least one read and at most `POLL_LIMIT + 1`, each of that
/// register; every read but the last saw the bit set, and the last saw it
/// clear unless the limit was reached.
pub open spec fn poll_trace(reads: Seq<RegEvent>, offset: u64, bit: u32) -> bool {
    &&& 1 <= reads.len() <= POLL_LIMIT + 1
    &&& forall|i: int| 0 <= i < reads.len() ==> #[trigger] read_of(reads[i], offset)
    &&& forall|i: int| 0 <= i < reads.len() - 1 ==> #[trigger] read_bit_set(reads[i], bit)
    &&& !read_bit_set(reads.last(), bit) || reads.len() == POLL_LIMIT + 1
}

/// The offset of register `r` of the descriptor at `base`.
pub open spec fn reg(base: u64, r: usize) -> u64 {
    (base + r) as u64
}

/// `ev` is a 32-bit read of the register at `offset`.
pub open spec fn read_of(ev: RegEvent, offset: u64) -> bool {
    match ev {
        RegEvent::Read32 { offset: o, .. } => o == offset,
        _ => false,
    }
}

/// `ev` is a 32-bit read that saw `bit` set.
pub open spec fn read_bit_set(ev: RegEvent, bit: u32) -> bool {
    match ev {
        RegEvent::Read32 { value: v, .. } => v & bit != 0,
        _ => false,
    }
}

/// `read` read the control word at `offset` and `write` wrote it back with
/// the run bit cleared.
pub open spec fn clears_run(read: RegEvent, write: RegEvent, offset: u64) -> bool {
    match read {
        RegEvent::Read32 { offset: o, value: ctl } => o == offset && write == (RegEvent::Write32 {
            offset,
            value: ctl & !SD_CTL_RUN,
        }),
        _ => false,
    }
}

/// Reads the register at `offset` until `bit` is clear, at most
/// `POLL_LIMIT + 1` times.
fn wait_until_clear<R: RegisterIo>(regs: &mut R, offset: u64, bit: u32)
    ensures
        final(regs).events().len() > old(regs).events().len(),
        final(regs).events().subrange(0, old(regs).events().len() as int) == old(regs).events(),
        poll_trace(
            final(regs).events().subrange(old(regs).events().len() as int, final(regs).events().len() as int),
            offset,
            bit,
        ),
{
    let ghost start = regs.events().len() as int;
    let mut timeout: u32 = POLL_LIMIT;
    loop
        invariant_except_break
            regs.events().len() == start + (POLL_LIMIT - timeout),
            forall|i: int| start <= i < regs.events().len() ==> #[trigger] polled(regs.events()[i], offset, bit),
        invariant
            timeout <= POLL_LIMIT,
            start == old(regs).events().len(),
            regs.events().len() >= start,
            regs.events().subrange(0, start) == old(regs).events(),
        ensures
            regs.events().len() > start,
            poll_trace(regs.events().subrange(start, regs.events().len() as int), offset, bit),
        decreases timeout,
    {
        let ghost before = regs.events();
        let v = regs.read32(offset);
        assert(regs.events().subrange(0, start) =~= before.subrange(0, start));
        assert forall|i: int| start <= i < before.len() implies #[trigger] polled(regs.events()[i], offset, bit) by {
            assert(regs.events()[i] == before[i]);
            assert(polled(before[i], offset, bit));
        }
        if v & bit == 0 || timeout == 0 {
            let ghost reads = regs.events().subrange(start, regs.events().len() as int);
            assert forall|i: int| 0 <= i < reads.len() implies #[trigger] read_of(reads[i], offset) by {
                assert(reads[i] == regs.events()[start + i]);
                if start + i < before.len() {
                    assert(polled(regs.events()[start + i], offset, bit));
                }
            }
            assert forall|i: int| 0 <= i < reads.len() - 1 implies #[trigger] read_bit_set(reads[i], bit) by {
                assert(reads[i] == regs.events()[start + i]);
                assert(polled(regs.events()[start + i], offset, bit));
            }
            break;
        }
        timeout = timeout - 1;
    }
}

/// `ev` is a read of the register at `offset` that saw `bit` set.
spec fn polled(ev: RegEvent, offset: u64, bit: u32) -> bool {
    read_of(ev, offset) && read_bit_set(ev, bit)
}

/// An HDA audio stream: its DMA buffer, direction, format and stream number,
/// over the controller's register block.
pub struct AudioStream<R: RegisterIo> {
    regs: R,
    buffer: DmaBuffer,
    direction: StreamDirection,
    sample_rate: u32,
    stream_id: u8,
}

/// The writes that configure and start a stream once its reset has been
/// waited for: the buffer descriptor list pointer, the buffer length, the
/// last valid index, the cleared status bits, the run control word and the
/// stream format.
pub open spec fn start_writes(base: u64, buffer_phys: u64, buffer_size: usize, channels: u8) -> Seq<RegEvent> {
    seq![
        RegEvent::Write32 { offset: reg(base, SD_BDLPL), value: (buffer_phys % 0x1_0000_0000) as u32 },
        RegEvent::Write32 { offset: reg(base, SD_BDLPU), value: (buffer_phys / 0x1_0000_0000) as u32 },
        RegEvent::Write32 { offset: reg(base, SD_CBL), value: buffer_size as u32 },
        RegEvent::Write16 { offset: reg(base, SD_LVI), value: 0 },
        RegEvent::Write8 { offset: reg(base, SD_STS), value: SD_STS_BCIS | SD_STS_DESE },
        RegEvent::Write32 { offset: reg(base, SD_CTL), value: SD_CTL_RUN | SD_CTL_IOCE | SD_CTL_TP },
        RegEvent::Write16 {
            offset: reg(base, SD_FMT),
            value: (1u16 << 14) | (0x1Fu16 << 3) | (((channels - 1) as u16) & 0xF),
        },
    ]
}

impl<R: RegisterIo> AudioStream<R> {
    /// A stream at 44.1 kHz with `STREAM_CHANNELS` channels.
    pub fn new(regs: R, buffer: DmaBuffer, direction: StreamDirection, stream_id: u8) -> (s: Self)
        ensures
            s.spec_regs() == regs,
            s.spec_buffer() == buffer,
            s.spec_direction() == direction,
            s.spec_sample_rate() == 44100,
            s.spec_stream_id() == stream_id,
    {
        AudioStream { regs, buffer, direction, sample_rate: 44100, stream_id }
    }

    pub closed spec fn spec_regs(&self) -> R {
        self.regs
    }

    /// The controller's register block.
    pub fn regs(&self) -> (r: &R)
        ensures
            *r == self.spec_regs(),
    {
        &self.regs
    }

    pub closed spec fn spec_buffer(&self) -> DmaBuffer {
        self.buffer
    }

    pub closed spec fn spec_direction(&self) -> StreamDirection {
        self.direction
    }

    pub closed spec fn spec_sample_rate(&self) -> u32 {
        self.sample_rate
    }

    pub closed spec fn spec_stream_id(&self) -> u8 {
        self.stream_id
    }

    /// Offset of this stream's descriptor.
    pub open spec fn descriptor(&self) -> u64 {
        (0x80 * self.spec_stream_id()) as u64
    }

    /// Resets the stream (writes the reset bit and waits for it to clear),
    /// points it at its buffer, clears its status, starts it and sets its
    /// format.
    pub fn start(&mut self)
        ensures
            final(self).spec_buffer() == old(self).spec_buffer(),
            final(self).spec_direction() == old(self).spec_direction(),
            final(self).spec_sample_rate() == old(self).spec_sample_rate(),
            final(self).spec_stream_id() == old(self).spec_stream_id(),
            ({
                let e = final(self).spec_regs().events();
                let n = old(self).spec_regs().events().len() as int;
                let base = old(self).descriptor();
                &&& e.len() >= n + 9
                &&& e.subrange(0, n) == old(self).spec_regs().events()
                &&& e[n] == RegEvent::Write32 { offset: reg(base, SD_CTL), value: SD_CTL_SRST }
                &&& poll_trace(e.subrange(n + 1, e.len() - 7), reg(base, SD_CTL), SD_CTL_SRST)
                &&& e.subrange(e.len() - 7, e.len() as int) == start_writes(
                    base,
                    old(self).spec_buffer().spec_phys(),
                    old(self).spec_buffer().spec_size(),
                    STREAM_CHANNELS,
                )
            }),
    {
        let ghost e0 = self.regs.events();
        let base = stream_descriptor_offset(self.stream_id) as u64;
        self.regs.write32(base + SD_CTL as u64, SD_CTL_SRST);
        let ghost e1 = self.regs.events();
        wait_until_clear(&mut self.regs, base + SD_CTL as u64, SD_CTL_SRST);
        let ghost e2 = self.regs.events();
        let (low, high) = bdl_pointer_halves(self.buffer.phys_addr());
        self.regs.write32(base + SD_BDLPL as u64, low);
        self.regs.write32(base + SD_BDLPU as u64, high);
        let size = self.buffer.size();
        let cbl = size as u32;
        self.regs.write32(base + SD_CBL as u64, cbl);
        self.regs.write16(base + SD_LVI as u64, 0);
        self.regs.write8(base + SD_STS as u64, SD_STS_BCIS | SD_STS_DESE);
        self.regs.write32(base + SD_CTL as u64, stream_start_control());
        self.regs.write16(base + SD_FMT as u64, stream_format(STREAM_CHANNELS));
        proof {
            let e = self.regs.events();
            let n = e0.len() as int;
            assert(e2.subrange(0, e1.len() as int) == e1);
            assert(e.subrange(0, e2.len() as int) =~= e2);
            assert(e.subrange(0, n) =~= e0) by {
                assert(e1.subrange(0, n) =~= e0);
            }
            assert(e.subrange(n + 1, e.len() - 7) =~= e2.subrange(e1.len() as int, e2.len() as int));
            assert(e.subrange(e.len() - 7, e.len() as int) =~= start_writes(
                base,
                self.buffer.spec_phys(),
                self.buffer.spec_size(),
                STREAM_CHANNELS,
            ));
            assert(e.len() >= n + 9);
            assert(e[n] == e1[n]);
            assert(base == self.descriptor());
            assert(e[n] == RegEvent::Write32 { offset: reg(base, SD_CTL), value: SD_CTL_SRST });
        }
    }

    /// Clears the run bit (reading the control word first) and waits for
    /// the stream to stop.
    pub fn stop(&mut self)
        ensures
            final(self).spec_buffer() == old(self).spec_buffer(),
            final(self).spec_direction() == old(self).spec_direction(),
            final(self).spec_sample_rate() == old(self).spec_sample_rate(),
            final(self).spec_stream_id() == old(self).spec_stream_id(),
            ({
                let e = final(self).spec_regs().events();
                let n = old(self).spec_regs().events().len() as int;
                let base = old(self).descriptor();
                &&& e.len() >= n + 3
                &&& e.subrange(0, n) == old(self).spec_regs().events()
                &&& clears_run(e[n], e[n + 1], reg(base, SD_CTL))
                &&& poll_trace(e.subrange(n + 2, e.len() as int), reg(base, SD_CTL), SD_CTL_RUN)
            }),
    {
        let ghost e0 = self.regs.events();
        let base = stream_descriptor_offset(self.stream_id) as u64;
        let ctl = self.regs.read32(base + SD_CTL as u64);
        self.regs.write32(base + SD_CTL as u64, stream_stop_control(ctl));
        let ghost e1 = self.regs.events();
        wait_until_clear(&mut self.regs, base + SD_CTL as u64, SD_CTL_RUN);
        proof {
            let e = self.regs.events();
            let n = e0.len() as int;
            assert(e.subrange(0, n) =~= e0) by {
                assert(e.subrange(0, e1.len() as int) == e1);
                assert(e1.subrange(0, n) =~= e0);
            }
            assert(e[n] == e1[n]);
            assert(e[n + 1] == e1[n + 1]);
        }
    }
}

} // verus!
