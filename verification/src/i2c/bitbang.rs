//! Software I²C over two GPIO lines (SCL and SDA), each driven through bit 0
//! of an I/O port.
use vstd::prelude::*;
use crate::i2c::{I2cError, I2cMaster, I2cSpeed, speed_delay_us};

verus! {

/// One access to the GPIO lines, as recorded in a line trace.
#[derive(Debug, Clone, Copy, PartialEq, Eq, Structural)]
pub enum PinEvent {
    /// Bit 0 of `port` set high or low.
    Drive { port: u16, high: bool },
    /// Bit 0 of `port` read, and the level seen.
    Sample { port: u16, high: bool },
    /// A busy wait of this many spin iterations.
    Spin(u32),
}

/// Access to bit 0 of the I/O ports the lines sit on; `events` is everything
/// done to them so far.
pub trait GpioPort {
    /// The accesses made so far.
    spec fn events(&self) -> Seq<PinEvent>;

    /// Drives bit 0 of `port` (a read-modify-write of the port).
    fn set_bit0(&mut self, port: u16, high: bool)
        ensures
            final(self).events() == old(self).events().push(PinEvent::Drive { port, high });

    /// Reads bit 0 of `port`.
    fn get_bit0(&mut self, port: u16) -> (high: bool)
        ensures
            final(self).events() == old(self).events().push(PinEvent::Sample { port, high });

    /// Spins `n` times.
    fn spin(&mut self, n: u32)
        ensures
            final(self).events() == old(self).events().push(PinEvent::Spin(n));
}

/// The two lines' ports, as the hardware layer gives them.
pub trait RawGpio {
    /// Drives bit 0 of `port` (a read-modify-write of the port).
    fn set_bit0(&mut self, port: u16, high: bool);

    /// Reads bit 0 of `port`.
    fn get_bit0(&mut self, port: u16) -> bool;

    /// Spins `n` times.
    fn spin(&mut self, n: u32);
}

/// Hardware lines with everything done to them recorded: each sample as
/// the level the hardware gave, each drive and wait as issued.
pub struct LoggedGpio<R: RawGpio> {
    pub raw: R,
    pub log: Ghost<Seq<PinEvent>>,
}

impl<R: RawGpio> LoggedGpio<R> {
    /// `raw`, with nothing recorded yet.
    pub fn new(raw: R) -> (g: Self)
        ensures
            g.raw == raw,
            g.log@ == Seq::<PinEvent>::empty(),
    {
        LoggedGpio { raw, log: Ghost(Seq::empty()) }
    }
}

impl<R: RawGpio> GpioPort for LoggedGpio<R> {
    open spec fn events(&self) -> Seq<PinEvent> {
        self.log@
    }

    fn set_bit0(&mut self, port: u16, high: bool) {
        self.raw.set_bit0(port, high);
        proof {
            self.log@ = self.log@.push(PinEvent::Drive { port, high });
        }
    }

    fn get_bit0(&mut self, port: u16) -> (high: bool) {
        let high = self.raw.get_bit0(port);
        proof {
            self.log@ = self.log@.push(PinEvent::Sample { port, high });
        }
        high
    }

    fn spin(&mut self, n: u32) {
        self.raw.spin(n);
        proof {
            self.log@ = self.log@.push(PinEvent::Spin(n));
        }
    }
}

/// Spin iterations of a half period at `speed`: ten per microsecond, and 50
/// when the delay rounds to zero.
pub open spec fn spins(speed: I2cSpeed) -> u32 {
    if speed_delay_us(speed) > 0 {
        (speed_delay_us(speed) * 10) as u32
    } else {
        50
    }
}

/// A line driven to a level, then a half-period wait.
pub open spec fn drive(port: u16, high: bool, n: u32) -> Seq<PinEvent> {
    seq![PinEvent::Drive { port, high }, PinEvent::Spin(n)]
}

/// START: SDA falls while SCL is high.
pub open spec fn start_ops(scl: u16, sda: u16, n: u32) -> Seq<PinEvent> {
    drive(sda, true, n) + drive(scl, true, n) + seq![PinEvent::Spin(n)] + drive(sda, false, n)
        + seq![PinEvent::Spin(n)] + drive(scl, false, n)
}

/// STOP: SDA rises while SCL is high.
pub open spec fn stop_ops(scl: u16, sda: u16, n: u32) -> Seq<PinEvent> {
    drive(sda, false, n) + drive(scl, true, n) + seq![PinEvent::Spin(n)] + drive(sda, true, n)
        + seq![PinEvent::Spin(n)]
}

/// One bit clocked out: SDA set while SCL is low, held across an SCL pulse.
pub open spec fn bit_out_ops(scl: u16, sda: u16, n: u32, bit: bool) -> Seq<PinEvent> {
    drive(sda, bit, n) + drive(scl, true, n) + seq![PinEvent::Spin(n)] + drive(scl, false, n)
}

/// The low `k` bits of `v` clocked out, most significant first.
pub open spec fn bits_out_ops(scl: u16, sda: u16, n: u32, v: int, k: nat) -> Seq<PinEvent>
    decreases k,
{
    if k == 0 {
        Seq::empty()
    } else {
        bits_out_ops(scl, sda, n, v / 2, (k - 1) as nat) + bit_out_ops(scl, sda, n, v % 2 == 1)
    }
}

/// A byte clocked out, then SDA released and sampled during a ninth clock:
/// `level` low is an ACK.
pub open spec fn write_byte_ops(scl: u16, sda: u16, n: u32, byte: u8, level: bool) -> Seq<PinEvent> {
    bits_out_ops(scl, sda, n, byte as int, 8) + drive(sda, true, n) + drive(scl, true, n)
        + seq![PinEvent::Spin(n), PinEvent::Sample { port: sda, high: level }] + drive(scl, false, n)
}

/// One bit clocked in: SDA sampled while SCL is high.
pub open spec fn bit_in_ops(scl: u16, sda: u16, n: u32, bit: bool) -> Seq<PinEvent> {
    drive(scl, true, n) + seq![PinEvent::Spin(n), PinEvent::Sample { port: sda, high: bit }] + drive(scl, false, n)
}

/// The low `k` bits of `v` clocked in, most significant first.
pub open spec fn bits_in_ops(scl: u16, sda: u16, n: u32, v: int, k: nat) -> Seq<PinEvent>
    decreases k,
{
    if k == 0 {
        Seq::empty()
    } else {
        bits_in_ops(scl, sda, n, v / 2, (k - 1) as nat) + bit_in_ops(scl, sda, n, v % 2 == 1)
    }
}

/// A byte clocked in with SDA released, then an ACK (SDA low) or NACK
/// (SDA high) clocked out, and SDA released again.
pub open spec fn read_byte_ops(scl: u16, sda: u16, n: u32, byte: u8, ack: bool) -> Seq<PinEvent> {
    drive(sda, true, n) + bits_in_ops(scl, sda, n, byte as int, 8) + drive(sda, !ack, n)
        + drive(scl, true, n) + seq![PinEvent::Spin(n)] + drive(scl, false, n) + drive(sda, true, n)
}

/// The bytes `bytes` clocked out, each acknowledged.
pub open spec fn write_bytes_acked(scl: u16, sda: u16, n: u32, bytes: Seq<u8>) -> Seq<PinEvent>
    decreases bytes.len(),
{
    if bytes.len() == 0 {
        Seq::empty()
    } else {
        write_bytes_acked(scl, sda, n, bytes.drop_last()) + write_byte_ops(scl, sda, n, bytes.last(), false)
    }
}

/// The bytes `bytes` clocked in, each acknowledged but the last.
pub open spec fn read_bytes_ops(scl: u16, sda: u16, n: u32, bytes: Seq<u8>, total: int) -> Seq<PinEvent>
    decreases bytes.len(),
{
    if bytes.len() == 0 {
        Seq::empty()
    } else {
        read_bytes_ops(scl, sda, n, bytes.drop_last(), total)
            + read_byte_ops(scl, sda, n, bytes.last(), bytes.len() != total)
    }
}

/// The bus activity of a transfer in which every byte was acknowledged:
/// START; if there is data to write, the address with the write bit and the
/// data; if there is data to read, a repeated START, the address with the
/// read bit and the bytes read; STOP.
pub open spec fn transfer_ops(scl: u16, sda: u16, n: u32, addr: u8, write: Seq<u8>, read: Seq<u8>) -> Seq<PinEvent> {
    start_ops(scl, sda, n)
        + (if write.len() > 0 {
            write_byte_ops(scl, sda, n, (addr * 2) as u8, false) + write_bytes_acked(scl, sda, n, write)
        } else {
            Seq::empty()
        })
        + (if read.len() > 0 {
            start_ops(scl, sda, n) + write_byte_ops(scl, sda, n, (addr * 2 + 1) as u8, false)
                + read_bytes_ops(scl, sda, n, read, read.len() as int)
        } else {
            Seq::empty()
        })
        + stop_ops(scl, sda, n)
}

/// Software I²C master on two GPIO lines.
pub struct GpioBitbang<P: GpioPort> {
    pub scl_port: u16,
    pub sda_port: u16,
    pub speed: I2cSpeed,
    pub pins: P,
    /// The transfers asked of the master so far.
    pub transfer_log: Ghost<Seq<(u8, Seq<u8>, nat, Result<usize, I2cError>, Seq<u8>)>>,
    /// The probes asked of the master so far.
    pub probe_log: Ghost<Seq<(u8, bool)>>,
}

impl<P: GpioPort> GpioBitbang<P> {
    /// A master on the given ports, at standard speed.
    pub fn new(scl_port: u16, sda_port: u16, pins: P) -> (b: Self)
        ensures
            b.scl_port == scl_port,
            b.sda_port == sda_port,
            b.speed == I2cSpeed::Standard,
            b.pins == pins,
            b.transfer_log@.len() == 0,
            b.probe_log@.len() == 0,
    {
        GpioBitbang {
            scl_port,
            sda_port,
            speed: I2cSpeed::Standard,
            pins,
            transfer_log: Ghost(Seq::empty()),
            probe_log: Ghost(Seq::empty()),
        }
    }

    /// Spin iterations of a half period at the current speed.
    pub open spec fn n(&self) -> u32 {
        spins(self.speed)
    }

    /// Same ports, speed and call records as `old`.
    pub open spec fn extends(&self, old: &Self) -> bool {
        &&& self.scl_port == old.scl_port
        &&& self.sda_port == old.sda_port
        &&& self.speed == old.speed
        &&& self.transfer_log == old.transfer_log
        &&& self.probe_log == old.probe_log
    }

    fn delay(&mut self)
        ensures
            final(self).extends(old(self)),
            final(self).pins.events() == old(self).pins.events().push(PinEvent::Spin(old(self).n())),
    {
        let us = self.speed.delay_us();
        if us > 0 {
            self.pins.spin(us * 10);
        } else {
            self.pins.spin(50);
        }
    }

    fn line(&mut self, port: u16, high: bool)
        ensures
            final(self).extends(old(self)),
            final(self).pins.events() == old(self).pins.events() + drive(port, high, old(self).n()),
    {
        self.pins.set_bit0(port, high);
        self.delay();
        assert(self.pins.events() =~= old(self).pins.events() + drive(port, high, old(self).n()));
    }

    fn sda_read(&mut self) -> (high: bool)
        ensures
            final(self).extends(old(self)),
            final(self).pins.events() == old(self).pins.events().push(PinEvent::Sample { port: old(self).sda_port, high }),
    {
        let p = self.sda_port;
        self.pins.get_bit0(p)
    }

    fn start_cond(&mut self)
        ensures
            final(self).extends(old(self)),
            final(self).pins.events() == old(self).pins.events() + start_ops(old(self).scl_port, old(self).sda_port, old(self).n()),
    {
        let (scl, sda) = (self.scl_port, self.sda_port);
        self.line(sda, true);
        self.line(scl, true);
        self.delay();
        self.line(sda, false);
        self.delay();
        self.line(scl, false);
        assert(self.pins.events() =~= old(self).pins.events() + start_ops(scl, sda, old(self).n()));
    }

    fn stop_cond(&mut self)
        ensures
            final(self).extends(old(self)),
            final(self).pins.events() == old(self).pins.events() + stop_ops(old(self).scl_port, old(self).sda_port, old(self).n()),
    {
        let (scl, sda) = (self.scl_port, self.sda_port);
        self.line(sda, false);
        self.line(scl, true);
        self.delay();
        self.line(sda, true);
        self.delay();
        assert(self.pins.events() =~= old(self).pins.events() + stop_ops(scl, sda, old(self).n()));
    }

    fn write_bits(&mut self, v: u8, k: u8)
        requires
            k <= 8,
        ensures
            final(self).extends(old(self)),
            final(self).pins.events() == old(self).pins.events()
                + bits_out_ops(old(self).scl_port, old(self).sda_port, old(self).n(), v as int, k as nat),
        decreases k,
    {
        if k > 0 {
            self.write_bits(v / 2, k - 1);
            let (scl, sda) = (self.scl_port, self.sda_port);
            self.line(sda, v % 2 == 1);
            self.line(scl, true);
            self.delay();
            self.line(scl, false);
            assert(self.pins.events() =~= old(self).pins.events()
                + bits_out_ops(scl, sda, old(self).n(), v as int, k as nat));
        } else {
            assert(self.pins.events() =~= old(self).pins.events()
                + bits_out_ops(self.scl_port, self.sda_port, old(self).n(), v as int, k as nat));
        }
    }

    /// Clocks out `byte` and returns whether the device acknowledged it.
    fn write_byte(&mut self, byte: u8) -> (ack: bool)
        ensures
            final(self).extends(old(self)),
            final(self).pins.events() == old(self).pins.events()
                + write_byte_ops(old(self).scl_port, old(self).sda_port, old(self).n(), byte, !ack),
    {
        let (scl, sda) = (self.scl_port, self.sda_port);
        self.write_bits(byte, 8);
        self.line(sda, true);
        self.line(scl, true);
        self.delay();
        let ack = !self.sda_read();
        self.line(scl, false);
        assert(self.pins.events() =~= old(self).pins.events()
            + write_byte_ops(scl, sda, old(self).n(), byte, !ack));
        ack
    }

    /// Clocks in a byte, then sends an ACK (`ack`) or a NACK.
    fn read_byte(&mut self, ack: bool) -> (byte: u8)
        ensures
            final(self).extends(old(self)),
            final(self).pins.events() == old(self).pins.events()
                + read_byte_ops(old(self).scl_port, old(self).sda_port, old(self).n(), byte, ack),
    {
        let (scl, sda) = (self.scl_port, self.sda_port);
        let ghost n = old(self).n();
        let mut byte: u8 = 0;
        self.line(sda, true);
        let ghost mid = self.pins.events();
        let mut k: u8 = 0;
        proof {
            vstd::arithmetic::power2::lemma2_to64();
        }
        while k < 8
            invariant
                k <= 8,
                byte < vstd::arithmetic::power2::pow2(k as nat),
                self.extends(old(self)),
                self.scl_port == scl && self.sda_port == sda && self.n() == n,
                mid == old(self).pins.events() + drive(sda, true, n),
                self.pins.events() == mid + bits_in_ops(scl, sda, n, byte as int, k as nat),
            decreases 8 - k,
        {
            proof {
                vstd::arithmetic::power2::lemma2_to64();
                vstd::arithmetic::power2::lemma_pow2_adds(k as nat, 1);
            }
            self.line(scl, true);
            self.delay();
            let level = self.sda_read();
            let b: u8 = if level { 1 } else { 0 };
            assert(byte * 2 + b < 256) by {
                vstd::arithmetic::power2::lemma_pow2_strictly_increases(k as nat, 8);
            }
            let nb: u8 = byte * 2 + b;
            self.line(scl, false);
            assert((nb as int) / 2 == byte as int && ((nb as int) % 2 == 1) == level);
            assert(self.pins.events() =~= mid + bits_in_ops(scl, sda, n, nb as int, (k + 1) as nat));
            byte = nb;
            k = k + 1;
        }
        self.line(sda, !ack);
        self.line(scl, true);
        self.delay();
        self.line(scl, false);
        self.line(sda, true);
        assert(self.pins.events() =~= old(self).pins.events() + read_byte_ops(scl, sda, n, byte, ack));
        byte
    }
}

impl<P: GpioPort> GpioBitbang<P> {
    /// Address with the write bit, then the data, each byte acknowledged.
    fn write_phase(&mut self, addr: u8, write_buf: &[u8]) -> (r: Result<(), I2cError>)
        requires
            addr <= 0x7F,
        ensures
            final(self).extends(old(self)),
            r is Ok ==> final(self).pins.events() == old(self).pins.events()
                + write_byte_ops(old(self).scl_port, old(self).sda_port, old(self).n(), (addr * 2) as u8, false)
                + write_bytes_acked(old(self).scl_port, old(self).sda_port, old(self).n(), write_buf@),
            r is Err ==> r == Err::<(), I2cError>(I2cError::NackAddress) || r == Err::<(), I2cError>(I2cError::NackData),
    {
        let ghost (scl, sda, n) = (self.scl_port, self.sda_port, self.n());
        if !self.write_byte(addr * 2) {
            return Err(I2cError::NackAddress);
        }
        let ghost e2 = self.pins.events();
        let mut i: usize = 0;
        while i < write_buf.len()
            invariant
                i <= write_buf@.len(),
                self.extends(old(self)),
                self.scl_port == scl && self.sda_port == sda && self.n() == n,
                e2 == old(self).pins.events() + write_byte_ops(scl, sda, n, (addr * 2) as u8, false),
                self.pins.events() == e2 + write_bytes_acked(scl, sda, n, write_buf@.take(i as int)),
            decreases write_buf@.len() - i,
        {
            let b = write_buf[i];
            if !self.write_byte(b) {
                return Err(I2cError::NackData);
            }
            assert(write_buf@.take(i + 1).drop_last() =~= write_buf@.take(i as int));
            assert(self.pins.events() =~= e2 + write_bytes_acked(scl, sda, n, write_buf@.take(i + 1)));
            i = i + 1;
        }
        assert(write_buf@.take(i as int) =~= write_buf@);
        Ok(())
    }

    /// Repeated START, address with the read bit, then the bytes read, each
    /// acknowledged but the last.
    fn read_phase(&mut self, addr: u8, read_buf: &mut Vec<u8>) -> (r: Result<(), I2cError>)
        requires
            addr <= 0x7F,
        ensures
            final(self).extends(old(self)),
            final(read_buf)@.len() == old(read_buf)@.len(),
            r is Ok ==> final(self).pins.events() == old(self).pins.events()
                + start_ops(old(self).scl_port, old(self).sda_port, old(self).n())
                + write_byte_ops(old(self).scl_port, old(self).sda_port, old(self).n(), (addr * 2 + 1) as u8, false)
                + read_bytes_ops(old(self).scl_port, old(self).sda_port, old(self).n(), final(read_buf)@, old(read_buf)@.len() as int),
            r is Err ==> r == Err::<(), I2cError>(I2cError::NackAddress),
    {
        let ghost (scl, sda, n) = (self.scl_port, self.sda_port, self.n());
        let len = read_buf.len();
        self.start_cond();
        if !self.write_byte(addr * 2 + 1) {
            return Err(I2cError::NackAddress);
        }
        let ghost e4 = self.pins.events();
        let mut i: usize = 0;
        while i < len
            invariant
                i <= len,
                len == read_buf@.len(),
                len == old(read_buf)@.len(),
                self.extends(old(self)),
                self.scl_port == scl && self.sda_port == sda && self.n() == n,
                e4 == old(self).pins.events() + start_ops(scl, sda, n) + write_byte_ops(scl, sda, n, (addr * 2 + 1) as u8, false),
                self.pins.events() == e4 + read_bytes_ops(scl, sda, n, read_buf@.take(i as int), len as int),
            decreases len - i,
        {
            let last = i == len - 1;
            let b = self.read_byte(!last);
            let ghost before = read_buf@;
            read_buf.set(i, b);
            assert(read_buf@.take(i as int) =~= before.take(i as int));
            assert(read_buf@.take(i + 1).drop_last() =~= read_buf@.take(i as int));
            assert(self.pins.events() =~= e4 + read_bytes_ops(scl, sda, n, read_buf@.take(i + 1), len as int));
            i = i + 1;
        }
        assert(read_buf@.take(len as int) =~= read_buf@);
        Ok(())
    }

    /// A transfer on the lines; see `I2cMaster::transfer`.
    #[verifier::rlimit(40)]
    pub fn run_transfer(&mut self, addr: u8, write_buf: &[u8], read_buf: &mut Vec<u8>) -> (r: Result<usize, I2cError>)
        requires
            write_buf@.len() + old(read_buf)@.len() <= usize::MAX,
        ensures
            final(self).extends(old(self)),
            final(read_buf)@.len() == old(read_buf)@.len(),
            addr > 0x7F ==> r == Err::<usize, I2cError>(I2cError::InvalidParameter)
                && final(self).pins.events() == old(self).pins.events()
                && final(read_buf)@ == old(read_buf)@,
            r is Ok ==> addr <= 0x7F
                && r == Ok::<usize, I2cError>((write_buf@.len() + old(read_buf)@.len()) as usize)
                && final(self).pins.events() == old(self).pins.events() + transfer_ops(
                    old(self).scl_port, old(self).sda_port, old(self).n(), addr, write_buf@, final(read_buf)@),
            r is Err ==> r == Err::<usize, I2cError>(I2cError::InvalidParameter)
                || r == Err::<usize, I2cError>(I2cError::NackAddress)
                || r == Err::<usize, I2cError>(I2cError::NackData),
    {
        if addr > 0x7F {
            return Err(I2cError::InvalidParameter);
        }
        let ghost (scl, sda, n) = (self.scl_port, self.sda_port, self.n());
        let ghost e0 = old(self).pins.events();
        let ghost w_ops = if write_buf@.len() > 0 {
            write_byte_ops(scl, sda, n, (addr * 2) as u8, false) + write_bytes_acked(scl, sda, n, write_buf@)
        } else {
            Seq::empty()
        };
        self.start_cond();
        let ghost e1 = self.pins.events();
        if write_buf.len() > 0 {
            match self.write_phase(addr, write_buf) {
                Ok(()) => {},
                Err(e) => {
                    self.stop_cond();
                    return Err(e);
                },
            }
        } else {
            assert(self.pins.events() =~= e1 + w_ops);
        }
        let ghost e3 = self.pins.events();
        assert(e3 == e1 + w_ops);
        let len = read_buf.len();
        if len > 0 {
            match self.read_phase(addr, read_buf) {
                Ok(()) => {},
                Err(e) => {
                    self.stop_cond();
                    return Err(e);
                },
            }
        }
        let ghost r_ops = if read_buf@.len() > 0 {
            start_ops(scl, sda, n) + write_byte_ops(scl, sda, n, (addr * 2 + 1) as u8, false)
                + read_bytes_ops(scl, sda, n, read_buf@, read_buf@.len() as int)
        } else {
            Seq::empty()
        };
        let ghost e5 = self.pins.events();
        if len == 0 {
            assert(e5 =~= e3 + r_ops);
        }
        assert(e5 == e3 + r_ops);
        self.stop_cond();
        proof {
            let st = start_ops(scl, sda, n);
            let sp = stop_ops(scl, sda, n);
            vstd::seq_lib::lemma_concat_associative(e0, st, w_ops);
            vstd::seq_lib::lemma_concat_associative(e0, st + w_ops, r_ops);
            vstd::seq_lib::lemma_concat_associative(e0, st + w_ops + r_ops, sp);
            assert(transfer_ops(scl, sda, n, addr, write_buf@, read_buf@) == st + w_ops + r_ops + sp);
        }
        Ok(write_buf.len() + len)
    }

    /// Whether a device acknowledges its address: START, the address with
    /// the write bit, STOP.
    pub fn run_probe(&mut self, addr: u8) -> (present: bool)
        requires
            addr <= 0x7F,
        ensures
            final(self).extends(old(self)),
            final(self).pins.events() == old(self).pins.events()
                + start_ops(old(self).scl_port, old(self).sda_port, old(self).n())
                + write_byte_ops(old(self).scl_port, old(self).sda_port, old(self).n(), (addr * 2) as u8, !present)
                + stop_ops(old(self).scl_port, old(self).sda_port, old(self).n()),
    {
        self.start_cond();
        let ok = self.write_byte(addr * 2);
        self.stop_cond();
        ok
    }
}

impl<P: GpioPort> I2cMaster for GpioBitbang<P> {
    open spec fn transfers(&self) -> Seq<(u8, Seq<u8>, nat, Result<usize, I2cError>, Seq<u8>)> {
        self.transfer_log@
    }

    open spec fn probes(&self) -> Seq<(u8, bool)> {
        self.probe_log@
    }

    fn name(&self) -> (s: &'static str)
        ensures
            s@ == "GPIO Bitbang I2C"@,
    {
        "GPIO Bitbang I2C"
    }

    fn transfer(&mut self, addr: u8, write_buf: &[u8], read_buf: &mut Vec<u8>) -> (r: Result<usize, I2cError>) {
        let ghost before = read_buf@;
        let r = self.run_transfer(addr, write_buf, read_buf);
        proof {
            self.transfer_log@ = self.transfer_log@.push((addr, write_buf@, before.len(), r, read_buf@));
        }
        r
    }

    fn set_speed(&mut self, speed: I2cSpeed)
        ensures
            final(self).speed == speed,
            final(self).scl_port == old(self).scl_port,
            final(self).sda_port == old(self).sda_port,
            final(self).pins == old(self).pins,
    {
        self.speed = speed;
    }

    fn probe(&mut self, addr: u8) -> (present: bool)
        ensures
            final(self).scl_port == old(self).scl_port,
            final(self).sda_port == old(self).sda_port,
            final(self).speed == old(self).speed,
            addr > 0x7F ==> !present && final(self).pins == old(self).pins,
            addr <= 0x7F ==> {
                &&& final(self).pins.events() == old(self).pins.events()
                    + start_ops(old(self).scl_port, old(self).sda_port, old(self).n())
                    + write_byte_ops(old(self).scl_port, old(self).sda_port, old(self).n(), (addr * 2) as u8, !present)
                    + stop_ops(old(self).scl_port, old(self).sda_port, old(self).n())
            },
    {
        if addr > 0x7F {
            proof {
                self.probe_log@ = self.probe_log@.push((addr, false));
            }
            return false;
        }
        let present = self.run_probe(addr);
        proof {
            self.probe_log@ = self.probe_log@.push((addr, present));
        }
        present
    }
}

/// GPIO lines simulated in memory: every access is logged, and reads of SDA
/// return the scripted levels in order, then high (a released line).
pub struct PinRecorder {
    pub log: Vec<PinEvent>,
    pub script: Vec<bool>,
    pub next: usize,
}

impl PinRecorder {
    /// A recorder that answers reads with `script`.
    pub fn new(script: Vec<bool>) -> (r: Self)
        ensures
            r.log@.len() == 0,
            r.script@ == script@,
            r.next == 0,
    {
        PinRecorder { log: Vec::new(), script, next: 0 }
    }
}

impl GpioPort for PinRecorder {
    open spec fn events(&self) -> Seq<PinEvent> {
        self.log@
    }

    fn set_bit0(&mut self, port: u16, high: bool) {
        self.log.push(PinEvent::Drive { port, high });
    }

    fn get_bit0(&mut self, port: u16) -> (high: bool) {
        let high = if self.next < self.script.len() {
            let h = self.script[self.next];
            self.next = self.next + 1;
            h
        } else {
            true
        };
        self.log.push(PinEvent::Sample { port, high });
        high
    }

    fn spin(&mut self, n: u32) {
        self.log.push(PinEvent::Spin(n));
    }
}

} // verus!
