//! The SMBus host controllers driven through their I/O ports: PIIX4 host
//! commands with their idle and completion waits and read-back, and the
//! ICH9 block transfers and probe.
use vstd::prelude::*;
use crate::i2c::{I2cError, I2cMaster, I2cSpeed};
use crate::i2c::smbus::{
    ich9_plan, poll_step, piix4_plan, Ich9Op, Ich9Smbus, Piix4Smbus, PollStep, SmbusReadback, CMD_BLOCK_DATA, CMD_BYTE,
    CMD_BYTE_DATA, CMD_QUICK, CMD_WORD_DATA, CNT_START, SMB_HST_ADD, SMB_HST_BLKDAT, SMB_HST_CMD, SMB_HST_CNT,
    SMB_HST_DAT0, SMB_HST_DAT1, SMB_HST_STS, STS_BUS_ERR, STS_BYTE_DONE, STS_DEV_ERR, STS_FAILED, STS_INTERRUPT,
    STS_INUSE_STS,
};
use crate::port::{PortEvent, PortIo};

verus! {

/// Status polls of a PIIX4 wait before it gives up.
pub const SMBUS_POLLS: u32 = 10_000;

/// Status polls of an ICH9 probe before it gives up.
pub const ICH9_PROBE_POLLS: u32 = 2_000;

/// The value written to the PIIX4 status register to reset the controller.
pub const PIIX4_RESET_STATUS: u8 = 0xFE;

/// The value that clears a finished PIIX4 command's status bits.
pub open spec fn clear_bits() -> u8 {
    STS_INTERRUPT | STS_FAILED | STS_BUS_ERR | STS_DEV_ERR | STS_BYTE_DONE
}

/// The I/O port of register `reg` of a controller at `base` (wrapping
/// within the 16-bit port space).
pub open spec fn smbus_port(base: u16, reg: u16) -> u16 {
    if base + reg > 0xFFFF {
        (base + reg - 0x10000) as u16
    } else {
        (base + reg) as u16
    }
}

fn port_at(base: u16, reg: u16) -> (p: u16)
    ensures
        p == smbus_port(base, reg),
{
    if base as u32 + reg as u32 > 0xFFFF {
        (base as u32 + reg as u32 - 0x10000) as u16
    } else {
        base + reg
    }
}

/// `e` is a read of `port`.
pub open spec fn is_read(e: PortEvent, port: u16) -> bool {
    match e {
        PortEvent::Read { port: p, .. } => p == port,
        _ => false,
    }
}

/// The byte an access carried.
pub open spec fn value_of(e: PortEvent) -> u8 {
    match e {
        PortEvent::Read { value, .. } => value,
        PortEvent::Write { value, .. } => value,
    }
}

/// The accesses of `new` after those of `old`, which it extends.
pub open spec fn after(old: Seq<PortEvent>, new: Seq<PortEvent>) -> Seq<PortEvent> {
    new.subrange(old.len() as int, new.len() as int)
}

/// `new` extends `old`.
pub open spec fn extends(old: Seq<PortEvent>, new: Seq<PortEvent>) -> bool {
    old.len() <= new.len() && new.subrange(0, old.len() as int) == old
}

proof fn lemma_extends_refl(a: Seq<PortEvent>)
    ensures
        extends(a, a),
        after(a, a) == Seq::<PortEvent>::empty(),
{
    assert(a.subrange(0, a.len() as int) =~= a);
    assert(after(a, a) =~= Seq::<PortEvent>::empty());
}

proof fn lemma_extends_push(a: Seq<PortEvent>, b: Seq<PortEvent>, e: PortEvent)
    requires
        extends(a, b),
    ensures
        extends(a, b.push(e)),
        after(a, b.push(e)) == after(a, b).push(e),
{
    assert(b.push(e).subrange(0, a.len() as int) =~= b.subrange(0, a.len() as int));
    assert(after(a, b.push(e)) =~= after(a, b).push(e));
}

proof fn lemma_extends_trans(a: Seq<PortEvent>, b: Seq<PortEvent>, c: Seq<PortEvent>)
    requires
        extends(a, b),
        extends(b, c),
    ensures
        extends(a, c),
        after(a, c) == after(a, b) + after(b, c),
{
    assert(c.subrange(0, a.len() as int) =~= b.subrange(0, a.len() as int));
    assert(after(a, c) =~= after(a, b) + after(b, c));
}

/// A wait for the PIIX4 host to go idle: reads of the status port until one
/// shows the in-use bit clear (the result is then `Ok`), at most
/// `SMBUS_POLLS` of them (the result is then a timeout).
pub open spec fn idle_wait(s: Seq<PortEvent>, sts: u16, r: Result<(), I2cError>) -> bool {
    &&& 1 <= s.len() <= SMBUS_POLLS
    &&& forall|i: int| 0 <= i < s.len() ==> #[trigger] is_read(s[i], sts)
    &&& forall|i: int| 0 <= i < s.len() - 1 ==> value_of(#[trigger] s[i]) & STS_INUSE_STS != 0
    &&& (r is Ok) == (value_of(s.last()) & STS_INUSE_STS == 0)
    &&& r is Err ==> r == Err::<(), I2cError>(I2cError::Timeout) && s.len() == SMBUS_POLLS
}

/// A wait for a PIIX4 command to finish: reads of the status port until one
/// shows the interrupt bit, which is then cleared and judged; or
/// `SMBUS_POLLS` reads without it and a timeout.
pub open spec fn done_wait(s: Seq<PortEvent>, sts: u16, r: Result<(), I2cError>) -> bool {
    ||| {
        &&& s.len() == SMBUS_POLLS
        &&& r == Err::<(), I2cError>(I2cError::Timeout)
        &&& forall|i: int| 0 <= i < s.len() ==> #[trigger] is_read(s[i], sts)
        &&& forall|i: int| 0 <= i < s.len() ==> value_of(#[trigger] s[i]) & STS_INTERRUPT == 0
    }
    ||| {
        &&& 2 <= s.len() <= SMBUS_POLLS + 1
        &&& forall|i: int| 0 <= i < s.len() - 1 ==> #[trigger] is_read(s[i], sts)
        &&& forall|i: int| 0 <= i < s.len() - 2 ==> value_of(#[trigger] s[i]) & STS_INTERRUPT == 0
        &&& value_of(s[s.len() - 2]) & STS_INTERRUPT != 0
        &&& s.last() == PortEvent::Write { port: sts, value: clear_bits() }
        &&& poll_step(value_of(s[s.len() - 2])) == PollStep::Finished(r)
    }
}

/// A PIIX4 host command: the idle wait (a timeout ends it), then the
/// address (shifted up, no read bit), command and control registers, then
/// the completion wait.
pub open spec fn cmd_trace(s: Seq<PortEvent>, base: u16, addr: u8, cmd: u8, prot: u8, r: Result<(), I2cError>) -> bool {
    let sts = smbus_port(base, SMB_HST_STS);
    ||| r == Err::<(), I2cError>(I2cError::Timeout) && idle_wait(s, sts, r)
    ||| exists|k: int|
        {
            &&& 1 <= k && k + 3 <= s.len()
            &&& #[trigger] idle_wait(s.take(k), sts, Ok(()))
            &&& s[k] == PortEvent::Write { port: smbus_port(base, SMB_HST_ADD), value: ((addr * 2) % 256) as u8 }
            &&& s[k + 1] == PortEvent::Write { port: smbus_port(base, SMB_HST_CMD), value: cmd }
            &&& s[k + 2] == PortEvent::Write { port: smbus_port(base, SMB_HST_CNT), value: prot | CNT_START }
            &&& done_wait(s.skip(k + 3), sts, r)
        }
}

/// The writes of a preload list.
pub open spec fn preload_writes(base: u16, pre: Seq<(u16, u8)>) -> Seq<PortEvent> {
    pre.map_values(|p: (u16, u8)| PortEvent::Write { port: smbus_port(base, p.0), value: p.1 })
}

/// The read-back after a successful command, and the count returned.
pub open spec fn readback_trace(
    s: Seq<PortEvent>,
    base: u16,
    rb: SmbusReadback,
    written: nat,
    n: usize,
    old_buf: Seq<u8>,
    new_buf: Seq<u8>,
) -> bool {
    match rb {
        SmbusReadback::Nothing => s.len() == 0 && n == written && new_buf == old_buf,
        SmbusReadback::Byte => {
            &&& s.len() == 1 && is_read(s[0], smbus_port(base, SMB_HST_DAT0))
            &&& n == 1
            &&& new_buf == old_buf.update(0, value_of(s[0]))
        },
        SmbusReadback::Word => {
            &&& s.len() == 2 && is_read(s[0], smbus_port(base, SMB_HST_DAT0))
            &&& is_read(s[1], smbus_port(base, SMB_HST_DAT1))
            &&& n == 2
            &&& new_buf == old_buf.update(0, value_of(s[0])).update(1, value_of(s[1]))
        },
        SmbusReadback::Block => {
            &&& s.len() == n + 1 && is_read(s[0], smbus_port(base, SMB_HST_DAT0))
            &&& n == if (value_of(s[0]) as int) < old_buf.len() { value_of(s[0]) as int } else { old_buf.len() as int }
            &&& new_buf.len() == old_buf.len()
            &&& forall|k: int| 0 <= k < n ==> #[trigger] is_read(s[k + 1], smbus_port(base, (SMB_HST_BLKDAT + k) as u16))
                && new_buf[k] == value_of(s[k + 1])
            &&& forall|k: int| n <= k < new_buf.len() ==> #[trigger] new_buf[k] == old_buf[k]
        },
    }
}

/// The command outcome of a transfer's result.
pub open spec fn unit_result(r: Result<usize, I2cError>) -> Result<(), I2cError> {
    match r {
        Ok(_) => Ok(()),
        Err(e) => Err(e),
    }
}

/// The accesses of a transfer that the host can carry: the preload writes,
/// then the host command, then (when it succeeded) the read-back; a failed
/// command leaves the buffer as it was.
pub open spec fn staged(
    s: Seq<PortEvent>,
    base: u16,
    addr: u8,
    pre: Seq<(u16, u8)>,
    cmd: u8,
    prot: u8,
    rb: SmbusReadback,
    written: nat,
    old_buf: Seq<u8>,
    new_buf: Seq<u8>,
    r: Result<usize, I2cError>,
) -> bool {
    exists|m: int|
        {
            &&& pre.len() <= m <= s.len()
            &&& s.take(pre.len() as int) == preload_writes(base, pre)
            &&& #[trigger] cmd_trace(s.subrange(pre.len() as int, m), base, addr, cmd, prot, unit_result(r))
            &&& r is Err ==> m == s.len() && new_buf == old_buf
            &&& r matches Ok(n) ==> readback_trace(s.skip(m), base, rb, written, n, old_buf, new_buf)
        }
}

/// The accesses and result of a PIIX4 transfer of `w` then `old_buf.len()`
/// bytes to `addr`: a shape SMBus cannot carry fails at once (a
/// write-then-read still loads its command register first); otherwise the
/// preload, the host command and, when it succeeds, the read-back.
pub open spec fn piix4_transfer_trace(
    s: Seq<PortEvent>,
    base: u16,
    addr: u8,
    w: Seq<u8>,
    old_buf: Seq<u8>,
    new_buf: Seq<u8>,
    r: Result<usize, I2cError>,
) -> bool {
    match piix4_plan(addr, w, old_buf.len()) {
        Err(e) => {
            &&& r == Err::<usize, I2cError>(e)
            &&& new_buf == old_buf
            &&& s.len() == 0 || (addr <= 0x7F && w.len() > 0 && s == seq![
                PortEvent::Write { port: smbus_port(base, SMB_HST_CMD), value: w[0] },
            ])
        },
        Ok((pre, cmd, prot, rb, written)) => staged(s, base, addr, pre, cmd, prot, rb, written, old_buf, new_buf, r),
    }
}

/// A PIIX4 SMBus host controller on byte-wide I/O ports.
pub struct Piix4Host<P: PortIo> {
    pub host: Piix4Smbus,
    pub ports: P,
    /// The transfers asked of the master so far.
    pub transfer_log: Ghost<Seq<(u8, Seq<u8>, nat, Result<usize, I2cError>, Seq<u8>)>>,
    /// The probes asked of the master so far.
    pub probe_log: Ghost<Seq<(u8, bool)>>,
}

impl<P: PortIo> Piix4Host<P> {
    pub fn new(host: Piix4Smbus, ports: P) -> (h: Self)
        ensures
            h.host == host,
            h.ports == ports,
            h.transfer_log@.len() == 0,
            h.probe_log@.len() == 0,
    {
        Piix4Host { host, ports, transfer_log: Ghost(Seq::empty()), probe_log: Ghost(Seq::empty()) }
    }

    /// Resets the controller: writes the reset value to its status register.
    pub fn reset(&mut self)
        ensures
            final(self).host == old(self).host,
            final(self).ports.events() == old(self).ports.events().push(
                PortEvent::Write { port: smbus_port(old(self).host.base_port, SMB_HST_STS), value: PIIX4_RESET_STATUS },
            ),
    {
        let p = port_at(self.host.base_port, SMB_HST_STS);
        self.ports.write_port(p, PIIX4_RESET_STATUS);
    }

    fn read8(&mut self, reg: u16) -> (v: u8)
        ensures
            final(self).host == old(self).host,
            final(self).ports.events() == old(self).ports.events().push(
                PortEvent::Read { port: smbus_port(old(self).host.base_port, reg), value: v },
            ),
    {
        let p = port_at(self.host.base_port, reg);
        self.ports.read_port(p)
    }

    fn write8(&mut self, reg: u16, v: u8)
        ensures
            final(self).host == old(self).host,
            final(self).ports.events() == old(self).ports.events().push(
                PortEvent::Write { port: smbus_port(old(self).host.base_port, reg), value: v },
            ),
    {
        let p = port_at(self.host.base_port, reg);
        self.ports.write_port(p, v);
    }

    /// Waits for the host to go idle.
    fn wait_idle(&mut self) -> (r: Result<(), I2cError>)
        ensures
            final(self).host == old(self).host,
            extends(old(self).ports.events(), final(self).ports.events()),
            idle_wait(
                after(old(self).ports.events(), final(self).ports.events()),
                smbus_port(old(self).host.base_port, SMB_HST_STS),
                r,
            ),
    {
        let ghost e0 = self.ports.events();
        let ghost sts = smbus_port(self.host.base_port, SMB_HST_STS);
        proof {
            lemma_extends_refl(e0);
        }
        let mut i: u32 = 0;
        while i < SMBUS_POLLS
            invariant
                i <= SMBUS_POLLS,
                self.host == old(self).host,
                sts == smbus_port(self.host.base_port, SMB_HST_STS),
                e0 == old(self).ports.events(),
                extends(e0, self.ports.events()),
                after(e0, self.ports.events()).len() == i,
                forall|j: int| 0 <= j < i ==> #[trigger] is_read(after(e0, self.ports.events())[j], sts),
                forall|j: int| 0 <= j < i ==> value_of(#[trigger] after(e0, self.ports.events())[j]) & STS_INUSE_STS != 0,
            decreases SMBUS_POLLS - i,
        {
            let ghost before = self.ports.events();
            let v = self.read8(SMB_HST_STS);
            proof {
                lemma_extends_push(e0, before, PortEvent::Read { port: sts, value: v });
                let t = after(e0, self.ports.events());
                assert(t[i as int] == PortEvent::Read { port: sts, value: v });
                assert forall|j: int| 0 <= j < i implies t[j] == after(e0, before)[j] by {}
            }
            if v & STS_INUSE_STS == 0 {
                return Ok(());
            }
            i = i + 1;
        }
        Err(I2cError::Timeout)
    }

    /// Waits for the running command to finish and judges its status.
    fn poll_done(&mut self) -> (r: Result<(), I2cError>)
        ensures
            final(self).host == old(self).host,
            extends(old(self).ports.events(), final(self).ports.events()),
            done_wait(
                after(old(self).ports.events(), final(self).ports.events()),
                smbus_port(old(self).host.base_port, SMB_HST_STS),
                r,
            ),
    {
        let ghost e0 = self.ports.events();
        let ghost sts = smbus_port(self.host.base_port, SMB_HST_STS);
        proof {
            lemma_extends_refl(e0);
        }
        let mut i: u32 = 0;
        while i < SMBUS_POLLS
            invariant
                i <= SMBUS_POLLS,
                self.host == old(self).host,
                sts == smbus_port(self.host.base_port, SMB_HST_STS),
                e0 == old(self).ports.events(),
                extends(e0, self.ports.events()),
                after(e0, self.ports.events()).len() == i,
                forall|j: int| 0 <= j < i ==> #[trigger] is_read(after(e0, self.ports.events())[j], sts),
                forall|j: int| 0 <= j < i ==> value_of(#[trigger] after(e0, self.ports.events())[j]) & STS_INTERRUPT == 0,
            decreases SMBUS_POLLS - i,
        {
            let ghost before = self.ports.events();
            let v = self.read8(SMB_HST_STS);
            proof {
                lemma_extends_push(e0, before, PortEvent::Read { port: sts, value: v });
                let t = after(e0, self.ports.events());
                assert(t[i as int] == PortEvent::Read { port: sts, value: v });
                assert forall|j: int| 0 <= j < i implies t[j] == after(e0, before)[j] by {}
            }
            if v & STS_INTERRUPT != 0 {
                let ghost mid = self.ports.events();
                self.write8(SMB_HST_STS, STS_INTERRUPT | STS_FAILED | STS_BUS_ERR | STS_DEV_ERR | STS_BYTE_DONE);
                let step = Piix4Smbus::poll_status(v);
                proof {
                    lemma_extends_push(e0, mid, PortEvent::Write { port: sts, value: clear_bits() });
                    let t = after(e0, self.ports.events());
                    assert forall|j: int| 0 <= j <= i implies t[j] == after(e0, mid)[j] by {}
                    assert(t.len() == i + 2);
                    assert(t[t.len() - 2] == PortEvent::Read { port: sts, value: v });
                }
                return match step {
                    PollStep::Finished(outcome) => outcome,
                    PollStep::Pending => Err(I2cError::Timeout),
                };
            }
            i = i + 1;
        }
        Err(I2cError::Timeout)
    }

    /// Runs one host command: waits for idle, loads the address, command and
    /// control registers and waits for completion.
    fn exec_cmd(&mut self, addr: u8, cmd: u8, prot: u8) -> (r: Result<(), I2cError>)
        ensures
            final(self).host == old(self).host,
            extends(old(self).ports.events(), final(self).ports.events()),
            cmd_trace(after(old(self).ports.events(), final(self).ports.events()), old(self).host.base_port, addr, cmd, prot, r),
    {
        let ghost e0 = self.ports.events();
        let ghost base = self.host.base_port;
        let ghost sts = smbus_port(base, SMB_HST_STS);
        match self.wait_idle() {
            Ok(()) => {},
            Err(e) => {
                return Err(e);
            },
        }
        let ghost e1 = self.ports.events();
        let a = addr << 1;
        self.write8(SMB_HST_ADD, a);
        self.write8(SMB_HST_CMD, cmd);
        self.write8(SMB_HST_CNT, prot | CNT_START);
        let ghost e2 = self.ports.events();
        let r = self.poll_done();
        proof {
            let e = self.ports.events();
            assert(a == ((addr * 2) % 256) as u8) by (bit_vector)
                requires
                    a == addr << 1,;
            let w0 = PortEvent::Write { port: smbus_port(base, SMB_HST_ADD), value: a };
            let w1 = PortEvent::Write { port: smbus_port(base, SMB_HST_CMD), value: cmd };
            let w2 = PortEvent::Write { port: smbus_port(base, SMB_HST_CNT), value: prot | CNT_START };
            assert(e2 == e1.push(w0).push(w1).push(w2));
            lemma_extends_refl(e1);
            lemma_extends_push(e1, e1, w0);
            lemma_extends_push(e1, e1.push(w0), w1);
            lemma_extends_push(e1, e1.push(w0).push(w1), w2);
            lemma_extends_trans(e0, e1, e2);
            lemma_extends_trans(e0, e2, e);
            let s = after(e0, e);
            let k = after(e0, e1).len() as int;
            assert(after(e1, e2) =~= seq![w0, w1, w2]);
            assert(s =~= after(e0, e1) + seq![w0, w1, w2] + after(e2, e));
            assert(s.take(k) =~= after(e0, e1));
            assert(s.skip(k + 3) =~= after(e2, e));
            assert(s[k] == w0 && s[k + 1] == w1 && s[k + 2] == w2);
            assert(idle_wait(s.take(k), sts, Ok(())));
        }
        r
    }

    /// The host command after a preload, for a transfer that reads nothing
    /// back.
    fn finish_write(
        &mut self,
        addr: u8,
        prot: u8,
        written: usize,
        read_buf: &Vec<u8>,
        Ghost(e0): Ghost<Seq<PortEvent>>,
        Ghost(pre): Ghost<Seq<(u16, u8)>>,
    ) -> (r: Result<usize, I2cError>)
        requires
            extends(e0, old(self).ports.events()),
            after(e0, old(self).ports.events()) == preload_writes(old(self).host.base_port, pre),
        ensures
            final(self).host == old(self).host,
            extends(e0, final(self).ports.events()),
            staged(
                after(e0, final(self).ports.events()),
                old(self).host.base_port,
                addr,
                pre,
                0,
                prot,
                SmbusReadback::Nothing,
                written as nat,
                read_buf@,
                read_buf@,
                r,
            ),
    {
        let ghost e1 = self.ports.events();
        let ghost base = self.host.base_port;
        let x = self.exec_cmd(addr, 0, prot);
        let r = match x {
            Ok(()) => Ok(written),
            Err(e) => Err(e),
        };
        proof {
            let e = self.ports.events();
            lemma_extends_trans(e0, e1, e);
            let s = after(e0, e);
            let p = after(e0, e1);
            let c = after(e1, e);
            assert(p.len() == pre.len());
            assert(s.take(pre.len() as int) =~= p);
            assert(s.subrange(pre.len() as int, s.len() as int) =~= c);
            assert(s.skip(s.len() as int) =~= Seq::<PortEvent>::empty());
            assert(cmd_trace(s.subrange(pre.len() as int, s.len() as int), base, addr, 0, prot, unit_result(r)));
        }
        r
    }

    /// The host command after a preload, then the read-back `rb` into
    /// `read_buf`.
    fn command_then_read(
        &mut self,
        addr: u8,
        cmd: u8,
        prot: u8,
        rb: SmbusReadback,
        read_buf: &mut Vec<u8>,
        Ghost(e0): Ghost<Seq<PortEvent>>,
        Ghost(pre): Ghost<Seq<(u16, u8)>>,
    ) -> (r: Result<usize, I2cError>)
        requires
            extends(e0, old(self).ports.events()),
            after(e0, old(self).ports.events()) == preload_writes(old(self).host.base_port, pre),
            rb != SmbusReadback::Nothing,
            rb == SmbusReadback::Byte ==> old(read_buf)@.len() >= 1,
            rb == SmbusReadback::Word ==> old(read_buf)@.len() >= 2,
        ensures
            final(self).host == old(self).host,
            final(read_buf)@.len() == old(read_buf)@.len(),
            extends(e0, final(self).ports.events()),
            staged(
                after(e0, final(self).ports.events()),
                old(self).host.base_port,
                addr,
                pre,
                cmd,
                prot,
                rb,
                0,
                old(read_buf)@,
                final(read_buf)@,
                r,
            ),
    {
        let ghost e1 = self.ports.events();
        let ghost base = self.host.base_port;
        let ghost buf0 = read_buf@;
        let x = self.exec_cmd(addr, cmd, prot);
        let ghost e2 = self.ports.events();
        proof {
            lemma_extends_trans(e0, e1, e2);
        }
        match x {
            Ok(()) => {},
            Err(e) => {
                let r: Result<usize, I2cError> = Err(e);
                proof {
                    let s = after(e0, e2);
                    assert(after(e0, e1).len() == pre.len());
                    assert(s.take(pre.len() as int) =~= after(e0, e1));
                    assert(s.subrange(pre.len() as int, s.len() as int) =~= after(e1, e2));
                    assert(cmd_trace(s.subrange(pre.len() as int, s.len() as int), base, addr, cmd, prot, unit_result(r)));
                }
                return r;
            },
        }
        let r = match rb {
            SmbusReadback::Byte => {
                let v = self.read8(SMB_HST_DAT0);
                read_buf.set(0, v);
                proof {
                    lemma_extends_refl(e2);
                    lemma_extends_push(e2, e2, PortEvent::Read { port: smbus_port(base, SMB_HST_DAT0), value: v });
                    assert(after(e2, self.ports.events()) =~= seq![PortEvent::Read { port: smbus_port(base, SMB_HST_DAT0), value: v }]);
                }
                Ok(1)
            },
            SmbusReadback::Word => {
                let v0 = self.read8(SMB_HST_DAT0);
                let v1 = self.read8(SMB_HST_DAT1);
                read_buf.set(0, v0);
                read_buf.set(1, v1);
                proof {
                    let r0 = PortEvent::Read { port: smbus_port(base, SMB_HST_DAT0), value: v0 };
                    let r1 = PortEvent::Read { port: smbus_port(base, SMB_HST_DAT1), value: v1 };
                    lemma_extends_refl(e2);
                    lemma_extends_push(e2, e2, r0);
                    lemma_extends_push(e2, e2.push(r0), r1);
                    assert(after(e2, self.ports.events()) =~= seq![r0, r1]);
                }
                Ok(2)
            },
            _ => {
                let count = self.read8(SMB_HST_DAT0);
                let ghost e3 = self.ports.events();
                proof {
                    lemma_extends_refl(e2);
                    lemma_extends_push(e2, e2, PortEvent::Read { port: smbus_port(base, SMB_HST_DAT0), value: count });
                    lemma_extends_refl(e3);
                }
                let n: usize = if (count as usize) < read_buf.len() {
                    count as usize
                } else {
                    read_buf.len()
                };
                let mut i: usize = 0;
                while i < n
                    invariant
                        i <= n,
                        n <= count,
                        n <= read_buf@.len(),
                        read_buf@.len() == buf0.len(),
                        self.host == old(self).host,
                        base == self.host.base_port,
                        extends(e3, self.ports.events()),
                        after(e3, self.ports.events()).len() == i,
                        forall|k: int| 0 <= k < i ==> #[trigger] is_read(after(e3, self.ports.events())[k], smbus_port(base, (SMB_HST_BLKDAT + k) as u16))
                            && read_buf@[k] == value_of(after(e3, self.ports.events())[k]),
                        forall|k: int| i <= k < read_buf@.len() ==> #[trigger] read_buf@[k] == buf0[k],
                    decreases n - i,
                {
                    let ghost before = self.ports.events();
                    let ghost buf_before = read_buf@;
                    let reg = SMB_HST_BLKDAT + i as u16;
                    let v = self.read8(reg);
                    read_buf.set(i, v);
                    proof {
                        lemma_extends_push(e3, before, PortEvent::Read { port: smbus_port(base, reg), value: v });
                        let t = after(e3, self.ports.events());
                        assert forall|k: int| 0 <= k < i implies t[k] == after(e3, before)[k] && read_buf@[k] == buf_before[k] by {}
                        assert(t[i as int] == PortEvent::Read { port: smbus_port(base, reg), value: v });
                        assert(reg == (SMB_HST_BLKDAT + i) as u16);
                    }
                    i = i + 1;
                }
                proof {
                    let t = after(e2, self.ports.events());
                    lemma_extends_trans(e2, e3, self.ports.events());
                    assert(after(e2, e3) =~= seq![PortEvent::Read { port: smbus_port(base, SMB_HST_DAT0), value: count }]);
                    assert forall|k: int| 0 <= k < n implies #[trigger] is_read(t[k + 1], smbus_port(base, (SMB_HST_BLKDAT + k) as u16))
                        && read_buf@[k] == value_of(t[k + 1]) by {
                        assert(t[k + 1] == after(e3, self.ports.events())[k]);
                        assert(is_read(after(e3, self.ports.events())[k], smbus_port(base, (SMB_HST_BLKDAT + k) as u16)));
                    }
                }
                Ok(n)
            },
        };
        proof {
            let e = self.ports.events();
            lemma_extends_trans(e0, e2, e);
            let s = after(e0, e);
            let m = after(e0, e2).len() as int;
            assert(after(e0, e1).len() == pre.len());
            assert(s.take(pre.len() as int) =~= after(e0, e1));
            assert(s.subrange(pre.len() as int, m) =~= after(e1, e2));
            assert(s.skip(m) =~= after(e2, e));
            assert(cmd_trace(s.subrange(pre.len() as int, m), base, addr, cmd, prot, unit_result(r)));
        }
        r
    }

    /// One transfer: a write of `write_buf` to `addr` then a read into
    /// `read_buf`, run as the SMBus protocol its shape calls for.
    pub fn run_transfer(&mut self, addr: u8, write_buf: &[u8], read_buf: &mut Vec<u8>) -> (r: Result<usize, I2cError>)
        ensures
            final(self).host == old(self).host,
            final(read_buf)@.len() == old(read_buf)@.len(),
            extends(old(self).ports.events(), final(self).ports.events()),
            piix4_transfer_trace(
                after(old(self).ports.events(), final(self).ports.events()),
                old(self).host.base_port,
                addr,
                write_buf@,
                old(read_buf)@,
                final(read_buf)@,
                r,
            ),
    {
        let ghost e0 = self.ports.events();
        let ghost base = self.host.base_port;
        proof {
            lemma_extends_refl(e0);
        }
        let wl = write_buf.len();
        let rl = read_buf.len();
        if addr > 0x7F {
            return Err(I2cError::InvalidParameter);
        }
        if wl == 0 && rl > 0 {
            proof {
                assert(after(e0, self.ports.events()) =~= preload_writes(base, Seq::empty()));
            }
            if rl == 1 {
                self.command_then_read(addr, 0, CMD_BYTE, SmbusReadback::Byte, read_buf, Ghost(e0), Ghost(Seq::empty()))
            } else if rl <= 32 {
                self.command_then_read(addr, 0, CMD_BLOCK_DATA, SmbusReadback::Block, read_buf, Ghost(e0), Ghost(Seq::empty()))
            } else {
                Err(I2cError::InvalidParameter)
            }
        } else if wl > 0 && rl == 0 {
            if wl == 1 {
                let b0 = write_buf[0];
                self.write8(SMB_HST_DAT0, b0);
                let ghost pre = seq![(SMB_HST_DAT0, b0)];
                proof {
                    lemma_extends_push(e0, e0, PortEvent::Write { port: smbus_port(base, SMB_HST_DAT0), value: b0 });
                    assert(after(e0, self.ports.events()) =~= preload_writes(base, pre));
                }
                self.finish_write(addr, CMD_BYTE, 1, read_buf, Ghost(e0), Ghost(pre))
            } else if wl == 2 {
                let b0 = write_buf[0];
                let b1 = write_buf[1];
                self.write8(SMB_HST_DAT0, b0);
                self.write8(SMB_HST_DAT1, b1);
                let ghost pre = seq![(SMB_HST_DAT0, b0), (SMB_HST_DAT1, b1)];
                proof {
                    let w0 = PortEvent::Write { port: smbus_port(base, SMB_HST_DAT0), value: b0 };
                    let w1 = PortEvent::Write { port: smbus_port(base, SMB_HST_DAT1), value: b1 };
                    lemma_extends_push(e0, e0, w0);
                    lemma_extends_push(e0, e0.push(w0), w1);
                    assert(after(e0, self.ports.events()) =~= preload_writes(base, pre));
                }
                self.finish_write(addr, CMD_WORD_DATA, 2, read_buf, Ghost(e0), Ghost(pre))
            } else if wl <= 32 {
                self.write8(SMB_HST_DAT0, wl as u8);
                proof {
                    lemma_extends_push(e0, e0, PortEvent::Write { port: smbus_port(base, SMB_HST_DAT0), value: wl as u8 });
                    assert(after(e0, self.ports.events()) =~= preload_writes(
                        base,
                        seq![(SMB_HST_DAT0, wl as u8)] + Seq::new(0, |k: int| ((SMB_HST_BLKDAT + k) as u16, write_buf@[k])),
                    ));
                }
                let mut i: usize = 0;
                while i < wl
                    invariant
                        i <= wl,
                        wl == write_buf@.len(),
                        wl <= 32,
                        self.host == old(self).host,
                        base == self.host.base_port,
                        e0 == old(self).ports.events(),
                        extends(e0, self.ports.events()),
                        after(e0, self.ports.events()) == preload_writes(
                            base,
                            seq![(SMB_HST_DAT0, wl as u8)] + Seq::new(
                                i as nat,
                                |k: int| ((SMB_HST_BLKDAT + k) as u16, write_buf@[k]),
                            ),
                        ),
                    decreases wl - i,
                {
                    let ghost before = self.ports.events();
                    let reg = SMB_HST_BLKDAT + i as u16;
                    let b = write_buf[i];
                    self.write8(reg, b);
                    proof {
                        lemma_extends_push(e0, before, PortEvent::Write { port: smbus_port(base, reg), value: b });
                        assert(after(e0, self.ports.events()) =~= preload_writes(
                            base,
                            seq![(SMB_HST_DAT0, wl as u8)] + Seq::new(
                                (i + 1) as nat,
                                |k: int| ((SMB_HST_BLKDAT + k) as u16, write_buf@[k]),
                            ),
                        ));
                    }
                    i = i + 1;
                }
                let ghost pre = crate::i2c::smbus::block_preload(write_buf@);
                assert(seq![(SMB_HST_DAT0, wl as u8)] + Seq::new(
                    wl as nat,
                    |k: int| ((SMB_HST_BLKDAT + k) as u16, write_buf@[k]),
                ) =~= pre);
                self.finish_write(addr, CMD_BLOCK_DATA, wl, read_buf, Ghost(e0), Ghost(pre))
            } else {
                Err(I2cError::InvalidParameter)
            }
        } else if wl > 0 && rl > 0 {
            let cmd = write_buf[0];
            self.write8(SMB_HST_CMD, cmd);
            let ghost pre = seq![(SMB_HST_CMD, cmd)];
            proof {
                lemma_extends_push(e0, e0, PortEvent::Write { port: smbus_port(base, SMB_HST_CMD), value: cmd });
                assert(after(e0, self.ports.events()) =~= preload_writes(base, pre));
            }
            if rl == 1 {
                self.command_then_read(addr, cmd, CMD_BYTE_DATA, SmbusReadback::Byte, read_buf, Ghost(e0), Ghost(pre))
            } else if rl == 2 {
                self.command_then_read(addr, cmd, CMD_WORD_DATA, SmbusReadback::Word, read_buf, Ghost(e0), Ghost(pre))
            } else if rl <= 32 {
                self.command_then_read(addr, cmd, CMD_BLOCK_DATA, SmbusReadback::Block, read_buf, Ghost(e0), Ghost(pre))
            } else {
                assert(after(e0, self.ports.events()) =~= seq![
                    PortEvent::Write { port: smbus_port(base, SMB_HST_CMD), value: write_buf@[0] },
                ]);
                Err(I2cError::InvalidParameter)
            }
        } else {
            proof {
                assert(after(e0, self.ports.events()) =~= preload_writes(base, Seq::empty()));
            }
            self.finish_write(addr, CMD_QUICK, 0, read_buf, Ghost(e0), Ghost(Seq::empty()))
        }
    }
}

impl<P: PortIo> Piix4Host<P> {
    /// Whether a device acknowledges a quick command at `addr`.
    pub fn run_probe(&mut self, addr: u8) -> (present: bool)
        ensures
            final(self).host == old(self).host,
            extends(old(self).ports.events(), final(self).ports.events()),
            exists|r: Result<(), I2cError>|
                #[trigger] cmd_trace(
                    after(old(self).ports.events(), final(self).ports.events()),
                    old(self).host.base_port,
                    addr,
                    0,
                    CMD_QUICK,
                    r,
                ) && present == (r is Ok),
    {
        let r = self.exec_cmd(addr, 0, CMD_QUICK);
        r.is_ok()
    }
}

impl<P: PortIo> I2cMaster for Piix4Host<P> {
    open spec fn transfers(&self) -> Seq<(u8, Seq<u8>, nat, Result<usize, I2cError>, Seq<u8>)> {
        self.transfer_log@
    }

    open spec fn probes(&self) -> Seq<(u8, bool)> {
        self.probe_log@
    }

    fn name(&self) -> (s: &'static str)
        ensures
            s@ == "PIIX4 SMBus"@,
    {
        "PIIX4 SMBus"
    }

    fn transfer(&mut self, addr: u8, write_buf: &[u8], read_buf: &mut Vec<u8>) -> (r: Result<usize, I2cError>) {
        let ghost tl = self.transfer_log@;
        let ghost pl = self.probe_log@;
        let ghost before = read_buf@;
        let r = self.run_transfer(addr, write_buf, read_buf);
        self.transfer_log = Ghost(tl.push((addr, write_buf@, before.len(), r, read_buf@)));
        self.probe_log = Ghost(pl);
        r
    }

    /// The host runs at its fixed clock: nothing changes.
    fn set_speed(&mut self, speed: I2cSpeed)
        ensures
            *final(self) == *old(self),
    {
    }

    fn probe(&mut self, addr: u8) -> (present: bool) {
        let ghost tl = self.transfer_log@;
        let ghost pl = self.probe_log@;
        let present = self.run_probe(addr);
        self.transfer_log = Ghost(tl);
        self.probe_log = Ghost(pl.push((addr, present)));
        present
    }
}

/// The accesses and result of an ICH9 transfer of `w` then `old_buf.len()`
/// bytes to `addr`: a block write loads the address, the first byte as the
/// command and starts the block protocol; a block read loads the address
/// with the read bit, starts the protocol and reads the block data
/// registers; any other shape fails at once.
pub open spec fn ich9_transfer_trace(
    s: Seq<PortEvent>,
    base: u16,
    addr: u8,
    w: Seq<u8>,
    old_buf: Seq<u8>,
    new_buf: Seq<u8>,
    r: Result<usize, I2cError>,
) -> bool {
    match ich9_plan(addr, w, old_buf.len()) {
        Err(e) => r == Err::<usize, I2cError>(e) && s.len() == 0 && new_buf == old_buf,
        Ok(Ich9Op::BlockWrite { address, command, count }) => {
            &&& r == Ok::<usize, I2cError>(count)
            &&& new_buf == old_buf
            &&& s == seq![
                PortEvent::Write { port: smbus_port(base, SMB_HST_ADD), value: address },
                PortEvent::Write { port: smbus_port(base, SMB_HST_CMD), value: command },
                PortEvent::Write { port: smbus_port(base, SMB_HST_CNT), value: CMD_BLOCK_DATA | CNT_START },
            ]
        },
        Ok(Ich9Op::BlockRead { address, count }) => {
            &&& r == Ok::<usize, I2cError>(count)
            &&& new_buf.len() == old_buf.len()
            &&& s.len() == count + 2
            &&& s[0] == PortEvent::Write { port: smbus_port(base, SMB_HST_ADD), value: address }
            &&& s[1] == PortEvent::Write { port: smbus_port(base, SMB_HST_CNT), value: CMD_BLOCK_DATA | CNT_START }
            &&& forall|k: int| 0 <= k < count ==> #[trigger] is_read(s[k + 2], smbus_port(base, (SMB_HST_BLKDAT + k) as u16))
                && new_buf[k] == value_of(s[k + 2])
        },
    }
}

/// An ICH9 probe: the address (shifted up) and a quick command, then reads
/// of the status port until one shows the interrupt bit, at most
/// `ICH9_PROBE_POLLS`; the device is there when that read shows no failure.
pub open spec fn ich9_probe_trace(s: Seq<PortEvent>, base: u16, addr: u8, present: bool) -> bool {
    let reads = s.skip(2);
    let sts = smbus_port(base, SMB_HST_STS);
    &&& s.len() >= 3
    &&& s[0] == PortEvent::Write { port: smbus_port(base, SMB_HST_ADD), value: ((addr * 2) % 256) as u8 }
    &&& s[1] == PortEvent::Write { port: smbus_port(base, SMB_HST_CNT), value: CNT_START }
    &&& reads.len() <= ICH9_PROBE_POLLS
    &&& forall|i: int| 0 <= i < reads.len() ==> #[trigger] is_read(reads[i], sts)
    &&& forall|i: int| 0 <= i < reads.len() - 1 ==> value_of(#[trigger] reads[i]) & STS_INTERRUPT == 0
    &&& value_of(reads.last()) & STS_INTERRUPT == 0 ==> reads.len() == ICH9_PROBE_POLLS && !present
    &&& value_of(reads.last()) & STS_INTERRUPT != 0 ==> present == (value_of(reads.last()) & STS_FAILED == 0)
}

/// An ICH9 SMBus host controller on byte-wide I/O ports.
pub struct Ich9Host<P: PortIo> {
    pub host: Ich9Smbus,
    pub ports: P,
    /// The transfers asked of the master so far.
    pub transfer_log: Ghost<Seq<(u8, Seq<u8>, nat, Result<usize, I2cError>, Seq<u8>)>>,
    /// The probes asked of the master so far.
    pub probe_log: Ghost<Seq<(u8, bool)>>,
}

impl<P: PortIo> Ich9Host<P> {
    pub fn new(host: Ich9Smbus, ports: P) -> (h: Self)
        ensures
            h.host == host,
            h.ports == ports,
            h.transfer_log@.len() == 0,
            h.probe_log@.len() == 0,
    {
        Ich9Host { host, ports, transfer_log: Ghost(Seq::empty()), probe_log: Ghost(Seq::empty()) }
    }

    fn write8(&mut self, reg: u16, v: u8)
        ensures
            final(self).host == old(self).host,
            final(self).ports.events() == old(self).ports.events().push(
                PortEvent::Write { port: smbus_port(old(self).host.base_port, reg), value: v },
            ),
    {
        let p = port_at(self.host.base_port, reg);
        self.ports.write_port(p, v);
    }

    fn read8(&mut self, reg: u16) -> (v: u8)
        ensures
            final(self).host == old(self).host,
            final(self).ports.events() == old(self).ports.events().push(
                PortEvent::Read { port: smbus_port(old(self).host.base_port, reg), value: v },
            ),
    {
        let p = port_at(self.host.base_port, reg);
        self.ports.read_port(p)
    }

    /// One transfer, as a block write or a block read.
    pub fn run_transfer(&mut self, addr: u8, write_buf: &[u8], read_buf: &mut Vec<u8>) -> (r: Result<usize, I2cError>)
        ensures
            final(self).host == old(self).host,
            final(read_buf)@.len() == old(read_buf)@.len(),
            extends(old(self).ports.events(), final(self).ports.events()),
            ich9_transfer_trace(
                after(old(self).ports.events(), final(self).ports.events()),
                old(self).host.base_port,
                addr,
                write_buf@,
                old(read_buf)@,
                final(read_buf)@,
                r,
            ),
    {
        let ghost e0 = self.ports.events();
        let ghost base = self.host.base_port;
        proof {
            lemma_extends_refl(e0);
        }
        if addr > 0x7F {
            return Err(I2cError::InvalidParameter);
        }
        let wl = write_buf.len();
        let rl = read_buf.len();
        if wl > 0 && rl == 0 && wl <= 32 {
            self.write8(SMB_HST_ADD, addr * 2);
            self.write8(SMB_HST_CMD, write_buf[0]);
            self.write8(SMB_HST_CNT, CMD_BLOCK_DATA | CNT_START);
            proof {
                assert(self.ports.events().subrange(0, e0.len() as int) =~= e0);
                assert(after(e0, self.ports.events()) =~= seq![
                    PortEvent::Write { port: smbus_port(base, SMB_HST_ADD), value: (addr * 2) as u8 },
                    PortEvent::Write { port: smbus_port(base, SMB_HST_CMD), value: write_buf@[0] },
                    PortEvent::Write { port: smbus_port(base, SMB_HST_CNT), value: CMD_BLOCK_DATA | CNT_START },
                ]);
            }
            return Ok(wl);
        }
        if wl == 0 && rl > 0 && rl <= 32 {
            self.write8(SMB_HST_ADD, addr * 2 + 1);
            self.write8(SMB_HST_CNT, CMD_BLOCK_DATA | CNT_START);
            let ghost e1 = self.ports.events();
            let ghost buf0 = read_buf@;
            proof {
                lemma_extends_refl(e1);
                assert(extends(e0, e1)) by {
                    assert(e1.subrange(0, e0.len() as int) =~= e0);
                }
            }
            let mut i: usize = 0;
            while i < rl
                invariant
                    i <= rl,
                    rl <= 32,
                    rl == read_buf@.len(),
                    rl == buf0.len(),
                    self.host == old(self).host,
                    base == self.host.base_port,
                    extends(e1, self.ports.events()),
                    after(e1, self.ports.events()).len() == i,
                    forall|k: int| 0 <= k < i ==> #[trigger] is_read(after(e1, self.ports.events())[k], smbus_port(base, (SMB_HST_BLKDAT + k) as u16))
                        && read_buf@[k] == value_of(after(e1, self.ports.events())[k]),
                decreases rl - i,
            {
                let ghost before = self.ports.events();
                let ghost buf_before = read_buf@;
                let reg = SMB_HST_BLKDAT + i as u16;
                let v = self.read8(reg);
                read_buf.set(i, v);
                proof {
                    lemma_extends_push(e1, before, PortEvent::Read { port: smbus_port(base, reg), value: v });
                    let t = after(e1, self.ports.events());
                    assert forall|k: int| 0 <= k < i implies t[k] == after(e1, before)[k] && read_buf@[k] == buf_before[k] by {}
                    assert(reg == (SMB_HST_BLKDAT + i) as u16);
                    assert(t[i as int] == PortEvent::Read { port: smbus_port(base, reg), value: v });
                    assert(read_buf@[i as int] == v);
                    assert(is_read(t[i as int], smbus_port(base, (SMB_HST_BLKDAT + i) as u16)));
                }
                i = i + 1;
            }
            proof {
                let e = self.ports.events();
                lemma_extends_trans(e0, e1, e);
                let s = after(e0, e);
                assert(after(e0, e1) =~= seq![
                    PortEvent::Write { port: smbus_port(base, SMB_HST_ADD), value: (addr * 2 + 1) as u8 },
                    PortEvent::Write { port: smbus_port(base, SMB_HST_CNT), value: CMD_BLOCK_DATA | CNT_START },
                ]);
                assert forall|k: int| 0 <= k < rl implies #[trigger] is_read(s[k + 2], smbus_port(base, (SMB_HST_BLKDAT + k) as u16))
                    && read_buf@[k] == value_of(s[k + 2]) by {
                    assert(s[k + 2] == after(e1, e)[k]);
                }
            }
            return Ok(rl);
        }
        Err(I2cError::InvalidParameter)
    }

    /// Whether a device answers a quick command at `addr`.
    pub fn run_probe(&mut self, addr: u8) -> (present: bool)
        ensures
            final(self).host == old(self).host,
            extends(old(self).ports.events(), final(self).ports.events()),
            ich9_probe_trace(
                after(old(self).ports.events(), final(self).ports.events()),
                old(self).host.base_port,
                addr,
                present,
            ),
    {
        let ghost e0 = self.ports.events();
        let ghost base = self.host.base_port;
        let ghost sts = smbus_port(base, SMB_HST_STS);
        let a = addr << 1;
        self.write8(SMB_HST_ADD, a);
        self.write8(SMB_HST_CNT, CNT_START);
        let ghost e1 = self.ports.events();
        proof {
            assert(a == ((addr * 2) % 256) as u8) by (bit_vector)
                requires
                    a == addr << 1,;
            lemma_extends_refl(e1);
            assert(extends(e0, e1)) by {
                assert(e1.subrange(0, e0.len() as int) =~= e0);
            }
            assert(after(e0, e1) =~= seq![
                PortEvent::Write { port: smbus_port(base, SMB_HST_ADD), value: a },
                PortEvent::Write { port: sts_cnt(base), value: CNT_START },
            ]);
        }
        let mut i: u32 = 0;
        while i < ICH9_PROBE_POLLS
            invariant
                i <= ICH9_PROBE_POLLS,
                self.host == old(self).host,
                base == self.host.base_port,
                sts == smbus_port(base, SMB_HST_STS),
                e0 == old(self).ports.events(),
                extends(e0, e1),
                after(e0, e1) == seq![
                    PortEvent::Write { port: smbus_port(base, SMB_HST_ADD), value: a },
                    PortEvent::Write { port: sts_cnt(base), value: CNT_START },
                ],
                a == ((addr * 2) % 256) as u8,
                extends(e1, self.ports.events()),
                after(e1, self.ports.events()).len() == i,
                forall|j: int| 0 <= j < i ==> #[trigger] is_read(after(e1, self.ports.events())[j], sts),
                forall|j: int| 0 <= j < i ==> value_of(#[trigger] after(e1, self.ports.events())[j]) & STS_INTERRUPT == 0,
            decreases ICH9_PROBE_POLLS - i,
        {
            let ghost before = self.ports.events();
            let v = self.read8(SMB_HST_STS);
            proof {
                lemma_extends_push(e1, before, PortEvent::Read { port: sts, value: v });
                let t = after(e1, self.ports.events());
                assert forall|j: int| 0 <= j < i implies t[j] == after(e1, before)[j] by {}
                lemma_extends_trans(e0, e1, self.ports.events());
                let s = after(e0, self.ports.events());
                assert(s.skip(2) =~= t);
            }
            if v & STS_INTERRUPT != 0 {
                return v & STS_FAILED == 0;
            }
            i = i + 1;
        }
        proof {
            lemma_extends_trans(e0, e1, self.ports.events());
            assert(after(e0, self.ports.events()).skip(2) =~= after(e1, self.ports.events()));
        }
        false
    }
}

/// The port of the control register (the probe's second write).
pub open spec fn sts_cnt(base: u16) -> u16 {
    smbus_port(base, SMB_HST_CNT)
}

impl<P: PortIo> I2cMaster for Ich9Host<P> {
    open spec fn transfers(&self) -> Seq<(u8, Seq<u8>, nat, Result<usize, I2cError>, Seq<u8>)> {
        self.transfer_log@
    }

    open spec fn probes(&self) -> Seq<(u8, bool)> {
        self.probe_log@
    }

    fn name(&self) -> (s: &'static str)
        ensures
            s@ == "ICH9 SMBus"@,
    {
        "ICH9 SMBus"
    }

    fn transfer(&mut self, addr: u8, write_buf: &[u8], read_buf: &mut Vec<u8>) -> (r: Result<usize, I2cError>) {
        let ghost tl = self.transfer_log@;
        let ghost pl = self.probe_log@;
        let ghost before = read_buf@;
        let r = self.run_transfer(addr, write_buf, read_buf);
        self.transfer_log = Ghost(tl.push((addr, write_buf@, before.len(), r, read_buf@)));
        self.probe_log = Ghost(pl);
        r
    }

    /// The host runs at its fixed clock: nothing changes.
    fn set_speed(&mut self, speed: I2cSpeed)
        ensures
            *final(self) == *old(self),
    {
    }

    fn probe(&mut self, addr: u8) -> (present: bool) {
        let ghost tl = self.transfer_log@;
        let ghost pl = self.probe_log@;
        let present = self.run_probe(addr);
        self.transfer_log = Ghost(tl);
        self.probe_log = Ghost(pl.push((addr, present)));
        present
    }
}

} // verus!
