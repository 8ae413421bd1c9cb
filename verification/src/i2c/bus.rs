//! The registry of I²C buses, the SMBus register helpers and EDID reads
//! over DDC.
use vstd::prelude::*;
use crate::i2c::{DDC_ADDR, I2cError, I2cMaster, I2cSpeed};
use crate::i2c::edid::{
    EdidInfo, DetailedTiming, edid_header, edid_valid, edid_scalars, parse_edid, detailed_timings_upto,
    standard_timings_upto, last_desc_upto, opt13,
};

verus! {

/// A registered bus: its number, its name and its master.
pub struct I2cController<M: I2cMaster> {
    pub bus_id: usize,
    pub name: &'static str,
    pub master: M,
}

impl<M: I2cMaster> I2cController<M> {
    /// A bus record.
    pub fn new(bus_id: usize, name: &'static str, master: M) -> (c: Self)
        ensures
            c.bus_id == bus_id,
            c.name == name,
            c.master == master,
    {
        I2cController { bus_id, name, master }
    }

    /// A write of `write` then a read into `read`.
    pub fn transfer(&mut self, addr: u8, write: &[u8], read: &mut Vec<u8>) -> (r: Result<usize, I2cError>)
        requires
            write@.len() + old(read)@.len() <= usize::MAX,
        ensures
            final(read)@.len() == old(read)@.len(),
            final(self).bus_id == old(self).bus_id,
            final(self).name == old(self).name,
            final(self).master.transfers() == old(self).master.transfers().push(
                (addr, write@, old(read)@.len(), r, final(read)@),
            ),
            final(self).master.probes() == old(self).master.probes(),
    {
        self.master.transfer(addr, write, read)
    }

    /// A write of `data`.
    pub fn write(&mut self, addr: u8, data: &[u8]) -> (r: Result<usize, I2cError>)
        ensures
            final(self).bus_id == old(self).bus_id,
            final(self).name == old(self).name,
            final(self).master.transfers() == old(self).master.transfers().push(
                (addr, data@, 0nat, r, Seq::<u8>::empty()),
            ),
            final(self).master.probes() == old(self).master.probes(),
    {
        let mut none: Vec<u8> = Vec::new();
        let _len = data.len();
        let r = self.master.transfer(addr, data, &mut none);
        assert(none@ =~= Seq::<u8>::empty());
        r
    }

    /// A read into `buf`.
    pub fn read(&mut self, addr: u8, buf: &mut Vec<u8>) -> (r: Result<usize, I2cError>)
        ensures
            final(buf)@.len() == old(buf)@.len(),
            final(self).bus_id == old(self).bus_id,
            final(self).name == old(self).name,
            final(self).master.transfers() == old(self).master.transfers().push(
                (addr, Seq::<u8>::empty(), old(buf)@.len(), r, final(buf)@),
            ),
            final(self).master.probes() == old(self).master.probes(),
    {
        let none: Vec<u8> = Vec::new();
        let _len = buf.len();
        assert(none@ =~= Seq::<u8>::empty());
        self.master.transfer(addr, none.as_slice(), buf)
    }

    /// A write of `write`, then a read into `read` after a repeated START.
    pub fn write_read(&mut self, addr: u8, write: &[u8], read: &mut Vec<u8>) -> (r: Result<usize, I2cError>)
        requires
            write@.len() + old(read)@.len() <= usize::MAX,
        ensures
            final(read)@.len() == old(read)@.len(),
            final(self).bus_id == old(self).bus_id,
            final(self).name == old(self).name,
    {
        self.master.transfer(addr, write, read)
    }

    /// Whether a device answers at `addr`.
    pub fn probe(&mut self, addr: u8) -> (b: bool)
        ensures
            final(self).bus_id == old(self).bus_id,
            final(self).name == old(self).name,
            final(self).master.probes() == old(self).master.probes().push((addr, b)),
            final(self).master.transfers() == old(self).master.transfers(),
    {
        self.master.probe(addr)
    }

    /// Sets the bus clock.
    pub fn set_speed(&mut self, speed: I2cSpeed)
        ensures
            final(self).bus_id == old(self).bus_id,
            final(self).name == old(self).name,
    {
        self.master.set_speed(speed);
    }
}

/// All registered buses, numbered by registration order.
pub struct I2cManager<M: I2cMaster> {
    pub buses: Vec<I2cController<M>>,
}

/// `found` is a strictly increasing list of 7-bit device addresses in the
/// scanned range 0x08..0x78.
pub open spec fn scan_result(found: Seq<u8>) -> bool {
    &&& forall|k: int| 0 <= k < found.len() ==> 0x08 <= #[trigger] found[k] < 0x78
    &&& forall|j: int, k: int| 0 <= j < k < found.len() ==> found[j] < found[k]
}

/// The addresses that answered, in probe order.
pub open spec fn answered(p: Seq<(u8, bool)>) -> Seq<u8>
    decreases p.len(),
{
    if p.len() == 0 {
        Seq::empty()
    } else if p.last().1 {
        answered(p.drop_last()).push(p.last().0)
    } else {
        answered(p.drop_last())
    }
}

/// `new` is `old` after one scan: same number, name and transfers, and
/// probes of 0x08 to 0x77 in order added; `found` are those that answered.
pub open spec fn scanned_once<M: I2cMaster>(old: I2cController<M>, new: I2cController<M>, found: Seq<u8>) -> bool {
    let p = new.master.probes().skip(old.master.probes().len() as int);
    &&& new.bus_id == old.bus_id && new.name == old.name
    &&& new.master.transfers() == old.master.transfers()
    &&& new.master.probes().len() == old.master.probes().len() + 112
    &&& new.master.probes().subrange(0, old.master.probes().len() as int) == old.master.probes()
    &&& forall|i: int| 0 <= i < 112 ==> (#[trigger] p[i]).0 == 8 + i
    &&& found == answered(p)
}

/// The addresses that answered on `new` since `old`.
pub open spec fn bus_found<M: I2cMaster>(old: I2cController<M>, new: I2cController<M>) -> Seq<u8> {
    answered(new.master.probes().skip(old.master.probes().len() as int))
}

/// Each bus's found addresses tagged with the bus number, bus by bus.
pub open spec fn tagged(fs: Seq<Seq<u8>>) -> Seq<(usize, u8)>
    decreases fs.len(),
{
    if fs.len() == 0 {
        Seq::empty()
    } else {
        tagged(fs.drop_last()) + fs.last().map_values(|a: u8| ((fs.len() - 1) as usize, a))
    }
}

impl<M: I2cMaster> I2cManager<M> {
    /// No buses.
    pub fn new() -> (m: Self)
        ensures
            m.buses@.len() == 0,
    {
        I2cManager { buses: Vec::new() }
    }

    /// Adds a bus; its number is the count of buses before it.
    pub fn register(&mut self, controller: I2cController<M>) -> (id: usize)
        ensures
            id == old(self).buses@.len(),
            final(self).buses@ == old(self).buses@.push(controller),
    {
        let id = self.buses.len();
        self.buses.push(controller);
        id
    }

    /// Bus number `id`, if registered.
    pub fn bus(&self, id: usize) -> (c: Option<&I2cController<M>>)
        ensures
            id < self.buses@.len() ==> c == Some(&self.buses@[id as int]),
            id >= self.buses@.len() ==> c is None,
    {
        if id < self.buses.len() {
            Some(&self.buses[id])
        } else {
            None
        }
    }

    /// Number of registered buses.
    pub fn bus_count(&self) -> (n: usize)
        ensures
            n == self.buses@.len(),
    {
        self.buses.len()
    }

    /// Runs `op` on bus `bus_id`: takes the controller out, and puts it back
    /// at the same place.
    fn with_bus(&mut self, bus_id: usize) -> (c: I2cController<M>)
        requires
            bus_id < old(self).buses@.len(),
        ensures
            c == old(self).buses@[bus_id as int],
            final(self).buses@ == old(self).buses@.remove(bus_id as int),
    {
        self.buses.remove(bus_id)
    }

    fn put_back(&mut self, bus_id: usize, c: I2cController<M>)
        requires
            bus_id <= old(self).buses@.len(),
        ensures
            final(self).buses@ == old(self).buses@.insert(bus_id as int, c),
    {
        self.buses.insert(bus_id, c);
    }

    /// Probes every address 0x08..0x77 on bus `bus_id`; the addresses that
    /// answered, in increasing order (none when the bus does not exist).
    pub fn scan_bus(&mut self, bus_id: usize) -> (found: Vec<u8>)
        ensures
            final(self).buses@.len() == old(self).buses@.len(),
            scan_result(found@),
            bus_id >= old(self).buses@.len() ==> found@.len() == 0 && final(self).buses@ == old(self).buses@,
            bus_id < old(self).buses@.len() ==> {
                &&& forall|i: int| 0 <= i < old(self).buses@.len() && i != bus_id ==> #[trigger] final(self).buses@[i] == old(self).buses@[i]
                &&& scanned_once(old(self).buses@[bus_id as int], final(self).buses@[bus_id as int], found@)
            },
    {
        let mut found: Vec<u8> = Vec::new();
        if bus_id >= self.buses.len() {
            return found;
        }
        let ghost b0 = self.buses@;
        let mut c = self.with_bus(bus_id);
        let ghost c0 = c;
        let mut addr: u8 = 0x08;
        assert(c.master.probes().skip(c0.master.probes().len() as int) =~= Seq::<(u8, bool)>::empty());
        while addr < 0x78
            invariant
                0x08 <= addr <= 0x78,
                scan_result(found@),
                forall|k: int| 0 <= k < found@.len() ==> #[trigger] found@[k] < addr,
                c.bus_id == c0.bus_id,
                c.name == c0.name,
                c.master.transfers() == c0.master.transfers(),
                c.master.probes().len() == c0.master.probes().len() + (addr - 8),
                c.master.probes().subrange(0, c0.master.probes().len() as int) == c0.master.probes(),
                forall|i: int| 0 <= i < addr - 8 ==> (#[trigger] c.master.probes().skip(c0.master.probes().len() as int)[i]).0 == 8 + i,
                found@ == answered(c.master.probes().skip(c0.master.probes().len() as int)),
            decreases 0x78 - addr,
        {
            let ghost pb = c.master.probes();
            let present = c.probe(addr);
            proof {
                let n0 = c0.master.probes().len() as int;
                assert(c.master.probes().subrange(0, n0) =~= pb.subrange(0, n0));
                assert(c.master.probes().skip(n0) =~= pb.skip(n0).push((addr, present)));
                assert(c.master.probes().skip(n0).drop_last() =~= pb.skip(n0));
            }
            if present {
                found.push(addr);
            }
            addr = addr + 1;
        }
        self.put_back(bus_id, c);
        proof {
            assert forall|i: int| 0 <= i < b0.len() && i != bus_id implies #[trigger] self.buses@[i] == b0[i] by {
                if i < bus_id {
                    assert(self.buses@[i] == b0.remove(bus_id as int)[i]);
                } else {
                    assert(self.buses@[i] == b0.remove(bus_id as int)[i - 1]);
                }
            }
        }
        found
    }

    /// Scans every bus; (bus, address) for every device that answered, by
    /// bus then address.
    pub fn scan_all(&mut self) -> (results: Vec<(usize, u8)>)
        ensures
            final(self).buses@.len() == old(self).buses@.len(),
            forall|k: int| 0 <= k < results@.len() ==>
                (#[trigger] results@[k]).0 < old(self).buses@.len() && 0x08 <= results@[k].1 < 0x78,
            forall|i: int| 0 <= i < old(self).buses@.len() ==> scanned_once(
                old(self).buses@[i],
                #[trigger] final(self).buses@[i],
                bus_found(old(self).buses@[i], final(self).buses@[i]),
            ),
            results@ == tagged(Seq::new(old(self).buses@.len(), |i: int| bus_found(old(self).buses@[i], final(self).buses@[i]))),
    {
        let ghost orig = self.buses@;
        let ghost mut founds: Seq<Seq<u8>> = Seq::empty();
        let mut results: Vec<(usize, u8)> = Vec::new();
        let n = self.buses.len();
        let mut b: usize = 0;
        while b < n
            invariant
                b <= n,
                n == self.buses@.len(),
                n == old(self).buses@.len(),
                orig == old(self).buses@,
                forall|k: int| 0 <= k < results@.len() ==>
                    (#[trigger] results@[k]).0 < n && 0x08 <= results@[k].1 < 0x78,
                founds.len() == b,
                forall|i: int| 0 <= i < b ==> founds[i] == bus_found(orig[i], #[trigger] self.buses@[i]),
                forall|i: int| 0 <= i < b ==> scanned_once(orig[i], #[trigger] self.buses@[i], bus_found(orig[i], self.buses@[i])),
                forall|i: int| b <= i < n ==> #[trigger] self.buses@[i] == orig[i],
                results@ == tagged(founds),
            decreases n - b,
        {
            let ghost bb = self.buses@;
            let found = self.scan_bus(b);
            proof {
                assert(bb[b as int] == orig[b as int]);
                assert(found@ == bus_found(orig[b as int], self.buses@[b as int]));
            }
            let ghost r0 = results@;
            let mut i: usize = 0;
            while i < found.len()
                invariant
                    i <= found@.len(),
                    b < n,
                    scan_result(found@),
                    forall|k: int| 0 <= k < results@.len() ==>
                        (#[trigger] results@[k]).0 < n && 0x08 <= results@[k].1 < 0x78,
                    results@ == r0 + found@.take(i as int).map_values(|a: u8| (b, a)),
                decreases found@.len() - i,
            {
                results.push((b, found[i]));
                i = i + 1;
                assert(results@ =~= r0 + found@.take(i as int).map_values(|a: u8| (b, a)));
            }
            proof {
                let f2 = founds.push(found@);
                assert(f2.drop_last() =~= founds);
                assert(found@.take(found@.len() as int) =~= found@);
                assert(results@ == tagged(f2));
                founds = f2;
            }
            b = b + 1;
        }
        proof {
            assert(founds =~= Seq::new(n as nat, |i: int| bus_found(orig[i], self.buses@[i])));
        }
        results
    }

    /// Runs a transfer on bus `bus_id`; InvalidParameter when the bus does
    /// not exist.
    pub fn transfer_on(&mut self, bus_id: usize, addr: u8, write: &[u8], read: &mut Vec<u8>) -> (r: Result<usize, I2cError>)
        requires
            write@.len() + old(read)@.len() <= usize::MAX,
        ensures
            final(self).buses@.len() == old(self).buses@.len(),
            final(read)@.len() == old(read)@.len(),
            bus_id >= old(self).buses@.len() ==> r == Err::<usize, I2cError>(I2cError::InvalidParameter)
                && final(read)@ == old(read)@ && final(self).buses@ == old(self).buses@,
            bus_id < old(self).buses@.len() ==> {
                &&& forall|i: int| 0 <= i < old(self).buses@.len() && i != bus_id ==> #[trigger] final(self).buses@[i] == old(self).buses@[i]
                &&& final(self).buses@[bus_id as int].bus_id == old(self).buses@[bus_id as int].bus_id
                &&& final(self).buses@[bus_id as int].name == old(self).buses@[bus_id as int].name
                &&& final(self).buses@[bus_id as int].master.transfers() == old(self).buses@[bus_id as int].master.transfers().push(
                    (addr, write@, old(read)@.len(), r, final(read)@),
                )
                &&& final(self).buses@[bus_id as int].master.probes() == old(self).buses@[bus_id as int].master.probes()
                &&& only_transfers_on(old(self).buses@, final(self).buses@, bus_id as int)
                &&& transfers_since(old(self).buses@, final(self).buses@, bus_id as int)
                    == seq![(addr, write@, old(read)@.len(), r, final(read)@)]
            },
    {
        if bus_id >= self.buses.len() {
            return Err(I2cError::InvalidParameter);
        }
        let ghost b0 = self.buses@;
        let mut c = self.with_bus(bus_id);
        let r = c.transfer(addr, write, read);
        self.put_back(bus_id, c);
        proof {
            assert forall|i: int| 0 <= i < b0.len() && i != bus_id implies #[trigger] self.buses@[i] == b0[i] by {
                if i < bus_id {
                    assert(self.buses@[i] == b0.remove(bus_id as int)[i]);
                } else {
                    assert(self.buses@[i] == b0.remove(bus_id as int)[i - 1]);
                }
            }
            let t0 = b0[bus_id as int].master.transfers();
            let t1 = self.buses@[bus_id as int].master.transfers();
            assert(t1.take(t0.len() as int) =~= t0);
            assert(t1.skip(t0.len() as int) =~= seq![(addr, write@, old(read)@.len(), r, read@)]);
        }
        r
    }
}

/// The transfers made on bus `id` between `old` and `new`.
pub open spec fn transfers_since<M: I2cMaster>(old: Seq<I2cController<M>>, new: Seq<I2cController<M>>, id: int) -> Seq<(u8, Seq<u8>, nat, Result<usize, I2cError>, Seq<u8>)> {
    new[id].master.transfers().skip(old[id].master.transfers().len() as int)
}

/// `new` is `old` after some transfers on bus `id` and nothing else: the
/// other buses, that bus's number, name and probes unchanged, and its
/// earlier transfers kept.
pub open spec fn only_transfers_on<M: I2cMaster>(old: Seq<I2cController<M>>, new: Seq<I2cController<M>>, id: int) -> bool {
    &&& 0 <= id < old.len()
    &&& new.len() == old.len()
    &&& forall|i: int| 0 <= i < old.len() && i != id ==> #[trigger] new[i] == old[i]
    &&& new[id].bus_id == old[id].bus_id
    &&& new[id].name == old[id].name
    &&& new[id].master.probes() == old[id].master.probes()
    &&& old[id].master.transfers().len() <= new[id].master.transfers().len()
    &&& new[id].master.transfers().take(old[id].master.transfers().len() as int) == old[id].master.transfers()
}

/// Transfers on one bus in two steps are the transfers of both, in order.
pub proof fn lemma_transfers_chain<M: I2cMaster>(a: Seq<I2cController<M>>, b: Seq<I2cController<M>>, c: Seq<I2cController<M>>, id: int)
    requires
        only_transfers_on(a, b, id),
        only_transfers_on(b, c, id),
    ensures
        only_transfers_on(a, c, id),
        transfers_since(a, c, id) == transfers_since(a, b, id) + transfers_since(b, c, id),
{
    let ta = a[id].master.transfers();
    let tb = b[id].master.transfers();
    let tc = c[id].master.transfers();
    assert(tc.take(ta.len() as int) =~= ta) by {
        assert forall|k: int| 0 <= k < ta.len() implies tc[k] == ta[k] by {
            assert(tc.take(tb.len() as int)[k] == tc[k]);
            assert(tb.take(ta.len() as int)[k] == tb[k]);
        }
    }
    assert(tc.skip(ta.len() as int) =~= tb.skip(ta.len() as int) + tc.skip(tb.len() as int)) by {
        assert forall|k: int| ta.len() <= k < tb.len() implies #[trigger] tc[k] == tb[k] by {
            assert(tc.take(tb.len() as int)[k] == tc[k]);
        }
    }
}

/// A transfer record writes `w` to `addr` and reads `n` bytes.
pub open spec fn asked(t: (u8, Seq<u8>, nat, Result<usize, I2cError>, Seq<u8>), addr: u8, w: Seq<u8>, n: nat) -> bool {
    t.0 == addr && t.1 == w && t.2 == n && t.4.len() == n
}

/// What a one-byte register read answers for its transfer: the byte read,
/// or the transfer's error.
pub open spec fn byte_reply(t: (u8, Seq<u8>, nat, Result<usize, I2cError>, Seq<u8>)) -> Result<u8, I2cError> {
    match t.3 {
        Ok(_) => Ok(t.4[0]),
        Err(e) => Err(e),
    }
}

/// What a little-endian word read answers for its transfer.
pub open spec fn word_reply(t: (u8, Seq<u8>, nat, Result<usize, I2cError>, Seq<u8>)) -> Result<u16, I2cError> {
    match t.3 {
        Ok(_) => Ok(le_word(t.4[0], t.4[1])),
        Err(e) => Err(e),
    }
}

/// Success or the error of a transfer, without its count.
pub open spec fn unit_reply(t: (u8, Seq<u8>, nat, Result<usize, I2cError>, Seq<u8>)) -> Result<(), I2cError> {
    match t.3 {
        Ok(_) => Ok(()),
        Err(e) => Err(e),
    }
}

/// The transfers of a block read of `n` bytes: register `reg` written and
/// the block read; only when that fails, a plain read of the block.
pub open spec fn block_read_trace(ts: Seq<(u8, Seq<u8>, nat, Result<usize, I2cError>, Seq<u8>)>, addr: u8, reg: u8, n: nat) -> bool {
    &&& ts.len() >= 1
    &&& asked(ts[0], addr, seq![reg], n)
    &&& ts[0].3 is Ok ==> ts.len() == 1
    &&& ts[0].3 is Err ==> ts.len() == 2 && asked(ts[1], addr, Seq::empty(), n)
}

/// What a block read of `n` bytes answers: `n` when the first way worked,
/// else the plain read's result.
pub open spec fn block_result(ts: Seq<(u8, Seq<u8>, nat, Result<usize, I2cError>, Seq<u8>)>, n: nat) -> Result<usize, I2cError> {
    if ts[0].3 is Ok {
        Ok(n as usize)
    } else {
        ts[1].3
    }
}

/// Reads register `reg` of device `addr` on bus `bus_id`: the register
/// number written, one byte read back.
pub fn smbus_read_byte<M: I2cMaster>(mgr: &mut I2cManager<M>, bus_id: usize, addr: u8, reg: u8) -> (r: Result<u8, I2cError>)
    ensures
        final(mgr).buses@.len() == old(mgr).buses@.len(),
        bus_id >= old(mgr).buses@.len() ==> r == Err::<u8, I2cError>(I2cError::InvalidParameter)
            && final(mgr).buses@ == old(mgr).buses@,
        bus_id < old(mgr).buses@.len() ==> ({
            let ts = transfers_since(old(mgr).buses@, final(mgr).buses@, bus_id as int);
            &&& only_transfers_on(old(mgr).buses@, final(mgr).buses@, bus_id as int)
            &&& ts.len() == 1
            &&& asked(ts[0], addr, seq![reg], 1)
            &&& r == byte_reply(ts[0])
        }),
{
    let mut val: Vec<u8> = vec![0u8];
    let w: Vec<u8> = vec![reg];
    assert(w@ =~= seq![reg]);
    match mgr.transfer_on(bus_id, addr, w.as_slice(), &mut val) {
        Ok(_) => Ok(val[0]),
        Err(e) => Err(e),
    }
}

/// Writes `val` to register `reg` of device `addr` on bus `bus_id`.
pub fn smbus_write_byte<M: I2cMaster>(mgr: &mut I2cManager<M>, bus_id: usize, addr: u8, reg: u8, val: u8) -> (r: Result<usize, I2cError>)
    ensures
        final(mgr).buses@.len() == old(mgr).buses@.len(),
        bus_id >= old(mgr).buses@.len() ==> r == Err::<usize, I2cError>(I2cError::InvalidParameter)
            && final(mgr).buses@ == old(mgr).buses@,
        bus_id < old(mgr).buses@.len() ==> ({
            let ts = transfers_since(old(mgr).buses@, final(mgr).buses@, bus_id as int);
            &&& only_transfers_on(old(mgr).buses@, final(mgr).buses@, bus_id as int)
            &&& ts.len() == 1
            &&& asked(ts[0], addr, seq![reg, val], 0)
            &&& r == ts[0].3
        }),
{
    let mut none: Vec<u8> = Vec::new();
    let w: Vec<u8> = vec![reg, val];
    assert(w@ =~= seq![reg, val]);
    mgr.transfer_on(bus_id, addr, w.as_slice(), &mut none)
}

/// The little-endian word of two bytes.
pub open spec fn le_word(lo: u8, hi: u8) -> u16 {
    (lo + 256 * hi) as u16
}

/// Reads the little-endian word at register `reg` of device `addr`.
pub fn smbus_read_word<M: I2cMaster>(mgr: &mut I2cManager<M>, bus_id: usize, addr: u8, reg: u8) -> (r: Result<u16, I2cError>)
    ensures
        final(mgr).buses@.len() == old(mgr).buses@.len(),
        bus_id >= old(mgr).buses@.len() ==> r == Err::<u16, I2cError>(I2cError::InvalidParameter)
            && final(mgr).buses@ == old(mgr).buses@,
        bus_id < old(mgr).buses@.len() ==> ({
            let ts = transfers_since(old(mgr).buses@, final(mgr).buses@, bus_id as int);
            &&& only_transfers_on(old(mgr).buses@, final(mgr).buses@, bus_id as int)
            &&& ts.len() == 1
            &&& asked(ts[0], addr, seq![reg], 2)
            &&& r == word_reply(ts[0])
        }),
{
    let mut buf: Vec<u8> = vec![0u8, 0u8];
    let w: Vec<u8> = vec![reg];
    assert(w@ =~= seq![reg]);
    match mgr.transfer_on(bus_id, addr, w.as_slice(), &mut buf) {
        Ok(_) => Ok(buf[0] as u16 + 256 * buf[1] as u16),
        Err(e) => Err(e),
    }
}

/// Reads a block into `buf`: first with the register number written, and
/// if that fails, as a plain read. The first way reports the whole buffer.
pub fn smbus_read_block<M: I2cMaster>(mgr: &mut I2cManager<M>, bus_id: usize, addr: u8, reg: u8, buf: &mut Vec<u8>) -> (r: Result<usize, I2cError>)
    requires
        old(buf)@.len() < usize::MAX,
    ensures
        final(mgr).buses@.len() == old(mgr).buses@.len(),
        final(buf)@.len() == old(buf)@.len(),
        bus_id >= old(mgr).buses@.len() ==> r == Err::<usize, I2cError>(I2cError::InvalidParameter)
            && final(mgr).buses@ == old(mgr).buses@ && final(buf)@ == old(buf)@,
        bus_id < old(mgr).buses@.len() ==> ({
            let ts = transfers_since(old(mgr).buses@, final(mgr).buses@, bus_id as int);
            &&& only_transfers_on(old(mgr).buses@, final(mgr).buses@, bus_id as int)
            &&& block_read_trace(ts, addr, reg, old(buf)@.len())
            &&& r == block_result(ts, old(buf)@.len())
            &&& final(buf)@ == ts.last().4
        }),
{
    if bus_id >= mgr.bus_count() {
        return Err(I2cError::InvalidParameter);
    }
    let ghost b0 = mgr.buses@;
    let w: Vec<u8> = vec![reg];
    assert(w@ =~= seq![reg]);
    match mgr.transfer_on(bus_id, addr, w.as_slice(), buf) {
        Ok(_) => {
            return Ok(buf.len());
        },
        Err(_) => {},
    }
    let ghost b1 = mgr.buses@;
    let none: Vec<u8> = Vec::new();
    assert(none@ =~= Seq::<u8>::empty());
    let r = mgr.transfer_on(bus_id, addr, none.as_slice(), buf);
    proof {
        lemma_transfers_chain(b0, b1, mgr.buses@, bus_id as int);
    }
    r
}

/// The 128 bytes of `v` as an EDID block.
fn to_block(v: &Vec<u8>) -> (a: [u8; 128])
    requires
        v@.len() == 128,
    ensures
        a@ == v@,
{
    let mut a = [0u8; 128];
    let mut i: usize = 0;
    while i < 128
        invariant
            i <= 128,
            v@.len() == 128,
            a@.len() == 128,
            forall|k: int| 0 <= k < i ==> a@[k] == v@[k],
        decreases 128 - i,
    {
        a[i] = v[i];
        i = i + 1;
    }
    assert(a@ =~= v@);
    a
}

/// `new` is `old` with one more transfer and nothing else changed.
pub open spec fn one_more_transfer<M: I2cMaster>(old: I2cController<M>, new: I2cController<M>) -> bool {
    &&& new.bus_id == old.bus_id && new.name == old.name
    &&& new.master.probes() == old.master.probes()
    &&& new.master.transfers().len() == old.master.transfers().len() + 1
    &&& new.master.transfers().drop_last() == old.master.transfers()
}

/// A transfer record reads EDID block `block`: the offset (block, 0) written
/// to the DDC address, 128 bytes read; the block is returned when all 128
/// came and it starts with the header.
pub open spec fn block_read(t: (u8, Seq<u8>, nat, Result<usize, I2cError>, Seq<u8>), block: u8, r: Option<[u8; 128]>) -> bool {
    &&& t.0 == DDC_ADDR
    &&& t.1 == seq![block, 0u8]
    &&& t.2 == 128
    &&& (r is Some) == (t.3 == Ok::<usize, I2cError>(128) && t.4.subrange(0, 8) == edid_header())
    &&& r matches Some(d) ==> d@ == t.4
}

/// Reads EDID block `block` over DDC: the block offset written as two
/// big-endian bytes (block * 256), 128 bytes read. None when the bus does
/// not exist, the read fails or moves another count, or the block does not
/// start with the EDID header.
pub fn read_edid_block<M: I2cMaster>(mgr: &mut I2cManager<M>, bus_id: usize, block: u8) -> (r: Option<[u8; 128]>)
    ensures
        final(mgr).buses@.len() == old(mgr).buses@.len(),
        bus_id >= old(mgr).buses@.len() ==> r is None && final(mgr).buses@ == old(mgr).buses@,
        r matches Some(d) ==> d@.subrange(0, 8) == edid_header(),
        bus_id < old(mgr).buses@.len() ==> {
            &&& forall|i: int| 0 <= i < old(mgr).buses@.len() && i != bus_id ==> #[trigger] final(mgr).buses@[i] == old(mgr).buses@[i]
            &&& one_more_transfer(old(mgr).buses@[bus_id as int], final(mgr).buses@[bus_id as int])
            &&& block_read(final(mgr).buses@[bus_id as int].master.transfers().last(), block, r)
        },
{
    let mut data: Vec<u8> = vec![0u8; 128];
    let offset: Vec<u8> = vec![block, 0u8];
    assert(offset@ =~= seq![block, 0u8]);
    let ghost b0 = mgr.buses@;
    let result = mgr.transfer_on(bus_id, DDC_ADDR, offset.as_slice(), &mut data);
    proof {
        if bus_id < b0.len() {
            let t = mgr.buses@[bus_id as int].master.transfers();
            assert(t.drop_last() =~= b0[bus_id as int].master.transfers());
        }
    }
    match result {
        Ok(n) => {
            if n != 128 {
                return None;
            }
            let a = to_block(&data);
            let ok = a[0] == 0x00 && a[1] == 0xFF && a[2] == 0xFF && a[3] == 0xFF
                && a[4] == 0xFF && a[5] == 0xFF && a[6] == 0xFF && a[7] == 0x00;
            if ok {
                assert(a@.subrange(0, 8) =~= edid_header());
                Some(a)
            } else {
                proof {
                    if a@.subrange(0, 8) == edid_header() {
                        assert(a@.subrange(0, 8)[0] == a@[0]);
                        assert(a@.subrange(0, 8)[1] == a@[1]);
                        assert(a@.subrange(0, 8)[2] == a@[2]);
                        assert(a@.subrange(0, 8)[3] == a@[3]);
                        assert(a@.subrange(0, 8)[4] == a@[4]);
                        assert(a@.subrange(0, 8)[5] == a@[5]);
                        assert(a@.subrange(0, 8)[6] == a@[6]);
                        assert(a@.subrange(0, 8)[7] == a@[7]);
                    }
                }
                None
            }
        },
        Err(_) => None,
    }
}

/// The detailed timings an extension block read adds: those of a valid
/// block that came whole, nothing otherwise.
pub open spec fn ext_part(t: (u8, Seq<u8>, nat, Result<usize, I2cError>, Seq<u8>)) -> Seq<DetailedTiming> {
    if t.3 == Ok::<usize, I2cError>(128) && edid_valid(t.4) {
        detailed_timings_upto(t.4, 4)
    } else {
        Seq::empty()
    }
}

/// The detailed timings the extension block reads `ts` add, in order.
pub open spec fn ext_timings(ts: Seq<(u8, Seq<u8>, nat, Result<usize, I2cError>, Seq<u8>)>) -> Seq<DetailedTiming>
    decreases ts.len(),
{
    if ts.len() == 0 {
        Seq::empty()
    } else {
        ext_timings(ts.drop_last()) + ext_part(ts.last())
    }
}

/// `e` is the record of base block `d` except for its detailed timings.
pub open spec fn edid_base(e: EdidInfo, d: Seq<u8>) -> bool {
    let timings = detailed_timings_upto(d, 4);
    &&& edid_scalars(e, d)
    &&& e.standard_timings@ == standard_timings_upto(d, 8)
    &&& e.preferred_timing == (if timings.len() > 0 { Some(timings[0]) } else { None })
    &&& opt13(e.monitor_name) == last_desc_upto(d, 4, 0xFCu8)
    &&& opt13(e.monitor_serial) == last_desc_upto(d, 4, 0xFFu8)
}

/// The transfers of an EDID read on one bus and its outcome: the base
/// block; when it came whole and is valid, one read per announced extension
/// block (byte 126, at most four), and the base record with every valid
/// extension's detailed timings appended; else no record.
pub open spec fn edid_read_trace(t: Seq<(u8, Seq<u8>, nat, Result<usize, I2cError>, Seq<u8>)>, r: Option<EdidInfo>) -> bool {
    let d0 = t[0].4;
    let m: int = if d0[126] < 4 { d0[126] as int } else { 4 };
    &&& t.len() >= 1
    &&& t[0].0 == DDC_ADDR && t[0].1 == seq![0u8, 0u8] && t[0].2 == 128
    &&& !(t[0].3 == Ok::<usize, I2cError>(128) && edid_valid(d0)) ==> r is None && t.len() == 1
    &&& (t[0].3 == Ok::<usize, I2cError>(128) && edid_valid(d0)) ==> {
        &&& t.len() == 1 + m
        &&& forall|j: int| 1 <= j < t.len() ==> (#[trigger] t[j]).0 == DDC_ADDR && t[j].1 == seq![j as u8, 0u8] && t[j].2 == 128
        &&& r matches Some(info)
        &&& edid_base(info, d0)
        &&& info.detailed_timings@ == detailed_timings_upto(d0, 4) + ext_timings(t.skip(1))
    }
}

/// Reads and parses a monitor's EDID: the base block, then up to four
/// extension blocks (as many as byte 126 announces) whose detailed timings
/// are appended. None when the base block cannot be read or is invalid.
pub fn read_edid<M: I2cMaster>(mgr: &mut I2cManager<M>, bus_id: usize) -> (r: Option<EdidInfo>)
    ensures
        final(mgr).buses@.len() == old(mgr).buses@.len(),
        bus_id >= old(mgr).buses@.len() ==> r is None && final(mgr).buses@ == old(mgr).buses@,
        r matches Some(info) ==> info.valid,
        bus_id < old(mgr).buses@.len() ==> {
            let c0 = old(mgr).buses@[bus_id as int];
            let c1 = final(mgr).buses@[bus_id as int];
            &&& forall|i: int| 0 <= i < old(mgr).buses@.len() && i != bus_id ==> #[trigger] final(mgr).buses@[i] == old(mgr).buses@[i]
            &&& c1.bus_id == c0.bus_id && c1.name == c0.name
            &&& c1.master.probes() == c0.master.probes()
            &&& c1.master.transfers().len() >= c0.master.transfers().len()
            &&& c1.master.transfers().subrange(0, c0.master.transfers().len() as int) == c0.master.transfers()
            &&& edid_read_trace(c1.master.transfers().skip(c0.master.transfers().len() as int), r)
        },
{
    let ghost b0 = mgr.buses@;
    let block0 = match read_edid_block(mgr, bus_id, 0) {
        Some(b) => b,
        None => {
            proof {
                if bus_id < b0.len() {
                    let c1 = mgr.buses@[bus_id as int];
                    let t = c1.master.transfers().skip(b0[bus_id as int].master.transfers().len() as int);
                    assert(c1.master.transfers().subrange(0, b0[bus_id as int].master.transfers().len() as int) =~= c1.master.transfers().drop_last());
                    assert(t =~= seq![c1.master.transfers().last()]);
                    assert(edid_valid(t[0].4) ==> t[0].4.subrange(0, 8) == edid_header());
                }
            }
            return None;
        },
    };
    let ghost k0 = b0[bus_id as int].master.transfers().len() as int;
    let mut info = parse_edid(&block0);
    if !info.valid {
        proof {
            let c1 = mgr.buses@[bus_id as int];
            let t = c1.master.transfers().skip(k0);
            assert(c1.master.transfers().subrange(0, k0) =~= c1.master.transfers().drop_last());
            assert(t =~= seq![c1.master.transfers().last()]);
        }
        return None;
    }
    let ghost d0 = block0@;
    let ghost info0 = info;
    let ghost base = info.detailed_timings@;
    proof {
        let c1 = mgr.buses@[bus_id as int];
        let t = c1.master.transfers().skip(k0);
        assert(c1.master.transfers().subrange(0, k0) =~= c1.master.transfers().drop_last());
        assert(t =~= seq![c1.master.transfers().last()]);
        assert(t.skip(1) =~= Seq::<(u8, Seq<u8>, nat, Result<usize, I2cError>, Seq<u8>)>::empty());
        assert(info.detailed_timings@ =~= base + ext_timings(t.skip(1)));
    }
    let ext_count = block0[126];
    let mut i: u8 = 1;
    while i <= ext_count && i <= 4
        invariant
            1 <= i <= 5,
            i <= ext_count + 1,
            ext_count == d0[126],
            info.valid,
            mgr.buses@.len() == b0.len(),
            bus_id < b0.len(),
            k0 == b0[bus_id as int].master.transfers().len(),
            forall|j: int| 0 <= j < b0.len() && j != bus_id ==> #[trigger] mgr.buses@[j] == b0[j],
            mgr.buses@[bus_id as int].bus_id == b0[bus_id as int].bus_id,
            mgr.buses@[bus_id as int].name == b0[bus_id as int].name,
            mgr.buses@[bus_id as int].master.probes() == b0[bus_id as int].master.probes(),
            mgr.buses@[bus_id as int].master.transfers().len() == k0 + i,
            mgr.buses@[bus_id as int].master.transfers().subrange(0, k0) == b0[bus_id as int].master.transfers(),
            ({
                let t = mgr.buses@[bus_id as int].master.transfers().skip(k0);
                &&& t[0].0 == DDC_ADDR && t[0].1 == seq![0u8, 0u8] && t[0].2 == 128
                &&& t[0].3 == Ok::<usize, I2cError>(128) && t[0].4 == d0
                &&& forall|j: int| 1 <= j < t.len() ==> (#[trigger] t[j]).0 == DDC_ADDR && t[j].1 == seq![j as u8, 0u8] && t[j].2 == 128
                &&& info.detailed_timings@ == base + ext_timings(t.skip(1))
            }),
            edid_base(info, d0),
            info.valid,
        decreases 5 - i,
    {
        let ghost before = mgr.buses@;
        let ghost dt_before = info.detailed_timings@;
        let rb = read_edid_block(mgr, bus_id, i);
        let ghost added: Seq<DetailedTiming> = Seq::empty();
        match rb {
            Some(ext) => {
                let ext_info = parse_edid(&ext);
                let mut k: usize = 0;
                while k < ext_info.detailed_timings.len()
                    invariant
                        k <= ext_info.detailed_timings@.len(),
                        info.valid,
                        edid_base(info, d0),
                        info.detailed_timings@ == dt_before + ext_info.detailed_timings@.take(k as int),
                    decreases ext_info.detailed_timings@.len() - k,
                {
                    info.detailed_timings.push(ext_info.detailed_timings[k]);
                    k = k + 1;
                    assert(info.detailed_timings@ =~= dt_before + ext_info.detailed_timings@.take(k as int));
                }
                proof {
                    assert(ext_info.detailed_timings@.take(ext_info.detailed_timings@.len() as int) =~= ext_info.detailed_timings@);
                    added = ext_info.detailed_timings@;
                }
            },
            None => {},
        }
        proof {
            let c = mgr.buses@[bus_id as int];
            let tr = c.master.transfers();
            let t = tr.skip(k0);
            let tb = before[bus_id as int].master.transfers().skip(k0);
            assert(tr.drop_last() == before[bus_id as int].master.transfers());
            assert(tr.subrange(0, k0) =~= tr.drop_last().subrange(0, k0));
            assert(t.drop_last() =~= tb);
            assert(t.skip(1).drop_last() =~= tb.skip(1));
            assert(t[0] == tb[0]);
            assert forall|j: int| 1 <= j < t.len() implies (#[trigger] t[j]).0 == DDC_ADDR && t[j].1 == seq![j as u8, 0u8] && t[j].2 == 128 by {
                if j < t.len() - 1 {
                    assert(t[j] == tb[j]);
                } else {
                    assert(t[j] == tr.last());
                    assert(j == i);
                }
            }
            assert(info.detailed_timings@ =~= dt_before + ext_part(tr.last()));
            assert(t.skip(1).last() == tr.last());
            assert(info.detailed_timings@ =~= base + ext_timings(t.skip(1)));
        }
        i = i + 1;
    }
    proof {
        let t = mgr.buses@[bus_id as int].master.transfers().skip(k0);
        assert(t.len() == i as int);
    }
    Some(info)
}

/// The peripheral usually found at a 7-bit address on Chromebook and GPU
/// buses.
pub open spec fn known_device(addr: u8) -> Seq<char> {
    if addr == 0x1A {
        "RT5682 Audio Codec"@
    } else if addr == 0x15 {
        "Elan Touchpad"@
    } else if addr == 0x38 || addr == 0x3C {
        "MAX98390 Amp"@
    } else if addr == 0x39 {
        "ALS Sensor"@
    } else if addr == 0x50 {
        "DDC/EDID (Monitor)"@
    } else if addr == 0x68 {
        "BMI160 Accel/Gyro / ICM-40608"@
    } else if addr == 0x5D || addr == 0x14 {
        "Goodix Touchscreen"@
    } else if addr == 0x2C || addr == 0x2D {
        "TPS6598x USB-C PD"@
    } else if addr == 0x48 {
        "GPU Thermal Sensor"@
    } else if addr == 0x49 {
        "GPU Voltage Controller"@
    } else {
        "unknown"@
    }
}

/// Name of the peripheral usually found at `addr`.
pub fn known_device_name(addr: u8) -> (name: &'static str)
    ensures
        name@ == known_device(addr),
{
    if addr == 0x1A {
        "RT5682 Audio Codec"
    } else if addr == 0x15 {
        "Elan Touchpad"
    } else if addr == 0x38 || addr == 0x3C {
        "MAX98390 Amp"
    } else if addr == 0x39 {
        "ALS Sensor"
    } else if addr == 0x50 {
        "DDC/EDID (Monitor)"
    } else if addr == 0x68 {
        "BMI160 Accel/Gyro / ICM-40608"
    } else if addr == 0x5D || addr == 0x14 {
        "Goodix Touchscreen"
    } else if addr == 0x2C || addr == 0x2D {
        "TPS6598x USB-C PD"
    } else if addr == 0x48 {
        "GPU Thermal Sensor"
    } else if addr == 0x49 {
        "GPU Voltage Controller"
    } else {
        "unknown"
    }
}

/// Scans bus `bus_id` and names each device found: the lines of the scan
/// report, in address order.
pub fn scan_and_report<M: I2cMaster>(mgr: &mut I2cManager<M>, bus_id: usize) -> (report: Vec<(u8, &'static str)>)
    ensures
        final(mgr).buses@.len() == old(mgr).buses@.len(),
        scan_result(report@.map_values(|e: (u8, &'static str)| e.0)),
        forall|k: int| 0 <= k < report@.len() ==> (#[trigger] report@[k]).1@ == known_device(report@[k].0),
        bus_id >= old(mgr).buses@.len() ==> report@.len() == 0 && final(mgr).buses@ == old(mgr).buses@,
        bus_id < old(mgr).buses@.len() ==> {
            &&& forall|i: int| 0 <= i < old(mgr).buses@.len() && i != bus_id ==> #[trigger] final(mgr).buses@[i] == old(mgr).buses@[i]
            &&& scanned_once(
                old(mgr).buses@[bus_id as int],
                final(mgr).buses@[bus_id as int],
                report@.map_values(|e: (u8, &'static str)| e.0),
            )
        },
{
    let found = mgr.scan_bus(bus_id);
    let mut report: Vec<(u8, &'static str)> = Vec::new();
    let mut i: usize = 0;
    while i < found.len()
        invariant
            i <= found@.len(),
            scan_result(found@),
            report@.len() == i,
            forall|k: int| 0 <= k < i ==> (#[trigger] report@[k]).0 == found@[k],
            forall|k: int| 0 <= k < report@.len() ==> (#[trigger] report@[k]).1@ == known_device(report@[k].0),
        decreases found@.len() - i,
    {
        let a = found[i];
        report.push((a, known_device_name(a)));
        i = i + 1;
    }
    assert(report@.map_values(|e: (u8, &'static str)| e.0) =~= found@);
    report
}

/// The addresses the self-test probes on bus 0.
pub open spec fn self_test_addrs() -> Seq<u8> {
    seq![0x50u8, 0x68u8, 0x1Au8, 0x15u8, 0x39u8]
}

/// The I²C self-test: probes the common peripheral addresses on bus 0;
/// each address with whether it answered (nothing when bus 0 is missing).
pub fn test_i2c<M: I2cMaster>(mgr: &mut I2cManager<M>) -> (results: Vec<(u8, bool)>)
    ensures
        final(mgr).buses@.len() == old(mgr).buses@.len(),
        old(mgr).buses@.len() == 0 ==> results@.len() == 0,
        old(mgr).buses@.len() > 0 ==> results@.map_values(|e: (u8, bool)| e.0) == self_test_addrs(),
{
    let mut results: Vec<(u8, bool)> = Vec::new();
    if mgr.bus_count() == 0 {
        return results;
    }
    let addrs: [u8; 5] = [0x50, 0x68, 0x1A, 0x15, 0x39];
    let mut c = mgr.with_bus(0);
    let mut i: usize = 0;
    while i < 5
        invariant
            i <= 5,
            addrs@ == self_test_addrs(),
            results@.len() == i,
            forall|k: int| 0 <= k < i ==> (#[trigger] results@[k]).0 == addrs@[k],
        decreases 5 - i,
    {
        let a = addrs[i];
        let present = c.probe(a);
        results.push((a, present));
        i = i + 1;
    }
    mgr.put_back(0, c);
    assert(results@.map_values(|e: (u8, bool)| e.0) =~= self_test_addrs());
    results
}

} // verus!
