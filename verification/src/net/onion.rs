//! The onion routing subsystem: SOCKS5 requests and the hop circuit.
use vstd::prelude::*;

verus! {

/// State of the SOCKS5 handshake and of the circuit.
#[derive(Debug, Clone, Copy, PartialEq, Eq, Structural)]
pub enum OnionStatus {
    Disconnected,
    SocksGreeting,
    SocksConnect,
    CircuitEstablished,
    Error,
}

/// One hop of the circuit.
#[derive(Debug)]
pub struct OnionNode {
    pub id: u64,
    pub alias: String,
}

/// The subsystem: its status and its circuit.
pub struct OnionSubsystem {
    pub status: OnionStatus,
    pub circuit: Vec<OnionNode>,
}

/// The SOCKS5 connect request for `addr`:`port`: version 5, CONNECT,
/// reserved, domain address type, the domain's length (mod 256) and bytes,
/// and the port big-endian.
pub open spec fn connect_request(addr: Seq<u8>, port: u16) -> Seq<u8> {
    seq![0x05u8, 0x01u8, 0x00u8, 0x03u8, (addr.len() % 256) as u8] + addr + seq![(port / 256) as u8, (port % 256) as u8]
}

/// The hop names of a circuit, entry to exit.
pub open spec fn hop_alias(i: int) -> Seq<char> {
    if i == 0 {
        "ENTRY-ALPHA"@
    } else if i == 1 {
        "RELAY-BETA"@
    } else if i == 2 {
        "RELAY-GAMMA"@
    } else if i == 3 {
        "RELAY-DELTA"@
    } else {
        "EXIT-OMEGA"@
    }
}

/// The onion services fetched in turn.
pub open spec fn fetch_targets() -> Seq<Seq<char>> {
    seq!["duckduckgo.onion"@, "torproject.onion"@, "propublica.onion"@, "nytimes3x.onion"@]
}

fn hop_name(i: usize) -> (s: &'static str)
    ensures
        s@ == hop_alias(i as int),
{
    if i == 0 {
        "ENTRY-ALPHA"
    } else if i == 1 {
        "RELAY-BETA"
    } else if i == 2 {
        "RELAY-GAMMA"
    } else if i == 3 {
        "RELAY-DELTA"
    } else {
        "EXIT-OMEGA"
    }
}

impl OnionSubsystem {
    /// Disconnected, no circuit.
    pub fn new() -> (s: Self)
        ensures
            s.status == OnionStatus::Disconnected,
            s.circuit@.len() == 0,
    {
        OnionSubsystem { status: OnionStatus::Disconnected, circuit: Vec::new() }
    }

    /// Writes the SOCKS5 greeting (version 5, one method, no
    /// authentication) at the start of `stream`; false when it has fewer
    /// than 3 bytes.
    pub fn socks5_greet(&self, stream: &mut Vec<u8>) -> (ok: bool)
        ensures
            ok == (old(stream)@.len() >= 3),
            ok ==> final(stream)@ == seq![0x05u8, 0x01u8, 0x00u8] + old(stream)@.skip(3),
            !ok ==> final(stream)@ == old(stream)@,
    {
        if stream.len() < 3 {
            return false;
        }
        stream.set(0, 0x05);
        stream.set(1, 0x01);
        stream.set(2, 0x00);
        assert(stream@ =~= seq![0x05u8, 0x01u8, 0x00u8] + old(stream)@.skip(3));
        true
    }

    /// Appends the SOCKS5 CONNECT request for `onion_addr`:`port` to `buffer`.
    pub fn socks5_connect(&self, onion_addr: &str, port: u16, buffer: &mut Vec<u8>)
        ensures
            final(buffer)@ == old(buffer)@ + connect_request(vstd::utf8::encode_utf8(onion_addr@), port),
    {
        let bytes = onion_addr.as_bytes();
        buffer.push(0x05);
        buffer.push(0x01);
        buffer.push(0x00);
        buffer.push(0x03);
        buffer.push((bytes.len() % 256) as u8);
        let ghost head = buffer@;
        let mut i: usize = 0;
        while i < bytes.len()
            invariant
                i <= bytes@.len(),
                buffer@ == head + bytes@.take(i as int),
            decreases bytes@.len() - i,
        {
            buffer.push(bytes[i]);
            i = i + 1;
            assert(buffer@ =~= head + bytes@.take(i as int));
        }
        buffer.push((port / 256) as u8);
        buffer.push((port % 256) as u8);
        assert(bytes@.take(bytes@.len() as int) =~= bytes@);
        assert(buffer@ =~= old(buffer)@ + connect_request(vstd::utf8::encode_utf8(onion_addr@), port));
    }

    /// Builds the five-hop circuit (entry, three relays, exit, with ids from
    /// 0xDEADBEEF) after the previous one, and marks it established.
    pub fn establish_circuit(&mut self)
        ensures
            final(self).status == OnionStatus::CircuitEstablished,
            final(self).circuit@.len() == old(self).circuit@.len() + 5,
            forall|k: int| 0 <= k < 5 ==> (#[trigger] final(self).circuit@[old(self).circuit@.len() + k]).id == 0xDEADBEEF + k
                && final(self).circuit@[old(self).circuit@.len() + k].alias@ == hop_alias(k),
    {
        self.status = OnionStatus::SocksGreeting;
        let base = self.circuit.len();
        let mut i: usize = 0;
        while i < 5
            invariant
                i <= 5,
                base == old(self).circuit@.len(),
                self.circuit@.len() == base + i,
                forall|k: int| 0 <= k < i ==> (#[trigger] self.circuit@[base + k]).id == 0xDEADBEEF + k
                    && self.circuit@[base + k].alias@ == hop_alias(k),
            decreases 5 - i,
        {
            let alias = hop_name(i).to_owned();
            self.circuit.push(OnionNode { id: 0xDEADBEEF + i as u64, alias });
            i = i + 1;
        }
        self.status = OnionStatus::CircuitEstablished;
    }

    /// The service fetched at uptime tick `uptime`: every 50 ticks, the next
    /// of the four services in turn.
    pub fn fetch_target(uptime: usize) -> (t: Option<&'static str>)
        ensures
            uptime % 50 != 0 ==> t is None,
            uptime % 50 == 0 ==> (t matches Some(s) && s@ == fetch_targets()[(uptime / 50 % 4) as int]),
    {
        if uptime % 50 != 0 {
            return None;
        }
        let k = uptime / 50 % 4;
        if k == 0 {
            Some("duckduckgo.onion")
        } else if k == 1 {
            Some("torproject.onion")
        } else if k == 2 {
            Some("propublica.onion")
        } else {
            Some("nytimes3x.onion")
        }
    }
}

} // verus!
