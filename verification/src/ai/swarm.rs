use vstd::prelude::*;
use vstd::bytes::{
    spec_u32_to_le_bytes, spec_u32_from_le_bytes, spec_u64_to_le_bytes, spec_u64_from_le_bytes,
    u32_to_le_bytes, u32_from_le_bytes, u64_to_le_bytes, u64_from_le_bytes,
    lemma_auto_spec_u32_to_from_le_bytes, lemma_auto_spec_u64_to_from_le_bytes,
};
use vstd::utf8::{valid_utf8, decode_utf8, encode_utf8, encode_utf8_valid_utf8, encode_utf8_decode_utf8};
use vstd::string::StringSliceAdditionalSpecFns;
use std::collections::BTreeMap;
use crate::net::mesh::{MeshNode, AEAD_PLAINTEXT_LIMIT, sequence_after, lemma_sequence_after_step};

verus! {

/// Messages exchanged between swarm nodes.
#[derive(Debug, Clone)]
pub enum SwarmMessage {
    /// An intent detected by a local voice shell.
    IntentBroadcast { intent_id: u64, description: String, confidence: u8 },
    /// A bid to handle an intent (higher is better suited).
    TaskNegotiation { intent_id: u64, bid_score: u8 },
    /// A node takes over an intent.
    TaskAccepted { intent_id: u64 },
    /// Periodic heartbeat with the node's capabilities.
    Heartbeat { capabilities: Vec<String> },
    /// Health report of a node.
    SystemHealth { cpu_load: u8, mem_used: usize, mem_free: usize, uptime_s: u64 },
}

/// Abstract content of a message, strings as character sequences.
pub enum SwarmMsgView {
    IntentBroadcast { intent_id: u64, description: Seq<char>, confidence: u8 },
    TaskNegotiation { intent_id: u64, bid_score: u8 },
    TaskAccepted { intent_id: u64 },
    Heartbeat { capabilities: Seq<Seq<char>> },
    SystemHealth { cpu_load: u8, mem_used: u64, mem_free: u64, uptime_s: u64 },
}

impl View for SwarmMessage {
    type V = SwarmMsgView;

    open spec fn view(&self) -> SwarmMsgView {
        match self {
            SwarmMessage::IntentBroadcast { intent_id, description, confidence } => SwarmMsgView::IntentBroadcast {
                intent_id: *intent_id,
                description: description@,
                confidence: *confidence,
            },
            SwarmMessage::TaskNegotiation { intent_id, bid_score } => SwarmMsgView::TaskNegotiation {
                intent_id: *intent_id,
                bid_score: *bid_score,
            },
            SwarmMessage::TaskAccepted { intent_id } => SwarmMsgView::TaskAccepted { intent_id: *intent_id },
            SwarmMessage::Heartbeat { capabilities } => SwarmMsgView::Heartbeat {
                capabilities: capabilities@.map_values(|s: String| s@),
            },
            SwarmMessage::SystemHealth { cpu_load, mem_used, mem_free, uptime_s } => SwarmMsgView::SystemHealth {
                cpu_load: *cpu_load,
                mem_used: *mem_used as u64,
                mem_free: *mem_free as u64,
                uptime_s: *uptime_s,
            },
        }
    }
}

/// A string's UTF-8 bytes preceded by their count as a little-endian u32
/// (the count is truncated to 32 bits).
pub open spec fn len_prefixed(s: Seq<char>) -> Seq<u8> {
    spec_u32_to_le_bytes(encode_utf8(s).len() as u32) + encode_utf8(s)
}

/// Length-prefixed strings, one after the other.
pub open spec fn encode_strings(caps: Seq<Seq<char>>) -> Seq<u8>
    decreases caps.len(),
{
    if caps.len() == 0 {
        Seq::empty()
    } else {
        len_prefixed(caps[0]) + encode_strings(caps.drop_first())
    }
}

/// Wire encoding: a tag byte, then the fields in little-endian order.
pub open spec fn encode_msg(m: SwarmMsgView) -> Seq<u8> {
    match m {
        SwarmMsgView::IntentBroadcast { intent_id, description, confidence } => seq![0u8] + spec_u64_to_le_bytes(
            intent_id,
        ) + seq![confidence] + len_prefixed(description),
        SwarmMsgView::TaskNegotiation { intent_id, bid_score } => seq![1u8] + spec_u64_to_le_bytes(intent_id)
            + seq![bid_score],
        SwarmMsgView::TaskAccepted { intent_id } => seq![2u8] + spec_u64_to_le_bytes(intent_id),
        SwarmMsgView::Heartbeat { capabilities } => seq![3u8] + spec_u32_to_le_bytes(capabilities.len() as u32)
            + encode_strings(capabilities),
        SwarmMsgView::SystemHealth { cpu_load, mem_used, mem_free, uptime_s } => seq![4u8, cpu_load]
            + spec_u64_to_le_bytes(mem_used) + spec_u64_to_le_bytes(mem_free) + spec_u64_to_le_bytes(uptime_s),
    }
}

/// Little-endian u32 at `c`.
pub open spec fn read_u32_at(data: Seq<u8>, c: int) -> u32 {
    spec_u32_from_le_bytes(data.subrange(c, c + 4))
}

/// Little-endian u64 at `c`.
pub open spec fn read_u64_at(data: Seq<u8>, c: int) -> u64 {
    spec_u64_from_le_bytes(data.subrange(c, c + 8))
}

/// The string of `len` bytes at `c`, when they are valid UTF-8.
pub open spec fn read_str_at(data: Seq<u8>, c: int, len: int) -> Option<Seq<char>> {
    if valid_utf8(data.subrange(c, c + len)) {
        Some(decode_utf8(data.subrange(c, c + len)))
    } else {
        None
    }
}

/// `count` length-prefixed strings starting at `c`; the bytes after them are ignored.
pub open spec fn decode_strings(data: Seq<u8>, c: int, count: nat) -> Option<Seq<Seq<char>>>
    decreases count,
{
    if count == 0 {
        Some(Seq::empty())
    } else if data.len() < c + 4 {
        None
    } else {
        let len = read_u32_at(data, c) as int;
        if data.len() < c + 4 + len {
            None
        } else {
            match read_str_at(data, c + 4, len) {
                None => None,
                Some(s) => match decode_strings(data, c + 4 + len, (count - 1) as nat) {
                    None => None,
                    Some(rest) => Some(seq![s] + rest),
                },
            }
        }
    }
}

/// Decoding of the wire format; trailing bytes after a message are ignored.
pub open spec fn decode_msg(data: Seq<u8>) -> Option<SwarmMsgView> {
    if data.len() == 0 {
        None
    } else if data[0] == 0 {
        if data.len() < 14 {
            None
        } else {
            let len = read_u32_at(data, 10) as int;
            if data.len() < 14 + len {
                None
            } else {
                match read_str_at(data, 14, len) {
                    None => None,
                    Some(d) => Some(
                        SwarmMsgView::IntentBroadcast { intent_id: read_u64_at(data, 1), description: d, confidence: data[9] },
                    ),
                }
            }
        }
    } else if data[0] == 1 {
        if data.len() < 10 {
            None
        } else {
            Some(SwarmMsgView::TaskNegotiation { intent_id: read_u64_at(data, 1), bid_score: data[9] })
        }
    } else if data[0] == 2 {
        if data.len() < 9 {
            None
        } else {
            Some(SwarmMsgView::TaskAccepted { intent_id: read_u64_at(data, 1) })
        }
    } else if data[0] == 3 {
        if data.len() < 5 {
            None
        } else {
            match decode_strings(data, 5, read_u32_at(data, 1) as nat) {
                None => None,
                Some(caps) => Some(SwarmMsgView::Heartbeat { capabilities: caps }),
            }
        }
    } else if data[0] == 4 {
        if data.len() < 26 {
            None
        } else {
            Some(
                SwarmMsgView::SystemHealth {
                    cpu_load: data[1],
                    mem_used: read_u64_at(data, 2) as usize as u64,
                    mem_free: read_u64_at(data, 10) as usize as u64,
                    uptime_s: read_u64_at(data, 18),
                },
            )
        }
    } else {
        None
    }
}

/// Calls `core::str::from_utf8`: it succeeds exactly when the bytes are valid
/// UTF-8, and the string slice then holds those bytes.
#[verifier::external_body]
fn str_from_utf8(bytes: &[u8]) -> (r: Option<&str>)
    ensures
        r is Some <==> valid_utf8(bytes@),
        r matches Some(s) ==> s.spec_bytes() == bytes@,
{
    match core::str::from_utf8(bytes) {
        Ok(s) => Some(s),
        Err(_) => None,
    }
}

/// Decodes UTF-8 bytes into an owned string.
fn string_from_utf8(bytes: &[u8]) -> (r: Option<String>)
    ensures
        r is Some <==> valid_utf8(bytes@),
        r matches Some(s) ==> s@ == decode_utf8(bytes@),
{
    match str_from_utf8(bytes) {
        Some(s) => {
            proof {
                encode_utf8_decode_utf8(s@);
            }
            Some(s.to_owned())
        },
        None => None,
    }
}

/// Appends a string's byte count (as u32) and bytes.
fn push_len_prefixed(buffer: &mut Vec<u8>, s: &String)
    ensures
        final(buffer)@ == old(buffer)@ + len_prefixed(s@),
{
    let bytes = s.as_str().as_bytes();
    let len = u32_to_le_bytes(bytes.len() as u32);
    buffer.extend_from_slice(len.as_slice());
    buffer.extend_from_slice(bytes);
}

proof fn lemma_encode_strings_push(caps: Seq<Seq<char>>, s: Seq<char>)
    ensures
        encode_strings(caps.push(s)) == encode_strings(caps) + len_prefixed(s),
    decreases caps.len(),
{
    if caps.len() == 0 {
        assert(caps.push(s).drop_first() =~= Seq::<Seq<char>>::empty());
        assert(encode_strings(Seq::<Seq<char>>::empty()) == Seq::<u8>::empty());
        assert(caps.push(s)[0] == s);
        assert(encode_strings(caps) == Seq::<u8>::empty());
        assert(encode_strings(caps.push(s)) =~= len_prefixed(s) + Seq::<u8>::empty());
        assert(encode_strings(caps) + len_prefixed(s) =~= len_prefixed(s));
    } else {
        lemma_encode_strings_push(caps.drop_first(), s);
        assert(caps.push(s).drop_first() =~= caps.drop_first().push(s));
        assert(encode_strings(caps.push(s)) =~= len_prefixed(caps[0]) + (encode_strings(caps.drop_first()) + len_prefixed(s)));
    }
}

impl SwarmMessage {
    /// The wire encoding of the message.
    pub fn serialize(&self) -> (buffer: Vec<u8>)
        ensures
            buffer@ == encode_msg(self@),
    {
        let mut buffer: Vec<u8> = Vec::new();
        match self {
            SwarmMessage::IntentBroadcast { intent_id, description, confidence } => {
                buffer.push(0);
                let id = u64_to_le_bytes(*intent_id);
                buffer.extend_from_slice(id.as_slice());
                buffer.push(*confidence);
                push_len_prefixed(&mut buffer, description);
                assert(buffer@ =~= encode_msg(self@));
            },
            SwarmMessage::TaskNegotiation { intent_id, bid_score } => {
                buffer.push(1);
                let id = u64_to_le_bytes(*intent_id);
                buffer.extend_from_slice(id.as_slice());
                buffer.push(*bid_score);
                assert(buffer@ =~= encode_msg(self@));
            },
            SwarmMessage::TaskAccepted { intent_id } => {
                buffer.push(2);
                let id = u64_to_le_bytes(*intent_id);
                buffer.extend_from_slice(id.as_slice());
                assert(buffer@ =~= encode_msg(self@));
            },
            SwarmMessage::Heartbeat { capabilities } => {
                buffer.push(3);
                let count = u32_to_le_bytes(capabilities.len() as u32);
                buffer.extend_from_slice(count.as_slice());
                let ghost caps = capabilities@.map_values(|s: String| s@);
                let ghost head = buffer@;
                let mut i: usize = 0;
                while i < capabilities.len()
                    invariant
                        i <= capabilities@.len(),
                        caps == capabilities@.map_values(|s: String| s@),
                        buffer@ == head + encode_strings(caps.take(i as int)),
                    decreases capabilities@.len() - i,
                {
                    push_len_prefixed(&mut buffer, &capabilities[i]);
                    proof {
                        lemma_encode_strings_push(caps.take(i as int), caps[i as int]);
                        assert(caps.take(i as int).push(caps[i as int]) =~= caps.take(i as int + 1));
                    }
                    i = i + 1;
                }
                assert(caps.take(caps.len() as int) =~= caps);
                assert(buffer@ =~= encode_msg(self@));
            },
            SwarmMessage::SystemHealth { cpu_load, mem_used, mem_free, uptime_s } => {
                buffer.push(4);
                buffer.push(*cpu_load);
                let a = u64_to_le_bytes(*mem_used as u64);
                buffer.extend_from_slice(a.as_slice());
                let b = u64_to_le_bytes(*mem_free as u64);
                buffer.extend_from_slice(b.as_slice());
                let c = u64_to_le_bytes(*uptime_s);
                buffer.extend_from_slice(c.as_slice());
                assert(buffer@ =~= encode_msg(self@));
            },
        }
        buffer
    }
}


/// `pre` in front of the strings decoded after it.
pub open spec fn prepend_strings(pre: Seq<Seq<char>>, rest: Option<Seq<Seq<char>>>) -> Option<Seq<Seq<char>>> {
    match rest {
        None => None,
        Some(r) => Some(pre + r),
    }
}

/// Little-endian u32 at `c`.
fn read_u32(data: &[u8], c: usize) -> (v: u32)
    requires
        c + 4 <= data@.len(),
    ensures
        v == read_u32_at(data@, c as int),
{
    let total = data.len();
    u32_from_le_bytes(vstd::slice::slice_subrange(data, c, c + 4))
}

/// Little-endian u64 at `c`.
fn read_u64(data: &[u8], c: usize) -> (v: u64)
    requires
        c + 8 <= data@.len(),
    ensures
        v == read_u64_at(data@, c as int),
{
    let total = data.len();
    u64_from_le_bytes(vstd::slice::slice_subrange(data, c, c + 8))
}

/// The string of `len` bytes at `c`.
fn read_string(data: &[u8], c: usize, len: usize) -> (r: Option<String>)
    requires
        c + len <= data@.len(),
    ensures
        match r {
            Some(s) => read_str_at(data@, c as int, len as int) == Some(s@),
            None => read_str_at(data@, c as int, len as int) is None,
        },
{
    let total = data.len();
    string_from_utf8(vstd::slice::slice_subrange(data, c, c + len))
}

impl SwarmMessage {
    /// Decodes a message; `None` for an empty buffer, an unknown tag, a buffer
    /// too short for its fields, or a string that is not valid UTF-8.
    pub fn deserialize(data: &[u8]) -> (r: Option<Self>)
        ensures
            match r {
                Some(m) => decode_msg(data@) == Some(m@),
                None => decode_msg(data@) is None,
            },
    {
        if data.len() == 0 {
            return None;
        }
        let tag = data[0];
        if tag == 0 {
            if data.len() < 14 {
                return None;
            }
            let intent_id = read_u64(data, 1);
            let confidence = data[9];
            let len = read_u32(data, 10) as usize;
            if data.len() - 14 < len {
                return None;
            }
            match read_string(data, 14, len) {
                Some(description) => Some(SwarmMessage::IntentBroadcast { intent_id, description, confidence }),
                None => None,
            }
        } else if tag == 1 {
            if data.len() < 10 {
                return None;
            }
            let intent_id = read_u64(data, 1);
            let bid_score = data[9];
            Some(SwarmMessage::TaskNegotiation { intent_id, bid_score })
        } else if tag == 2 {
            if data.len() < 9 {
                return None;
            }
            let intent_id = read_u64(data, 1);
            Some(SwarmMessage::TaskAccepted { intent_id })
        } else if tag == 3 {
            if data.len() < 5 {
                return None;
            }
            let cap_count = read_u32(data, 1) as usize;
            let mut cursor: usize = 5;
            let mut capabilities: Vec<String> = Vec::new();
            let mut k: usize = 0;
            while k < cap_count
                invariant
                    data@.len() >= 5,
                    data@[0] == 3,
                    k <= cap_count,
                    cap_count == read_u32_at(data@, 1) as nat,
                    5 <= cursor <= data@.len(),
                    decode_strings(data@, 5, cap_count as nat) == prepend_strings(
                        capabilities@.map_values(|s: String| s@),
                        decode_strings(data@, cursor as int, (cap_count - k) as nat),
                    ),
                decreases cap_count - k,
            {
                let ghost caps_before = capabilities@.map_values(|s: String| s@);
                if data.len() - cursor < 4 {
                    assert(decode_strings(data@, cursor as int, (cap_count - k) as nat) is None);
                    return None;
                }
                let len = read_u32(data, cursor) as usize;
                if data.len() - cursor - 4 < len {
                    assert(decode_strings(data@, cursor as int, (cap_count - k) as nat) is None);
                    return None;
                }
                match read_string(data, cursor + 4, len) {
                    Some(cap) => {
                        capabilities.push(cap);
                        proof {
                            assert(capabilities@.map_values(|s: String| s@) =~= caps_before.push(cap@));
                            let rest = decode_strings(data@, (cursor + 4 + len) as int, (cap_count - k - 1) as nat);
                            match rest {
                                Some(r) => {
                                    assert(caps_before + (seq![cap@] + r) =~= caps_before.push(cap@) + r);
                                },
                                None => {},
                            }
                        }
                        cursor = cursor + 4 + len;
                    },
                    None => {
                        assert(decode_strings(data@, cursor as int, (cap_count - k) as nat) is None);
                        return None;
                    },
                }
                k = k + 1;
            }
            proof {
                assert(capabilities@.map_values(|s: String| s@) + Seq::<Seq<char>>::empty()
                    =~= capabilities@.map_values(|s: String| s@));
            }
            Some(SwarmMessage::Heartbeat { capabilities })
        } else if tag == 4 {
            if data.len() < 26 {
                return None;
            }
            let cpu_load = data[1];
            let mem_used = read_u64(data, 2) as usize;
            let mem_free = read_u64(data, 10) as usize;
            let uptime_s = read_u64(data, 18);
            Some(SwarmMessage::SystemHealth { cpu_load, mem_used, mem_free, uptime_s })
        } else {
            None
        }
    }
}


/// Messages whose length prefixes and sizes survive encoding: every string is
/// at most `u32::MAX` bytes, a heartbeat has at most `u32::MAX` entries, and
/// the memory figures of a health report fit a `usize`.
pub open spec fn encodable(m: SwarmMsgView) -> bool {
    match m {
        SwarmMsgView::IntentBroadcast { description, .. } => encode_utf8(description).len() <= u32::MAX,
        SwarmMsgView::Heartbeat { capabilities } => {
            &&& capabilities.len() <= u32::MAX
            &&& forall|i: int| 0 <= i < capabilities.len() ==> #[trigger] encode_utf8(capabilities[i]).len() <= u32::MAX
        },
        SwarmMsgView::SystemHealth { mem_used, mem_free, .. } => mem_used <= usize::MAX && mem_free <= usize::MAX,
        _ => true,
    }
}

proof fn lemma_read_len_prefixed(prefix: Seq<u8>, s: Seq<char>, suffix: Seq<u8>)
    requires
        encode_utf8(s).len() <= u32::MAX,
    ensures
        ({
            let data = prefix + len_prefixed(s) + suffix;
            let c = prefix.len() as int;
            &&& data.len() >= c + 4 + encode_utf8(s).len()
            &&& read_u32_at(data, c) == encode_utf8(s).len()
            &&& read_str_at(data, c + 4, encode_utf8(s).len() as int) == Some(s)
        }),
{
    lemma_auto_spec_u32_to_from_le_bytes();
    encode_utf8_valid_utf8(s);
    encode_utf8_decode_utf8(s);
    let data = prefix + len_prefixed(s) + suffix;
    let c = prefix.len() as int;
    let n = encode_utf8(s).len() as int;
    assert(data.subrange(c, c + 4) =~= spec_u32_to_le_bytes(n as u32));
    assert(data.subrange(c + 4, c + 4 + n) =~= encode_utf8(s));
}

proof fn lemma_decode_encode_strings(prefix: Seq<u8>, caps: Seq<Seq<char>>)
    requires
        forall|i: int| 0 <= i < caps.len() ==> #[trigger] encode_utf8(caps[i]).len() <= u32::MAX,
    ensures
        decode_strings(prefix + encode_strings(caps), prefix.len() as int, caps.len()) == Some(caps),
    decreases caps.len(),
{
    if caps.len() > 0 {
        let c0 = caps[0];
        let rest = caps.drop_first();
        let data = prefix + encode_strings(caps);
        assert(data =~= prefix + len_prefixed(c0) + encode_strings(rest));
        lemma_read_len_prefixed(prefix, c0, encode_strings(rest));
        let next = prefix + len_prefixed(c0);
        assert(data =~= next + encode_strings(rest));
        assert forall|i: int| 0 <= i < rest.len() implies #[trigger] encode_utf8(rest[i]).len() <= u32::MAX by {
            assert(rest[i] == caps[i + 1]);
        }
        lemma_decode_encode_strings(next, rest);
        lemma_auto_spec_u32_to_from_le_bytes();
        assert(spec_u32_to_le_bytes(encode_utf8(c0).len() as u32).len() == 4);
        assert(next.len() == prefix.len() + 4 + encode_utf8(c0).len());
        assert(seq![c0] + rest =~= caps);
    } else {
        assert(caps =~= Seq::<Seq<char>>::empty());
    }
}

/// Decoding an encoded message gives the message back.
pub proof fn lemma_decode_encode(m: SwarmMsgView)
    requires
        encodable(m),
    ensures
        decode_msg(encode_msg(m)) == Some(m),
{
    lemma_auto_spec_u32_to_from_le_bytes();
    lemma_auto_spec_u64_to_from_le_bytes();
    let data = encode_msg(m);
    match m {
        SwarmMsgView::IntentBroadcast { intent_id, description, confidence } => {
            let head = seq![0u8] + spec_u64_to_le_bytes(intent_id) + seq![confidence];
            assert(data =~= head + len_prefixed(description) + Seq::<u8>::empty());
            lemma_read_len_prefixed(head, description, Seq::<u8>::empty());
            assert(data.subrange(1, 9) =~= spec_u64_to_le_bytes(intent_id));
        },
        SwarmMsgView::TaskNegotiation { intent_id, bid_score } => {
            assert(data.subrange(1, 9) =~= spec_u64_to_le_bytes(intent_id));
        },
        SwarmMsgView::TaskAccepted { intent_id } => {
            assert(data.subrange(1, 9) =~= spec_u64_to_le_bytes(intent_id));
        },
        SwarmMsgView::Heartbeat { capabilities } => {
            let head = seq![3u8] + spec_u32_to_le_bytes(capabilities.len() as u32);
            assert(data =~= head + encode_strings(capabilities));
            assert(data.subrange(1, 5) =~= spec_u32_to_le_bytes(capabilities.len() as u32));
            lemma_decode_encode_strings(head, capabilities);
        },
        SwarmMsgView::SystemHealth { cpu_load, mem_used, mem_free, uptime_s } => {
            assert(data.subrange(2, 10) =~= spec_u64_to_le_bytes(mem_used));
            assert(data.subrange(10, 18) =~= spec_u64_to_le_bytes(mem_free));
            assert(data.subrange(18, 26) =~= spec_u64_to_le_bytes(uptime_s));
        },
    }
}

/// Seals `data` for every peer of the mesh node, one sequence number each,
/// and returns the number of peers.
fn seal_for_all_peers(mesh: &mut MeshNode, data: &Vec<u8>) -> (peers: usize)
    requires
        old(mesh).wf(),
        data@.len() < AEAD_PLAINTEXT_LIMIT,
    ensures
        peers == old(mesh).spec_peers().dom().len(),
        final(mesh).wf(),
        final(mesh).spec_id() == old(mesh).spec_id(),
        final(mesh).spec_secret() == old(mesh).spec_secret(),
        final(mesh).spec_public() == old(mesh).spec_public(),
        final(mesh).spec_peers() == old(mesh).spec_peers(),
        final(mesh).spec_sequence() == sequence_after(old(mesh).spec_sequence(), peers as nat),
{
    let ids = mesh.get_peer_ids();
    proof {
        lemma_sequence_after_step(mesh.spec_sequence(), 0);
    }
    let mut i: usize = 0;
    while i < ids.len()
        invariant
            i <= ids@.len(),
            data@.len() < AEAD_PLAINTEXT_LIMIT,
            ids@.to_set() == old(mesh).spec_peers().dom(),
            mesh.wf(),
            mesh.spec_id() == old(mesh).spec_id(),
            mesh.spec_secret() == old(mesh).spec_secret(),
            mesh.spec_public() == old(mesh).spec_public(),
            mesh.spec_peers() == old(mesh).spec_peers(),
            mesh.spec_sequence() == sequence_after(old(mesh).spec_sequence(), i as nat),
        decreases ids@.len() - i,
    {
        assert(ids@.to_set().contains(ids@[i as int]));
        let _ = mesh.send_to(ids[i], data.as_slice());
        proof {
            lemma_sequence_after_step(old(mesh).spec_sequence(), i as nat);
        }
        i = i + 1;
    }
    proof {
        ids@.unique_seq_to_set();
    }
    ids.len()
}

/// A swarm agent: its node id, the intents it has broadcast and not yet seen
/// taken over, and the id of its next intent.
pub struct SwarmAgent {
    node_id: u64,
    active_intents: BTreeMap<u64, String>,
    intent_counter: u64,
}

/// The wire size of an intent broadcast: tag, id, confidence, length prefix
/// and the description's UTF-8 bytes.
proof fn lemma_intent_size(intent_id: u64, description: Seq<char>, confidence: u8)
    ensures
        encode_msg(SwarmMsgView::IntentBroadcast { intent_id, description, confidence }).len() == 14
            + encode_utf8(description).len(),
{
    lemma_auto_spec_u32_to_from_le_bytes();
    lemma_auto_spec_u64_to_from_le_bytes();
}

impl SwarmAgent {
    pub closed spec fn spec_node_id(&self) -> u64 {
        self.node_id
    }

    /// The active intents, descriptions as characters.
    pub closed spec fn spec_intents(&self) -> Map<u64, Seq<char>> {
        self.active_intents@.map_values(|d: String| d@)
    }

    /// The id the next broadcast intent gets.
    pub closed spec fn spec_next_intent(&self) -> u64 {
        self.intent_counter
    }

    /// An agent with no active intents; intent ids start at 1.
    pub fn new(node_id: u64) -> (agent: Self)
        ensures
            agent.spec_node_id() == node_id,
            agent.spec_intents() == Map::<u64, Seq<char>>::empty(),
            agent.spec_next_intent() == 1,
    {
        let agent = SwarmAgent { node_id, active_intents: BTreeMap::new(), intent_counter: 1 };
        assert(agent.spec_intents() =~= Map::<u64, Seq<char>>::empty());
        agent
    }

    /// Serialises an intent under the next intent id, seals it for every peer
    /// of the mesh node (the sealed packets are dropped: no transport is
    /// attached), records the intent as active and returns the number of peers.
    pub fn broadcast_intent(&mut self, mesh: &mut MeshNode, description: &str, confidence: u8) -> (peers: usize)
        requires
            old(mesh).wf(),
            encode_utf8(description@).len() + 14 < AEAD_PLAINTEXT_LIMIT,
        ensures
            final(self).spec_node_id() == old(self).spec_node_id(),
            final(self).spec_intents() == old(self).spec_intents().insert(old(self).spec_next_intent(), description@),
            final(self).spec_next_intent() == crate::net::mesh::next_sequence(old(self).spec_next_intent()),
            peers == old(mesh).spec_peers().dom().len(),
            final(mesh).wf(),
            final(mesh).spec_id() == old(mesh).spec_id(),
            final(mesh).spec_secret() == old(mesh).spec_secret(),
            final(mesh).spec_public() == old(mesh).spec_public(),
            final(mesh).spec_peers() == old(mesh).spec_peers(),
            final(mesh).spec_sequence() == sequence_after(old(mesh).spec_sequence(), peers as nat),
    {
        let intent_id = self.intent_counter;
        self.intent_counter = intent_id.wrapping_add(1);
        let msg = SwarmMessage::IntentBroadcast { intent_id, description: description.to_owned(), confidence };
        let data = msg.serialize();
        proof {
            lemma_intent_size(intent_id, description@, confidence);
        }
        let peers = seal_for_all_peers(mesh, &data);
        self.active_intents.insert(intent_id, description.to_owned());
        assert(self.spec_intents() =~= old(self).spec_intents().insert(intent_id, description@));
        peers
    }

    /// Serialises a health report, seals it for every peer of the mesh node
    /// (the sealed packets are dropped: no transport is attached) and returns
    /// the number of peers.
    pub fn broadcast_health(
        &self,
        mesh: &mut MeshNode,
        cpu_load: u8,
        mem_used: usize,
        mem_free: usize,
        uptime_s: u64,
    ) -> (peers: usize)
        requires
            old(mesh).wf(),
        ensures
            peers == old(mesh).spec_peers().dom().len(),
            final(mesh).wf(),
            final(mesh).spec_id() == old(mesh).spec_id(),
            final(mesh).spec_secret() == old(mesh).spec_secret(),
            final(mesh).spec_public() == old(mesh).spec_public(),
            final(mesh).spec_peers() == old(mesh).spec_peers(),
            final(mesh).spec_sequence() == sequence_after(old(mesh).spec_sequence(), peers as nat),
    {
        let msg = SwarmMessage::SystemHealth { cpu_load, mem_used, mem_free, uptime_s };
        let data = msg.serialize();
        proof {
            lemma_auto_spec_u64_to_from_le_bytes();
        }
        seal_for_all_peers(mesh, &data)
    }

    /// Takes in a message from a peer: a task taken over ends the intent;
    /// other messages leave the agent as it is.
    pub fn handle_message(&mut self, sender_id: u64, msg: SwarmMessage)
        ensures
            final(self).spec_node_id() == old(self).spec_node_id(),
            final(self).spec_next_intent() == old(self).spec_next_intent(),
            msg is TaskAccepted ==> final(self).spec_intents() == old(self).spec_intents().remove(
                msg->TaskAccepted_intent_id,
            ),
            !(msg is TaskAccepted) ==> final(self).spec_intents() == old(self).spec_intents(),
    {
        broadcast use vstd::laws_cmp::group_laws_cmp;
        broadcast use vstd::std_specs::btree::group_btree_axioms;
        match msg {
            SwarmMessage::TaskAccepted { intent_id } => {
                let _ = self.active_intents.remove(&intent_id);
                assert(self.spec_intents() =~= old(self).spec_intents().remove(intent_id));
            },
            _ => {},
        }
    }
}

/// An agent broadcasting one intent from a node without peers holds exactly
/// that intent as active.
pub fn test_swarm_logic() -> (passed: bool)
    ensures
        passed,
{
    broadcast use vstd::laws_cmp::group_laws_cmp;
    broadcast use vstd::std_specs::btree::group_btree_axioms;
    let mut mesh = MeshNode::new(1);
    let mut agent = SwarmAgent::new(99);
    let text = "Turn on lights";
    proof {
        reveal_strlit("Turn on lights");
        assert(vstd::utf8::is_ascii_chars(text@));
        vstd::utf8::is_ascii_chars_encode_utf8(text@);
    }
    let _ = agent.broadcast_intent(&mut mesh, text, 95);
    assert(agent.spec_intents() == Map::<u64, Seq<char>>::empty().insert(1u64, text@));
    assert(agent.spec_intents().dom() =~= set![1u64]);
    assert(agent.active_intents@.dom() =~= agent.spec_intents().dom());
    assert(agent.active_intents@.dom().len() == 1);
    if agent.active_intents.len() != 1 {
        return false;
    }
    match agent.active_intents.get(&1) {
        Some(d) => {
            assert(agent.spec_intents()[1u64] == agent.active_intents@[1u64]@);
            crate::strings::str_eq(d.as_str(), text)
        },
        None => false,
    }
}

} // verus!
