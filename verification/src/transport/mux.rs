//! Multiplexing of user output and GDB traffic on one serial channel.
//!
//! Every packet is a channel id byte followed by payload bytes, COBS-encoded and terminated by a
//! zero byte, so the host can tell user output from debug data.

use vstd::prelude::*;
use vstd::arithmetic::div_mod::lemma_div_is_ordered;
use vstd::slice::slice_subrange;

use crate::sdk::serial::OUT_BUF_SIZE;

verus! {

/// The id byte that starts every packet and says which stream it belongs to.
#[derive(Debug, Clone, Copy, PartialEq, Eq, Structural)]
pub enum ChannelId {
    /// Standard I/O (`b'u'`).
    User,
    /// Debug channel (`b'd'`). Messages should use the GDB Protocol.
    Debug,
}

impl ChannelId {
    /// The id byte of the channel.
    pub open spec fn spec_byte(self) -> u8 {
        match self {
            ChannelId::User => 0x75,
            ChannelId::Debug => 0x64,
        }
    }

    /// Returns the id byte of the channel.
    pub fn byte(self) -> (r: u8)
        ensures
            r == self.spec_byte(),
    {
        match self {
            ChannelId::User => 0x75,
            ChannelId::Debug => 0x64,
        }
    }

    /// Returns the channel an id byte names, if any.
    pub fn from_byte(byte: u8) -> (r: Option<ChannelId>)
        ensures
            r matches Some(c) ==> c.spec_byte() == byte,
            r is None ==> byte != ChannelId::User.spec_byte() && byte != ChannelId::Debug.spec_byte(),
    {
        if byte == 0x75 {
            Some(ChannelId::User)
        } else if byte == 0x64 {
            Some(ChannelId::Debug)
        } else {
            None
        }
    }
}

/// User output is tagged with the byte `u` (0x75) and debug traffic with `d` (0x64), so the two
/// streams are never confused.
pub proof fn lemma_channel_bytes(c1: ChannelId, c2: ChannelId)
    ensures
        ChannelId::User.spec_byte() == 0x75,
        ChannelId::Debug.spec_byte() == 0x64,
        c1.spec_byte() == c2.spec_byte() ==> c1 == c2,
{
}

/// The bytes `cobs::encode` writes for `source` (COBS with sentinel 0, without the terminating
/// zero).
pub uninterp spec fn cobs_encoding(source: Seq<u8>) -> Seq<u8>;

/// What `cobs::decode_vec` gives back for `frame`: the decoded bytes, or `None` on a decode error.
pub uninterp spec fn cobs_decoding(frame: Seq<u8>) -> Option<Seq<u8>>;

/// The value of `cobs::max_encoding_length(n)`: `n` plus one code byte per started block of 254
/// bytes, and one byte for an empty source.
pub open spec fn spec_max_encoding_length(n: nat) -> nat {
    if n == 0 {
        1
    } else {
        n + (n + 253) / 254
    }
}

/// Calls `cobs::encode(source, dest)`.
///
/// `encode` panics when `dest` is too small for the encoding; `cobs` documents sizing `dest` with
/// `max_encoding_length(source.len())`, which the contract requires, and then every byte of the
/// encoding lies inside `dest`. The contract names the encoding and claims what `encode` does:
/// the returned length is the encoding's, the encoding is at the start of `dest`, it is at least
/// one byte longer than its source, no longer than `max_encoding_length`, and holds no zero byte.
/// What `dest` holds after the encoding is not stated.
#[verifier::external_body]
fn cobs_encode(source: &[u8], dest: &mut [u8]) -> (n: usize)
    requires
        old(dest)@.len() >= spec_max_encoding_length(source@.len()),
    ensures
        final(dest)@.len() == old(dest)@.len(),
        n == cobs_encoding(source@).len(),
        source@.len() + 1 <= n <= spec_max_encoding_length(source@.len()),
        final(dest)@.subrange(0, n as int) == cobs_encoding(source@),
        forall|i: int| 0 <= i < n ==> final(dest)@[i] != 0,
{
    cobs::encode(source, dest)
}

/// Calls `cobs::decode_vec(frame)`, with its error turned into `None`.
///
/// The contract names the result and claims the documented round trip: a frame made of
/// an encoding followed by the terminating zero decodes to the encoded bytes.
#[verifier::external_body]
fn cobs_decode(frame: &[u8]) -> (r: Option<Vec<u8>>)
    ensures
        r is Some <==> cobs_decoding(frame@) is Some,
        r matches Some(v) ==> cobs_decoding(frame@) == Some(v@),
        forall|x: Seq<u8>| frame@ == #[trigger] cobs_encoding(x).push(0) ==> r is Some && r.unwrap()@ == x,
{
    cobs::decode_vec(frame).ok()
}

/// The largest encoded packet body: the serial output buffer, less the terminating zero.
pub open spec fn spec_max_body() -> nat {
    (OUT_BUF_SIZE - 1) as nat
}

/// The content of a packet: the channel id followed by the payload.
pub open spec fn spec_packet_content(channel: ChannelId, payload: Seq<u8>) -> Seq<u8> {
    seq![channel.spec_byte()] + payload
}

/// A packet as it goes on the wire: the encoded content and the terminating zero.
pub open spec fn spec_packet(channel: ChannelId, payload: Seq<u8>) -> Seq<u8> {
    cobs_encoding(spec_packet_content(channel, payload)).push(0)
}

/// Whether the packet for `payload` fits in the serial output buffer.
pub open spec fn spec_fits(channel: ChannelId, payload: Seq<u8>) -> bool {
    cobs_encoding(spec_packet_content(channel, payload)).len() <= spec_max_body()
}

/// Whether `packet` carries `buf[start..end]` as the next packet of `channel`: it is that
/// payload's packet, it fits in the output buffer, its only zero byte is the terminating one, the payload is not empty, and the packet holds
/// as many bytes as it can: it ends the buffer, or one more byte would not fit.
pub open spec fn spec_next_packet(channel: ChannelId, buf: Seq<u8>, start: int, end: int, packet: Seq<u8>) -> bool {
    &&& 0 <= start < end <= buf.len()
    &&& packet == spec_packet(channel, buf.subrange(start, end))
    &&& spec_fits(channel, buf.subrange(start, end))
    &&& packet.len() <= OUT_BUF_SIZE
    &&& packet.last() == 0
    &&& forall|k: int| 0 <= k < packet.len() - 1 ==> #[trigger] packet[k] != 0
    &&& end == buf.len() || !spec_fits(channel, buf.subrange(start, end + 1))
}

/// A framed packet and the part of the buffer it carries.
#[derive(Debug)]
pub struct MuxPacket {
    /// The packet's bytes, terminating zero included.
    pub bytes: Vec<u8>,
    /// Where its payload starts in the buffer.
    pub start: usize,
    /// Where its payload ends in the buffer.
    pub end: usize,
}

/// Frames the next packet of `channel` from `buf[start..]`: the channel id and as many bytes as
/// fit in the serial output buffer, COBS-encoded, with the terminating zero. Returns the packet
/// and the end of the payload it carries.
pub fn next_packet(channel: ChannelId, buf: &[u8], start: usize) -> (r: (Vec<u8>, usize))
    requires
        start < buf@.len(),
    ensures
        spec_next_packet(channel, buf@, start as int, r.1 as int, r.0@),
{
    let max_body: usize = OUT_BUF_SIZE - 1;
    let blen = buf.len();
    let remaining = blen - start;
    // Longest payload worth trying: a source as long as the buffer can never fit.
    let longest = if remaining < max_body - 1 {
        remaining
    } else {
        max_body - 1
    };
    let mut content: Vec<u8> = Vec::new();
    content.push(channel.byte());
    let mut i: usize = 0;
    while i < longest
        invariant
            longest <= remaining,
            blen == buf@.len(),
            remaining == buf@.len() - start,
            start < buf@.len(),
            i <= longest,
            content@ == spec_packet_content(channel, buf@.subrange(start as int, start + i)),
        decreases longest - i,
    {
        content.push(buf[start + i]);
        proof {
            assert(buf@.subrange(start as int, start + i + 1) == buf@.subrange(start as int, start + i).push(
                buf@[start + i],
            ));
        }
        i = i + 1;
    }
    // Room for the encoding of the longest content that can still fit.
    let dest_len: usize = max_body + (max_body + 253) / 254;
    let mut dest: Vec<u8> = Vec::new();
    let mut j: usize = 0;
    while j < dest_len
        invariant
            j <= dest_len,
            dest@.len() == j,
        decreases dest_len - j,
    {
        dest.push(0);
        j = j + 1;
    }
    let mut len = longest;
    loop
        invariant
            1 <= len <= longest,
            longest < max_body,
            blen == buf@.len(),
            content@.len() == longest + 1,
            longest <= remaining,
            remaining == buf@.len() - start,
            start < buf@.len(),
            dest@.len() == dest_len,
            dest_len == max_body + (max_body + 253) / 254,
            max_body == OUT_BUF_SIZE - 1,
            content@ == spec_packet_content(channel, buf@.subrange(start as int, start + longest)),
            longest < remaining ==> longest + 1 == max_body,
            len < longest ==> !spec_fits(channel, buf@.subrange(start as int, start + len + 1)),
        decreases len,
    {
        let source = slice_subrange(content.as_slice(), 0, len + 1);
        proof {
            assert(source@ == spec_packet_content(channel, buf@.subrange(start as int, start + len))) by {
                assert(source@ =~= content@.subrange(0, len + 1));
            }
        }
        proof {
            lemma_div_is_ordered(len + 1 + 253, max_body + 253, 254);
        }
        let n = cobs_encode(source, dest.as_mut_slice());
        if n <= max_body {
            let mut packet: Vec<u8> = dest.clone();
            packet.truncate(n);
            packet.push(0);
            proof {
                assert(packet@ =~= spec_packet(channel, buf@.subrange(start as int, start + len)));
                assert forall|k: int| 0 <= k < packet@.len() - 1 implies #[trigger] packet@[k] != 0 by {
                    assert(packet@[k] == dest@[k]);
                }
                if len == longest && longest < remaining {
                    // A content as long as the encoded body may be never fits.
                    assert(source@.len() >= max_body);
                    assert(false);
                }
            }
            return (packet, start + len);
        }
        // A one-byte payload always fits, so the search never runs out.
        assert(len > 1);
        len = len - 1;
    }
}

/// Whether `packets` frame all of `buf` for `channel`: each packet carries the next part of the
/// buffer (see [`spec_next_packet`]), the first starts at the beginning, each starts where the
/// previous one ended, and the last ends at the end of the buffer. An empty buffer gives no packet.
pub open spec fn spec_frames(channel: ChannelId, buf: Seq<u8>, packets: Seq<MuxPacket>) -> bool {
    &&& buf.len() == 0 <==> packets.len() == 0
    &&& packets.len() > 0 ==> packets[0].start == 0 && packets.last().end == buf.len()
    &&& forall|i: int| 0 <= i < packets.len() - 1 ==> #[trigger] packets[i].end == packets[i + 1].start
    &&& forall|i: int|
        0 <= i < packets.len() ==> spec_next_packet(
            channel,
            buf,
            #[trigger] packets[i].start as int,
            packets[i].end as int,
            packets[i].bytes@,
        )
}

/// Frames all of `buf` as packets of `channel`, in order, each holding as many bytes as fit in
/// the serial output buffer.
pub fn frame_packets(channel: ChannelId, buf: &[u8]) -> (r: Vec<MuxPacket>)
    ensures
        spec_frames(channel, buf@, r@),
{
    let mut packets: Vec<MuxPacket> = Vec::new();
    let mut start: usize = 0;
    while start < buf.len()
        invariant
            start <= buf@.len(),
            start == 0 <==> packets@.len() == 0,
            packets@.len() > 0 ==> packets@[0].start == 0 && packets@.last().end == start,
            forall|i: int| 0 <= i < packets@.len() - 1 ==> #[trigger] packets@[i].end == packets@[i + 1].start,
            forall|i: int|
                0 <= i < packets@.len() ==> spec_next_packet(
                    channel,
                    buf@,
                    #[trigger] packets@[i].start as int,
                    packets@[i].end as int,
                    packets@[i].bytes@,
                ),
        decreases buf@.len() - start,
    {
        let (bytes, end) = next_packet(channel, buf, start);
        let ghost old_packets = packets@;
        packets.push(MuxPacket { bytes, start, end });
        proof {
            assert forall|i: int| 0 <= i < packets@.len() - 1 implies #[trigger] packets@[i].end == packets@[i + 1].start by {
                if i < old_packets.len() - 1 {
                    assert(packets@[i] == old_packets[i] && packets@[i + 1] == old_packets[i + 1]);
                }
            }
            assert forall|i: int| 0 <= i < packets@.len() implies spec_next_packet(
                channel,
                buf@,
                #[trigger] packets@[i].start as int,
                packets@[i].end as int,
                packets@[i].bytes@,
            ) by {
                if i < old_packets.len() {
                    assert(packets@[i] == old_packets[i]);
                }
            }
        }
        start = end;
    }
    packets
}

/// Splits a decoded packet into its channel and payload; `None` when the packet is empty or its
/// channel id is unknown.
pub fn split_packet(packet: &[u8]) -> (r: Option<(ChannelId, &[u8])>)
    ensures
        packet@.len() == 0 ==> r is None,
        packet@.len() > 0 ==> match r {
            Some((c, body)) => c.spec_byte() == packet@[0] && body@ == packet@.subrange(1, packet@.len() as int),
            None => packet@[0] != ChannelId::User.spec_byte() && packet@[0] != ChannelId::Debug.spec_byte(),
        },
{
    if packet.len() == 0 {
        return None;
    }
    match ChannelId::from_byte(packet[0]) {
        Some(c) => Some((c, slice_subrange(packet, 1, packet.len()))),
        None => None,
    }
}

/// Whether decoded packet content starts with a known channel id.
pub open spec fn spec_has_channel(content: Seq<u8>) -> bool {
    content.len() > 0 && (content[0] == ChannelId::User.spec_byte() || content[0] == ChannelId::Debug.spec_byte())
}

/// Decodes one framed packet (terminating zero included) into its channel and payload.
///
/// A packet framed for a channel and payload decodes to exactly that channel and payload. Decoding
/// fails exactly when the frame is not valid COBS or its content has no known channel id.
pub fn decode_packet(frame: &[u8]) -> (r: Option<(ChannelId, Vec<u8>)>)
    ensures
        forall|c: ChannelId, payload: Seq<u8>|
            frame@ == #[trigger] spec_packet(c, payload) ==> (r matches Some((rc, rp)) && rc == c && rp@ == payload),
        r matches Some((rc, rp)) ==> cobs_decoding(frame@) == Some(spec_packet_content(rc, rp@)),
        r is None <==> (cobs_decoding(frame@) is None || !spec_has_channel(cobs_decoding(frame@).unwrap())),
{
    let decoded = match cobs_decode(frame) {
        Some(d) => d,
        None => {
            return None;
        },
    };
    match split_packet(decoded.as_slice()) {
        Some((c, body)) => {
            let payload = vstd::slice::slice_to_vec(body);
            proof {
                assert(decoded@ =~= spec_packet_content(c, payload@));
                assert forall|c2: ChannelId, p2: Seq<u8>| frame@ == #[trigger] spec_packet(c2, p2) implies c == c2
                    && payload@ == p2 by {
                    assert(decoded@ == spec_packet_content(c2, p2));
                    assert(decoded@[0] == c2.spec_byte());
                    assert(payload@ =~= p2);
                }
            }
            Some((c, payload))
        },
        None => {
            proof {
                assert forall|c2: ChannelId, p2: Seq<u8>| frame@ == #[trigger] spec_packet(c2, p2) implies false by {
                    assert(decoded@ == spec_packet_content(c2, p2));
                    assert(decoded@[0] == c2.spec_byte());
                }
            }
            None
        },
    }
}

/// The payloads of the first `n` packets, joined in order.
pub open spec fn spec_joined_payloads(buf: Seq<u8>, packets: Seq<MuxPacket>, n: int) -> Seq<u8>
    decreases n,
{
    if n <= 0 {
        Seq::empty()
    } else {
        spec_joined_payloads(buf, packets, n - 1) + buf.subrange(packets[n - 1].start as int, packets[n - 1].end as int)
    }
}

/// Whether the packets' ranges follow each other from the start of the buffer.
pub open spec fn spec_contiguous(buf: Seq<u8>, packets: Seq<MuxPacket>) -> bool {
    &&& packets.len() > 0 ==> packets[0].start == 0
    &&& forall|i: int| 0 <= i < packets.len() - 1 ==> #[trigger] packets[i].end == packets[i + 1].start
    &&& forall|i: int| 0 <= i < packets.len() ==> #[trigger] packets[i].start <= packets[i].end <= buf.len()
}

/// Framing loses and repeats nothing: the payloads of the packets, joined in order, are the
/// buffer.
pub proof fn lemma_frames_cover(channel: ChannelId, buf: Seq<u8>, packets: Seq<MuxPacket>)
    requires
        spec_frames(channel, buf, packets),
    ensures
        spec_joined_payloads(buf, packets, packets.len() as int) == buf,
{
    assert forall|i: int| 0 <= i < packets.len() implies #[trigger] packets[i].start <= packets[i].end <= buf.len() by {
        assert(spec_next_packet(channel, buf, packets[i].start as int, packets[i].end as int, packets[i].bytes@));
    }
    assert(spec_contiguous(buf, packets));
    if packets.len() == 0 {
        assert(buf =~= Seq::<u8>::empty());
    } else {
        lemma_joined_prefix(buf, packets, packets.len() as int);
        assert(buf.subrange(0, buf.len() as int) =~= buf);
    }
}

/// The first `n` payloads joined are the buffer up to where the `n`-th packet ends.
proof fn lemma_joined_prefix(buf: Seq<u8>, packets: Seq<MuxPacket>, n: int)
    requires
        spec_contiguous(buf, packets),
        1 <= n <= packets.len(),
    ensures
        spec_joined_payloads(buf, packets, n) == buf.subrange(0, packets[n - 1].end as int),
    decreases n,
{
    assert(packets[n - 1].start <= packets[n - 1].end <= buf.len());
    if n == 1 {
        assert(spec_joined_payloads(buf, packets, 0) =~= Seq::<u8>::empty());
        assert(Seq::<u8>::empty() + buf.subrange(0, packets[0].end as int) =~= buf.subrange(0, packets[0].end as int));
    } else {
        lemma_joined_prefix(buf, packets, n - 1);
        assert(packets[n - 2].end == packets[n - 1].start);
        assert(buf.subrange(0, packets[n - 2].end as int) + buf.subrange(packets[n - 1].start as int, packets[n - 1].end as int)
            =~= buf.subrange(0, packets[n - 1].end as int));
    }
}

/// Records that the program tried to read from the user channel while the debugger owns it
/// (reads are not multiplexed). Returns whether this is the first attempt, the one worth a
/// warning.
pub fn tried_to_read(already_tried: &mut bool) -> (r: bool)
    ensures
        r == !*old(already_tried),
        *final(already_tried),
{
    let first = !*already_tried;
    *already_tried = true;
    first
}

} // verus!
