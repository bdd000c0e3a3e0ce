//! The host side of the multiplexed serial stream: decoding what the brain sends and routing each
//! packet to user output or to the GDB client.
//!
//! The stream is read with COBS's streaming decoder. A frame that decodes to a packet of a known
//! channel delivers its payload; a frame that decodes to anything else is printed as it came; and
//! where the decoder rejects the bytes, the first of them is printed as it is and decoding starts
//! again at the next byte, so output that is not framed (such as prints from before the debugger
//! started) passes through and the packets after it are still found.

use vstd::prelude::*;
use vstd::slice::{slice_subrange, slice_to_vec};

use super::mux::{cobs_encoding, spec_has_channel, spec_packet, spec_packet_content, split_packet, ChannelId};
use crate::sdk::serial::OUT_BUF_SIZE;

verus! {

/// What the streaming decoder makes of the start of a byte stream.
#[derive(Debug)]
pub enum StreamDecode {
    /// A frame was complete: its decoded bytes, and how many stream bytes it took (terminating
    /// zero included).
    Frame { decoded: Vec<u8>, parsed: usize },
    /// The decoder rejected the bytes.
    Error,
    /// All the bytes were taken and the frame is not complete yet.
    Incomplete,
}

/// A decoder outcome with the decoded bytes as a sequence.
pub enum StreamDecodeView {
    Frame { decoded: Seq<u8>, parsed: nat },
    Error,
    Incomplete,
}

impl View for StreamDecode {
    type V = StreamDecodeView;

    open spec fn view(&self) -> StreamDecodeView {
        match self {
            StreamDecode::Frame { decoded, parsed } => StreamDecodeView::Frame { decoded: decoded@, parsed: *parsed as nat },
            StreamDecode::Error => StreamDecodeView::Error,
            StreamDecode::Incomplete => StreamDecodeView::Incomplete,
        }
    }
}

/// What a fresh `cobs::CobsDecoderOwned` with a buffer of `capacity` bytes reports after
/// `push(data)`.
pub uninterp spec fn cobs_stream_decoding(data: Seq<u8>, capacity: usize) -> StreamDecodeView;

/// Pushes `data` into a fresh `cobs::CobsDecoderOwned` with a buffer of `capacity` bytes and
/// converts its report: a decoded frame (its bytes and the number of bytes parsed), an error, or
/// `Ok(None)` (incomplete).
///
/// The contract names the result and claims what `push` does as the decoder's state machine
/// shows it: a frame takes at least one byte and at most all of them and decodes to at most
/// `capacity` bytes, and a stream that starts with an encoding followed by its terminating zero
/// yields the encoded bytes, taking exactly the encoding and the zero, when they fit the buffer.
#[verifier::external_body]
fn cobs_stream_decode(data: &[u8], capacity: usize) -> (r: StreamDecode)
    ensures
        r@ == cobs_stream_decoding(data@, capacity),
        r matches StreamDecode::Frame { decoded, parsed } ==> 1 <= parsed <= data@.len() && decoded@.len()
            <= capacity,
        forall|x: Seq<u8>, rest: Seq<u8>|
            #![trigger cobs_encoding(x), rest.len()]
            data@ == cobs_encoding(x).push(0) + rest && x.len() <= capacity ==> r@ == (StreamDecodeView::Frame {
                decoded: x,
                parsed: cobs_encoding(x).len() + 1,
            }),
{
    let mut decoder = cobs::CobsDecoderOwned::new(capacity);
    match decoder.push(data) {
        Ok(Some(report)) => StreamDecode::Frame {
            decoded: decoder.dest()[..report.frame_size()].to_vec(),
            parsed: report.parsed_size(),
        },
        Ok(None) => StreamDecode::Incomplete,
        Err(_) => StreamDecode::Error,
    }
}

/// The size of the buffer a decoded frame must fit in.
pub open spec fn spec_frame_capacity() -> usize {
    OUT_BUF_SIZE
}

/// What the host does with a part of the stream.
#[derive(Debug)]
pub enum HostAction {
    /// Print the payload of a user-channel packet.
    User(Vec<u8>),
    /// Forward the payload of a debug-channel packet to the GDB client.
    Debug(Vec<u8>),
    /// Print these stream bytes as they came.
    Raw(Vec<u8>),
}

/// A host action with its bytes as a sequence.
pub enum HostActionView {
    User(Seq<u8>),
    Debug(Seq<u8>),
    Raw(Seq<u8>),
}

impl View for HostAction {
    type V = HostActionView;

    open spec fn view(&self) -> HostActionView {
        match self {
            HostAction::User(p) => HostActionView::User(p@),
            HostAction::Debug(p) => HostActionView::Debug(p@),
            HostAction::Raw(b) => HostActionView::Raw(b@),
        }
    }
}

/// What to do with a decoded frame that took the stream bytes `raw`: deliver the payload of a
/// packet of a known channel, print the bytes of anything else as they came.
pub open spec fn spec_route(decoded: Seq<u8>, raw: Seq<u8>) -> HostActionView {
    if spec_has_channel(decoded) {
        if decoded[0] == ChannelId::User.spec_byte() {
            HostActionView::User(decoded.drop_first())
        } else {
            HostActionView::Debug(decoded.drop_first())
        }
    } else {
        HostActionView::Raw(raw)
    }
}

/// Runs the host over a stream: the actions, the stream bytes each one took, and the bytes left
/// for the next read (the start of a frame that is not complete yet).
///
/// From the start of the stream, the decoder either completes a frame, which is routed (see
/// [`spec_route`]), or rejects the bytes, and then the first byte is printed as it is and decoding
/// starts again at the next one, or runs out of bytes, which ends the run.
pub open spec fn spec_host_run(data: Seq<u8>) -> (Seq<HostActionView>, Seq<Seq<u8>>, Seq<u8>)
    decreases data.len(),
{
    if data.len() == 0 {
        (Seq::empty(), Seq::empty(), Seq::empty())
    } else {
        match cobs_stream_decoding(data, spec_frame_capacity()) {
            StreamDecodeView::Frame { decoded, parsed } => if 1 <= parsed <= data.len() {
                let (actions, parts, rest) = spec_host_run(data.skip(parsed as int));
                (
                    seq![spec_route(decoded, data.take(parsed as int))] + actions,
                    seq![data.take(parsed as int)] + parts,
                    rest,
                )
            } else {
                (Seq::empty(), Seq::empty(), data)
            },
            StreamDecodeView::Error => {
                let (actions, parts, rest) = spec_host_run(data.skip(1));
                (seq![HostActionView::Raw(data.take(1))] + actions, seq![data.take(1)] + parts, rest)
            },
            StreamDecodeView::Incomplete => (Seq::empty(), Seq::empty(), data),
        }
    }
}

/// The parts joined in order.
pub open spec fn spec_joined(parts: Seq<Seq<u8>>) -> Seq<u8>
    decreases parts.len(),
{
    if parts.len() == 0 {
        Seq::empty()
    } else {
        parts[0] + spec_joined(parts.drop_first())
    }
}

/// Running the host loses and repeats nothing: the stream bytes the actions took, joined in order
/// and followed by the bytes left, are the stream; there is one part per action, none is empty,
/// and an action that prints raw bytes prints exactly its part.
pub proof fn lemma_host_run_covers(data: Seq<u8>)
    ensures
        ({
            let (actions, parts, rest) = spec_host_run(data);
            &&& spec_joined(parts) + rest == data
            &&& actions.len() == parts.len()
            &&& forall|i: int| 0 <= i < parts.len() ==> #[trigger] parts[i].len() > 0
            &&& forall|i: int| 0 <= i < actions.len() ==> (#[trigger] actions[i] matches HostActionView::Raw(b) ==> b == parts[i])
        }),
    decreases data.len(),
{
    if data.len() > 0 {
        match cobs_stream_decoding(data, spec_frame_capacity()) {
            StreamDecodeView::Frame { decoded, parsed } => {
                if 1 <= parsed <= data.len() {
                    let k = parsed as int;
                    lemma_host_run_covers(data.skip(k));
                    let (actions, parts, rest) = spec_host_run(data.skip(k));
                    let nparts = seq![data.take(k)] + parts;
                    let nactions = seq![spec_route(decoded, data.take(k))] + actions;
                    assert(nparts.drop_first() =~= parts);
                    assert(spec_joined(nparts) == data.take(k) + spec_joined(parts));
                    assert(data.take(k) + data.skip(k) =~= data);
                    assert(spec_joined(nparts) + rest =~= data);
                    assert forall|i: int| 0 <= i < nactions.len() implies (#[trigger] nactions[i] matches HostActionView::Raw(
                        b,
                    ) ==> b == nparts[i]) by {
                        if i > 0 {
                            assert(nactions[i] == actions[i - 1] && nparts[i] == parts[i - 1]);
                        }
                    }
                    assert forall|i: int| 0 <= i < nparts.len() implies #[trigger] nparts[i].len() > 0 by {
                        if i > 0 {
                            assert(nparts[i] == parts[i - 1]);
                        }
                    }
                }
            },
            StreamDecodeView::Error => {
                lemma_host_run_covers(data.skip(1));
                let (actions, parts, rest) = spec_host_run(data.skip(1));
                let nparts = seq![data.take(1)] + parts;
                let nactions = seq![HostActionView::Raw(data.take(1))] + actions;
                assert(nparts.drop_first() =~= parts);
                assert(spec_joined(nparts) == data.take(1) + spec_joined(parts));
                assert(data.take(1) + data.skip(1) =~= data);
                assert(spec_joined(nparts) + rest =~= data);
                assert forall|i: int| 0 <= i < nactions.len() implies (#[trigger] nactions[i] matches HostActionView::Raw(b)
                    ==> b == nparts[i]) by {
                    if i > 0 {
                        assert(nactions[i] == actions[i - 1] && nparts[i] == parts[i - 1]);
                    }
                }
                assert forall|i: int| 0 <= i < nparts.len() implies #[trigger] nparts[i].len() > 0 by {
                    if i > 0 {
                        assert(nparts[i] == parts[i - 1]);
                    }
                }
            },
            StreamDecodeView::Incomplete => {
                assert(spec_joined(Seq::<Seq<u8>>::empty()) + data =~= data);
            },
        }
    } else {
        assert(spec_joined(Seq::<Seq<u8>>::empty()) + Seq::<u8>::empty() =~= data);
    }
}

/// Whether the streaming decoder reads an encoding at the start of `data`, followed by its
/// terminating zero, back as the encoded bytes (when they fit its buffer).
pub open spec fn spec_decodes_leading_frames(data: Seq<u8>) -> bool {
    forall|x: Seq<u8>, rest: Seq<u8>|
        #![trigger cobs_encoding(x), rest.len()]
        data == cobs_encoding(x).push(0) + rest && x.len() <= spec_frame_capacity() ==> cobs_stream_decoding(
            data,
            spec_frame_capacity(),
        ) == (StreamDecodeView::Frame { decoded: x, parsed: cobs_encoding(x).len() + 1 })
}

/// What delivering a packet's payload on its channel is.
pub open spec fn spec_delivery(channel: ChannelId, payload: Seq<u8>) -> HostActionView {
    match channel {
        ChannelId::User => HostActionView::User(payload),
        ChannelId::Debug => HostActionView::Debug(payload),
    }
}

/// A stream that starts with a packet delivers that packet's payload first.
pub proof fn lemma_leading_packet(data: Seq<u8>, channel: ChannelId, payload: Seq<u8>, rest: Seq<u8>)
    requires
        spec_decodes_leading_frames(data),
        data == spec_packet(channel, payload) + rest,
        payload.len() + 1 <= spec_frame_capacity(),
    ensures
        spec_host_run(data).0.len() > 0,
        spec_host_run(data).0[0] == spec_delivery(channel, payload),
{
    let content = spec_packet_content(channel, payload);
    assert(data == cobs_encoding(content).push(0) + rest);
    assert(rest.len() == rest.len());
    let k = cobs_encoding(content).len() + 1;
    assert(cobs_stream_decoding(data, spec_frame_capacity()) == (StreamDecodeView::Frame { decoded: content, parsed: k }));
    assert(content.drop_first() =~= payload);
    assert(content[0] == channel.spec_byte());
}

/// The bytes received that do not make a complete frame yet.
pub struct HostDecoder {
    /// The start of a frame whose end has not arrived yet.
    pub pending: Vec<u8>,
}

impl HostDecoder {
    /// A decoder that has received nothing.
    pub fn new() -> (r: Self)
        ensures
            r.pending@ == Seq::<u8>::empty(),
    {
        HostDecoder { pending: Vec::new() }
    }
}

/// Takes the next bytes the brain sent: runs the host over what was pending and these bytes (see
/// [`spec_host_run`]), returns the actions in order and keeps the bytes left for the next call.
pub fn host_receive(state: &mut HostDecoder, incoming: &[u8]) -> (r: Vec<HostAction>)
    ensures
        ({
            let (actions, _parts, rest) = spec_host_run(old(state).pending@ + incoming@);
            &&& r@.map_values(|a: HostAction| a@) == actions
            &&& final(state).pending@ == rest
        }),
        forall|channel: ChannelId, payload: Seq<u8>, rest: Seq<u8>|
            #![trigger spec_packet(channel, payload), rest.len()]
            old(state).pending@ + incoming@ == spec_packet(channel, payload) + rest && payload.len() + 1
                <= OUT_BUF_SIZE ==> r@.len() > 0 && r@[0]@ == spec_delivery(channel, payload),
{
    let mut data: Vec<u8> = Vec::new();
    std::mem::swap(&mut data, &mut state.pending);
    let ghost start = data@;
    let mut k: usize = 0;
    while k < incoming.len()
        invariant
            k <= incoming@.len(),
            data@ == start + incoming@.subrange(0, k as int),
        decreases incoming@.len() - k,
    {
        data.push(incoming[k]);
        proof {
            assert(start + incoming@.subrange(0, k + 1) =~= (start + incoming@.subrange(0, k as int)).push(
                incoming@[k as int],
            ));
        }
        k = k + 1;
    }
    assert(data@ =~= start + incoming@);
    let ghost whole = data@;
    let mut actions: Vec<HostAction> = Vec::new();
    let mut p: usize = 0;
    let ghost mut done: Seq<HostActionView> = Seq::empty();
    assert(whole.skip(0) =~= whole);
    assert(Seq::<HostActionView>::empty() + spec_host_run(whole.skip(0)).0 =~= spec_host_run(whole).0);
    while p < data.len()
        invariant
            whole == data@,
            whole == old(state).pending@ + incoming@,
            p <= data@.len(),
            actions@.map_values(|a: HostAction| a@) == done,
            done + spec_host_run(whole.skip(p as int)).0 == spec_host_run(whole).0,
            spec_host_run(whole.skip(p as int)).2 == spec_host_run(whole).2,
            p > 0 ==> spec_decodes_leading_frames(whole),
        decreases data@.len() - p,
    {
        let tail = slice_subrange(data.as_slice(), p, data.len());
        assert(tail@ =~= whole.skip(p as int));
        let ghost here = whole.skip(p as int);
        let decoded_start = cobs_stream_decode(tail, OUT_BUF_SIZE);
        proof {
            if p == 0 {
                assert(here == whole);
                assert(spec_decodes_leading_frames(whole));
            }
        }
        match decoded_start {
            StreamDecode::Frame { decoded, parsed } => {
                let ghost raw = here.take(parsed as int);
                let action = match split_packet(decoded.as_slice()) {
                    Some((ChannelId::User, body)) => HostAction::User(slice_to_vec(body)),
                    Some((ChannelId::Debug, body)) => HostAction::Debug(slice_to_vec(body)),
                    None => HostAction::Raw(slice_to_vec(slice_subrange(tail, 0, parsed))),
                };
                proof {
                    assert(action@ == spec_route(decoded@, raw)) by {
                        if spec_has_channel(decoded@) {
                            assert(decoded@.subrange(1, decoded@.len() as int) =~= decoded@.drop_first());
                        } else {
                            assert(tail@.subrange(0, parsed as int) =~= raw);
                        }
                    }
                    assert(here.skip(parsed as int) =~= whole.skip(p + parsed));
                    let ghost old_done = done;
                    done = done.push(action@);
                    assert(done + spec_host_run(whole.skip(p + parsed)).0 =~= old_done + spec_host_run(here).0);
                }
                actions.push(action);
                proof {
                    assert(actions@.map_values(|a: HostAction| a@) =~= done);
                }
                p = p + parsed;
            },
            StreamDecode::Error => {
                let action = HostAction::Raw(slice_to_vec(slice_subrange(tail, 0, 1)));
                proof {
                    assert(tail@.subrange(0, 1) =~= here.take(1));
                    assert(here.skip(1) =~= whole.skip(p + 1));
                    let ghost old_done = done;
                    done = done.push(action@);
                    assert(done + spec_host_run(whole.skip(p + 1)).0 =~= old_done + spec_host_run(here).0);
                }
                actions.push(action);
                proof {
                    assert(actions@.map_values(|a: HostAction| a@) =~= done);
                }
                p = p + 1;
            },
            StreamDecode::Incomplete => {
                proof {
                    assert(here.len() > 0);
                    assert(spec_host_run(here).0 =~= Seq::<HostActionView>::empty());
                    assert(spec_host_run(here).2 == here);
                    assert(done =~= spec_host_run(whole).0);
                    assert(spec_decodes_leading_frames(whole));
                    assert forall|c: ChannelId, pl: Seq<u8>, rest: Seq<u8>|
                        #![trigger spec_packet(c, pl), rest.len()]
                        whole == spec_packet(c, pl) + rest && pl.len() + 1 <= OUT_BUF_SIZE implies actions@.len() > 0
                            && actions@[0]@ == spec_delivery(c, pl) by {
                        lemma_leading_packet(whole, c, pl, rest);
                        assert(actions@.map_values(|a: HostAction| a@)[0] == actions@[0]@);
                    }
                }
                let rest = slice_to_vec(tail);
                state.pending = rest;
                return actions;
            },
        }
    }
    proof {
        assert(whole.skip(p as int) =~= Seq::<u8>::empty());
        assert(done =~= spec_host_run(whole).0);
        assert forall|c: ChannelId, pl: Seq<u8>, rest: Seq<u8>|
            #![trigger spec_packet(c, pl), rest.len()]
            whole == spec_packet(c, pl) + rest && pl.len() + 1 <= OUT_BUF_SIZE implies actions@.len() > 0
                && actions@[0]@ == spec_delivery(c, pl) by {
            assert(whole.len() > 0);
            lemma_leading_packet(whole, c, pl, rest);
            assert(actions@.map_values(|a: HostAction| a@)[0] == actions@[0]@);
        }
    }
    state.pending = Vec::new();
    actions
}

} // verus!
