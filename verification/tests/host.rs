use v5gdb::transport::host::{host_receive, HostAction, HostDecoder};
use v5gdb::transport::mux::{frame_packets, ChannelId};

fn bytes_of(a: &HostAction) -> (&'static str, Vec<u8>) {
    match a {
        HostAction::User(b) => ("user", b.clone()),
        HostAction::Debug(b) => ("debug", b.clone()),
        HostAction::Raw(b) => ("raw", b.clone()),
    }
}

#[test]
fn routes_packets_by_channel() {
    let mut wire = Vec::new();
    for p in frame_packets(ChannelId::User, b"hello") {
        wire.extend_from_slice(&p.bytes);
    }
    for p in frame_packets(ChannelId::Debug, b"$g#67") {
        wire.extend_from_slice(&p.bytes);
    }
    let mut decoder = HostDecoder::new();
    let actions = host_receive(&mut decoder, &wire);
    let got: Vec<_> = actions.iter().map(bytes_of).collect();
    assert_eq!(got, vec![("user", b"hello".to_vec()), ("debug", b"$g#67".to_vec())]);
    assert!(decoder.pending.is_empty());
}

#[test]
fn keeps_an_unfinished_frame_for_the_next_read() {
    let p = frame_packets(ChannelId::Debug, b"+").remove(0).bytes;
    let mut decoder = HostDecoder::new();
    assert!(host_receive(&mut decoder, &p[..2]).is_empty());
    assert_eq!(decoder.pending, p[..2].to_vec());
    let actions = host_receive(&mut decoder, &p[2..]);
    assert_eq!(actions.iter().map(bytes_of).collect::<Vec<_>>(), vec![("debug", b"+".to_vec())]);
    assert!(decoder.pending.is_empty());
}

#[test]
fn rejected_bytes_come_out_one_at_a_time() {
    let mut decoder = HostDecoder::new();
    // A frame that decodes but has no known channel comes out whole; a frame that ends early is
    // rejected byte by byte until decoding finds its footing again.
    let actions = host_receive(&mut decoder, &[3, b'x', b'y', 0, 5, b'u', 0, b'a', b'b']);
    let got: Vec<_> = actions.iter().map(bytes_of).collect();
    assert_eq!(got, vec![("raw", vec![3, b'x', b'y', 0]), ("raw", vec![5]), ("raw", vec![b'u'])]);
    // Decoding restarted at the zero, which an idle decoder passes over; the rest is pending.
    assert_eq!(decoder.pending, vec![0, b'a', b'b']);
}

#[test]
fn stray_output_before_a_packet_passes_through() {
    let mut wire = b"hi\n".to_vec();
    for p in frame_packets(ChannelId::Debug, b"$OK#9a") {
        wire.extend_from_slice(&p.bytes);
    }
    let mut decoder = HostDecoder::new();
    let got: Vec<_> = host_receive(&mut decoder, &wire).iter().map(bytes_of).collect();
    assert_eq!(
        got,
        vec![("raw", b"h".to_vec()), ("raw", b"i".to_vec()), ("raw", b"\n".to_vec()), ("debug", b"$OK#9a".to_vec())]
    );
    assert!(decoder.pending.is_empty());
}
