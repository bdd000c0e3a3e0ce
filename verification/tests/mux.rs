use v5gdb::transport::mux::{
    decode_packet, frame_packets, next_packet, split_packet, tried_to_read, ChannelId,
};
use v5gdb::transport::{StdioTransport, TransportError};

#[test]
fn channel_ids() {
    assert_eq!(ChannelId::User.byte(), b'u');
    assert_eq!(ChannelId::Debug.byte(), b'd');
    assert_eq!(ChannelId::from_byte(b'u'), Some(ChannelId::User));
    assert_eq!(ChannelId::from_byte(b'd'), Some(ChannelId::Debug));
    assert_eq!(ChannelId::from_byte(b'x'), None);
}

#[test]
fn small_write_is_one_packet() {
    let packets = frame_packets(ChannelId::Debug, b"$qSupported#37");
    assert_eq!(packets.len(), 1);
    assert_eq!(packets[0].start, 0);
    assert_eq!(packets[0].end, 14);
    let mut expected = vec![16u8, b'd'];
    expected.extend_from_slice(b"$qSupported#37");
    expected.push(0);
    assert_eq!(packets[0].bytes, expected);
    assert_eq!(
        decode_packet(&packets[0].bytes),
        Some((ChannelId::Debug, b"$qSupported#37".to_vec()))
    );
}

#[test]
fn zero_bytes_are_stuffed() {
    let packets = frame_packets(ChannelId::User, &[0, 1, 0]);
    assert_eq!(packets.len(), 1);
    // 'u' 0 1 0 -> [2, 'u', 2, 1, 1] then the delimiter.
    assert_eq!(packets[0].bytes, vec![2, b'u', 2, 1, 1, 0]);
    assert_eq!(decode_packet(&packets[0].bytes), Some((ChannelId::User, vec![0, 1, 0])));
}

#[test]
fn empty_write_has_no_packet() {
    assert!(frame_packets(ChannelId::User, &[]).is_empty());
}

#[test]
fn large_write_is_split_and_reassembles() {
    let data: Vec<u8> = (0..5000u32).map(|i| (i % 251) as u8).collect();
    let packets = frame_packets(ChannelId::User, &data);
    assert!(packets.len() >= 3);
    let mut joined = Vec::new();
    let mut expected_start = 0;
    for p in &packets {
        assert_eq!(p.start, expected_start);
        assert!(p.end > p.start);
        assert!(p.bytes.len() <= 2048);
        assert_eq!(*p.bytes.last().unwrap(), 0);
        assert!(p.bytes[..p.bytes.len() - 1].iter().all(|&b| b != 0));
        let (channel, payload) = decode_packet(&p.bytes).unwrap();
        assert_eq!(channel, ChannelId::User);
        assert_eq!(payload, &data[p.start..p.end]);
        joined.extend_from_slice(&payload);
        expected_start = p.end;
    }
    assert_eq!(expected_start, data.len());
    assert_eq!(joined, data);
}

#[test]
fn packets_are_filled() {
    let data = vec![0x55u8; 4096];
    let (packet, end) = next_packet(ChannelId::Debug, &data, 0);
    assert!(packet.len() <= 2048);
    // One more byte would not fit: the channel id and 2037 bytes encode to 2047 bytes
    // (one code byte per started block of 254 bytes).
    assert_eq!(end, 2037);
    assert_eq!(packet.len(), 2048);
    assert!(end < 4096);
    let (packet2, end2) = next_packet(ChannelId::Debug, &data, end);
    assert!(packet2.len() <= 2048);
    assert!(end2 > end);
}

#[test]
fn zero_filled_write_ends_packets_exactly() {
    // Every zero costs a code byte: the channel id and 2045 zeros encode to 2047 bytes, and one
    // more zero would need 2048.
    let data = vec![0u8; 3000];
    let (packet, end) = next_packet(ChannelId::Debug, &data, 0);
    assert_eq!(end, 2045);
    assert_eq!(packet.len(), 2048);
    assert_eq!(*packet.last().unwrap(), 0);
    assert!(packet[..packet.len() - 1].iter().all(|&b| b != 0));
    assert_eq!(decode_packet(&packet), Some((ChannelId::Debug, vec![0u8; 2045])));
    let packets = frame_packets(ChannelId::Debug, &data);
    assert_eq!(packets.len(), 2);
    assert_eq!(packets[1].start, 2045);
    assert_eq!(packets[1].end, 3000);
    assert_eq!(decode_packet(&packets[1].bytes), Some((ChannelId::Debug, vec![0u8; 955])));
}

#[test]
fn split_and_decode_reject_bad_packets() {
    assert!(split_packet(&[]).is_none());
    assert!(split_packet(b"xabc").is_none());
    let (channel, body) = split_packet(b"uhi").unwrap();
    assert_eq!(channel, ChannelId::User);
    assert_eq!(body, b"hi");
    assert_eq!(decode_packet(&[]), None);
    // A valid frame whose channel is unknown.
    assert_eq!(decode_packet(&[3, b'x', b'y', 0]), None);
    // A frame that ends early.
    assert_eq!(decode_packet(&[5, b'u', 0]), None);
}

#[test]
fn reading_user_channel_warns_once() {
    let mut tried = false;
    assert!(tried_to_read(&mut tried));
    assert!(!tried_to_read(&mut tried));
    assert!(tried);
}

#[test]
fn transport_error_message() {
    let e = TransportError::from("serial closed");
    assert_eq!(e.message(), "serial closed");
    assert_eq!(TransportError("x").0, "x");
    let _t = StdioTransport::new();
    let _d = StdioTransport::default();
}
