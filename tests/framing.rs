use tenebra::framing::{frame_datagram, Deframer, MAX_FRAME_PAYLOAD};

fn payload(len: usize, seed: u8) -> Vec<u8> {
    (0..len).map(|i| (i as u8).wrapping_mul(31).wrapping_add(seed)).collect()
}

#[test]
fn frame_has_big_endian_length_prefix() {
    let f = frame_datagram(&[7, 8, 9]).unwrap();
    assert_eq!(f, vec![0, 3, 7, 8, 9]);
    let f = frame_datagram(&payload(1500, 1)).unwrap();
    assert_eq!(&f[..2], &[0x05, 0xdc]);
    assert_eq!(f.len(), 1502);
}

#[test]
fn empty_payload_frames_to_zero_length() {
    assert_eq!(frame_datagram(&[]).unwrap(), vec![0, 0]);
    let mut d = Deframer::new();
    assert_eq!(d.push(&[0, 0]), vec![Vec::<u8>::new()]);
}

#[test]
fn payload_too_long_is_refused() {
    assert_eq!(MAX_FRAME_PAYLOAD, 65535);
    assert!(frame_datagram(&payload(65535, 0)).is_some());
    assert!(frame_datagram(&payload(65536, 0)).is_none());
}

#[test]
fn three_frames_read_back_in_order() {
    let sent = vec![payload(1, 3), payload(1500, 4), payload(65535, 5)];
    let mut stream = Vec::new();
    for p in &sent {
        stream.extend(frame_datagram(p).unwrap());
    }
    let mut d = Deframer::new();
    let got = d.push(&stream);
    assert_eq!(got.len(), 3);
    assert_eq!(got.iter().map(|p| p.len()).collect::<Vec<_>>(), vec![1, 1500, 65535]);
    assert_eq!(got, sent);
}

#[test]
fn frames_reassemble_from_small_pieces() {
    let sent = vec![payload(1, 9), payload(1500, 10), payload(65535, 11)];
    let mut stream = Vec::new();
    for p in &sent {
        stream.extend(frame_datagram(p).unwrap());
    }
    for piece in [1usize, 2, 3, 7, 1000, 4096] {
        let mut d = Deframer::new();
        let mut got = Vec::new();
        for chunk in stream.chunks(piece) {
            got.extend(d.push(chunk));
        }
        assert_eq!(got, sent, "pieces of {piece} bytes");
    }
}

#[test]
fn incomplete_frame_waits_for_the_rest() {
    let mut d = Deframer::new();
    assert!(d.push(&[0]).is_empty());
    assert!(d.push(&[4, 1, 2]).is_empty());
    assert_eq!(d.push(&[3, 4, 0, 1]), vec![vec![1, 2, 3, 4]]);
    assert_eq!(d.push(&[5]), vec![vec![5]]);
}
