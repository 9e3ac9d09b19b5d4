use bytes::BytesMut;
use simprint_runtime::framing::{drain_frames, next_frame};
use simprint_runtime::protocol::{ErrorCode, Message};
use simprint_runtime::topics::Topic;

fn frame_of(id: u32, data: Vec<u8>) -> Vec<u8> {
    Message::response(id, Topic::GetState, ErrorCode::Success, data).encode().unwrap().to_vec()
}

#[test]
fn cuts_one_frame_and_keeps_the_rest() {
    let f = frame_of(1, vec![1, 2, 3]);
    let mut buf = BytesMut::new();
    buf.extend_from_slice(&f);
    buf.extend_from_slice(&[0x73, 0x70]);
    let got = next_frame(&mut buf).unwrap();
    assert_eq!(&got[..], &f[..]);
    assert_eq!(&buf[..], &[0x73, 0x70][..]);
    assert!(next_frame(&mut buf).is_none());
    assert_eq!(&buf[..], &[0x73, 0x70][..]);
}

#[test]
fn drops_bytes_before_the_magic() {
    let f = frame_of(2, vec![9]);
    let mut buf = BytesMut::new();
    buf.extend_from_slice(&[1, 2, b's', 3]);
    buf.extend_from_slice(&f);
    let got = next_frame(&mut buf).unwrap();
    assert_eq!(&got[..], &f[..]);
    assert!(buf.is_empty());
}

#[test]
fn waits_for_the_whole_payload() {
    let f = frame_of(3, vec![7; 10]);
    let mut buf = BytesMut::new();
    buf.extend_from_slice(&[0xEE]);
    buf.extend_from_slice(&f[..f.len() - 1]);
    assert!(next_frame(&mut buf).is_none());
    assert_eq!(&buf[..], &f[..f.len() - 1]);
    buf.extend_from_slice(&f[f.len() - 1..]);
    assert_eq!(&next_frame(&mut buf).unwrap()[..], &f[..]);
}

#[test]
fn short_garbage_is_kept_until_more_arrives() {
    let mut buf = BytesMut::new();
    buf.extend_from_slice(&[1, 2, 3, 4, 5, 6, 7, 8]);
    assert!(next_frame(&mut buf).is_none());
    assert_eq!(buf.len(), 8);
    buf.extend_from_slice(&[9]);
    assert!(next_frame(&mut buf).is_none());
    assert_eq!(buf.len(), 8);
}

#[test]
fn two_frames_come_out_in_order() {
    let a = frame_of(10, vec![1]);
    let b = frame_of(11, vec![2, 2]);
    let mut buf = BytesMut::new();
    buf.extend_from_slice(&a);
    buf.extend_from_slice(&b);
    let fa = next_frame(&mut buf).unwrap();
    let fb = next_frame(&mut buf).unwrap();
    assert_eq!(Message::decode(&fa).unwrap().msg_id, 10);
    assert_eq!(Message::decode(&fb).unwrap().data, vec![2, 2]);
    assert!(next_frame(&mut buf).is_none());
    assert!(buf.is_empty());
}

#[test]
fn frame_length_comes_from_the_header_without_checking_the_version() {
    let mut buf = BytesMut::new();
    buf.extend_from_slice(&[0x73, 0x70, 0x72, 0x74, 7, 2, 0, 0, 0, 0xA, 0xB, 0xC]);
    let got = next_frame(&mut buf).unwrap();
    assert_eq!(&got[..], &[0x73, 0x70, 0x72, 0x74, 7, 2, 0, 0, 0, 0xA, 0xB][..]);
    assert_eq!(&buf[..], &[0xC][..]);
}

fn drain_all(chunks: &[&[u8]]) -> (Vec<Vec<u8>>, Vec<u8>) {
    let mut buf = BytesMut::new();
    let mut frames = Vec::new();
    for c in chunks {
        buf.extend_from_slice(c);
        for f in drain_frames(&mut buf) {
            frames.push(f.to_vec());
        }
    }
    (frames, buf.to_vec())
}

#[test]
fn chunking_does_not_change_the_frames() {
    let a = frame_of(1, vec![1, 2, 3]);
    let b = frame_of(2, vec![]);
    let mut stream = vec![0x01, 0x73];
    stream.extend_from_slice(&a);
    stream.extend_from_slice(&b);
    stream.extend_from_slice(&[0x73, 0x70, 0x72]);
    let whole = drain_all(&[&stream]);
    assert_eq!(whole.0, vec![a.clone(), b.clone()]);
    assert_eq!(whole.1, vec![0x73, 0x70, 0x72]);
    for cut in 0..stream.len() {
        let (x, y) = stream.split_at(cut);
        assert_eq!(drain_all(&[x, y]), whole);
    }
    let bytes: Vec<&[u8]> = stream.chunks(1).collect();
    assert_eq!(drain_all(&bytes), whole);
}

#[test]
fn garbage_without_s_is_skipped() {
    let f = frame_of(5, vec![4, 4]);
    let mut stream = vec![0, 1, 2, 0x70, 0x72, 0x74, 9, 9, 9, 9, 9];
    stream.extend_from_slice(&f);
    assert_eq!(drain_all(&[&stream]), (vec![f], vec![]));
}

#[test]
fn a_frame_that_fails_to_decode_does_not_disturb_the_next() {
    let mut bad = vec![0x73, 0x70, 0x72, 0x74, 2, 15, 0, 0, 0];
    bad.extend_from_slice(&[0u8; 15]);
    let good = frame_of(6, vec![8]);
    let mut stream = bad.clone();
    stream.extend_from_slice(&good);
    let (frames, rest) = drain_all(&[&stream]);
    assert_eq!(frames, vec![bad.clone(), good.clone()]);
    assert!(rest.is_empty());
    assert_eq!(Message::decode(&frames[0]).unwrap_err(), "unsupported protocol version: 2");
    assert_eq!(Message::decode(&frames[1]).unwrap().msg_id, 6);
}

#[test]
fn messages_then_a_partial_frame_yield_exactly_the_messages() {
    let frames: Vec<Vec<u8>> = (0..4).map(|i| frame_of(i, vec![i as u8; i as usize])).collect();
    let extra = frame_of(99, vec![1, 2, 3]);
    for j in 0..extra.len() {
        let mut stream: Vec<u8> = frames.concat();
        stream.extend_from_slice(&extra[..j]);
        for step in [1usize, 3, 7, 50] {
            let chunks: Vec<&[u8]> = stream.chunks(step).collect();
            let (got, rest) = drain_all(&chunks);
            assert_eq!(got, frames);
            assert_eq!(rest, extra[..j].to_vec());
        }
    }
}

#[test]
fn cdp_client_timeout() {
    let c = simprint_runtime::cdp_client::CdpClient::new("127.0.0.1", 9222);
    assert_eq!(c.request_timeout_secs(), 30);
}
