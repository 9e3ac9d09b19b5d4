//! Cutting frames out of the byte stream that arrives on the runtime's input.
//!
//! Bytes are appended to a buffer as they arrive. A frame starts at the magic
//! `"sprt"`; bytes before the next magic are dropped one at a time. A frame is
//! taken out once its header and the whole payload that the header declares
//! are in the buffer.

use vstd::prelude::*;
use vstd::bytes::*;
use vstd::slice::slice_subrange;
use crate::buffers::{
    bytes_contents, bytes_mut_contents, buffer_len, buffer_slice, advance_buffer, split_to,
    freeze,
};
use crate::protocol::{
    HEADER_SIZE, frame_magic, frame_bytes, payload_bytes, MessageView, DecodeFailure, decode_frame,
    decode_reads_past_end, lemma_decode_encode_roundtrip,
};
use crate::le::lemma_le_roundtrip;

verus! {

/// The buffer after dropping bytes until it starts with the magic or holds
/// fewer than a header's worth of bytes.
pub open spec fn skip_to_magic(s: Seq<u8>) -> Seq<u8>
    decreases s.len(),
{
    if s.len() < 9 || s.take(4) == frame_magic() {
        s
    } else {
        skip_to_magic(s.skip(1))
    }
}

/// The payload length declared by a header at the start of `s`.
pub open spec fn header_payload_len(s: Seq<u8>) -> nat {
    spec_u32_from_le_bytes(s.subrange(5, 9)) as nat
}

/// The frame at the start of `s`, if it is complete, and what is left after it.
pub open spec fn cut_frame(s: Seq<u8>) -> (Option<Seq<u8>>, Seq<u8>) {
    let t = skip_to_magic(s);
    if t.len() < 9 || t.len() < 9 + header_payload_len(t) {
        (None, t)
    } else {
        let n = 9 + header_payload_len(t) as int;
        (Some(t.take(n)), t.skip(n))
    }
}


/// A frame that is cut out starts with the magic, and its length is the header
/// plus the payload length that its header declares.
pub proof fn lemma_cut_frame_shape(s: Seq<u8>)
    ensures
        cut_frame(s).0 matches Some(f) ==> {
            &&& f.len() >= 9
            &&& f.take(4) == frame_magic()
            &&& f.len() == 9 + header_payload_len(f)
        },
{
    let t = skip_to_magic(s);
    lemma_skip_to_magic_shape(s);
    if let Some(f) = cut_frame(s).0 {
        let n = 9 + header_payload_len(t) as int;
        assert(f == t.take(n));
        assert(f.take(4) =~= t.take(4));
        assert(f.subrange(5, 9) =~= t.subrange(5, 9));
    }
}

/// What `skip_to_magic` leaves is a suffix of its input that is short or starts with the magic.
pub proof fn lemma_skip_to_magic_shape(s: Seq<u8>)
    ensures
        skip_to_magic(s).len() < 9 || skip_to_magic(s).take(4) == frame_magic(),
        skip_to_magic(s).len() <= s.len(),
        skip_to_magic(s) == s.skip(s.len() - skip_to_magic(s).len()),
    decreases s.len(),
{
    if s.len() < 9 || s.take(4) == frame_magic() {
        assert(s.skip(0) =~= s);
    } else {
        lemma_skip_to_magic_shape(s.skip(1));
        let t = skip_to_magic(s.skip(1));
        assert(s.skip(1).skip(s.skip(1).len() - t.len()) =~= s.skip(s.len() - t.len()));
    }
}

/// The frame of a message, followed by any further bytes in the stream, is cut
/// out whole, and the further bytes are left in the buffer.
pub proof fn lemma_cut_encoded_frame(m: MessageView, rest: Seq<u8>)
    requires
        m.data.len() + 15 <= u32::MAX,
    ensures
        cut_frame(frame_bytes(m) + rest) == (Some(frame_bytes(m)), rest),
{
    lemma_le_roundtrip();
    let f = frame_bytes(m);
    let s = f + rest;
    let plen = payload_bytes(m).len() as u32;
    assert(f.len() == 24 + m.data.len());
    assert(s.take(4) =~= frame_magic());
    assert(skip_to_magic(s) == s);
    assert(s.subrange(5, 9) =~= spec_u32_to_le_bytes(plen));
    assert(header_payload_len(s) == f.len() - 9);
    assert(s.take(f.len() as int) =~= f);
    assert(s.skip(f.len() as int) =~= rest);
}

/// A message written to the stream is read back: the frame cut from the front
/// of the stream decodes, without reading past its end, to the message.
pub proof fn lemma_stream_delivers_message(m: MessageView, rest: Seq<u8>)
    requires
        m.data.len() + 15 <= u32::MAX,
    ensures
        cut_frame(frame_bytes(m) + rest).0 matches Some(f) && {
            &&& !decode_reads_past_end(f)
            &&& decode_frame(f) == Ok::<MessageView, DecodeFailure>(m)
        },
{
    lemma_cut_encoded_frame(m, rest);
    lemma_decode_encode_roundtrip(m);
}

/// A frame that is cut out is at least a header long, so what is left is shorter
/// than what was there.
pub proof fn lemma_cut_frame_shrinks(s: Seq<u8>)
    ensures
        cut_frame(s).0 is Some ==> cut_frame(s).1.len() + 9 <= s.len(),
        cut_frame(s).1.len() <= s.len(),
{
    lemma_skip_to_magic_shape(s);
}

/// The frames that the buffer yields one after another, and what is left once
/// no complete frame remains.
pub open spec fn drain(s: Seq<u8>) -> (Seq<Seq<u8>>, Seq<u8>)
    decreases s.len(),
{
    match cut_frame(s).0 {
        Some(f) => {
            proof {
                lemma_cut_frame_shrinks(s);
            }
            let (fs, r) = drain(cut_frame(s).1);
            (seq![f] + fs, r)
        },
        None => (Seq::empty(), cut_frame(s).1),
    }
}

/// Bytes arriving after the buffer do not change where its magic is found:
/// every byte dropped before it stays dropped.
pub proof fn lemma_skip_to_magic_append(s: Seq<u8>, x: Seq<u8>)
    ensures
        skip_to_magic(s + x) == skip_to_magic(skip_to_magic(s) + x),
    decreases s.len(),
{
    if s.len() < 9 || s.take(4) == frame_magic() {
    } else {
        assert((s + x).take(4) =~= s.take(4));
        assert((s + x).skip(1) =~= s.skip(1) + x);
        lemma_skip_to_magic_append(s.skip(1), x);
    }
}

/// What a frame cut does once more bytes have arrived: a complete frame is cut
/// the same, the new bytes joining what is left; an incomplete one waits, its
/// bytes staying in the buffer ahead of the new ones.
pub proof fn lemma_cut_frame_append(s: Seq<u8>, x: Seq<u8>)
    ensures
        cut_frame(s).0 matches Some(f) ==> cut_frame(s + x) == (Some(f), cut_frame(s).1 + x),
        cut_frame(s).0 is None ==> cut_frame(s).1 == skip_to_magic(s) && cut_frame(s + x)
            == cut_frame(cut_frame(s).1 + x),
{
    lemma_skip_to_magic_append(s, x);
    lemma_skip_to_magic_shape(s);
    let t = skip_to_magic(s);
    if let Some(f) = cut_frame(s).0 {
        let n = 9 + header_payload_len(t) as int;
        assert((t + x).take(4) =~= t.take(4));
        assert(skip_to_magic(t + x) == t + x);
        assert((t + x).subrange(5, 9) =~= t.subrange(5, 9));
        assert((t + x).take(n) =~= t.take(n));
        assert((t + x).skip(n) =~= t.skip(n) + x);
    }
}

pub proof fn lemma_drain_same_cut(a: Seq<u8>, b: Seq<u8>)
    requires
        cut_frame(a) == cut_frame(b),
    ensures
        drain(a) == drain(b),
{
}

/// The frames come out the same however the stream is split: draining the
/// buffer, then draining what is left with more bytes after it, yields the
/// frames of the whole stream, and leaves the same bytes.
pub proof fn lemma_drain_append(s: Seq<u8>, x: Seq<u8>)
    ensures
        drain(s + x) == (drain(s).0 + drain(drain(s).1 + x).0, drain(drain(s).1 + x).1),
    decreases s.len(),
{
    lemma_cut_frame_append(s, x);
    lemma_cut_frame_shrinks(s);
    match cut_frame(s).0 {
        Some(f) => {
            let r = cut_frame(s).1;
            lemma_drain_append(r, x);
            let (fs, rr) = drain(r);
            let (gs, r2) = drain(rr + x);
            assert(drain(s) == (seq![f] + fs, rr));
            assert(drain(s + x) == (seq![f] + drain(r + x).0, drain(r + x).1));
            assert(seq![f] + (fs + gs) =~= (seq![f] + fs) + gs);
        },
        None => {
            let r = cut_frame(s).1;
            lemma_drain_same_cut(s + x, r + x);
            assert(drain(s).0 =~= Seq::<Seq<u8>>::empty());
            assert(drain(s).0 + drain(r + x).0 =~= drain(r + x).0);
        },
    }
}

/// The bytes of the chunks one after another.
pub open spec fn concat_chunks(chunks: Seq<Seq<u8>>) -> Seq<u8>
    decreases chunks.len(),
{
    if chunks.len() == 0 {
        Seq::empty()
    } else {
        chunks[0] + concat_chunks(chunks.drop_first())
    }
}

/// The frames that the input yields when the chunks arrive one by one, each
/// appended to what is left and the buffer drained, starting from `rest`.
pub open spec fn drain_chunks(rest: Seq<u8>, chunks: Seq<Seq<u8>>) -> (Seq<Seq<u8>>, Seq<u8>)
    decreases chunks.len(),
{
    if chunks.len() == 0 {
        (Seq::empty(), rest)
    } else {
        let (fs, r) = drain(rest + chunks[0]);
        let (gs, r2) = drain_chunks(r, chunks.drop_first());
        (fs + gs, r2)
    }
}

/// What a drained buffer keeps holds no complete frame: draining it again yields nothing.
pub proof fn lemma_drain_leaves_no_frame(s: Seq<u8>)
    ensures
        drain(drain(s).1) == (Seq::<Seq<u8>>::empty(), drain(s).1),
    decreases s.len(),
{
    lemma_cut_frame_shrinks(s);
    match cut_frame(s).0 {
        Some(f) => {
            lemma_drain_leaves_no_frame(cut_frame(s).1);
        },
        None => {
            let t = skip_to_magic(s);
            lemma_skip_to_magic_shape(s);
            assert(skip_to_magic(t) == t);
            assert(cut_frame(t) == (None::<Seq<u8>>, t));
        },
    }
}

/// However the input is cut into chunks, the frames that come out, and the
/// bytes left waiting, are those of the whole input, starting from a buffer
/// that holds no complete frame (such as the empty one).
pub proof fn lemma_chunking_does_not_matter(rest: Seq<u8>, chunks: Seq<Seq<u8>>)
    requires
        drain(rest) == (Seq::<Seq<u8>>::empty(), rest),
    ensures
        drain_chunks(rest, chunks) == drain(rest + concat_chunks(chunks)),
    decreases chunks.len(),
{
    if chunks.len() == 0 {
        assert(rest + concat_chunks(chunks) =~= rest);
    } else {
        lemma_drain_leaves_no_frame(rest + chunks[0]);
        let c0 = chunks[0];
        let tail = chunks.drop_first();
        let (fs, r) = drain(rest + c0);
        lemma_chunking_does_not_matter(r, tail);
        lemma_drain_append(rest + c0, concat_chunks(tail));
        assert((rest + c0) + concat_chunks(tail) =~= rest + concat_chunks(chunks));
    }
}

/// A frame with a complete header and exactly the payload it declares is cut
/// out whole, whatever its version or contents, and what follows it is left.
pub proof fn lemma_cut_whole_frame(f: Seq<u8>, rest: Seq<u8>)
    requires
        f.len() >= 9,
        f.take(4) == frame_magic(),
        f.len() == 9 + header_payload_len(f),
    ensures
        cut_frame(f + rest) == (Some(f), rest),
{
    let s = f + rest;
    assert(s.take(4) =~= f.take(4));
    assert(skip_to_magic(s) == s);
    assert(s.subrange(5, 9) =~= f.subrange(5, 9));
    assert(s.take(f.len() as int) =~= f);
    assert(s.skip(f.len() as int) =~= rest);
}

/// Two frames in a row come out in order, the first whatever its version or
/// contents, so a frame that fails to decode does not disturb the next one.
pub proof fn lemma_drain_two_frames(f: Seq<u8>, m: MessageView)
    requires
        f.len() >= 9,
        f.take(4) == frame_magic(),
        f.len() == 9 + header_payload_len(f),
        m.data.len() + 15 <= u32::MAX,
    ensures
        drain(f + frame_bytes(m)) == (seq![f, frame_bytes(m)], Seq::<u8>::empty()),
{
    lemma_cut_whole_frame(f, frame_bytes(m));
    lemma_cut_encoded_frame(m, Seq::empty());
    assert(frame_bytes(m) + Seq::<u8>::empty() =~= frame_bytes(m));
    let e = Seq::<u8>::empty();
    assert(drain(e) == (Seq::<Seq<u8>>::empty(), e));
    assert(drain(frame_bytes(m)) == (seq![frame_bytes(m)], e)) by {
        assert(seq![frame_bytes(m)] + Seq::<Seq<u8>>::empty() =~= seq![frame_bytes(m)]);
    }
    assert(seq![f] + seq![frame_bytes(m)] =~= seq![f, frame_bytes(m)]);
}

/// Bytes that hold no `'s'` before a frame are dropped one by one, and the
/// frame is then found as if they had never been there.
pub proof fn lemma_skip_garbage(g: Seq<u8>, s: Seq<u8>)
    requires
        forall|i: int| 0 <= i < g.len() ==> g[i] != 0x73u8,
        s.len() >= 9,
    ensures
        skip_to_magic(g + s) == skip_to_magic(s),
    decreases g.len(),
{
    if g.len() > 0 {
        let t = g + s;
        assert(t.take(4)[0] == g[0]);
        assert(t.take(4) != frame_magic());
        assert(t.skip(1) =~= g.skip(1) + s);
        lemma_skip_garbage(g.skip(1), s);
    } else {
        assert(g + s =~= s);
    }
}

/// Garbage without an `'s'` before the frame of a message is dropped, and the
/// message's frame is the one frame that comes out.
pub proof fn lemma_resync_after_garbage(g: Seq<u8>, m: MessageView)
    requires
        forall|i: int| 0 <= i < g.len() ==> g[i] != 0x73u8,
        m.data.len() + 15 <= u32::MAX,
    ensures
        drain(g + frame_bytes(m)) == (seq![frame_bytes(m)], Seq::<u8>::empty()),
{
    lemma_le_roundtrip();
    let f = frame_bytes(m);
    assert(f.len() == 24 + m.data.len());
    lemma_skip_garbage(g, f);
    lemma_cut_encoded_frame(m, Seq::empty());
    assert(f + Seq::<u8>::empty() =~= f);
    assert(cut_frame(g + f) == cut_frame(f));
    lemma_drain_same_cut(g + f, f);
    let e = Seq::<u8>::empty();
    assert(drain(e) == (Seq::<Seq<u8>>::empty(), e));
    assert(seq![f] + Seq::<Seq<u8>>::empty() =~= seq![f]);
}

/// From an empty buffer, the frames that come out are those of the whole
/// input, however it is cut into chunks.
pub proof fn lemma_chunking_from_empty(chunks: Seq<Seq<u8>>)
    ensures
        drain_chunks(Seq::empty(), chunks) == drain(concat_chunks(chunks)),
{
    let e = Seq::<u8>::empty();
    assert(drain(e) == (Seq::<Seq<u8>>::empty(), e));
    lemma_chunking_does_not_matter(e, chunks);
    assert(e + concat_chunks(chunks) =~= concat_chunks(chunks));
}

/// The contents of frames taken out of the buffer.
pub open spec fn frames_view(v: Seq<bytes::Bytes>) -> Seq<Seq<u8>> {
    v.map_values(|b: bytes::Bytes| bytes_contents(b))
}

/// Takes every complete frame out of `buffer`, in order, leaving the bytes that
/// do not yet make a frame.
pub fn drain_frames(buffer: &mut bytes::BytesMut) -> (frames: Vec<bytes::Bytes>)
    ensures
        frames_view(frames@) == drain(bytes_mut_contents(*old(buffer))).0,
        bytes_mut_contents(*final(buffer)) == drain(bytes_mut_contents(*old(buffer))).1,
{
    let ghost original = bytes_mut_contents(*buffer);
    let mut frames: Vec<bytes::Bytes> = Vec::new();
    loop
        invariant
            drain(original) == (
                frames_view(frames@) + drain(bytes_mut_contents(*buffer)).0,
                drain(bytes_mut_contents(*buffer)).1,
            ),
            original == bytes_mut_contents(*old(buffer)),
        decreases bytes_mut_contents(*buffer).len(),
    {
        let ghost cur = bytes_mut_contents(*buffer);
        proof {
            lemma_cut_frame_shrinks(cur);
        }
        match next_frame(buffer) {
            Some(f) => {
                let ghost before = frames_view(frames@);
                frames.push(f);
                assert(frames_view(frames@) =~= before.push(bytes_contents(f)));
                assert(before + drain(cur).0 =~= frames_view(frames@) + drain(
                    bytes_mut_contents(*buffer),
                ).0);
            },
            None => {
                assert(frames_view(frames@) + drain(cur).0 =~= frames_view(frames@));
                return frames;
            },
        }
    }
}

/// The frames of a run of messages, one after another.
pub open spec fn frames_of(ms: Seq<MessageView>) -> Seq<u8>
    decreases ms.len(),
{
    if ms.len() == 0 {
        Seq::empty()
    } else {
        frame_bytes(ms[0]) + frames_of(ms.drop_first())
    }
}

/// A proper prefix of a message's frame holds no complete frame: it stays in
/// the buffer as it is.
pub proof fn lemma_partial_frame_waits(m: MessageView, j: int)
    requires
        m.data.len() + 15 <= u32::MAX,
        0 <= j < frame_bytes(m).len(),
    ensures
        drain(frame_bytes(m).take(j)) == (Seq::<Seq<u8>>::empty(), frame_bytes(m).take(j)),
{
    lemma_le_roundtrip();
    let f = frame_bytes(m);
    let q = f.take(j);
    let plen = payload_bytes(m).len() as u32;
    assert(f.len() == 24 + m.data.len());
    if q.len() >= 9 {
        assert(q.take(4) =~= f.take(4));
        assert(f.take(4) =~= frame_magic());
        assert(q.subrange(5, 9) =~= f.subrange(5, 9));
        assert(f.subrange(5, 9) =~= spec_u32_to_le_bytes(plen));
        assert(header_payload_len(q) == f.len() - 9);
    }
    assert(skip_to_magic(q) == q);
    assert(cut_frame(q).0 is None);
}

/// The frames of k messages, followed by part of one more frame, drain to
/// exactly those k frames, in order, and the part stays in the buffer.
pub proof fn lemma_messages_then_partial(ms: Seq<MessageView>, q: Seq<u8>)
    requires
        forall|i: int| 0 <= i < ms.len() ==> #[trigger] ms[i].data.len() + 15 <= u32::MAX,
        drain(q) == (Seq::<Seq<u8>>::empty(), q),
    ensures
        drain(frames_of(ms) + q) == (ms.map_values(|m: MessageView| frame_bytes(m)), q),
    decreases ms.len(),
{
    let fs = ms.map_values(|m: MessageView| frame_bytes(m));
    if ms.len() == 0 {
        assert(frames_of(ms) + q =~= q);
        assert(fs =~= Seq::<Seq<u8>>::empty());
    } else {
        let tail = ms.drop_first();
        assert forall|i: int| 0 <= i < tail.len() implies #[trigger] tail[i].data.len() + 15
            <= u32::MAX by {
            assert(tail[i] == ms[i + 1]);
        }
        lemma_messages_then_partial(tail, q);
        let rest = frames_of(tail) + q;
        assert(ms[0].data.len() + 15 <= u32::MAX);
        lemma_cut_encoded_frame(ms[0], rest);
        assert(frames_of(ms) + q =~= frame_bytes(ms[0]) + rest);
        assert(fs =~= seq![frame_bytes(ms[0])] + tail.map_values(|m: MessageView| frame_bytes(m)));
    }
}

/// However a stream of k messages' frames followed by part of another frame is
/// cut into chunks, exactly those k frames come out, in order, and the part is
/// left waiting in the buffer.
pub proof fn lemma_stream_of_messages(ms: Seq<MessageView>, q: Seq<u8>, chunks: Seq<Seq<u8>>)
    requires
        forall|i: int| 0 <= i < ms.len() ==> #[trigger] ms[i].data.len() + 15 <= u32::MAX,
        drain(q) == (Seq::<Seq<u8>>::empty(), q),
        concat_chunks(chunks) == frames_of(ms) + q,
    ensures
        drain_chunks(Seq::empty(), chunks) == (ms.map_values(|m: MessageView| frame_bytes(m)), q),
{
    lemma_chunking_from_empty(chunks);
    lemma_messages_then_partial(ms, q);
}

/// Takes the next complete frame out of `buffer`, dropping the bytes before it
/// that do not start a frame. Returns `None`, with the unmatched bytes dropped,
/// when no complete frame is there yet.
pub fn next_frame(buffer: &mut bytes::BytesMut) -> (r: Option<bytes::Bytes>)
    ensures
        ({
            let (frame, rest) = cut_frame(bytes_mut_contents(*old(buffer)));
            &&& bytes_mut_contents(*final(buffer)) == rest
            &&& match r {
                Some(f) => frame == Some(bytes_contents(f)),
                None => frame is None,
            }
        }),
{
    let ghost original = bytes_mut_contents(*buffer);
    loop
        invariant
            skip_to_magic(bytes_mut_contents(*buffer)) == skip_to_magic(original),
            original == bytes_mut_contents(*old(buffer)),
        decreases bytes_mut_contents(*buffer).len(),
    {
        let len = buffer_len(buffer);
        if len < HEADER_SIZE {
            assert(skip_to_magic(bytes_mut_contents(*buffer)) == bytes_mut_contents(*buffer));
            return None;
        }
        let starts_with_magic = {
            let s = buffer_slice(buffer);
            s[0] == 0x73 && s[1] == 0x70 && s[2] == 0x72 && s[3] == 0x74
        };
        let ghost cur = bytes_mut_contents(*buffer);
        assert(starts_with_magic <==> cur.take(4) == frame_magic()) by {
            if starts_with_magic {
                assert(cur.take(4) =~= frame_magic());
            } else {
                assert(cur.take(4)[0] == cur[0]);
                assert(cur.take(4)[1] == cur[1]);
                assert(cur.take(4)[2] == cur[2]);
                assert(cur.take(4)[3] == cur[3]);
            }
        }
        if !starts_with_magic {
            advance_buffer(buffer, 1);
            continue ;
        }
        assert(skip_to_magic(cur) == cur);
        let payload_len = {
            let s = buffer_slice(buffer);
            u32_from_le_bytes(slice_subrange(s, 5, 9)) as usize
        };
        assert(payload_len == header_payload_len(cur));
        if len - HEADER_SIZE < payload_len {
            return None;
        }
        let frame = split_to(buffer, HEADER_SIZE + payload_len);
        return Some(freeze(frame));
    }
}

} // verus!
