//! Framing of messages sent between the client and the server.
//!
//! Every message goes over the stream prefixed by its total length, header included
//! (a little-endian `u32`) so it's easy to parse on the other side.
//! The length is therefore never less than the header's length; a smaller one is
//! left free to announce a different format.
//! Turning messages into bytes and back is left to the serializer;
//! this module only frames and unframes the bytes.

use std::collections::VecDeque;

use vstd::bytes::{
    lemma_auto_spec_u32_to_from_le_bytes, spec_u32_from_le_bytes, spec_u32_to_le_bytes,
    u32_from_le_bytes, u32_to_le_bytes,
};
use vstd::prelude::*;

verus! {

/// Length of the header that precedes every message's content.
pub const HEADER_LEN: usize = 4;

/// A framed message, ready to be written to a stream.
pub struct NetworkMessage {
    /// The header (the total length) followed by the content.
    pub bytes: Vec<u8>,
}

/// The bytes that carry `content` over the stream.
pub open spec fn frame_spec(content: Seq<u8>) -> Seq<u8> {
    spec_u32_to_le_bytes((HEADER_LEN + content.len()) as u32) + content
}

/// The total frame length that the header at the start of `buf` announces.
pub open spec fn announced_len(buf: Seq<u8>) -> int {
    spec_u32_from_le_bytes(buf.subrange(0, HEADER_LEN as int)) as int
}

/// Whether `buf` starts with a whole frame.
pub open spec fn has_frame(buf: Seq<u8>) -> bool {
    buf.len() >= HEADER_LEN && announced_len(buf) >= HEADER_LEN && buf.len() >= announced_len(buf)
}

/// Whether `buf` starts with a header that announces less than the header itself,
/// which this format never sends.
pub open spec fn is_malformed(buf: Seq<u8>) -> bool {
    buf.len() >= HEADER_LEN && announced_len(buf) < HEADER_LEN
}

/// The complete messages at the start of `buf`, in order,
/// and the bytes left after them (an incomplete frame, possibly empty).
pub open spec fn parse_frames(buf: Seq<u8>) -> (Seq<Seq<u8>>, Seq<u8>)
    decreases buf.len(),
{
    if has_frame(buf) {
        let n = announced_len(buf);
        let (msgs, rest) = parse_frames(buf.skip(n));
        (seq![buf.subrange(HEADER_LEN as int, n)] + msgs, rest)
    } else {
        (Seq::empty(), buf)
    }
}

/// The bytes that carry all of `msgs`, one frame after another.
pub open spec fn frames_spec(msgs: Seq<Seq<u8>>) -> Seq<u8>
    decreases msgs.len(),
{
    if msgs.len() == 0 {
        Seq::empty()
    } else {
        frame_spec(msgs[0]) + frames_spec(msgs.drop_first())
    }
}

/// The contents of a list of received messages.
pub open spec fn contents_of(msgs: Seq<Vec<u8>>) -> Seq<Seq<u8>> {
    msgs.map_values(|m: Vec<u8>| m@)
}

/// Prefix `content` by the total length so the other side knows where the message ends.
pub fn frame(content: Vec<u8>) -> (msg: NetworkMessage)
    requires
        HEADER_LEN + content@.len() <= u32::MAX,
    ensures
        msg.bytes@ == frame_spec(content@),
{
    let mut content = content;
    let mut bytes = u32_to_le_bytes((HEADER_LEN + content.len()) as u32);
    bytes.append(&mut content);
    NetworkMessage { bytes }
}

/// Takes the complete messages off the front of `buffer`, in the order they arrived.
///
/// What is left in `buffer` is the start of a message whose rest hasn't arrived yet,
/// or, when `malformed` is returned, a header that this format never sends
/// (the connection should then be dropped).
pub fn receive_frames(buffer: &mut VecDeque<u8>) -> (res: (Vec<Vec<u8>>, bool))
    ensures
        (contents_of(res.0@), final(buffer)@) == parse_frames(old(buffer)@),
        res.1 == is_malformed(final(buffer)@),
{
    let ghost orig = buffer@;
    let mut msgs: Vec<Vec<u8>> = Vec::new();
    loop
        invariant
            parse_frames(orig) == (contents_of(msgs@) + parse_frames(buffer@).0, parse_frames(
                buffer@,
            ).1),
        ensures
            parse_frames(orig) == (contents_of(msgs@), buffer@),
        decreases buffer@.len(),
    {
        if buffer.len() < HEADER_LEN {
            assert(contents_of(msgs@) + Seq::<Seq<u8>>::empty() =~= contents_of(msgs@));
            break;
        }
        let len_bytes: Vec<u8> = vec![buffer[0], buffer[1], buffer[2], buffer[3]];
        proof {
            assert(len_bytes@ =~= buffer@.subrange(0, HEADER_LEN as int));
        }
        let total_len = u32_from_le_bytes(len_bytes.as_slice()) as usize;
        if total_len < HEADER_LEN || buffer.len() < total_len {
            // Not enough bytes in buffer for a full frame (or a header that can't be parsed).
            assert(contents_of(msgs@) + Seq::<Seq<u8>>::empty() =~= contents_of(msgs@));
            break;
        }
        let content_len = total_len - HEADER_LEN;
        let ghost before = buffer@;
        let mut k: usize = 0;
        while k < HEADER_LEN
            invariant
                k <= HEADER_LEN,
                buffer@ == before.skip(k as int),
                before.len() >= HEADER_LEN + content_len,
            decreases HEADER_LEN - k,
        {
            let _ = buffer.pop_front();
            k = k + 1;
        }
        let mut content: Vec<u8> = Vec::new();
        let mut k: usize = 0;
        while k < content_len
            invariant
                k <= content_len,
                buffer@ == before.skip(HEADER_LEN + k),
                content@ == before.subrange(HEADER_LEN as int, HEADER_LEN + k),
                before.len() >= HEADER_LEN + content_len,
            decreases content_len - k,
        {
            if let Some(b) = buffer.pop_front() {
                content.push(b);
            }
            k = k + 1;
            assert(content@ =~= before.subrange(HEADER_LEN as int, HEADER_LEN + k));
        }
        let ghost old_msgs = contents_of(msgs@);
        msgs.push(content);
        proof {
            assert(contents_of(msgs@) =~= old_msgs.push(content@));
        }
    }
    let malformed = if buffer.len() >= HEADER_LEN {
        let len_bytes: Vec<u8> = vec![buffer[0], buffer[1], buffer[2], buffer[3]];
        proof {
            assert(len_bytes@ =~= buffer@.subrange(0, HEADER_LEN as int));
        }
        (u32_from_le_bytes(len_bytes.as_slice()) as usize) < HEADER_LEN
    } else {
        false
    };
    (msgs, malformed)
}

/// What one read from a non-blocking stream gave.
#[derive(Debug, Clone, Copy, PartialEq, Eq, Structural)]
pub enum ReadResult {
    /// This many bytes were read (zero means the other side closed the connection).
    Read(usize),
    /// The read was interrupted before anything was read.
    Interrupted,
    /// Nothing more to read right now.
    WouldBlock,
    /// Any other error.
    Failed,
}

/// What to do after a read.
#[derive(Debug, Clone, Copy, PartialEq, Eq, Structural)]
pub enum ReadStep {
    /// Keep the bytes read, if any, and read again.
    KeepReading,
    /// Everything available has been read.
    Done,
    /// The connection has been closed (cleanly or because reading failed).
    Closed,
}

/// Decides how reading all available bytes goes on after one read:
/// stop at the end of what's available, and stop for good when the connection
/// is closed (so a crashed server doesn't keep the reader stuck in its loop).
pub fn read_step(r: ReadResult) -> (step: ReadStep)
    ensures
        step == match r {
            ReadResult::Read(n) => if n == 0 {
                ReadStep::Closed
            } else {
                ReadStep::KeepReading
            },
            ReadResult::Interrupted => ReadStep::KeepReading,
            ReadResult::WouldBlock => ReadStep::Done,
            ReadResult::Failed => ReadStep::Closed,
        },
{
    match r {
        ReadResult::Read(0) => ReadStep::Closed,
        ReadResult::Read(_) => ReadStep::KeepReading,
        ReadResult::Interrupted => ReadStep::KeepReading,
        ReadResult::WouldBlock => ReadStep::Done,
        ReadResult::Failed => ReadStep::Closed,
    }
}

/// Framing then parsing gives the message back, before whatever follows it.
pub proof fn law_frame_then_parse(content: Seq<u8>, rest: Seq<u8>)
    requires
        HEADER_LEN + content.len() <= u32::MAX,
    ensures
        parse_frames(frame_spec(content) + rest) == (seq![content] + parse_frames(rest).0,
        parse_frames(rest).1),
{
    lemma_auto_spec_u32_to_from_le_bytes();
    let buf = frame_spec(content) + rest;
    let header = spec_u32_to_le_bytes((HEADER_LEN + content.len()) as u32);
    assert(buf.subrange(0, HEADER_LEN as int) =~= header);
    assert(announced_len(buf) == HEADER_LEN + content.len());
    assert(buf.subrange(HEADER_LEN as int, HEADER_LEN + content.len()) =~= content);
    assert(buf.skip(HEADER_LEN + content.len()) =~= rest);
}

/// A frame's header always announces at least the header's own length,
/// so a smaller length stays free to mark a different format.
pub proof fn law_frame_header_at_least_header_len(content: Seq<u8>, rest: Seq<u8>)
    requires
        HEADER_LEN + content.len() <= u32::MAX,
    ensures
        announced_len(frame_spec(content) + rest) == HEADER_LEN + content.len(),
        announced_len(frame_spec(content) + rest) >= HEADER_LEN,
        !is_malformed(frame_spec(content) + rest),
{
    lemma_auto_spec_u32_to_from_le_bytes();
    let buf = frame_spec(content) + rest;
    assert(buf.subrange(0, HEADER_LEN as int) =~= spec_u32_to_le_bytes(
        (HEADER_LEN + content.len()) as u32,
    ));
}

/// Parsing loses and invents nothing: the parsed messages, framed again,
/// followed by the leftover bytes, are exactly the bytes received.
pub proof fn law_parse_loses_nothing(buf: Seq<u8>)
    ensures
        frames_spec(parse_frames(buf).0) + parse_frames(buf).1 == buf,
    decreases buf.len(),
{
    if has_frame(buf) {
        let n = announced_len(buf);
        let m = buf.subrange(HEADER_LEN as int, n);
        let (ms, rest) = parse_frames(buf.skip(n));
        law_parse_loses_nothing(buf.skip(n));
        lemma_auto_spec_u32_to_from_le_bytes();
        let header = buf.subrange(0, HEADER_LEN as int);
        assert(spec_u32_to_le_bytes(spec_u32_from_le_bytes(header)) == header);
        assert(((HEADER_LEN + m.len()) as u32) == spec_u32_from_le_bytes(header));
        let all = seq![m] + ms;
        assert(all.drop_first() =~= ms);
        assert(frames_spec(all) == frame_spec(m) + frames_spec(ms));
        assert(frame_spec(m) =~= buf.subrange(0, n));
        assert(buf.subrange(0, n) + (frames_spec(ms) + rest) =~= buf);
    } else {
        assert(frames_spec(Seq::<Seq<u8>>::empty()) + buf =~= buf);
    }
}

/// Messages sent one after another on a stream are received whole, in the order sent,
/// with nothing left over.
pub proof fn law_frames_received_in_order(msgs: Seq<Seq<u8>>)
    requires
        forall|i: int| 0 <= i < msgs.len() ==> HEADER_LEN + (#[trigger] msgs[i]).len() <= u32::MAX,
    ensures
        parse_frames(frames_spec(msgs)) == (msgs, Seq::<u8>::empty()),
    decreases msgs.len(),
{
    if msgs.len() == 0 {
        lemma_auto_spec_u32_to_from_le_bytes();
        assert(!has_frame(Seq::<u8>::empty()));
    } else {
        let tail = msgs.drop_first();
        assert forall|i: int| 0 <= i < tail.len() implies HEADER_LEN + (#[trigger] tail[i]).len()
            <= u32::MAX by {
            assert(tail[i] == msgs[i + 1]);
        }
        law_frames_received_in_order(tail);
        assert(HEADER_LEN + msgs[0].len() <= u32::MAX);
        law_frame_then_parse(msgs[0], frames_spec(tail));
        assert(seq![msgs[0]] + tail =~= msgs);
    }
}

/// It doesn't matter how the bytes of a stream are split into reads:
/// parsing what arrived so far, then parsing the leftover together with what
/// arrives next, gives the same messages as parsing everything at once.
pub proof fn law_parse_split_anywhere(a: Seq<u8>, b: Seq<u8>)
    ensures
        parse_frames(a + b) == (parse_frames(a).0 + parse_frames(parse_frames(a).1 + b).0,
        parse_frames(parse_frames(a).1 + b).1),
    decreases a.len(),
{
    if has_frame(a) {
        let n = announced_len(a);
        assert((a + b).subrange(0, HEADER_LEN as int) =~= a.subrange(0, HEADER_LEN as int));
        assert(has_frame(a + b));
        assert((a + b).subrange(HEADER_LEN as int, n) =~= a.subrange(HEADER_LEN as int, n));
        assert((a + b).skip(n) =~= a.skip(n) + b);
        law_parse_split_anywhere(a.skip(n), b);
        let m = a.subrange(HEADER_LEN as int, n);
        let (ms, rest) = parse_frames(a.skip(n));
        assert(seq![m] + (ms + parse_frames(rest + b).0) =~= (seq![m] + ms) + parse_frames(
            rest + b,
        ).0);
    } else {
        assert(Seq::<Seq<u8>>::empty() + parse_frames(a + b).0 =~= parse_frames(a + b).0);
    }
}

} // verus!
