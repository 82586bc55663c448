//! The framed-RPC protocol: envelope framing, the streaming parser, the
//! reader that hands envelopes out one at a time, and the decisions that the
//! transport makes around them.

use vstd::prelude::*;
use std::collections::HashMap;
use crate::error::{coded_message, coded_text};

verus! {

/// Flag bit of an envelope whose payload is compressed.
pub const COMPRESSED: u8 = 0x01;

/// Flag bit of the envelope that ends a stream.
pub const END_STREAM: u8 = 0x02;

/// Size of an envelope header: one flag byte and a four-byte length.
pub const HEADER_LEN: usize = 5;

// ---------------------------------------------------------------------
// Wire model
// ---------------------------------------------------------------------

/// Value of four bytes read as a big-endian unsigned integer.
pub open spec fn be32_value(b: Seq<u8>) -> nat {
    (b[0] as nat) * 16777216 + (b[1] as nat) * 65536 + (b[2] as nat) * 256 + (b[3] as nat)
}

/// The four big-endian bytes of `n`.
pub open spec fn be32_bytes(n: u32) -> Seq<u8> {
    seq![(n / 16777216) as u8, (n / 65536 % 256) as u8, (n / 256 % 256) as u8, (n % 256) as u8]
}

/// The bytes of one envelope: flags, big-endian length, payload.
pub open spec fn frame(flags: u8, data: Seq<u8>) -> Seq<u8> {
    seq![flags] + be32_bytes(data.len() as u32) + data
}

/// The concatenated bytes of a sequence of envelopes.
pub open spec fn frames(es: Seq<(u8, Seq<u8>)>) -> Seq<u8>
    decreases es.len(),
{
    if es.len() == 0 {
        Seq::empty()
    } else {
        frame(es[0].0, es[0].1) + frames(es.skip(1))
    }
}

/// Whether every payload of `es` has a length that fits the header.
pub open spec fn frameable(es: Seq<(u8, Seq<u8>)>) -> bool {
    forall|i: int| 0 <= i < es.len() ==> #[trigger] es[i].1.len() <= u32::MAX
}

/// Whether flags mark the end of a stream.
pub open spec fn ends_stream(flags: u8) -> bool {
    flags & END_STREAM != 0
}

/// No envelope of `es` ends the stream, except possibly the last one.
pub open spec fn end_only_last(es: Seq<(u8, Seq<u8>)>) -> bool {
    forall|i: int| 0 <= i < es.len() - 1 ==> !ends_stream(#[trigger] es[i].0)
}

/// No envelope of `es` ends the stream.
pub open spec fn no_end(es: Seq<(u8, Seq<u8>)>) -> bool {
    forall|i: int| 0 <= i < es.len() ==> !ends_stream(#[trigger] es[i].0)
}

/// The complete envelopes at the front of `buf`, in order, up to and
/// including the first one that ends the stream, and the bytes that remain
/// after them.
pub open spec fn parse_frames(buf: Seq<u8>) -> (Seq<(u8, Seq<u8>)>, Seq<u8>)
    decreases buf.len(),
{
    if buf.len() < 5 {
        (Seq::empty(), buf)
    } else {
        let n = be32_value(buf.subrange(1, 5)) as int;
        if buf.len() < 5 + n {
            (Seq::empty(), buf)
        } else if ends_stream(buf[0]) {
            (seq![(buf[0], buf.subrange(5, 5 + n))], buf.skip(5 + n))
        } else {
            let rest = parse_frames(buf.skip(5 + n));
            (seq![(buf[0], buf.subrange(5, 5 + n))] + rest.0, rest.1)
        }
    }
}

/// What a parser yields when each chunk is added in turn and the complete
/// envelopes are taken after each one, starting from the bytes `buf`.
pub open spec fn feed_chunks(buf: Seq<u8>, chunks: Seq<Seq<u8>>) -> (Seq<(u8, Seq<u8>)>, Seq<u8>)
    decreases chunks.len(),
{
    if chunks.len() == 0 {
        (Seq::empty(), buf)
    } else {
        let step = parse_frames(buf + chunks[0]);
        let rest = feed_chunks(step.1, chunks.skip(1));
        (step.0 + rest.0, rest.1)
    }
}

proof fn lemma_be32_round_trip(n: u32)
    ensures
        be32_value(be32_bytes(n)) == n,
{
    let b = be32_bytes(n);
    assert(b[0] as nat == n / 16777216);
    assert(b[1] as nat == n / 65536 % 256);
    assert(b[2] as nat == n / 256 % 256);
    assert(b[3] as nat == n % 256);
    assert((n / 16777216) * 16777216 + (n / 65536 % 256) * 65536 + (n / 256 % 256) * 256 + n % 256
        == n) by (nonlinear_arith);
}

/// Parsing one envelope followed by other bytes yields that envelope, then
/// (unless it ends the stream) what the other bytes yield.
proof fn lemma_parse_frame_then(flags: u8, data: Seq<u8>, rest: Seq<u8>)
    requires
        data.len() <= u32::MAX,
    ensures
        !ends_stream(flags) ==> parse_frames(frame(flags, data) + rest) == (
            seq![(flags, data)] + parse_frames(rest).0,
            parse_frames(rest).1,
        ),
        ends_stream(flags) ==> parse_frames(frame(flags, data) + rest) == (seq![(flags, data)], rest),
{
    let buf = frame(flags, data) + rest;
    let n = data.len() as u32;
    lemma_be32_round_trip(n);
    assert(buf.subrange(1, 5) =~= be32_bytes(n));
    assert(buf.skip(5 + data.len() as int) =~= rest);
    assert(buf.subrange(5, 5 + data.len() as int) =~= data);
    assert(buf[0] == flags);
}

/// An envelope that ends the stream is the last one parsed.
proof fn lemma_end_is_last(buf: Seq<u8>)
    ensures
        end_only_last(parse_frames(buf).0),
    decreases buf.len(),
{
    if buf.len() >= 5 {
        let n = be32_value(buf.subrange(1, 5)) as int;
        if buf.len() >= 5 + n && !ends_stream(buf[0]) {
            lemma_end_is_last(buf.skip(5 + n));
            let r = parse_frames(buf.skip(5 + n)).0;
            let all = seq![(buf[0], buf.subrange(5, 5 + n))] + r;
            assert forall|i: int| 0 <= i < all.len() - 1 implies !ends_stream(#[trigger] all[i].0) by {
                if i > 0 {
                    assert(all[i] == r[i - 1]);
                }
            }
        }
    }
}

/// Parsing `a + b`, where `a` holds no complete envelope that ends the
/// stream, yields what `a` yields, then what the bytes left over from `a`
/// yield once `b` follows them.
proof fn lemma_parse_append(a: Seq<u8>, b: Seq<u8>)
    requires
        no_end(parse_frames(a).0),
    ensures
        parse_frames(a + b) == (
            parse_frames(a).0 + parse_frames(parse_frames(a).1 + b).0,
            parse_frames(parse_frames(a).1 + b).1,
        ),
    decreases a.len(),
{
    let pa = parse_frames(a);
    if a.len() < 5 {
        assert(pa.1 == a);
        assert(pa.0 + parse_frames(a + b).0 =~= parse_frames(a + b).0);
    } else {
        let n = be32_value(a.subrange(1, 5)) as int;
        if a.len() < 5 + n {
            assert(pa.0 + parse_frames(a + b).0 =~= parse_frames(a + b).0);
        } else {
            assert(pa.0[0] == (a[0], a.subrange(5, 5 + n)));
            assert(!ends_stream(pa.0[0].0));
            assert(!ends_stream(a[0]));
            let ab = a + b;
            assert(ab.subrange(1, 5) =~= a.subrange(1, 5));
            assert(ab.skip(5 + n) =~= a.skip(5 + n) + b);
            assert(ab.subrange(5, 5 + n) =~= a.subrange(5, 5 + n));
            assert(ab[0] == a[0]);
            let r = parse_frames(a.skip(5 + n));
            assert(pa == (seq![(a[0], a.subrange(5, 5 + n))] + r.0, r.1));
            assert forall|i: int| 0 <= i < r.0.len() implies !ends_stream(#[trigger] r.0[i].0) by {
                assert(r.0[i] == pa.0[i + 1]);
            }
            lemma_parse_append(a.skip(5 + n), b);
            assert(seq![(a[0], a.subrange(5, 5 + n))] + (r.0 + parse_frames(r.1 + b).0)
                =~= (seq![(a[0], a.subrange(5, 5 + n))] + r.0) + parse_frames(r.1 + b).0);
        }
    }
}

/// Parsing `a + b`, where `a` holds a complete envelope that ends the
/// stream, yields what `a` yields, and leaves the rest of `a`, then `b`.
proof fn lemma_parse_append_ended(a: Seq<u8>, b: Seq<u8>)
    requires
        !no_end(parse_frames(a).0),
    ensures
        parse_frames(a + b) == (parse_frames(a).0, parse_frames(a).1 + b),
    decreases a.len(),
{
    let pa = parse_frames(a);
    let n = be32_value(a.subrange(1, 5)) as int;
    let ab = a + b;
    assert(a.len() >= 5 && a.len() >= 5 + n);
    assert(ab.subrange(1, 5) =~= a.subrange(1, 5));
    assert(ab.skip(5 + n) =~= a.skip(5 + n) + b);
    assert(ab.subrange(5, 5 + n) =~= a.subrange(5, 5 + n));
    assert(ab[0] == a[0]);
    if !ends_stream(a[0]) {
        let r = parse_frames(a.skip(5 + n));
        assert(pa == (seq![(a[0], a.subrange(5, 5 + n))] + r.0, r.1));
        assert(!no_end(r.0)) by {
            let i = choose|i: int| 0 <= i < pa.0.len() && ends_stream(#[trigger] pa.0[i].0);
            assert(i > 0);
            assert(pa.0[i] == r.0[i - 1]);
        }
        lemma_parse_append_ended(a.skip(5 + n), b);
    }
}

/// The bytes left over after parsing hold no complete envelope, where no
/// envelope that ends the stream was parsed.
proof fn lemma_parse_rest_is_stuck(buf: Seq<u8>)
    requires
        no_end(parse_frames(buf).0),
    ensures
        parse_frames(parse_frames(buf).1) == (Seq::<(u8, Seq<u8>)>::empty(), parse_frames(buf).1),
    decreases buf.len(),
{
    if buf.len() >= 5 {
        let n = be32_value(buf.subrange(1, 5)) as int;
        if buf.len() >= 5 + n {
            let pa = parse_frames(buf);
            assert(!ends_stream(pa.0[0].0));
            let r = parse_frames(buf.skip(5 + n));
            assert forall|i: int| 0 <= i < r.0.len() implies !ends_stream(#[trigger] r.0[i].0) by {
                assert(r.0[i] == pa.0[i + 1]);
            }
            lemma_parse_rest_is_stuck(buf.skip(5 + n));
        }
    }
}

/// Parsed envelopes end the stream only last, and nothing is left over
/// after one that does.
pub open spec fn clean_stream(x: Seq<u8>) -> bool {
    let p = parse_frames(x);
    &&& end_only_last(p.0)
    &&& p.0.len() > 0 && ends_stream(p.0.last().0) ==> p.1.len() == 0
}

proof fn lemma_feed_empty(chunks: Seq<Seq<u8>>)
    requires
        chunks.flatten().len() == 0,
    ensures
        feed_chunks(Seq::empty(), chunks) == (Seq::<(u8, Seq<u8>)>::empty(), Seq::<u8>::empty()),
    decreases chunks.len(),
{
    if chunks.len() > 0 {
        assert(chunks.drop_first() == chunks.skip(1));
        assert(chunks.flatten() == chunks[0] + chunks.skip(1).flatten());
        assert(chunks[0].len() == 0);
        assert(Seq::<u8>::empty() + chunks[0] =~= Seq::<u8>::empty());
        lemma_feed_empty(chunks.skip(1));
        assert(Seq::<(u8, Seq<u8>)>::empty() + Seq::<(u8, Seq<u8>)>::empty() =~= Seq::<(u8, Seq<u8>)>::empty());
    }
}

/// Feeding chunks one after another yields what the parser yields on their
/// concatenation, where that concatenation is a clean stream.
proof fn lemma_feed_is_parse(buf: Seq<u8>, chunks: Seq<Seq<u8>>)
    requires
        parse_frames(buf).0.len() == 0,
        clean_stream(buf + chunks.flatten()),
    ensures
        feed_chunks(buf, chunks) == parse_frames(buf + chunks.flatten()),
    decreases chunks.len(),
{
    if chunks.len() == 0 {
        assert(buf + chunks.flatten() =~= buf);
        assert(parse_frames(buf).1 == buf);
        assert(parse_frames(buf).0 =~= Seq::<(u8, Seq<u8>)>::empty());
    } else {
        let a = buf + chunks[0];
        let b = chunks.skip(1).flatten();
        let x = buf + chunks.flatten();
        assert(chunks.drop_first() == chunks.skip(1));
        assert(chunks.flatten() == chunks[0] + b);
        assert(x =~= a + b);
        let pa = parse_frames(a);
        if no_end(pa.0) {
            lemma_parse_append(a, b);
            lemma_parse_rest_is_stuck(a);
            let px = parse_frames(x);
            let pr = parse_frames(pa.1 + b);
            assert(px.0 == pa.0 + pr.0);
            assert(clean_stream(pa.1 + b)) by {
                assert forall|i: int| 0 <= i < pr.0.len() - 1 implies !ends_stream(#[trigger] pr.0[i].0) by {
                    assert(pr.0[i] == px.0[pa.0.len() + i]);
                }
                if pr.0.len() > 0 {
                    assert(pr.0.last() == px.0.last());
                }
            }
            lemma_feed_is_parse(pa.1, chunks.skip(1));
        } else {
            lemma_parse_append_ended(a, b);
            lemma_end_is_last(a);
            let i = choose|i: int| 0 <= i < pa.0.len() && ends_stream(#[trigger] pa.0[i].0);
            assert(i == pa.0.len() - 1);
            assert(pa.1 + b =~= Seq::<u8>::empty());
            assert(pa.1 =~= Seq::<u8>::empty());
            assert(b.len() == 0);
            lemma_feed_empty(chunks.skip(1));
            assert(pa.0 + Seq::<(u8, Seq<u8>)>::empty() =~= pa.0);
        }
    }
}

/// Parsing the bytes of a sequence of envelopes, of which only the last may
/// end the stream, yields exactly that sequence, with no bytes left over.
proof fn lemma_parse_frames_inverse(es: Seq<(u8, Seq<u8>)>)
    requires
        frameable(es),
        end_only_last(es),
    ensures
        parse_frames(frames(es)) == (es, Seq::<u8>::empty()),
    decreases es.len(),
{
    if es.len() == 0 {
        assert(parse_frames(Seq::<u8>::empty()) == (Seq::<(u8, Seq<u8>)>::empty(), Seq::<u8>::empty()));
    } else {
        assert(es[0].1.len() <= u32::MAX);
        assert(frameable(es.skip(1))) by {
            assert forall|i: int| 0 <= i < es.skip(1).len() implies #[trigger] es.skip(1)[i].1.len()
                <= u32::MAX by {
                assert(es.skip(1)[i] == es[i + 1]);
            }
        }
        assert(end_only_last(es.skip(1))) by {
            assert forall|i: int| 0 <= i < es.skip(1).len() - 1 implies !ends_stream(#[trigger] es.skip(1)[i].0) by {
                assert(es.skip(1)[i] == es[i + 1]);
            }
        }
        lemma_parse_frames_inverse(es.skip(1));
        lemma_parse_frame_then(es[0].0, es[0].1, frames(es.skip(1)));
        if ends_stream(es[0].0) {
            assert(es.len() == 1);
            assert(es.skip(1).len() == 0);
            assert(frames(es.skip(1)) == Seq::<u8>::empty());
            assert(seq![(es[0].0, es[0].1)] =~= es);
        } else {
            assert(seq![(es[0].0, es[0].1)] + es.skip(1) =~= es);
        }
    }
}

/// Envelope round trip: parsing the framing of a payload `data` with flags
/// `flags` yields exactly one envelope, with those flags and that payload,
/// and consumes every byte.
pub proof fn lemma_envelope_round_trip(flags: u8, data: Seq<u8>)
    requires
        data.len() <= u32::MAX,
    ensures
        parse_frames(frame(flags, data)) == (seq![(flags, data)], Seq::<u8>::empty()),
{
    lemma_parse_frame_then(flags, data, Seq::empty());
    assert(frame(flags, data) + Seq::<u8>::empty() =~= frame(flags, data));
    assert(parse_frames(Seq::<u8>::empty()) == (Seq::<(u8, Seq<u8>)>::empty(), Seq::<u8>::empty()));
    assert(seq![(flags, data)] + Seq::<(u8, Seq<u8>)>::empty() =~= seq![(flags, data)]);
}

/// The streaming parser does not depend on chunk boundaries: however the
/// bytes of the envelopes `es` (of which only the last may end the stream)
/// are cut into chunks, adding the chunks in order to an empty parser and
/// taking the complete envelopes after each one yields `es`, in order, and
/// leaves nothing buffered.
pub proof fn lemma_chunk_agnostic(es: Seq<(u8, Seq<u8>)>, chunks: Seq<Seq<u8>>)
    requires
        frameable(es),
        end_only_last(es),
        chunks.flatten() == frames(es),
    ensures
        feed_chunks(Seq::empty(), chunks) == (es, Seq::<u8>::empty()),
{
    assert(parse_frames(Seq::<u8>::empty()).0.len() == 0);
    assert(Seq::<u8>::empty() + chunks.flatten() =~= frames(es));
    lemma_parse_frames_inverse(es);
    lemma_feed_is_parse(Seq::empty(), chunks);
}

// ---------------------------------------------------------------------
// Envelopes
// ---------------------------------------------------------------------

/// One frame of a streaming response.
#[derive(Debug)]
pub struct StreamingEnvelope {
    pub flags: u8,
    pub data_length: u32,
    pub data: Vec<u8>,
}

impl View for StreamingEnvelope {
    type V = (u8, Seq<u8>);

    open spec fn view(&self) -> (u8, Seq<u8>) {
        (self.flags, self.data@)
    }
}

impl StreamingEnvelope {
    /// The length field agrees with the payload.
    pub open spec fn wf(&self) -> bool {
        self.data_length as nat == self.data@.len()
    }

    pub open spec fn spec_is_compressed(&self) -> bool {
        self.flags & COMPRESSED != 0
    }

    pub open spec fn spec_is_end_stream(&self) -> bool {
        self.flags & END_STREAM != 0
    }

    /// Whether the compressed flag is set.
    pub fn is_compressed(&self) -> (r: bool)
        ensures
            r == self.spec_is_compressed(),
    {
        (self.flags & COMPRESSED) != 0
    }

    /// Whether the end-of-stream flag is set.
    pub fn is_end_stream(&self) -> (r: bool)
        ensures
            r == self.spec_is_end_stream(),
    {
        (self.flags & END_STREAM) != 0
    }
}

/// Frames `data` as one envelope with the given flags.
pub fn encode_envelope(flags: u8, data: &[u8]) -> (r: Vec<u8>)
    requires
        data@.len() <= u32::MAX,
    ensures
        r@ == frame(flags, data@),
{
    let n = data.len() as u32;
    let mut out: Vec<u8> = Vec::new();
    out.push(flags);
    out.push((n / 16777216) as u8);
    out.push((n / 65536 % 256) as u8);
    out.push((n / 256 % 256) as u8);
    out.push((n % 256) as u8);
    let mut i: usize = 0;
    while i < data.len()
        invariant
            i <= data@.len(),
            out@ == seq![flags] + be32_bytes(n) + data@.subrange(0, i as int),
        decreases data@.len() - i,
    {
        out.push(data[i]);
        i = i + 1;
        assert(out@ =~= seq![flags] + be32_bytes(n) + data@.subrange(0, i as int));
    }
    assert(data@.subrange(0, i as int) =~= data@);
    out
}

/// Frames the JSON body of a streaming request: one envelope, no flags.
pub fn create_request_envelope(data: &[u8]) -> (r: Vec<u8>)
    requires
        data@.len() <= u32::MAX,
    ensures
        r@ == frame(0, data@),
{
    encode_envelope(0, data)
}

// ---------------------------------------------------------------------
// Streaming parser
// ---------------------------------------------------------------------

/// Buffers response bytes and cuts complete envelopes off their front.
pub struct StreamParser {
    buffer: Vec<u8>,
}

impl View for StreamParser {
    type V = Seq<u8>;

    /// The bytes received and not yet handed out as envelopes.
    closed spec fn view(&self) -> Seq<u8> {
        self.buffer@
    }
}

impl StreamParser {
    /// A parser with nothing buffered.
    pub fn new() -> (r: Self)
        ensures
            r@ == Seq::<u8>::empty(),
    {
        StreamParser { buffer: Vec::new() }
    }

    /// Appends a chunk of response bytes.
    pub fn add_chunk(&mut self, chunk: &[u8])
        ensures
            final(self)@ == old(self)@ + chunk@,
    {
        let mut i: usize = 0;
        while i < chunk.len()
            invariant
                i <= chunk@.len(),
                self@ == old(self)@ + chunk@.subrange(0, i as int),
            decreases chunk@.len() - i,
        {
            self.buffer.push(chunk[i]);
            i = i + 1;
            assert(self@ =~= old(self)@ + chunk@.subrange(0, i as int));
        }
        assert(chunk@.subrange(0, i as int) =~= chunk@);
    }

    /// Removes every complete envelope from the front of the buffer and
    /// returns them in order; an incomplete one stays buffered.
    pub fn parse_envelopes(&mut self) -> (r: Vec<StreamingEnvelope>)
        ensures
            r@.map_values(|e: StreamingEnvelope| e@) == parse_frames(old(self)@).0,
            forall|i: int| 0 <= i < r.len() ==> (#[trigger] r[i]).wf(),
            forall|i: int| 0 <= i < r.len() - 1 ==> !ends_stream(#[trigger] r[i].flags),
            final(self)@ == parse_frames(old(self)@).1,
    {
        let ghost buf = self.buffer@;
        let len = self.buffer.len();
        let mut out: Vec<StreamingEnvelope> = Vec::new();
        let mut i: usize = 0;
        proof {
            assert(buf.skip(0) =~= buf);
            assert(out@.map_values(|e: StreamingEnvelope| e@) + parse_frames(buf).0 =~= parse_frames(
                buf,
            ).0);
        }
        loop
            invariant_except_break
                parse_frames(buf) == (
                    out@.map_values(|e: StreamingEnvelope| e@) + parse_frames(buf.skip(i as int)).0,
                    parse_frames(buf.skip(i as int)).1,
                ),
            invariant
                self.buffer@ == buf,
                len == buf.len(),
                i <= len,
                forall|k: int| 0 <= k < out.len() ==> (#[trigger] out[k]).wf(),
            ensures
                i <= len,
                parse_frames(buf) == (out@.map_values(|e: StreamingEnvelope| e@), buf.skip(i as int)),
            decreases len - i,
        {
            let ghost cur = buf.skip(i as int);
            assert(cur.len() == len - i);
            if len - i < HEADER_LEN {
                assert(out@.map_values(|e: StreamingEnvelope| e@) + Seq::<(u8, Seq<u8>)>::empty()
                    =~= out@.map_values(|e: StreamingEnvelope| e@));
                break;
            }
            let flags = self.buffer[i];
            let b1 = self.buffer[i + 1];
            let b2 = self.buffer[i + 2];
            let b3 = self.buffer[i + 3];
            let b4 = self.buffer[i + 4];
            let n: u32 = (b1 as u32) * 16777216 + (b2 as u32) * 65536 + (b3 as u32) * 256 + (b4 as u32);
            proof {
                assert(cur.subrange(1, 5) =~= seq![b1, b2, b3, b4]);
                assert(be32_value(cur.subrange(1, 5)) == n as nat);
            }
            if ((len - i) as u64) < 5 + n as u64 {
                assert(out@.map_values(|e: StreamingEnvelope| e@) + Seq::<(u8, Seq<u8>)>::empty()
                    =~= out@.map_values(|e: StreamingEnvelope| e@));
                break;
            }
            let start = i + 5;
            let end = start + n as usize;
            let mut data: Vec<u8> = Vec::new();
            let mut j: usize = start;
            while j < end
                invariant
                    self.buffer@ == buf,
                    len == buf.len(),
                    start <= j <= end <= len,
                    data@ == buf.subrange(start as int, j as int),
                decreases end - j,
            {
                data.push(self.buffer[j]);
                j = j + 1;
                assert(data@ =~= buf.subrange(start as int, j as int));
            }
            proof {
                assert(cur[0] == flags);
                assert(cur.subrange(5, 5 + n as int) =~= data@);
                assert(cur.skip(5 + n as int) =~= buf.skip(end as int));
                let old_out = out@.map_values(|e: StreamingEnvelope| e@);
                let rest = parse_frames(buf.skip(end as int));
                assert(old_out + (seq![(flags, data@)] + rest.0) =~= (old_out + seq![(flags, data@)])
                    + rest.0);
            }
            let ghost old_view = out@.map_values(|e: StreamingEnvelope| e@);
            let is_end = (flags & END_STREAM) != 0;
            let env = StreamingEnvelope { flags, data_length: n, data };
            out.push(env);
            assert(out@.map_values(|e: StreamingEnvelope| e@) =~= old_view + seq![(flags, data@)]);
            i = end;
            if is_end {
                break;
            }
        }
        let rest = self.buffer.split_off(i);
        self.buffer = rest;
        proof {
            assert(self.buffer@ =~= buf.skip(i as int));
            lemma_end_is_last(buf);
            assert forall|k: int| 0 <= k < out.len() - 1 implies !ends_stream(#[trigger] out[k].flags) by {
                assert(out@.map_values(|e: StreamingEnvelope| e@)[k].0 == out[k].flags);
            }
        }
        out
    }
}


/// Relies on `reqwest::Error`, carried as the cause of a transport failure.
#[verifier::external_type_specification]
#[verifier::external_body]
pub struct ExReqwestError(reqwest::Error);

/// Relies on `serde_json::Error`, carried as the cause of a decoding failure.
#[verifier::external_type_specification]
#[verifier::external_body]
pub struct ExJsonError(serde_json::Error);

/// Failures of the framed-RPC layer.
#[derive(Debug)]
pub enum ConnectError {
    /// The HTTP exchange failed.
    Http(reqwest::Error),
    /// A JSON body could not be encoded or decoded.
    Json(serde_json::Error),
    /// The server answered with an RPC error.
    Rpc { code: i32, message: String },
    /// The response could not be interpreted.
    InvalidResponse(String),
}

/// Result type of framed-RPC operations.
pub type ConnectResult<T> = Result<T, ConnectError>;

/// Settings of a framed-RPC client.
#[derive(Debug, Clone)]
pub struct ConnectConfig {
    /// Base URL of the service.
    pub base_url: String,
    /// Headers sent with every request.
    pub headers: HashMap<String, String>,
    /// Request timeout in seconds.
    pub timeout_secs: u64,
    /// Whether bodies are JSON (the only encoding supported).
    pub use_json: bool,
}

impl Default for ConnectConfig {
    fn default() -> (r: Self)
        ensures
            r.base_url@ == Seq::<char>::empty(),
            r.headers@ == Map::<String, String>::empty(),
            r.timeout_secs == 30,
            r.use_json,
    {
        ConnectConfig {
            base_url: String::new(),
            headers: HashMap::new(),
            timeout_secs: 30,
            use_json: true,
        }
    }
}

// ---------------------------------------------------------------------
// Reading a response one envelope at a time
// ---------------------------------------------------------------------

/// What a reader asks of its caller next.
pub enum ReadStep {
    /// The next envelope of the stream.
    Envelope(StreamingEnvelope),
    /// No complete envelope is buffered: hand over the next chunk, or
    /// report the end of the body.
    NeedChunk,
    /// The stream is over.
    Finished,
}

/// Turns the chunks of a response body into envelopes, handed out in order,
/// and stops after the end-of-stream envelope.
pub struct EnvelopeReader {
    parser: StreamParser,
    pending: Vec<StreamingEnvelope>,
    finished: bool,
}

impl EnvelopeReader {
    /// Envelopes parsed and not yet handed out.
    pub closed spec fn pending(&self) -> Seq<(u8, Seq<u8>)> {
        self.pending@.map_values(|e: StreamingEnvelope| e@)
    }

    /// Bytes received that do not yet form an envelope.
    pub closed spec fn buffered(&self) -> Seq<u8> {
        self.parser@
    }

    /// Whether the stream is over.
    pub closed spec fn is_finished(&self) -> bool {
        self.finished
    }

    pub closed spec fn wf(&self) -> bool {
        forall|i: int| 0 <= i < self.pending.len() ==> (#[trigger] self.pending[i]).wf()
    }

    /// A reader that has received nothing.
    pub fn new() -> (r: Self)
        ensures
            r.wf(),
            r.pending() == Seq::<(u8, Seq<u8>)>::empty(),
            r.buffered() == Seq::<u8>::empty(),
            !r.is_finished(),
    {
        let r = EnvelopeReader { parser: StreamParser::new(), pending: Vec::new(), finished: false };
        assert(r.pending() =~= Seq::<(u8, Seq<u8>)>::empty());
        r
    }

    /// Hands out the next envelope, asks for more bytes, or reports the end.
    pub fn poll(&mut self) -> (r: ReadStep)
        requires
            old(self).wf(),
        ensures
            final(self).wf(),
            final(self).buffered() == old(self).buffered(),
            old(self).is_finished() ==> r is Finished && final(self).pending() == old(self).pending()
                && final(self).is_finished(),
            !old(self).is_finished() && old(self).pending().len() == 0 ==> r is NeedChunk && final(self).pending() == old(self).pending() && !final(self).is_finished(),
            !old(self).is_finished() && old(self).pending().len() > 0 ==> match r {
                ReadStep::Envelope(e) => e@ == old(self).pending()[0] && e.wf() && final(self).pending() == old(self).pending().skip(1) && final(self).is_finished() == ends_stream(e.flags),
                _ => false,
            },
    {
        if self.finished {
            return ReadStep::Finished;
        }
        if self.pending.len() == 0 {
            return ReadStep::NeedChunk;
        }
        let e = self.pending.remove(0);
        assert(self.pending() =~= old(self).pending().skip(1));
        assert(old(self).pending()[0] == e@);
        assert(e.wf()) by {
            assert(old(self).pending[0].wf());
        }
        assert forall|i: int| 0 <= i < self.pending.len() implies (#[trigger] self.pending[i]).wf() by {
            assert(self.pending[i] == old(self).pending[i + 1]);
        }
        if e.is_end_stream() {
            self.finished = true;
        }
        ReadStep::Envelope(e)
    }

    /// Takes the next chunk of the response body.
    pub fn on_chunk(&mut self, chunk: &[u8])
        requires
            old(self).wf(),
        ensures
            final(self).wf(),
            final(self).pending() == old(self).pending() + parse_frames(
                old(self).buffered() + chunk@,
            ).0,
            final(self).buffered() == parse_frames(old(self).buffered() + chunk@).1,
            final(self).is_finished() == old(self).is_finished(),
    {
        self.parser.add_chunk(chunk);
        let mut fresh = self.parser.parse_envelopes();
        let ghost before = self.pending@;
        let ghost added = fresh@;
        self.pending.append(&mut fresh);
        assert(self.pending@ == before + added);
        assert(self.pending() =~= old(self).pending() + added.map_values(|e: StreamingEnvelope| e@));
        assert forall|i: int| 0 <= i < self.pending.len() implies (#[trigger] self.pending[i]).wf() by {
            if i >= before.len() {
                assert(self.pending[i] == added[i - before.len()]);
            }
        }
    }

    /// Notes that the response body has ended.
    pub fn on_eof(&mut self)
        ensures
            final(self).is_finished(),
            final(self).pending() == old(self).pending(),
            final(self).buffered() == old(self).buffered(),
            old(self).wf() ==> final(self).wf(),
    {
        self.finished = true;
    }
}

// ---------------------------------------------------------------------
// Messages and errors
// ---------------------------------------------------------------------

/// What one envelope of a response carries.
pub enum Frame {
    /// A JSON message to decode.
    Message(Vec<u8>),
    /// A clean end of the stream.
    End,
    /// The end of the stream, with a JSON body that may describe an error.
    EndWithBody(Vec<u8>),
}

/// The message of the error for a compressed envelope.
pub open spec fn compression_message() -> Seq<char> {
    "Compression not yet supported"@
}

/// Sorts an envelope: a compressed one is refused (compression is not
/// supported); else a message, a clean end, or an end with a body.
pub fn classify_envelope(e: StreamingEnvelope) -> (r: ConnectResult<Frame>)
    ensures
        e.spec_is_compressed() ==> match r {
            Err(ConnectError::InvalidResponse(m)) => m@ == compression_message(),
            _ => false,
        },
        e.spec_is_end_stream() && e.data@.len() == 0 && !e.spec_is_compressed() ==> r matches Ok(
            Frame::End,
        ),
        e.spec_is_end_stream() && e.data@.len() > 0 && !e.spec_is_compressed() ==> match r {
            Ok(Frame::EndWithBody(b)) => b@ == e.data@,
            _ => false,
        },
        !e.spec_is_end_stream() && !e.spec_is_compressed() ==> match r {
            Ok(Frame::Message(b)) => b@ == e.data@,
            _ => false,
        },
{
    if e.is_compressed() {
        return Err(ConnectError::InvalidResponse(String::from_str("Compression not yet supported")));
    }
    if e.is_end_stream() {
        if e.data.len() == 0 {
            Ok(Frame::End)
        } else {
            Ok(Frame::EndWithBody(e.data))
        }
    } else {
        Ok(Frame::Message(e.data))
    }
}

/// The `code` and `message` members of an error object, where present and
/// of the expected JSON type.
#[derive(Debug, Clone)]
pub struct RpcErrorBody {
    pub code: Option<i64>,
    pub message: Option<String>,
}

/// The error reported by an end-of-stream body `{"error": {...}}`: its code
/// (0 when absent) and its message ("Stream error" when absent).
pub fn end_stream_error(body: RpcErrorBody) -> (r: ConnectError)
    ensures
        match r {
            ConnectError::Rpc { code, message } => {
                &&& code == (match body.code {
                    Some(c) => c as i32,
                    None => 0i32,
                })
                &&& message@ == (match body.message {
                    Some(m) => m@,
                    None => "Stream error"@,
                })
            },
            _ => false,
        },
{
    let code: i32 = match body.code {
        Some(c) => c as i32,
        None => 0,
    };
    let message = match body.message {
        Some(m) => m,
        None => String::from_str("Stream error"),
    };
    ConnectError::Rpc { code, message }
}

/// The error for a non-2xx answer to a streaming call: the status as the
/// code, the body as the message.
pub fn http_status_error(status: u16, body: &str) -> (r: ConnectError)
    ensures
        match r {
            ConnectError::Rpc { code, message } => code == status as i32 && message@ == body@,
            _ => false,
        },
{
    ConnectError::Rpc { code: status as i32, message: String::from_str(body) }
}

/// The error for a non-2xx answer to a unary call: from the JSON error
/// object when the body is JSON (its code, else the status; its message,
/// else "Unknown error"), else the status and the text
/// `HTTP <status>: <body>`.
pub fn unary_error(status: u16, json: Option<RpcErrorBody>, body: &str) -> (r: ConnectError)
    ensures
        match r {
            ConnectError::Rpc { code, message } => match json {
                Some(j) => {
                    &&& code == (match j.code {
                        Some(c) => c as i32,
                        None => status as i32,
                    })
                    &&& message@ == (match j.message {
                        Some(m) => m@,
                        None => "Unknown error"@,
                    })
                },
                None => code == status as i32 && message@ == coded_text("HTTP "@, status as int, body@),
            },
            _ => false,
        },
{
    match json {
        Some(j) => {
            let code: i32 = match j.code {
                Some(c) => c as i32,
                None => status as i32,
            };
            let message = match j.message {
                Some(m) => m,
                None => String::from_str("Unknown error"),
            };
            ConnectError::Rpc { code, message }
        },
        None => ConnectError::Rpc { code: status as i32, message: coded_message("HTTP ", status as i64, body) },
    }
}

} // verus!
