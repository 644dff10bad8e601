use vstd::prelude::*;

verus! {

/// Number of bytes in the big-endian length prefix that precedes every payload on the wire.
pub const FRAME_HEADER_LEN: usize = 4;

/// The four big-endian bytes of `n` taken modulo 2^32.
pub open spec fn be_u32_bytes(n: nat) -> Seq<u8> {
    seq![
        ((n / 0x100_0000) % 0x100) as u8,
        ((n / 0x1_0000) % 0x100) as u8,
        ((n / 0x100) % 0x100) as u8,
        (n % 0x100) as u8,
    ]
}

/// The number that four big-endian bytes spell.
pub open spec fn be_u32_value(b: Seq<u8>) -> nat
    recommends
        b.len() >= 4,
{
    (b[0] as nat) * 0x100_0000 + (b[1] as nat) * 0x1_0000 + (b[2] as nat) * 0x100 + (b[3] as nat)
}

/// A payload on the wire: its length modulo 2^32 as a big-endian prefix, then its bytes.
pub open spec fn encode_frame(payload: Seq<u8>) -> Seq<u8> {
    be_u32_bytes(payload.len()) + payload
}

/// Length of the payload announced by the prefix at the front of `buf`.
pub open spec fn announced_len(buf: Seq<u8>) -> int
    recommends
        buf.len() >= 4,
{
    be_u32_value(buf.take(4)) as int
}

/// Whether `buf` starts with a whole frame: a prefix and all the bytes it announces.
pub open spec fn frame_ready(buf: Seq<u8>) -> bool {
    buf.len() >= 4 && buf.len() - 4 >= announced_len(buf)
}

/// Splits `buf` into the whole frames at its front, in order, and the bytes after them.
pub open spec fn decode_frames(buf: Seq<u8>) -> (Seq<Seq<u8>>, Seq<u8>)
    decreases buf.len(),
{
    if frame_ready(buf) {
        let n = announced_len(buf);
        let rest = decode_frames(buf.skip(4 + n));
        (seq![buf.subrange(4, 4 + n)] + rest.0, rest.1)
    } else {
        (Seq::empty(), buf)
    }
}

/// The bytes of all `payloads` as they go on the wire one after another.
pub open spec fn encode_all(payloads: Seq<Seq<u8>>) -> Seq<u8>
    decreases payloads.len(),
{
    if payloads.len() == 0 {
        Seq::empty()
    } else {
        encode_frame(payloads[0]) + encode_all(payloads.drop_first())
    }
}

proof fn lemma_be_u32_round_trip(n: nat)
    requires
        n < 0x1_0000_0000,
    ensures
        be_u32_value(be_u32_bytes(n)) == n,
{
    let b0 = (n / 0x100_0000) % 0x100;
    let b1 = (n / 0x1_0000) % 0x100;
    let b2 = (n / 0x100) % 0x100;
    let b3 = n % 0x100;
    assert(b0 * 0x100_0000 + b1 * 0x1_0000 + b2 * 0x100 + b3 == n) by (nonlinear_arith)
        requires
            n < 0x1_0000_0000,
            b0 == (n / 0x100_0000) % 0x100,
            b1 == (n / 0x1_0000) % 0x100,
            b2 == (n / 0x100) % 0x100,
            b3 == n % 0x100,
    ;
}

/// The prefix is positional big-endian: the first byte is the most significant, and the four
/// bytes of a number below 2^32, weighted by 2^24, 2^16, 2^8 and 1, add up to that number.
pub proof fn lemma_prefix_is_big_endian(n: nat)
    ensures
        be_u32_bytes(n).len() == 4,
        be_u32_bytes(n)[0] as int == (n / 0x100_0000) % 0x100,
        be_u32_bytes(n)[1] as int == (n / 0x1_0000) % 0x100,
        be_u32_bytes(n)[2] as int == (n / 0x100) % 0x100,
        be_u32_bytes(n)[3] as int == n % 0x100,
        n < 0x1_0000_0000 ==> be_u32_bytes(n)[0] * 0x100_0000 + be_u32_bytes(n)[1] * 0x1_0000
            + be_u32_bytes(n)[2] * 0x100 + be_u32_bytes(n)[3] == n,
{
    if n < 0x1_0000_0000 {
        lemma_be_u32_round_trip(n);
    }
}

/// A receiver reads the length at the front of a buffer as the big-endian number its first four
/// bytes spell, the first byte the most significant.
pub proof fn lemma_announced_len_is_big_endian(buf: Seq<u8>)
    requires
        buf.len() >= 4,
    ensures
        announced_len(buf) == buf[0] * 0x100_0000 + buf[1] * 0x1_0000 + buf[2] * 0x100 + buf[3],
{
    assert(buf.take(4)[0] == buf[0]);
    assert(buf.take(4)[1] == buf[1]);
    assert(buf.take(4)[2] == buf[2]);
    assert(buf.take(4)[3] == buf[3]);
}

/// Decoding bytes that start with the encoding of a payload shorter than 2^32 gives that payload
/// first, then whatever the remaining bytes decode to.
pub proof fn lemma_decode_encoded_prefix(payload: Seq<u8>, rest: Seq<u8>)
    requires
        payload.len() < 0x1_0000_0000,
    ensures
        decode_frames(encode_frame(payload) + rest) == (
            seq![payload] + decode_frames(rest).0,
            decode_frames(rest).1,
        ),
{
    let buf = encode_frame(payload) + rest;
    lemma_be_u32_round_trip(payload.len());
    assert(buf.take(4) =~= be_u32_bytes(payload.len()));
    assert(frame_ready(buf));
    assert(buf.subrange(4, 4 + payload.len() as int) =~= payload);
    assert(buf.skip(4 + payload.len() as int) =~= rest);
}

/// The wire bytes of a sequence of payloads, each shorter than 2^32, decode to exactly those
/// payloads with nothing left over.
pub proof fn lemma_frames_round_trip(payloads: Seq<Seq<u8>>)
    requires
        forall|i: int| 0 <= i < payloads.len() ==> #[trigger] payloads[i].len() < 0x1_0000_0000,
    ensures
        decode_frames(encode_all(payloads)) == (payloads, Seq::<u8>::empty()),
    decreases payloads.len(),
{
    if payloads.len() == 0 {
        assert(!frame_ready(Seq::<u8>::empty()));
    } else {
        let tail = payloads.drop_first();
        assert forall|i: int| 0 <= i < tail.len() implies #[trigger] tail[i].len()
            < 0x1_0000_0000 by {
            assert(tail[i] == payloads[i + 1]);
        }
        lemma_frames_round_trip(tail);
        assert(payloads[0].len() < 0x1_0000_0000);
        lemma_decode_encoded_prefix(payloads[0], encode_all(tail));
        assert(seq![payloads[0]] + tail =~= payloads);
    }
}

/// How the bytes of a stream are cut into reads does not change the frames decoded from it.
/// Decoding `first`, then decoding what was left over followed by `second`, gives the same frames
/// and the same leftover as decoding `first + second` at once.
pub proof fn lemma_decode_split_independent(first: Seq<u8>, second: Seq<u8>)
    ensures
        decode_frames(first + second) == (
            decode_frames(first).0 + decode_frames(decode_frames(first).1 + second).0,
            decode_frames(decode_frames(first).1 + second).1,
        ),
    decreases first.len(),
{
    let whole = first + second;
    if frame_ready(first) {
        let n = announced_len(first);
        assert(whole.take(4) =~= first.take(4));
        assert(frame_ready(whole));
        assert(whole.subrange(4, 4 + n) =~= first.subrange(4, 4 + n));
        assert(whole.skip(4 + n) =~= first.skip(4 + n) + second);
        lemma_decode_split_independent(first.skip(4 + n), second);
        let a = decode_frames(first.skip(4 + n));
        let b = decode_frames(a.1 + second);
        assert(seq![first.subrange(4, 4 + n)] + (a.0 + b.0) =~= (seq![first.subrange(4, 4 + n)]
            + a.0) + b.0);
    } else {
        assert(decode_frames(first).0 =~= Seq::<Seq<u8>>::empty());
        assert(Seq::<Seq<u8>>::empty() + decode_frames(whole).0 =~= decode_frames(whole).0);
    }
}

/// The wire bytes of one payload: its length as a four-byte big-endian prefix, then the payload.
/// A length of 2^32 or more is cut to its low 32 bits in the prefix.
pub fn frame_message(payload: &[u8]) -> (framed: Vec<u8>)
    ensures
        framed@ == encode_frame(payload@),
        framed@.len() == payload@.len() + 4,
        framed@.skip(4) == payload@,
        framed@[0] as int == (payload@.len() / 0x100_0000) % 0x100,
        framed@[1] as int == (payload@.len() / 0x1_0000) % 0x100,
        framed@[2] as int == (payload@.len() / 0x100) % 0x100,
        framed@[3] as int == payload@.len() % 0x100,
        payload@.len() < 0x1_0000_0000 ==> framed@[0] * 0x100_0000 + framed@[1] * 0x1_0000
            + framed@[2] * 0x100 + framed@[3] == payload@.len(),
{
    let len: u64 = payload.len() as u64;
    let mut framed: Vec<u8> = Vec::new();
    framed.push(((len / 0x100_0000) % 0x100) as u8);
    framed.push(((len / 0x1_0000) % 0x100) as u8);
    framed.push(((len / 0x100) % 0x100) as u8);
    framed.push((len % 0x100) as u8);
    let mut i: usize = 0;
    while i < payload.len()
        invariant
            0 <= i <= payload@.len(),
            len == payload@.len(),
            framed@ == be_u32_bytes(payload@.len()) + payload@.take(i as int),
        decreases payload@.len() - i,
    {
        framed.push(payload[i]);
        assert(payload@.take(i as int + 1) =~= payload@.take(i as int).push(payload@[i as int]));
        i = i + 1;
    }
    assert(payload@.take(payload@.len() as int) =~= payload@);
    assert(framed@.skip(4) =~= payload@);
    proof {
        lemma_prefix_is_big_endian(payload@.len());
    }
    framed
}

/// Reassembles length-prefixed payloads from the bytes of a stream, which may arrive cut anywhere.
pub struct FrameDecoder {
    buffer: Vec<u8>,
}

impl View for FrameDecoder {
    type V = Seq<u8>;

    /// The bytes received and not yet handed out as a frame.
    closed spec fn view(&self) -> Seq<u8> {
        self.buffer@
    }
}

impl FrameDecoder {
    /// A decoder that holds no bytes.
    pub fn new() -> (d: FrameDecoder)
        ensures
            d@ == Seq::<u8>::empty(),
    {
        FrameDecoder { buffer: Vec::new() }
    }

    /// Number of bytes held.
    pub fn buffered_len(&self) -> (n: usize)
        ensures
            n == self@.len(),
    {
        self.buffer.len()
    }

    /// Appends bytes read from the stream.
    pub fn push_bytes(&mut self, data: &[u8])
        ensures
            final(self)@ == old(self)@ + data@,
    {
        let mut i: usize = 0;
        while i < data.len()
            invariant
                0 <= i <= data@.len(),
                self@ == old(self)@ + data@.take(i as int),
            decreases data@.len() - i,
        {
            self.buffer.push(data[i]);
            assert(data@.take(i as int + 1) =~= data@.take(i as int).push(data@[i as int]));
            i = i + 1;
        }
        assert(data@.take(data@.len() as int) =~= data@);
    }

    /// Takes the first whole frame from the held bytes: `Some` of its payload when the held bytes
    /// start with a prefix and all the bytes it announces, in which case those bytes are removed;
    /// `None` otherwise, with the held bytes unchanged.
    pub fn next_frame(&mut self) -> (frame: Option<Vec<u8>>)
        ensures
            frame_ready(old(self)@) ==> {
                let n = announced_len(old(self)@);
                &&& frame matches Some(p)
                &&& p@ == old(self)@.subrange(4, 4 + n)
                &&& final(self)@ == old(self)@.skip(4 + n)
            },
            !frame_ready(old(self)@) ==> frame is None && final(self)@ == old(self)@,
            old(self)@.len() >= 4 ==> {
                let b = old(self)@;
                let n = b[0] * 0x100_0000 + b[1] * 0x1_0000 + b[2] * 0x100 + b[3];
                &&& b.len() - 4 >= n ==> (frame matches Some(p) && p@ == b.subrange(4, 4 + n))
                &&& b.len() - 4 < n ==> frame is None
            },
            old(self)@.len() < 4 ==> frame is None,
    {
        proof {
            if self@.len() >= 4 {
                lemma_announced_len_is_big_endian(self@);
            }
        }
        let len = self.buffer.len();
        if len < FRAME_HEADER_LEN {
            return None;
        }
        let n: u64 = (self.buffer[0] as u64) * 0x100_0000 + (self.buffer[1] as u64) * 0x1_0000
            + (self.buffer[2] as u64) * 0x100 + (self.buffer[3] as u64);
        assert(self.buffer@.take(4)[0] == self.buffer@[0]);
        assert(self.buffer@.take(4)[1] == self.buffer@[1]);
        assert(self.buffer@.take(4)[2] == self.buffer@[2]);
        assert(self.buffer@.take(4)[3] == self.buffer@[3]);
        assert(n == announced_len(self.buffer@));
        if ((len - FRAME_HEADER_LEN) as u64) < n {
            return None;
        }
        let end: usize = FRAME_HEADER_LEN + (n as usize);
        let rest = self.buffer.split_off(end);
        let payload = self.buffer.split_off(FRAME_HEADER_LEN);
        self.buffer = rest;
        Some(payload)
    }

    /// Takes every whole frame from the front of the held bytes, in order, leaving the bytes of a
    /// frame not yet complete.
    pub fn drain_frames(&mut self) -> (frames: Vec<Vec<u8>>)
        ensures
            frames@.map_values(|f: Vec<u8>| f@) == decode_frames(old(self)@).0,
            final(self)@ == decode_frames(old(self)@).1,
    {
        let mut frames: Vec<Vec<u8>> = Vec::new();
        loop
            invariant
                decode_frames(old(self)@) == (
                    frames@.map_values(|f: Vec<u8>| f@) + decode_frames(self@).0,
                    decode_frames(self@).1,
                ),
            ensures
                frames@.map_values(|f: Vec<u8>| f@) == decode_frames(old(self)@).0,
                self@ == decode_frames(old(self)@).1,
            decreases self@.len(),
        {
            let ghost before = self@;
            match self.next_frame() {
                Some(p) => {
                    let ghost done = frames@.map_values(|f: Vec<u8>| f@);
                    frames.push(p);
                    assert(frames@.map_values(|f: Vec<u8>| f@) =~= done.push(p@));
                    let ghost rest = decode_frames(self@);
                    assert(decode_frames(before) == (seq![p@] + rest.0, rest.1));
                    assert(done + (seq![p@] + rest.0) =~= done.push(p@) + rest.0);
                },
                None => {
                    assert(decode_frames(self@).0 =~= Seq::<Seq<u8>>::empty());
                    assert(frames@.map_values(|f: Vec<u8>| f@) + Seq::<Seq<u8>>::empty()
                        =~= frames@.map_values(|f: Vec<u8>| f@));
                    break;
                },
            }
        }
        frames
    }
}

} // verus!
