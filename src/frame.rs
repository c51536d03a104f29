//! Length-prefixed frames: a 4-byte little-endian length, then that many bytes.

use vstd::prelude::*;

verus! {

/// The largest payload that the 32-bit length field can announce.
pub const MAX_PAYLOAD: u64 = 4294967295;

/// Why a frame could not be written or read.
#[derive(Debug, Clone, Copy, PartialEq, Eq, Structural)]
pub enum FrameError {
    /// The payload is longer than the length field can announce.
    TooLarge,
    /// The bytes end before the frame they announce is complete.
    Truncated,
}

/// The number that four bytes hold, least significant first.
pub open spec fn le_value(b: Seq<u8>) -> nat
    recommends
        b.len() == 4,
{
    b[0] as nat + 256 * (b[1] as nat) + 65536 * (b[2] as nat) + 16777216 * (b[3] as nat)
}

/// The four bytes, least significant first, of a number below 2^32.
pub open spec fn le_bytes(n: nat) -> Seq<u8> {
    seq![
        (n % 256) as u8,
        ((n / 256) % 256) as u8,
        ((n / 65536) % 256) as u8,
        ((n / 16777216) % 256) as u8,
    ]
}

/// The frame that carries payload `p`.
pub open spec fn frame_of(p: Seq<u8>) -> Seq<u8> {
    le_bytes(p.len()) + p
}

/// The length that the first four bytes of `s` announce.
pub open spec fn announced(s: Seq<u8>) -> nat
    recommends
        s.len() >= 4,
{
    le_value(s.subrange(0, 4))
}

/// The payload of the frame at the start of `s`, if `s` holds all of it.
pub open spec fn decoded(s: Seq<u8>) -> Option<Seq<u8>> {
    if s.len() < 4 {
        None
    } else if s.len() < 4 + announced(s) {
        None
    } else {
        Some(s.subrange(4, 4 + announced(s) as int))
    }
}

/// Four bytes hold back the number they were made from.
pub proof fn lemma_le_round_trip(n: nat)
    requires
        n <= MAX_PAYLOAD,
    ensures
        le_bytes(n).len() == 4,
        le_value(le_bytes(n)) == n,
{
    let b = le_bytes(n);
    assert(b[0] as nat == n % 256);
    assert(b[1] as nat == (n / 256) % 256);
    assert(b[2] as nat == (n / 65536) % 256);
    assert(b[3] as nat == (n / 16777216) % 256);
    assert(n % 256 + 256 * ((n / 256) % 256) + 65536 * ((n / 65536) % 256) + 16777216 * ((
    n / 16777216) % 256) == n) by (nonlinear_arith)
        requires
            n <= 4294967295,
    ;
}

/// Encoding a payload and decoding the frame gives back exactly that payload,
/// and decoding reads exactly the announced bytes, whatever follows them.
pub proof fn lemma_round_trip(p: Seq<u8>, rest: Seq<u8>)
    requires
        p.len() <= MAX_PAYLOAD,
    ensures
        decoded(frame_of(p)) == Some(p),
        decoded(frame_of(p) + rest) == Some(p),
{
    lemma_le_round_trip(p.len());
    let f = frame_of(p);
    let g = frame_of(p) + rest;
    assert(f.subrange(0, 4) =~= le_bytes(p.len()));
    assert(g.subrange(0, 4) =~= le_bytes(p.len()));
    assert(f.subrange(4, 4 + p.len() as int) =~= p);
    assert(g.subrange(4, 4 + p.len() as int) =~= p);
}

/// Bytes that end before the announced payload is complete decode to nothing:
/// a frame is never handed back short.
pub proof fn lemma_short_input_fails(s: Seq<u8>)
    requires
        s.len() < 4 || s.len() < 4 + announced(s),
    ensures
        decoded(s) is None,
{
}

/// Writes the frame for `payload`: its length in four little-endian bytes,
/// then its bytes. Fails exactly when the length does not fit in 32 bits.
pub fn encode_frame(payload: &[u8]) -> (r: Result<Vec<u8>, FrameError>)
    ensures
        payload@.len() <= MAX_PAYLOAD ==> (r matches Ok(v) && v@ == frame_of(payload@)),
        payload@.len() > MAX_PAYLOAD ==> r == Err::<Vec<u8>, FrameError>(FrameError::TooLarge),
{
    if payload.len() as u64 > MAX_PAYLOAD {
        return Err(FrameError::TooLarge);
    }
    let n: u64 = payload.len() as u64;
    let mut out: Vec<u8> = Vec::new();
    out.push((n % 256) as u8);
    out.push(((n / 256) % 256) as u8);
    out.push(((n / 65536) % 256) as u8);
    out.push(((n / 16777216) % 256) as u8);
    assert(out@ =~= le_bytes(payload@.len()));
    let mut i: usize = 0;
    while i < payload.len()
        invariant
            i <= payload@.len(),
            out@ =~= le_bytes(payload@.len()) + payload@.subrange(0, i as int),
        decreases payload@.len() - i,
    {
        out.push(payload[i]);
        i = i + 1;
        assert(out@ =~= le_bytes(payload@.len()) + payload@.subrange(0, i as int));
    }
    assert(payload@.subrange(0, payload@.len() as int) =~= payload@);
    Ok(out)
}

/// The payload length that a frame's four header bytes announce.
pub fn frame_len(header: &[u8]) -> (r: u64)
    requires
        header@.len() == 4,
    ensures
        r == le_value(header@),
        r <= MAX_PAYLOAD,
{
    header[0] as u64 + 256 * (header[1] as u64) + 65536 * (header[2] as u64) + 16777216 * (
    header[3] as u64)
}

/// Reads the frame at the start of `input`. Fails with `Truncated` exactly when
/// `input` ends before the header or before the announced payload.
pub fn decode_frame(input: &[u8]) -> (r: Result<Vec<u8>, FrameError>)
    ensures
        decoded(input@) matches Some(p) ==> (r matches Ok(v) && v@ == p),
        decoded(input@) is None ==> r == Err::<Vec<u8>, FrameError>(FrameError::Truncated),
{
    if input.len() < 4 {
        return Err(FrameError::Truncated);
    }
    let header = slice_prefix(input, 4);
    let n = frame_len(&header);
    proof {
        assert(header@ =~= input@.subrange(0, 4));
    }
    if (input.len() as u64) - 4 < n {
        return Err(FrameError::Truncated);
    }
    let end: usize = (4 + n) as usize;
    let mut out: Vec<u8> = Vec::new();
    let mut i: usize = 4;
    while i < end
        invariant
            4 <= i <= end,
            end == 4 + announced(input@),
            end <= input@.len(),
            out@ =~= input@.subrange(4, i as int),
        decreases end - i,
    {
        out.push(input[i]);
        i = i + 1;
        assert(out@ =~= input@.subrange(4, i as int));
    }
    Ok(out)
}

/// How many more bytes the frame at the start of `s` needs before it is
/// complete.
pub open spec fn still_wanted(s: Seq<u8>) -> int {
    if s.len() < 4 {
        4 - s.len()
    } else {
        4 + announced(s) - s.len()
    }
}

/// Gathers one frame from a stream that delivers bytes in pieces of any size.
pub struct FrameReader {
    received: Vec<u8>,
}

impl View for FrameReader {
    type V = Seq<u8>;

    closed spec fn view(&self) -> Seq<u8> {
        self.received@
    }
}

impl FrameReader {
    /// Never more than one frame is held.
    pub open spec fn wf(&self) -> bool {
        still_wanted(self@) >= 0
    }

    /// A reader that has received nothing yet.
    pub fn new() -> (r: FrameReader)
        ensures
            r@ == Seq::<u8>::empty(),
            r.wf(),
            r.wanted() == 4,
    {
        FrameReader { received: Vec::new() }
    }

    /// How many more bytes the frame needs: the stream is read for at most this
    /// many, and the frame is complete when it is zero.
    pub open spec fn wanted(&self) -> int {
        still_wanted(self@)
    }

    /// How many more bytes the frame needs.
    pub fn remaining(&self) -> (r: u64)
        requires
            self.wf(),
        ensures
            r == self.wanted(),
    {
        let n = self.received.len();
        if n < 4 {
            (4 - n) as u64
        } else {
            let header = slice_prefix(self.received.as_slice(), 4);
            let len = frame_len(header.as_slice());
            proof {
                assert(header@ =~= self@.subrange(0, 4));
            }
            4 + len - n as u64
        }
    }

    /// Takes bytes that the stream delivered, no more than the frame still wants.
    pub fn accept(&mut self, chunk: &[u8])
        requires
            old(self).wf(),
            chunk@.len() <= old(self).wanted(),
        ensures
            final(self)@ == old(self)@ + chunk@,
            final(self).wf(),
            old(self)@.len() >= 4 ==> final(self).wanted() == old(self).wanted() - chunk@.len(),
    {
        let ghost before = self@;
        let mut i: usize = 0;
        while i < chunk.len()
            invariant
                i <= chunk@.len(),
                chunk@.len() <= still_wanted(before),
                self@ =~= before + chunk@.subrange(0, i as int),
            decreases chunk@.len() - i,
        {
            self.received.push(chunk[i]);
            i = i + 1;
            assert(self@ =~= before + chunk@.subrange(0, i as int));
        }
        assert(chunk@.subrange(0, chunk@.len() as int) =~= chunk@);
        proof {
            let after = self@;
            if before.len() >= 4 {
                assert(after.subrange(0, 4) =~= before.subrange(0, 4));
            }
        }
    }

    /// The payload, once every announced byte is in; `Truncated` where the
    /// stream closed before that.
    pub fn finish(&self) -> (r: Result<Vec<u8>, FrameError>)
        requires
            self.wf(),
        ensures
            decoded(self@) matches Some(p) ==> (r matches Ok(v) && v@ == p),
            decoded(self@) is None ==> r == Err::<Vec<u8>, FrameError>(FrameError::Truncated),
            r is Ok <==> self.wanted() == 0,
    {
        decode_frame(self.received.as_slice())
    }
}

/// The first `k` bytes of `input`.
fn slice_prefix(input: &[u8], k: usize) -> (r: Vec<u8>)
    requires
        k <= input@.len(),
    ensures
        r@ == input@.subrange(0, k as int),
{
    let mut out: Vec<u8> = Vec::new();
    let mut i: usize = 0;
    while i < k
        invariant
            i <= k <= input@.len(),
            out@ =~= input@.subrange(0, i as int),
        decreases k - i,
    {
        out.push(input[i]);
        i = i + 1;
        assert(out@ =~= input@.subrange(0, i as int));
    }
    out
}

} // verus!
