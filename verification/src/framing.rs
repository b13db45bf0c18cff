//! Framing of messages on the serial link: COBS-encoded frames ended by a zero byte.
use vstd::prelude::*;
use crate::errors::TransportError;
use crate::protocol::MAX_MESSAGE_SIZE;

verus! {

/// The COBS encoding of `data` (sentinel zero), as computed by the `cobs` crate.
pub uninterp spec fn cobs_encoded(data: Seq<u8>) -> Seq<u8>;

/// `s` holds no zero byte.
pub open spec fn zero_free(s: Seq<u8>) -> bool {
    forall|i: int| 0 <= i < s.len() ==> #[trigger] s[i] != 0
}

/// Calls `cobs::encode` into a buffer of `MAX_MESSAGE_SIZE + 3` bytes and hands out the
/// bytes written. Trusted: the encoding is a function of `data` alone, holds no zero byte,
/// and takes at most one byte more than `data` plus one per 254 bytes of it, so it fits.
#[verifier::external_body]
fn cobs_encode(data: &[u8]) -> (out: Vec<u8>)
    requires
        data@.len() <= 1022,
    ensures
        out@ == cobs_encoded(data@),
        zero_free(out@),
        out@.len() <= data@.len() + data@.len() / 254 + 1,
{
    let mut buf = [0u8; 1027];
    let n = cobs::encode(data, &mut buf);
    buf[..n].to_vec()
}

/// The frame sent for a serialized message: its COBS encoding and a zero byte.
pub open spec fn frame_of(data: Seq<u8>) -> Seq<u8> {
    cobs_encoded(data).push(0u8)
}

/// Frames a serialized message for the link.
pub fn frame_message(serialized: &[u8]) -> (frame: Vec<u8>)
    requires
        serialized@.len() <= 1022,
    ensures
        frame@ == frame_of(serialized@),
        zero_free(frame@.drop_last()),
{
    let mut frame = cobs_encode(serialized);
    frame.push(0u8);
    assert(frame@.drop_last() =~= cobs_encoded(serialized@));
    frame
}

/// What the device's receiver made of a chunk of bytes.
pub enum ChunkOutcome {
    /// A complete frame, without its zero byte; the bytes after that zero stay buffered
    Frame(Vec<u8>),
    /// An empty frame (a zero byte with nothing before it), ignored; the bytes after it
    /// stay buffered
    Empty,
    /// The frame is not complete yet
    Partial,
}

/// The device's receive buffer: a fixed area of `MAX_MESSAGE_SIZE` bytes, filled up to
/// `rx_idx`.
pub struct DeviceReceiver {
    pub rx_buffer: Vec<u8>,
    pub rx_idx: usize,
}

impl DeviceReceiver {
    /// The buffer has its fixed size and the fill mark stays within it.
    pub open spec fn inv(&self) -> bool {
        &&& self.rx_buffer@.len() == MAX_MESSAGE_SIZE
        &&& self.rx_idx <= MAX_MESSAGE_SIZE
    }

    /// The bytes received so far for the frame in progress.
    pub open spec fn pending(&self) -> Seq<u8> {
        self.rx_buffer@.take(self.rx_idx as int)
    }

    /// An empty receive buffer.
    pub fn new() -> (r: Self)
        ensures
            r.inv(),
            r.rx_idx == 0,
    {
        let mut rx_buffer: Vec<u8> = Vec::new();
        let mut i: usize = 0;
        while i < MAX_MESSAGE_SIZE
            invariant
                i <= MAX_MESSAGE_SIZE,
                rx_buffer@.len() == i,
            decreases MAX_MESSAGE_SIZE - i,
        {
            rx_buffer.push(0u8);
            i = i + 1;
        }
        DeviceReceiver { rx_buffer, rx_idx: 0 }
    }

    /// Before reading: a full buffer is dropped and reported as an overflow.
    pub fn check_space(&mut self) -> (r: Result<(), TransportError>)
        requires
            old(self).inv(),
        ensures
            final(self).inv(),
            old(self).rx_idx >= MAX_MESSAGE_SIZE ==> r == Err::<(), TransportError>(TransportError::BufferOverflow)
                && final(self).rx_idx == 0 && final(self).rx_buffer == old(self).rx_buffer,
            old(self).rx_idx < MAX_MESSAGE_SIZE ==> r is Ok && *final(self) == *old(self),
    {
        if self.rx_idx >= self.rx_buffer.len() {
            self.rx_idx = 0;
            return Err(TransportError::BufferOverflow);
        }
        Ok(())
    }

    /// The number of bytes that can still be received.
    pub fn free_space(&self) -> (n: usize)
        requires
            self.inv(),
        ensures
            n == MAX_MESSAGE_SIZE - self.rx_idx,
    {
        self.rx_buffer.len() - self.rx_idx
    }

    /// Takes a chunk of bytes read from the link (possibly none). When the bytes received
    /// hold a zero byte, the frame before the first zero is complete: it is handed out (an
    /// empty one is ignored) and the bytes after that zero are kept for the next frame;
    /// otherwise all the bytes are kept.
    pub fn accept(&mut self, chunk: &[u8]) -> (r: ChunkOutcome)
        requires
            old(self).inv(),
            chunk@.len() <= MAX_MESSAGE_SIZE - old(self).rx_idx,
        ensures
            final(self).inv(),
            ({
                let data = old(self).pending() + chunk@;
                if exists|pos: int| first_zero(data, pos) {
                    let pos = choose|pos: int| first_zero(data, pos);
                    &&& final(self).pending() == data.skip(pos + 1)
                    &&& pos == 0 ==> r is Empty
                    &&& pos > 0 ==> (r matches ChunkOutcome::Frame(f) && f@ == data.take(pos))
                } else {
                    r is Partial && final(self).pending() == data
                }
            }),
    {
        let ghost data = self.pending() + chunk@;
        assert(data.len() == self.rx_idx + chunk@.len());
        let n = chunk.len();
        let mut i: usize = 0;
        while i < n
            invariant
                self.inv(),
                n == chunk@.len(),
                self.rx_idx + n <= MAX_MESSAGE_SIZE,
                i <= n,
                data == old(self).pending() + chunk@,
                data.len() == self.rx_idx + n,
                self.rx_idx == old(self).rx_idx,
                self.rx_buffer@.take(self.rx_idx + i) == data.take(self.rx_idx + i),
            decreases n - i,
        {
            let pos = self.rx_idx + i;
            assert(data[pos as int] == chunk@[i as int]);
            self.rx_buffer.set(pos, chunk[i]);
            assert(self.rx_buffer@.take(pos + 1) =~= data.take(pos + 1));
            i = i + 1;
        }
        self.rx_idx = self.rx_idx + n;
        assert(self.pending() =~= data);
        let total = self.rx_idx;
        let mut pos: usize = 0;
        while pos < total && self.rx_buffer[pos] != 0
            invariant
                self.inv(),
                self.pending() == data,
                total == self.rx_idx,
                total == data.len(),
                pos <= total,
                zero_free(data.take(pos as int)),
            decreases total - pos,
        {
            assert(self.rx_buffer@[pos as int] == data[pos as int]);
            assert(data.take(pos + 1) =~= data.take(pos as int).push(data[pos as int]));
            pos = pos + 1;
        }
        if pos == total {
            assert(data.take(pos as int) =~= data);
            assert forall|p: int| !first_zero(data, p) by {
                if first_zero(data, p) {
                    assert(data.take(pos as int)[p] == data[p]);
                }
            }
            return ChunkOutcome::Partial;
        }
        proof {
            assert(self.rx_buffer@[pos as int] == data[pos as int]);
            assert(first_zero(data, pos as int));
            assert forall|p: int| first_zero(data, p) implies p == pos by {
                if p < pos {
                    assert(data.take(pos as int)[p] == data[p]);
                } else if p > pos {
                    assert(data.take(p)[pos as int] == data[pos as int]);
                }
            }
        }
        let mut frame: Vec<u8> = Vec::new();
        let mut k: usize = 0;
        while k < pos
            invariant
                self.inv(),
                self.pending() == data,
                total == self.rx_idx,
                pos < total,
                k <= pos,
                frame@ == data.take(k as int),
            decreases pos - k,
        {
            assert(self.rx_buffer@[k as int] == data[k as int]);
            frame.push(self.rx_buffer[k]);
            assert(data.take(k + 1) =~= data.take(k as int).push(data[k as int]));
            k = k + 1;
        }
        let rest = total - pos - 1;
        let mut m: usize = 0;
        while m < rest
            invariant
                self.rx_buffer@.len() == MAX_MESSAGE_SIZE,
                self.rx_idx == total,
                total <= MAX_MESSAGE_SIZE,
                data.len() == total,
                pos < total,
                rest == total - pos - 1,
                m <= rest,
                forall|t: int| 0 <= t < m ==> self.rx_buffer@[t] == data[pos + 1 + t],
                forall|t: int| pos + 1 + m <= t < total ==> self.rx_buffer@[t] == data[t],
            decreases rest - m,
        {
            let v = self.rx_buffer[pos + 1 + m];
            self.rx_buffer.set(m, v);
            m = m + 1;
        }
        self.rx_idx = rest;
        assert(self.pending() =~= data.skip(pos + 1));
        if pos == 0 {
            ChunkOutcome::Empty
        } else {
            ChunkOutcome::Frame(frame)
        }
    }
}

/// The host's receive buffer, which grows as bytes arrive.
pub struct HostReceiver {
    pub rx_buffer: Vec<u8>,
}

/// `pos` is the position of the first zero byte of `s`.
pub open spec fn first_zero(s: Seq<u8>, pos: int) -> bool {
    &&& 0 <= pos < s.len()
    &&& s[pos] == 0
    &&& zero_free(s.take(pos))
}

impl HostReceiver {
    /// An empty receive buffer.
    pub fn new() -> (r: Self)
        ensures
            r.rx_buffer@ == Seq::<u8>::empty(),
    {
        HostReceiver { rx_buffer: Vec::new() }
    }

    /// Keeps the bytes read from the link.
    pub fn push(&mut self, chunk: &[u8])
        ensures
            final(self).rx_buffer@ == old(self).rx_buffer@ + chunk@,
    {
        let mut i: usize = 0;
        while i < chunk.len()
            invariant
                i <= chunk@.len(),
                self.rx_buffer@ == old(self).rx_buffer@ + chunk@.take(i as int),
            decreases chunk.len() - i,
        {
            self.rx_buffer.push(chunk[i]);
            assert(chunk@.take(i + 1) =~= chunk@.take(i as int).push(chunk@[i as int]));
            i = i + 1;
        }
        assert(chunk@.take(chunk.len() as int) =~= chunk@);
    }

    /// Takes the first complete frame: the bytes before the first zero byte, which is
    /// dropped with them. Nothing happens when no zero byte has arrived.
    pub fn take_frame(&mut self) -> (r: Option<Vec<u8>>)
        ensures
            (exists|pos: int| first_zero(old(self).rx_buffer@, pos)) ==> ({
                let pos = choose|pos: int| first_zero(old(self).rx_buffer@, pos);
                &&& r matches Some(f) && f@ == old(self).rx_buffer@.take(pos)
                &&& final(self).rx_buffer@ == old(self).rx_buffer@.skip(pos + 1)
            }),
            !(exists|pos: int| first_zero(old(self).rx_buffer@, pos)) ==> r is None && *final(self) == *old(self),
    {
        let ghost buf = self.rx_buffer@;
        let mut pos: usize = 0;
        while pos < self.rx_buffer.len() && self.rx_buffer[pos] != 0
            invariant
                self.rx_buffer@ == buf,
                pos <= buf.len(),
                zero_free(buf.take(pos as int)),
            decreases buf.len() - pos,
        {
            assert(buf.take(pos + 1) =~= buf.take(pos as int).push(buf[pos as int]));
            pos = pos + 1;
        }
        if pos == self.rx_buffer.len() {
            assert(buf.take(pos as int) =~= buf);
            assert forall|p: int| !first_zero(buf, p) by {
                if first_zero(buf, p) {
                    assert(buf.take(pos as int)[p] == buf[p]);
                }
            }
            return None;
        }
        proof {
            assert(first_zero(buf, pos as int));
            assert forall|p: int| first_zero(buf, p) implies p == pos by {
                if p < pos {
                    assert(buf.take(pos as int)[p] == buf[p]);
                } else if p > pos {
                    assert(buf.take(p)[pos as int] == buf[pos as int]);
                }
            }
        }
        let mut frame: Vec<u8> = Vec::new();
        let mut rest: Vec<u8> = Vec::new();
        let mut i: usize = 0;
        while i < self.rx_buffer.len()
            invariant
                self.rx_buffer@ == buf,
                pos < buf.len(),
                i <= buf.len(),
                i <= pos ==> frame@ == buf.take(i as int) && rest@ == Seq::<u8>::empty(),
                i > pos ==> frame@ == buf.take(pos as int) && rest@ == buf.subrange(pos + 1, i as int),
            decreases buf.len() - i,
        {
            if i < pos {
                frame.push(self.rx_buffer[i]);
                assert(buf.take(i + 1) =~= buf.take(i as int).push(buf[i as int]));
            } else if i > pos {
                rest.push(self.rx_buffer[i]);
                assert(buf.subrange(pos + 1, i + 1) =~= buf.subrange(pos + 1, i as int).push(buf[i as int]));
            } else {
                assert(buf.subrange(pos + 1, i + 1) =~= Seq::<u8>::empty());
            }
            i = i + 1;
        }
        assert(rest@ =~= buf.skip(pos + 1));
        self.rx_buffer = rest;
        Some(frame)
    }
}

/// A frame sent by the device comes out whole at the host: after the bytes of one framed
/// message arrive in an empty host buffer, the frame taken is the message's COBS encoding
/// and nothing is left over.
pub proof fn lemma_frame_round_trip(data: Seq<u8>, frame: Seq<u8>)
    requires
        frame == frame_of(data),
        zero_free(frame.drop_last()),
    ensures
        first_zero(frame, frame.len() - 1),
        forall|pos: int| first_zero(frame, pos) ==> pos == frame.len() - 1,
        frame.take(frame.len() - 1) == cobs_encoded(data),
        frame.skip(frame.len() as int) == Seq::<u8>::empty(),
{
    assert(frame.take(frame.len() - 1) =~= frame.drop_last());
    assert forall|pos: int| first_zero(frame, pos) implies pos == frame.len() - 1 by {
        if pos < frame.len() - 1 {
            assert(frame.drop_last()[pos] == frame[pos]);
        }
    }
    assert(frame.drop_last() =~= cobs_encoded(data));
    assert(frame.skip(frame.len() as int) =~= Seq::<u8>::empty());
}

} // verus!
