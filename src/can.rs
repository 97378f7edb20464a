use vstd::prelude::*;

use crate::bytes::{le_bytes, le_u32, read_le_u32};
use crate::error::PandaError;

verus! {

/// Size in bytes of one frame slot on the bulk endpoints.
pub const FRAME_SIZE: usize = 16;

/// Largest address that extended (29-bit) framing can carry, plus one.
pub const EXTENDED_ADDRESS_LIMIT: u32 = 0x2000_0000;

/// First address that is sent with extended framing.
pub const EXTENDED_ADDRESS_START: u32 = 0x800;

/// One CAN frame as it travels between host and device.
#[derive(Debug, Clone, Copy)]
pub struct CanMessage {
    pub address: u32,
    pub bus_time: u16,
    pub src: u8,
    pub len: usize,
    pub dat: [u8; 8],
}

/// The mathematical content of a `CanMessage`.
#[verifier::ext_equal]
pub struct CanFrame {
    pub address: u32,
    pub bus_time: u16,
    pub src: u8,
    pub len: nat,
    pub dat: Seq<u8>,
}

impl View for CanMessage {
    type V = CanFrame;

    open spec fn view(&self) -> CanFrame {
        CanFrame {
            address: self.address,
            bus_time: self.bus_time,
            src: self.src,
            len: self.len as nat,
            dat: self.dat@,
        }
    }
}

/// The address carried by the first word of a slot: bit 2 selects
/// extended addressing.
pub open spec fn word_address(w0: u32) -> u32 {
    if w0 & 4 != 0 {
        w0 >> 3u32
    } else {
        w0 >> 21u32
    }
}

/// The length field of the slot that starts at `16 * k`.
pub open spec fn slot_len(b: Seq<u8>, k: int) -> u32 {
    le_u32(b, 16 * k + 4) & 0xf
}

/// The frame held by slot `k` of a received buffer.
pub open spec fn slot_frame(b: Seq<u8>, k: int) -> CanFrame {
    let w0 = le_u32(b, 16 * k);
    let w1 = le_u32(b, 16 * k + 4);
    CanFrame {
        address: word_address(w0),
        bus_time: ((w1 >> 16u32) & 0xffff) as u16,
        src: ((w1 >> 4u32) & 0xff) as u8,
        len: (w1 & 0xf) as nat,
        dat: b.subrange(16 * k + 8, 16 * k + 16),
    }
}

/// Every slot of `b` declares a length of at most 8.
pub open spec fn slot_lens_valid(b: Seq<u8>) -> bool {
    forall|k: int| 0 <= k < b.len() / 16 ==> #[trigger] slot_len(b, k) <= 8
}

/// The frames of a received buffer, in buffer order.
pub open spec fn decode_frames(b: Seq<u8>) -> Seq<CanFrame> {
    Seq::new(b.len() / 16, |k: int| slot_frame(b, k))
}

/// The abstract frames of a list of messages.
pub open spec fn frames_of(ms: Seq<CanMessage>) -> Seq<CanFrame> {
    ms.map_values(|m: CanMessage| m@)
}

/// First word of an outgoing slot: extended framing sets the extended and
/// the valid bit, standard framing only the valid bit.
pub open spec fn frame_w0(address: u32) -> u32 {
    if address >= 0x800 {
        (address << 3u32) | 5
    } else {
        (address << 21u32) | 1
    }
}

/// Second word of an outgoing slot.
pub open spec fn frame_w1(len: nat, src: u8) -> u32 {
    (len as u32) | ((src as u32) << 4u32)
}

/// A frame that can be put on the wire without losing information.
pub open spec fn frame_encodable(f: CanFrame) -> bool {
    &&& f.address < 0x2000_0000
    &&& f.len <= 8
    &&& f.dat.len() == 8
}

/// The 16 bytes that carry `f`.
pub open spec fn encode_frame(f: CanFrame) -> Seq<u8> {
    le_bytes(frame_w0(f.address)) + le_bytes(frame_w1(f.len, f.src)) + f.dat
}

/// The bulk buffer that carries `fs`, one slot per frame, in order.
pub open spec fn encode_frames(fs: Seq<CanFrame>) -> Seq<u8>
    decreases fs.len(),
{
    if fs.len() == 0 {
        Seq::empty()
    } else {
        encode_frames(fs.drop_last()) + encode_frame(fs.last())
    }
}

/// What a frame looks like after a trip to the device and back: the bus
/// time is stamped by the receiver, so an encoded frame carries none.
pub open spec fn sent_frame(f: CanFrame) -> CanFrame {
    CanFrame { bus_time: 0, ..f }
}

/// `r` is the outcome of decoding the bulk-in buffer `b`: a buffer that is
/// not a whole number of slots is malformed, one with a slot whose length
/// exceeds 8 is invalid, and any other gives its frames in order.
pub open spec fn frames_decoded_as(b: Seq<u8>, r: Result<Vec<CanMessage>, PandaError>) -> bool {
    if b.len() % 16 != 0 {
        r == Err::<Vec<CanMessage>, PandaError>(PandaError::MalformedResponse)
    } else if !slot_lens_valid(b) {
        r == Err::<Vec<CanMessage>, PandaError>(PandaError::InvalidFrame)
    } else {
        r is Ok && frames_of(r->Ok_0@) == decode_frames(b)
    }
}

/// Decodes a bulk-in buffer into its frames, in buffer order.
///
/// A buffer that is not a whole number of 16-byte slots is malformed; a
/// slot whose length field exceeds 8 fails the whole call.
pub fn decode_can_frames(buf: &[u8]) -> (r: Result<Vec<CanMessage>, PandaError>)
    ensures
        frames_decoded_as(buf@, r),
{
    if buf.len() % FRAME_SIZE != 0 {
        return Err(PandaError::MalformedResponse);
    }
    let n: usize = buf.len() / FRAME_SIZE;
    let mut out: Vec<CanMessage> = Vec::new();
    let mut k: usize = 0;
    while k < n
        invariant
            n == buf@.len() / 16,
            buf@.len() % 16 == 0,
            k <= n,
            out@.len() == k,
            forall|j: int| 0 <= j < k ==> #[trigger] out@[j]@ == slot_frame(buf@, j),
            forall|j: int| 0 <= j < k ==> #[trigger] slot_len(buf@, j) <= 8,
        decreases n - k,
    {
        assert(k * 16 + 16 <= buf@.len()) by (nonlinear_arith)
            requires
                k < n,
                n == buf@.len() / 16,
        ;
        assert(buf@.len() == buf.len());
        let base: usize = k * 16;
        let w0 = read_le_u32(buf, base);
        let w1 = read_le_u32(buf, base + 4);
        let len = w1 & 0xf;
        if len > 8 {
            assert(!slot_lens_valid(buf@)) by {
                assert(slot_len(buf@, k as int) > 8);
            }
            return Err(PandaError::InvalidFrame);
        }
        let address = if w0 & 4 != 0 {
            w0 >> 3u32
        } else {
            w0 >> 21u32
        };
        let dat: [u8; 8] = [
            buf[base + 8],
            buf[base + 9],
            buf[base + 10],
            buf[base + 11],
            buf[base + 12],
            buf[base + 13],
            buf[base + 14],
            buf[base + 15],
        ];
        assert((w1 >> 16u32) & 0xffff <= 0xffff && (w1 >> 4u32) & 0xff <= 0xff) by (bit_vector);
        let msg = CanMessage {
            address,
            bus_time: ((w1 >> 16u32) & 0xffff) as u16,
            src: ((w1 >> 4u32) & 0xff) as u8,
            len: len as usize,
            dat,
        };
        assert(msg@.dat =~= slot_frame(buf@, k as int).dat);
        assert(msg@ =~= slot_frame(buf@, k as int));
        out.push(msg);
        k = k + 1;
    }
    assert(frames_of(out@) =~= decode_frames(buf@));
    Ok(out)
}

/// Every message of `ms` can be framed.
pub open spec fn all_encodable(ms: Seq<CanMessage>) -> bool {
    forall|k: int| 0 <= k < ms.len() ==> frame_encodable(#[trigger] ms[k]@)
}

fn push_le_u32(out: &mut Vec<u8>, w: u32)
    ensures
        final(out)@ == old(out)@ + le_bytes(w),
{
    out.push((w & 0xff) as u8);
    out.push(((w >> 8u32) & 0xff) as u8);
    out.push(((w >> 16u32) & 0xff) as u8);
    out.push(((w >> 24u32) & 0xff) as u8);
    assert(out@ =~= old(out)@ + le_bytes(w));
}

/// `r` is the outcome of encoding `ms`: the buffer of their frames where
/// every one can be framed, an invalid frame otherwise.
pub open spec fn frames_encoded_as(ms: Seq<CanMessage>, r: Result<Vec<u8>, PandaError>) -> bool {
    if all_encodable(ms) {
        r is Ok && r->Ok_0@ == encode_frames(frames_of(ms))
    } else {
        r == Err::<Vec<u8>, PandaError>(PandaError::InvalidFrame)
    }
}

/// Encodes messages into one bulk-out buffer, one 16-byte slot per
/// message, in order.
///
/// A message with a length above 8, or an address that does not fit in 29
/// bits, cannot be framed and fails the whole call.
pub fn encode_can_frames(msgs: &[CanMessage]) -> (r: Result<Vec<u8>, PandaError>)
    ensures
        frames_encoded_as(msgs@, r),
{
    let mut out: Vec<u8> = Vec::new();
    let mut k: usize = 0;
    while k < msgs.len()
        invariant
            k <= msgs@.len(),
            all_encodable(msgs@.subrange(0, k as int)),
            out@ == encode_frames(frames_of(msgs@.subrange(0, k as int))),
        decreases msgs@.len() - k,
    {
        let msg = msgs[k];
        if msg.address >= EXTENDED_ADDRESS_LIMIT || msg.len > 8 {
            assert(!frame_encodable(msgs@[k as int]@));
            return Err(PandaError::InvalidFrame);
        }
        let w0: u32 = if msg.address >= EXTENDED_ADDRESS_START {
            (msg.address << 3u32) | 5
        } else {
            (msg.address << 21u32) | 1
        };
        let w1: u32 = (msg.len as u32) | ((msg.src as u32) << 4u32);
        let ghost before = out@;
        push_le_u32(&mut out, w0);
        push_le_u32(&mut out, w1);
        let mut i: usize = 0;
        while i < 8
            invariant
                i <= 8,
                out@ == before + le_bytes(w0) + le_bytes(w1) + msg.dat@.subrange(0, i as int),
            decreases 8 - i,
        {
            out.push(msg.dat[i]);
            i = i + 1;
            assert(out@ =~= before + le_bytes(w0) + le_bytes(w1) + msg.dat@.subrange(0, i as int));
        }
        let ghost prev = msgs@.subrange(0, k as int);
        let ghost next = msgs@.subrange(0, k + 1);
        assert(frames_of(next).drop_last() =~= frames_of(prev));
        assert(out@ =~= encode_frames(frames_of(prev)) + encode_frame(msg@));
        assert(all_encodable(next)) by {
            assert forall|j: int| 0 <= j < next.len() implies frame_encodable(#[trigger] next[j]@) by {
                if j < k {
                    assert(next[j] == prev[j]);
                }
            }
        }
        k = k + 1;
    }
    assert(msgs@.subrange(0, msgs@.len() as int) =~= msgs@);
    Ok(out)
}

proof fn lemma_word_bytes(w: u32)
    by (bit_vector)
    ensures
        ((w & 0xff) as u8 as u32) | ((((w >> 8u32) & 0xff) as u8 as u32) << 8u32) | ((((w
            >> 16u32) & 0xff) as u8 as u32) << 16u32) | ((((w >> 24u32) & 0xff) as u8 as u32)
            << 24u32) == w,
{
}

/// Reading back the four bytes of a word gives the word.
proof fn lemma_le_u32_of_bytes(b: Seq<u8>, i: int, w: u32)
    requires
        0 <= i,
        i + 4 <= b.len(),
        b.subrange(i, i + 4) == le_bytes(w),
    ensures
        le_u32(b, i) == w,
{
    assert(b[i] == b.subrange(i, i + 4)[0]);
    assert(b[i + 1] == b.subrange(i, i + 4)[1]);
    assert(b[i + 2] == b.subrange(i, i + 4)[2]);
    assert(b[i + 3] == b.subrange(i, i + 4)[3]);
    lemma_word_bytes(w);
}

proof fn lemma_address_bits(a: u32)
    by (bit_vector)
    requires
        a < 0x2000_0000,
    ensures
        a >= 0x800 ==> ((a << 3u32) | 5) & 4 != 0 && ((a << 3u32) | 5) >> 3u32 == a,
        a < 0x800 ==> ((a << 21u32) | 1) & 4 == 0 && ((a << 21u32) | 1) >> 21u32 == a,
{
}

proof fn lemma_second_word_bits(len: u32, src: u8)
    by (bit_vector)
    requires
        len <= 8,
    ensures
        ((len | ((src as u32) << 4u32)) >> 16u32) & 0xffff == 0,
        ((len | ((src as u32) << 4u32)) >> 4u32) & 0xff == src as u32,
        (len | ((src as u32) << 4u32)) & 0xf == len,
{
}

/// The buffer for `fs` has one 16-byte slot per frame, and slot `k`
/// holds the bytes of `fs[k]`.
proof fn lemma_encode_frames_slots(fs: Seq<CanFrame>)
    requires
        forall|k: int| 0 <= k < fs.len() ==> #[trigger] fs[k].dat.len() == 8,
    ensures
        encode_frames(fs).len() == 16 * fs.len(),
        forall|k: int|
            0 <= k < fs.len() ==> #[trigger] encode_frames(fs).subrange(16 * k, 16 * k + 16)
                == encode_frame(fs[k]),
    decreases fs.len(),
{
    if fs.len() > 0 {
        let init = fs.drop_last();
        lemma_encode_frames_slots(init);
        let prefix = encode_frames(init);
        let last = encode_frame(fs.last());
        assert(fs[fs.len() - 1].dat.len() == 8);
        assert(last.len() == 16);
        let all = encode_frames(fs);
        assert(all == prefix + last);
        assert forall|k: int| 0 <= k < fs.len() implies #[trigger] all.subrange(
            16 * k,
            16 * k + 16,
        ) == encode_frame(fs[k]) by {
            if k < fs.len() - 1 {
                assert(init[k] == fs[k]);
                assert(all.subrange(16 * k, 16 * k + 16) =~= prefix.subrange(16 * k, 16 * k + 16));
            } else {
                assert(all.subrange(16 * k, 16 * k + 16) =~= last);
            }
        }
    }
}

/// A slot that holds the bytes of an encodable frame decodes to that frame
/// with a zero bus time.
proof fn lemma_slot_of_encoded(b: Seq<u8>, k: int, f: CanFrame)
    requires
        0 <= k,
        16 * k + 16 <= b.len(),
        b.subrange(16 * k, 16 * k + 16) == encode_frame(f),
        frame_encodable(f),
    ensures
        slot_frame(b, k) == sent_frame(f),
        slot_len(b, k) <= 8,
{
    let e = encode_frame(f);
    let w0 = frame_w0(f.address);
    let w1 = frame_w1(f.len, f.src);
    assert(b.subrange(16 * k, 16 * k + 4) =~= e.subrange(0, 4));
    assert(e.subrange(0, 4) =~= le_bytes(w0));
    assert(b.subrange(16 * k + 4, 16 * k + 8) =~= e.subrange(4, 8));
    assert(e.subrange(4, 8) =~= le_bytes(w1));
    assert(b.subrange(16 * k + 8, 16 * k + 16) =~= e.subrange(8, 16));
    assert(e.subrange(8, 16) =~= f.dat);
    lemma_le_u32_of_bytes(b, 16 * k, w0);
    lemma_le_u32_of_bytes(b, 16 * k + 4, w1);
    lemma_address_bits(f.address);
    lemma_second_word_bits(f.len as u32, f.src);
    assert(slot_frame(b, k) =~= sent_frame(f));
}

/// Encoding frames and decoding the resulting buffer gives back the same
/// frames, in order, each with a zero bus time: the address (on the
/// standard and on the extended path), the bus index, the length and all
/// eight payload bytes survive. The buffer passes both framing checks.
pub proof fn lemma_can_round_trip(fs: Seq<CanFrame>)
    requires
        forall|k: int| 0 <= k < fs.len() ==> frame_encodable(#[trigger] fs[k]),
    ensures
        encode_frames(fs).len() == 16 * fs.len(),
        slot_lens_valid(encode_frames(fs)),
        decode_frames(encode_frames(fs)) == fs.map_values(|f: CanFrame| sent_frame(f)),
{
    let b = encode_frames(fs);
    assert forall|k: int| 0 <= k < fs.len() implies #[trigger] fs[k].dat.len() == 8 by {
        assert(frame_encodable(fs[k]));
    }
    lemma_encode_frames_slots(fs);
    assert(b.len() / 16 == fs.len());
    assert forall|k: int| 0 <= k < fs.len() implies #[trigger] slot_frame(b, k) == sent_frame(fs[k])
        && slot_len(b, k) <= 8 by {
        assert(frame_encodable(fs[k]));
        assert(b.subrange(16 * k, 16 * k + 16) == encode_frame(fs[k]));
        lemma_slot_of_encoded(b, k, fs[k]);
    }
    assert(slot_lens_valid(b)) by {
        assert forall|k: int| 0 <= k < b.len() / 16 implies #[trigger] slot_len(b, k) <= 8 by {
            assert(slot_frame(b, k) == sent_frame(fs[k]));
        }
    }
    assert(decode_frames(b) =~= fs.map_values(|f: CanFrame| sent_frame(f)));
}

/// Addresses below 0x800 are sent with standard framing, those from 0x800
/// up with extended framing; the decoder reads the mode back from bit 2.
pub proof fn lemma_framing_mode(address: u32)
    requires
        address < 0x2000_0000,
    ensures
        address < 0x800 <==> frame_w0(address) & 4 == 0,
        address < 0x800 ==> frame_w0(address) == (address << 21u32) | 1,
        address >= 0x800 ==> frame_w0(address) == (address << 3u32) | 5,
{
    lemma_address_bits(address);
}

/// The bytes of a frame that carry data: the first `len` of the eight.
pub open spec fn payload(f: CanFrame) -> Seq<u8> {
    f.dat.subrange(0, f.len as int)
}

/// Every decoded frame carries all eight slot bytes, of which its payload
/// is the first `len`: a frame of length 8 keeps them all, a frame of
/// length 0 has an empty payload whatever the padding holds.
pub proof fn lemma_decoded_payload(b: Seq<u8>, k: int)
    requires
        b.len() % 16 == 0,
        slot_lens_valid(b),
        0 <= k < b.len() / 16,
    ensures
        decode_frames(b)[k].dat.len() == 8,
        payload(decode_frames(b)[k]).len() == decode_frames(b)[k].len,
        decode_frames(b)[k].len == 8 ==> payload(decode_frames(b)[k]) == b.subrange(
            16 * k + 8,
            16 * k + 16,
        ),
        decode_frames(b)[k].len == 0 ==> payload(decode_frames(b)[k]) == Seq::<u8>::empty(),
{
    assert(16 * k + 16 <= b.len()) by (nonlinear_arith)
        requires
            0 <= k < b.len() / 16,
    ;
    assert(slot_len(b, k) <= 8);
    let f = decode_frames(b)[k];
    assert(f.dat.subrange(0, 8) =~= f.dat);
    assert(f.dat.subrange(0, 0) =~= Seq::<u8>::empty());
}

} // verus!
