//! Framing of the messages exchanged with the host tools:
//! `[MESSAGE_ID:1] [LEN:4, little endian] [PAYLOAD:X] [CRC:1]`, where LEN counts
//! the whole frame (X + 6 bytes) and CRC is the CRC-8 of every byte before it.

use vstd::prelude::*;

verus! {

/// Generator polynomial of the frame check sequence.
pub const CRC_POLYNOMIAL: u8 = 0x07;

/// Width of the length field, in bytes.
pub const LENGTH_TYPE_IN_BYTES: usize = 4;

/// Bytes a frame adds around its payload: identifier, length and check byte.
pub const FRAME_OVERHEAD: usize = 6;

/// Kind of a frame.
#[derive(PartialEq, Eq, Structural, Clone, Copy, Debug)]
pub enum MessageId {
    /// No known kind.
    NoId,
    /// Sent by the host, read by the controller.
    CommandRx,
    /// Sent by the controller, read by the host.
    CommandTx,
}

impl Default for MessageId {
    fn default() -> (r: MessageId)
        ensures
            r == MessageId::NoId,
    {
        MessageId::NoId
    }
}

/// The byte that stands for each kind on the wire.
pub open spec fn id_byte(id: MessageId) -> u8 {
    match id {
        MessageId::NoId => 0x00,
        MessageId::CommandRx => 0x10,
        MessageId::CommandTx => 0x11,
    }
}

/// The kind a byte stands for.
pub open spec fn id_of(b: u8) -> MessageId {
    if b == 0x10 {
        MessageId::CommandRx
    } else if b == 0x11 {
        MessageId::CommandTx
    } else {
        MessageId::NoId
    }
}

impl MessageId {
    pub fn from_u8(val: u8) -> (r: MessageId)
        ensures
            r == id_of(val),
    {
        match val {
            0x10 => MessageId::CommandRx,
            0x11 => MessageId::CommandTx,
            _ => MessageId::NoId,
        }
    }

    pub fn to_u8(&self) -> (r: u8)
        ensures
            r == id_byte(*self),
    {
        match self {
            MessageId::NoId => 0x00,
            MessageId::CommandRx => 0x10,
            MessageId::CommandTx => 0x11,
        }
    }
}

/// One shift of the CRC-8 register: shift left, folding in the polynomial when the
/// top bit falls out.
pub open spec fn crc_shift(crc: u8) -> u8 {
    if crc >= 0x80 {
        (((crc as int * 2) % 256) as u8 ^ CRC_POLYNOMIAL) as u8
    } else {
        ((crc as int * 2) % 256) as u8
    }
}

/// `n` shifts of the CRC-8 register.
pub open spec fn crc_shifts(crc: u8, n: nat) -> u8
    decreases n,
{
    if n == 0 {
        crc
    } else {
        crc_shift(crc_shifts(crc, (n - 1) as nat))
    }
}

/// CRC-8 with polynomial 0x07, initial value 0xFF, no reflection and no final XOR.
pub open spec fn crc8(s: Seq<u8>) -> u8
    decreases s.len(),
{
    if s.len() == 0 {
        0xFF
    } else {
        crc_shifts((crc8(s.drop_last()) ^ s.last()) as u8, 8)
    }
}

/// CRC-8 of `stream[start..end]`.
pub fn crc_of_range(stream: &[u8], start: usize, end: usize) -> (r: u8)
    requires
        start <= end <= stream@.len(),
    ensures
        r == crc8(stream@.subrange(start as int, end as int)),
{
    let mut crc: u8 = 0xFF;
    let mut i: usize = start;
    while i < end
        invariant
            start <= i <= end <= stream@.len(),
            crc == crc8(stream@.subrange(start as int, i as int)),
        decreases end - i,
    {
        let x = stream[i];
        proof {
            let pre = stream@.subrange(start as int, i + 1);
            assert(pre.drop_last() =~= stream@.subrange(start as int, i as int));
            assert(pre.last() == x);
        }
        crc = crc ^ x;
        let ghost seed = crc;
        let mut j: usize = 0;
        while j < 8
            invariant
                j <= 8,
                crc == crc_shifts(seed, j as nat),
            decreases 8 - j,
        {
            let top = crc >= 0x80;
            let shifted: u8 = ((crc as u16 * 2) % 256) as u8;
            if top {
                crc = shifted ^ CRC_POLYNOMIAL;
            } else {
                crc = shifted;
            }
            j = j + 1;
        }
        i = i + 1;
    }
    crc
}

/// CRC-8 of `stream` (polynomial [`CRC_POLYNOMIAL`], initial value 0xFF).
pub fn calculate_crc(stream: &[u8]) -> (r: u8)
    ensures
        r == crc8(stream@),
{
    proof {
        assert(stream@.subrange(0, stream@.len() as int) =~= stream@);
    }
    crc_of_range(stream, 0, stream.len())
}

/// Little-endian bytes of a 32-bit length.
pub open spec fn le_bytes(x: u32) -> Seq<u8> {
    seq![
        (x % 256) as u8,
        ((x / 256) % 256) as u8,
        ((x / 65536) % 256) as u8,
        ((x / 16777216) % 256) as u8,
    ]
}

/// The frame that carries `payload` as a message of kind `id`.
pub open spec fn frame(id: MessageId, payload: Seq<u8>) -> Seq<u8> {
    let body = seq![id_byte(id)] + le_bytes((payload.len() + 6) as u32) + payload;
    body.push(crc8(body))
}

/// Builds frames in a buffer of `N` bytes.
pub struct PacketEncoder<const N: usize> {
    buffer: [u8; N],
}

impl<const N: usize> PacketEncoder<N> {
    pub fn new(buffer: [u8; N]) -> (r: Self) {
        PacketEncoder { buffer }
    }

    /// The frame of kind `message_id` around `proto_message`. The buffer must hold
    /// the whole frame.
    pub fn create_packet(&mut self, message_id: MessageId, proto_message: &[u8]) -> (r: Vec<u8>)
        requires
            proto_message@.len() + FRAME_OVERHEAD <= N,
        ensures
            r@ == frame(message_id, proto_message@),
    {
        let mut k: usize = 0;
        while k < N
            invariant
                k <= N,
            decreases N - k,
        {
            self.buffer[k] = 0;
            k = k + 1;
        }
        let n = proto_message.len();
        let length: u32 = (n + FRAME_OVERHEAD) as u32;
        let mut out: Vec<u8> = Vec::new();
        out.push(message_id.to_u8());
        out.push((length % 256) as u8);
        out.push(((length / 256) % 256) as u8);
        out.push(((length / 65536) % 256) as u8);
        out.push(((length / 16777216) % 256) as u8);
        let ghost head = out@;
        let mut i: usize = 0;
        while i < n
            invariant
                i <= n,
                n == proto_message@.len(),
                out@ == head + proto_message@.subrange(0, i as int),
            decreases n - i,
        {
            out.push(proto_message[i]);
            proof {
                assert(out@ =~= head + proto_message@.subrange(0, i + 1));
            }
            i = i + 1;
        }
        let crc = calculate_crc(out.as_slice());
        out.push(crc);
        let mut j: usize = 0;
        while j < out.len()
            invariant
                out@.len() == n + FRAME_OVERHEAD,
                n + FRAME_OVERHEAD <= N,
                j <= out@.len(),
            decreases out@.len() - j,
        {
            self.buffer[j] = out[j];
            j = j + 1;
        }
        proof {
            assert(proto_message@.subrange(0, n as int) =~= proto_message@);
            assert(head =~= seq![id_byte(message_id)] + le_bytes(length));
        }
        out
    }
}

/// The 32-bit value whose little-endian bytes are `s[i..i + 4]`.
pub open spec fn le_value(s: Seq<u8>, i: int) -> u32 {
    (s[i] as int + s[i + 1] as int * 256 + s[i + 2] as int * 65536 + s[i + 3] as int
        * 16777216) as u32
}

/// Whether a frame of `n` bytes whose check byte matches starts at `i`.
pub open spec fn frame_checks(s: Seq<u8>, i: int, n: int) -> bool {
    &&& n >= 1
    &&& i + n <= s.len()
    &&& s[i + n - 1] == crc8(s.subrange(i, i + n - 1))
}

/// The scan for a frame from position `i` on, with `len` the length last read:
/// at a byte of known kind the length that follows is read when four bytes and
/// one more remain (a zero length moves on), and otherwise the length last read is
/// used; the first position whose check byte matches is the answer. Also gives
/// the length last read when the scan ends.
pub open spec fn scan(s: Seq<u8>, i: int, len: u32) -> (Option<usize>, u32)
    decreases s.len() - i,
{
    if i < 0 || i >= s.len() {
        (None, len)
    } else if id_of(s[i]) == MessageId::NoId {
        scan(s, i + 1, len)
    } else {
        let fresh = i + 5 < s.len();
        let n = if fresh {
            le_value(s, i + 1)
        } else {
            len
        };
        if fresh && n == 0 {
            scan(s, i + 1, n)
        } else if frame_checks(s, i, n as int) {
            (Some(i as usize), n)
        } else {
            scan(s, i + 1, n)
        }
    }
}

/// Finds frames in a byte stream.
pub struct PacketDecoder {
    len: u32,
}

impl PacketDecoder {
    /// The length read from the most recent frame header.
    pub closed spec fn frame_len(&self) -> u32 {
        self.len
    }

    pub fn new() -> (r: Self)
        ensures
            r.frame_len() == u32::MAX,
    {
        PacketDecoder { len: u32::MAX }
    }

    /// Position of the first valid frame in `stream`, as `scan` describes; `None`
    /// for a stream shorter than a header.
    pub fn get_valid_packet_index(&mut self, stream: &[u8]) -> (r: Option<usize>)
        ensures
            stream@.len() < 5 ==> r is None && final(self).frame_len() == old(self).frame_len(),
            stream@.len() >= 5 ==> (r, final(self).frame_len()) == scan(
                stream@,
                0,
                old(self).frame_len(),
            ),
    {
        let total = stream.len();
        if total < 5 {
            return None;
        }
        let mut i: usize = 0;
        while i < total
            invariant
                i <= total,
                total == stream@.len(),
                total >= 5,
                scan(stream@, 0, old(self).frame_len()) == scan(stream@, i as int, self.len),
            decreases total - i,
        {
            let ghost len_before = self.len;
            if MessageId::from_u8(stream[i]) != MessageId::NoId {
                let fresh = total - i > 5;
                if fresh {
                    self.len = (stream[i + 1] as u32) + (stream[i + 2] as u32) * 256 + (stream[i
                        + 3] as u32) * 65536 + (stream[i + 4] as u32) * 16777216;
                    assert(self.len == le_value(stream@, i + 1));
                }
                assert(scan(stream@, i as int, len_before) == if fresh && self.len == 0 {
                    scan(stream@, i + 1, self.len)
                } else if frame_checks(stream@, i as int, self.len as int) {
                    (Some(i), self.len)
                } else {
                    scan(stream@, i + 1, self.len)
                });
                let n = self.len as usize;
                if !(fresh && n == 0) && n >= 1 && n <= total - i {
                    let actual_crc = stream[i + n - 1];
                    let expected_crc = crc_of_range(stream, i, i + n - 1);
                    if actual_crc == expected_crc {
                        return Some(i);
                    }
                }
            }
            i = i + 1;
        }
        None
    }

    /// Bounds `(start, end)` of the payload of the frame whose length was read last,
    /// when the stream holds it: it lies between the five header bytes and the
    /// check byte.
    pub fn payload_bounds(&self, stream_len: usize) -> (r: Option<(usize, usize)>)
        ensures
            r == (if 6 <= self.frame_len() && self.frame_len() <= stream_len {
                Some((5usize, (self.frame_len() - 1) as usize))
            } else {
                None
            }),
    {
        let n = self.len as usize;
        if 6 <= n && n <= stream_len {
            Some((5, n - 1))
        } else {
            None
        }
    }
}

} // verus!
