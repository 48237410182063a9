//! The transport frame that carries an encrypted message: start byte,
//! sequence/id byte, length byte, data, and a checksum, low byte first. On the
//! wire every start byte after the first is doubled.

use vstd::prelude::*;

use crate::crc::{crc16, spec_crc16};
use crate::error::Error;
use crate::len::{METADATA, WRAPPED_ENCRYPTED_MESSAGE};

verus! {

/// Start byte of a transport frame.
pub const STX: u8 = 0x7F;

/// Start marker of an encrypted message, the first data byte of the frame
/// that carries one.
pub const STEX: u8 = 0x7E;

/// Position of the sequence/id byte in a frame.
pub const SEQ_ID: usize = 1;

/// Position of the length byte in a frame.
pub const LEN: usize = 2;

/// Position of the first data byte in a frame.
pub const DATA: usize = 3;

/// The bytes with every start byte doubled.
pub open spec fn spec_stuff(bytes: Seq<u8>) -> Seq<u8>
    decreases bytes.len(),
{
    if bytes.len() == 0 {
        Seq::empty()
    } else if bytes[0] == STX {
        seq![STX, STX] + spec_stuff(bytes.skip(1))
    } else {
        seq![bytes[0]] + spec_stuff(bytes.skip(1))
    }
}

/// Reads `count` bytes from the stuffed bytes of `wire` that start at `pos`:
/// the bytes read and the position after them, or nothing where `wire` ends
/// early or a start byte stands alone.
pub open spec fn spec_unstuff(wire: Seq<u8>, pos: int, count: nat) -> Option<(Seq<u8>, int)>
    decreases count,
{
    if count == 0 {
        Some((Seq::empty(), pos))
    } else if pos < 0 || pos >= wire.len() {
        None
    } else if wire[pos] != STX {
        match spec_unstuff(wire, pos + 1, (count - 1) as nat) {
            Some((rest, end)) => Some((seq![wire[pos]] + rest, end)),
            None => None,
        }
    } else if pos + 1 < wire.len() && wire[pos + 1] == STX {
        match spec_unstuff(wire, pos + 2, (count - 1) as nat) {
            Some((rest, end)) => Some((seq![STX] + rest, end)),
            None => None,
        }
    } else {
        None
    }
}

/// Stuffing never shortens, and at most doubles.
pub proof fn lemma_stuff_len(bytes: Seq<u8>)
    ensures
        bytes.len() <= spec_stuff(bytes).len() <= 2 * bytes.len(),
    decreases bytes.len(),
{
    if bytes.len() > 0 {
        lemma_stuff_len(bytes.skip(1));
    }
}

/// Stuffing two sequences one after the other stuffs their concatenation.
pub proof fn lemma_stuff_concat(a: Seq<u8>, b: Seq<u8>)
    ensures
        spec_stuff(a + b) == spec_stuff(a) + spec_stuff(b),
    decreases a.len(),
{
    if a.len() == 0 {
        assert(a + b =~= b);
        assert(spec_stuff(a) + spec_stuff(b) =~= spec_stuff(b));
    } else {
        lemma_stuff_concat(a.skip(1), b);
        assert((a + b).skip(1) =~= a.skip(1) + b);
        assert((a + b)[0] == a[0]);
        if a[0] == STX {
            assert(spec_stuff(a + b) =~= seq![STX, STX] + spec_stuff(a.skip(1)) + spec_stuff(b));
        } else {
            assert(spec_stuff(a + b) =~= seq![a[0]] + spec_stuff(a.skip(1)) + spec_stuff(b));
        }
    }
}

/// Unstuffing reads back what was stuffed, whatever stands before and after
/// it on the wire.
pub proof fn lemma_unstuff_stuff(before: Seq<u8>, bytes: Seq<u8>, after: Seq<u8>)
    ensures
        spec_unstuff(before + spec_stuff(bytes) + after, before.len() as int, bytes.len()) == Some(
            (bytes, (before.len() + spec_stuff(bytes).len()) as int),
        ),
    decreases bytes.len(),
{
    let wire = before + spec_stuff(bytes) + after;
    let pos = before.len() as int;
    if bytes.len() == 0 {
    } else {
        let rest = bytes.skip(1);
        let first = if bytes[0] == STX {
            seq![STX, STX]
        } else {
            seq![bytes[0]]
        };
        lemma_unstuff_stuff(before + first, rest, after);
        assert(wire =~= (before + first) + spec_stuff(rest) + after);
        assert(wire[pos] == bytes[0]);
        if bytes[0] == STX {
            assert(wire[pos + 1] == STX);
            assert(seq![STX] + rest =~= bytes);
        } else {
            assert(seq![bytes[0]] + rest =~= bytes);
        }
    }
}

/// `bytes`, cut or filled with zeros to the capacity of a frame's buffer.
pub open spec fn spec_zero_pad(bytes: Seq<u8>) -> Seq<u8> {
    Seq::new(
        WRAPPED_ENCRYPTED_MESSAGE as nat,
        |i: int|
            if i < bytes.len() {
                bytes[i]
            } else {
                0u8
            },
    )
}

/// The buffer of a new frame: the start byte, no data declared, and the start
/// marker of an encrypted message where the data begin.
pub open spec fn spec_frame_new() -> Seq<u8> {
    spec_zero_pad(seq![STX, 0u8, 0u8, STEX])
}

/// Number of data bytes that the frame in `buf` declares.
pub open spec fn spec_frame_data_len(buf: Seq<u8>) -> nat {
    buf[LEN as int] as nat
}

/// Length of the frame in `buf`, before stuffing.
pub open spec fn spec_frame_len(buf: Seq<u8>) -> nat {
    METADATA as nat + spec_frame_data_len(buf)
}

/// The frame in `buf`, before stuffing: what stands in front of the unused
/// rest of the buffer.
pub open spec fn spec_frame_packet(buf: Seq<u8>) -> Seq<u8> {
    buf.take(spec_frame_len(buf) as int)
}

/// The data bytes of the frame in `buf`.
pub open spec fn spec_frame_data(buf: Seq<u8>) -> Seq<u8> {
    buf.subrange(DATA as int, DATA + spec_frame_data_len(buf))
}

/// The bytes of the frame in `buf` that its checksum covers: all between the
/// start byte and the checksum.
pub open spec fn spec_frame_checked(buf: Seq<u8>) -> Seq<u8> {
    buf.subrange(SEQ_ID as int, DATA + spec_frame_data_len(buf))
}

/// The sixteen-bit value of a low and a high byte.
pub open spec fn spec_u16_from_bytes(low: u8, high: u8) -> u16 {
    (low as u16) | ((high as u16) << 8)
}

/// The checksum that the frame in `buf` stores behind its data, low byte
/// first.
pub open spec fn spec_frame_checksum(buf: Seq<u8>) -> u16 {
    spec_u16_from_bytes(
        buf[DATA + spec_frame_data_len(buf)],
        buf[DATA + spec_frame_data_len(buf) + 1],
    )
}

/// The low byte of a sixteen-bit value.
pub open spec fn spec_low_byte(value: u16) -> u8 {
    (value & 0xff) as u8
}

/// The high byte of a sixteen-bit value.
pub open spec fn spec_high_byte(value: u16) -> u8 {
    (value >> 8) as u8
}

/// The buffer `buf` with the checksum of its frame stored behind the data,
/// low byte first.
pub open spec fn spec_frame_with_checksum(buf: Seq<u8>) -> Seq<u8> {
    buf.update(
        DATA + spec_frame_data_len(buf),
        spec_low_byte(spec_crc16(spec_frame_checked(buf))),
    ).update(
        DATA + spec_frame_data_len(buf) + 1,
        spec_high_byte(spec_crc16(spec_frame_checked(buf))),
    )
}

/// The cipher text that the frame in `buf` carries: its data behind their
/// first byte, the start marker of the encrypted message.
pub open spec fn spec_frame_encrypted_data(buf: Seq<u8>) -> Seq<u8> {
    if spec_frame_data_len(buf) == 0 {
        Seq::empty()
    } else {
        buf.subrange(DATA + 1, DATA + spec_frame_data_len(buf))
    }
}

/// The buffer `buf` with `cipher` as the cipher text of its frame: the length
/// byte counts the start marker of the encrypted message and the cipher text,
/// which stand where the data begin.
pub open spec fn spec_frame_with_encrypted_data(buf: Seq<u8>, cipher: Seq<u8>) -> Seq<u8> {
    Seq::new(
        buf.len(),
        |i: int|
            if i == LEN {
                (1 + cipher.len()) as u8
            } else if i == DATA {
                STEX
            } else if DATA < i <= DATA + cipher.len() {
                cipher[i - DATA - 1]
            } else {
                buf[i]
            },
    )
}

/// The buffer after stuffing the frame in `buf`: the start byte, the rest of
/// the frame with every start byte doubled, then zeros.
pub open spec fn spec_stuffed(buf: Seq<u8>) -> Seq<u8> {
    spec_zero_pad(seq![STX] + spec_stuff(spec_frame_packet(buf).skip(1)))
}

/// The buffer after unstuffing the wire bytes in `buf`: the start byte, the
/// sequence/id and length bytes read behind it, and as many data bytes as the
/// length byte says with the two checksum bytes, then zeros. Nothing where
/// `buf` does not begin with the start byte or a start byte stands alone.
pub open spec fn spec_unstuffed(buf: Seq<u8>) -> Option<Seq<u8>> {
    if buf[0] != STX {
        None
    } else {
        match spec_unstuff(buf, 1, 2) {
            None => None,
            Some((head, pos)) => match spec_unstuff(buf, pos, head[1] as nat + 2) {
                None => None,
                Some((body, end)) => Some(spec_zero_pad(seq![STX] + head + body)),
            },
        }
    }
}

/// Unstuffing a stuffed frame gives the frame back, with zeros behind it.
pub proof fn lemma_unstuffed_stuffed(buf: Seq<u8>)
    requires
        buf.len() == WRAPPED_ENCRYPTED_MESSAGE,
        buf[0] == STX,
    ensures
        spec_unstuffed(spec_stuffed(buf)) == Some(spec_zero_pad(spec_frame_packet(buf))),
{
    let packet = spec_frame_packet(buf);
    let rest = packet.skip(1);
    let head = rest.take(2);
    let body = rest.skip(2);
    let zeros = Seq::new(
        (WRAPPED_ENCRYPTED_MESSAGE - 1 - spec_stuff(rest).len()) as nat,
        |i: int| 0u8,
    );
    lemma_stuff_len(rest);
    assert(rest =~= head + body);
    lemma_stuff_concat(head, body);
    let wire = spec_stuffed(buf);
    assert(wire =~= seq![STX] + spec_stuff(head) + (spec_stuff(body) + zeros));
    lemma_unstuff_stuff(seq![STX], head, spec_stuff(body) + zeros);
    assert(wire =~= (seq![STX] + spec_stuff(head)) + spec_stuff(body) + zeros);
    lemma_unstuff_stuff(seq![STX] + spec_stuff(head), body, zeros);
    assert(head[1] == buf[LEN as int]);
    assert(seq![STX] + head + body =~= packet);
}

/// Transport frame around an encrypted message.
#[derive(Clone, Debug, PartialEq)]
pub struct WrappedEncryptedMessage {
    buf: [u8; WRAPPED_ENCRYPTED_MESSAGE],
}

impl View for WrappedEncryptedMessage {
    type V = Seq<u8>;

    /// The whole buffer: the frame, or its stuffed form, and zeros or older
    /// bytes behind it.
    closed spec fn view(&self) -> Seq<u8> {
        self.buf@
    }
}

/// Splits a checksum into its low and its high byte.
fn u16_to_bytes(value: u16) -> (bytes: (u8, u8))
    ensures
        bytes.0 == spec_low_byte(value),
        bytes.1 == spec_high_byte(value),
        spec_u16_from_bytes(bytes.0, bytes.1) == value,
{
    let low: u8 = (value & 0xff) as u8;
    let high: u8 = (value >> 8) as u8;
    assert((low as u16) | ((high as u16) << 8) == value) by (bit_vector)
        requires
            low == (value & 0xff) as u8,
            high == (value >> 8) as u8,
    ;
    (low, high)
}

/// Joins a low and a high byte.
fn u16_from_bytes(low: u8, high: u8) -> (value: u16)
    ensures
        value == spec_u16_from_bytes(low, high),
{
    (low as u16) | ((high as u16) << 8)
}

/// Copies `bytes` into a fresh buffer, cut or filled with zeros to its
/// capacity.
fn padded(bytes: &[u8]) -> (buf: [u8; WRAPPED_ENCRYPTED_MESSAGE])
    ensures
        buf@ == spec_zero_pad(bytes@),
{
    let mut buf: [u8; WRAPPED_ENCRYPTED_MESSAGE] = [0u8; WRAPPED_ENCRYPTED_MESSAGE];
    let mut i: usize = 0;
    while i < bytes.len() && i < WRAPPED_ENCRYPTED_MESSAGE
        invariant
            i <= bytes.len(),
            i <= WRAPPED_ENCRYPTED_MESSAGE,
            forall|j: int| 0 <= j < i ==> buf@[j] == bytes@[j],
            forall|j: int| i <= j < WRAPPED_ENCRYPTED_MESSAGE ==> buf@[j] == 0,
        decreases bytes.len() - i,
    {
        buf[i] = bytes[i];
        i += 1;
    }
    assert(buf@ =~= spec_zero_pad(bytes@));
    buf
}

/// Reads `count` bytes from the stuffed bytes of `wire` that start at `pos`
/// and appends them to `out`. Returns the position after them, or nothing
/// where `wire` ends early or a start byte stands alone.
fn unstuff_into(
    wire: &[u8; WRAPPED_ENCRYPTED_MESSAGE],
    pos: usize,
    count: usize,
    out: &mut Vec<u8>,
) -> (end: Option<usize>)
    requires
        pos <= WRAPPED_ENCRYPTED_MESSAGE,
    ensures
        match spec_unstuff(wire@, pos as int, count as nat) {
            Some((bytes, e)) => {
                &&& end == Some(e as usize)
                &&& 0 <= e <= WRAPPED_ENCRYPTED_MESSAGE
                &&& bytes.len() == count
                &&& final(out)@ == old(out)@ + bytes
            },
            None => end.is_none(),
        },
{
    let mut p: usize = pos;
    let mut k: usize = 0;
    let ghost read: Seq<u8> = Seq::empty();
    while k < count
        invariant
            k <= count,
            p <= WRAPPED_ENCRYPTED_MESSAGE,
            read.len() == k,
            out@ == old(out)@ + read,
            spec_unstuff(wire@, pos as int, count as nat) == match spec_unstuff(
                wire@,
                p as int,
                (count - k) as nat,
            ) {
                Some((rest, e)) => Some((read + rest, e)),
                None => None,
            },
        decreases count - k,
    {
        if p >= WRAPPED_ENCRYPTED_MESSAGE {
            return None;
        }
        let byte: u8 = wire[p];
        let ghost step = if byte != STX {
            1int
        } else {
            2int
        };
        if byte != STX {
            p += 1;
        } else if p + 1 < WRAPPED_ENCRYPTED_MESSAGE && wire[p + 1] == STX {
            p += 2;
        } else {
            return None;
        }
        out.push(byte);
        proof {
            let next = spec_unstuff(wire@, p as int, (count - k - 1) as nat);
            match next {
                Some((rest, e)) => {
                    assert(read + (seq![byte] + rest) =~= read.push(byte) + rest);
                },
                None => {},
            }
            read = read.push(byte);
            assert(out@ =~= old(out)@ + read);
        }
        k += 1;
    }
    proof {
        assert(read + Seq::<u8>::empty() =~= read);
    }
    Some(p)
}

impl WrappedEncryptedMessage {
    /// The buffer of a frame always has the same length.
    pub proof fn lemma_view_len(&self)
        ensures
            self@.len() == WRAPPED_ENCRYPTED_MESSAGE,
    {
    }

    /// Creates an empty frame: the start byte, no data declared, and the start
    /// marker of an encrypted message where the data begin.
    pub fn new() -> (frame: Self)
        ensures
            frame@ == spec_frame_new(),
    {
        let mut buf: [u8; WRAPPED_ENCRYPTED_MESSAGE] = [0u8; WRAPPED_ENCRYPTED_MESSAGE];
        buf[0] = STX;
        buf[DATA] = STEX;
        assert(buf@ =~= spec_zero_pad(seq![STX, 0u8, 0u8, STEX]));
        WrappedEncryptedMessage { buf }
    }

    /// Creates a frame from bytes as they came off the wire, cut or filled
    /// with zeros to the capacity of the buffer.
    pub fn from_bytes(bytes: &[u8]) -> (frame: Self)
        ensures
            frame@ == spec_zero_pad(bytes@),
    {
        WrappedEncryptedMessage { buf: padded(bytes) }
    }

    /// Gets the whole buffer.
    pub fn as_bytes(&self) -> (bytes: &[u8])
        ensures
            bytes@ == self@,
    {
        self.buf.as_slice()
    }

    /// Gets the number of data bytes that the frame declares.
    pub fn data_len(&self) -> (len: usize)
        ensures
            len == spec_frame_data_len(self@),
            len <= 255,
    {
        self.buf[LEN] as usize
    }

    /// Sets the number of data bytes that the frame declares.
    pub fn set_data_len(&mut self, len: u8)
        ensures
            final(self)@ == old(self)@.update(LEN as int, len),
    {
        self.buf[LEN] = len;
    }

    /// Gets the length of the frame, before stuffing.
    pub fn len(&self) -> (len: usize)
        ensures
            len == spec_frame_len(self@),
            len <= 260,
    {
        METADATA + self.data_len()
    }

    /// Gets the data bytes of the frame.
    pub fn data(&self) -> (data: &[u8])
        ensures
            data@ == spec_frame_data(self@),
    {
        let end: usize = DATA + self.data_len();
        &self.buf[DATA..end]
    }

    /// Declares `data.len()` data bytes and stores `data` as those bytes.
    /// Fails, with the length found and the longest allowed, where `data` is
    /// longer than a frame can declare; the frame is then unchanged.
    pub fn set_data(&mut self, data: &[u8]) -> (res: Result<(), Error>)
        ensures
            match res {
                Ok(_) => {
                    &&& data.len() <= 255
                    &&& final(self)@.len() == old(self)@.len()
                    &&& spec_frame_data_len(final(self)@) == data.len()
                    &&& spec_frame_data(final(self)@) == data@
                    &&& forall|i: int|
                        0 <= i < final(self)@.len() && i != LEN && !(DATA <= i < DATA + data.len())
                            ==> final(self)@[i] == old(self)@[i]
                },
                Err(e) => {
                    &&& data.len() > 255
                    &&& e == Error::InvalidDataLength((data.len(), 255usize))
                    &&& final(self)@ == old(self)@
                },
            },
    {
        if data.len() > 255 {
            return Err(Error::InvalidDataLength((data.len(), 255)));
        }
        self.buf[LEN] = data.len() as u8;
        let mut i: usize = 0;
        while i < data.len()
            invariant
                i <= data.len() <= 255,
                self.buf@[LEN as int] == data.len(),
                forall|j: int| 0 <= j < i ==> self.buf@[DATA + j] == data@[j],
                forall|j: int|
                    0 <= j < WRAPPED_ENCRYPTED_MESSAGE && j != LEN && !(DATA <= j < DATA + i)
                        ==> self.buf@[j] == old(self).buf@[j],
            decreases data.len() - i,
        {
            self.buf[DATA + i] = data[i];
            i += 1;
        }
        assert(spec_frame_data(self@) =~= data@);
        Ok(())
    }

    /// Computes the checksum over all bytes between the start byte and the
    /// checksum, stores it behind the data, low byte first, and returns it.
    pub fn calculate_checksum(&mut self) -> (crc: u16)
        ensures
            crc == spec_crc16(spec_frame_checked(old(self)@)),
            final(self)@ == spec_frame_with_checksum(old(self)@),
            spec_frame_checksum(final(self)@) == crc,
    {
        let end: usize = DATA + self.data_len();
        let crc = crc16(&self.buf[SEQ_ID..end]);
        let bytes = u16_to_bytes(crc);
        self.buf[end] = bytes.0;
        self.buf[end + 1] = bytes.1;
        crc
    }

    /// Gets the checksum that the frame stores.
    pub fn checksum(&self) -> (crc: u16)
        ensures
            crc == spec_frame_checksum(self@),
    {
        let end: usize = DATA + self.data_len();
        u16_from_bytes(self.buf[end], self.buf[end + 1])
    }

    /// Compares the stored checksum with the one computed over the frame.
    /// Fails, with the stored checksum and the computed one, where they
    /// differ.
    pub fn verify_checksum(&self) -> (res: Result<(), Error>)
        ensures
            match res {
                Ok(_) => spec_frame_checksum(self@) == spec_crc16(spec_frame_checked(self@)),
                Err(e) => {
                    &&& spec_frame_checksum(self@) != spec_crc16(spec_frame_checked(self@))
                    &&& e == Error::ChecksumMismatch(
                        (spec_frame_checksum(self@), spec_crc16(spec_frame_checked(self@))),
                    )
                },
            },
    {
        let end: usize = DATA + self.data_len();
        let computed = crc16(&self.buf[SEQ_ID..end]);
        let stored = self.checksum();
        if stored == computed {
            Ok(())
        } else {
            Err(Error::ChecksumMismatch((stored, computed)))
        }
    }

    /// Gets the cipher text that the frame carries: its data behind their
    /// first byte.
    pub fn encrypted_data(&self) -> (cipher: &[u8])
        ensures
            cipher@ == spec_frame_encrypted_data(self@),
    {
        let len: usize = self.data_len();
        if len == 0 {
            &self.buf[DATA..DATA]
        } else {
            &self.buf[DATA + 1..DATA + len]
        }
    }

    /// Stores `cipher` as the cipher text that the frame carries, behind the
    /// start marker of the encrypted message, and declares both as the data.
    /// Fails, with the length of the cipher text and the longest that fits,
    /// where the two are more than a frame can declare; the frame is then
    /// unchanged.
    pub fn set_encrypted_data(&mut self, cipher: &[u8]) -> (res: Result<(), Error>)
        ensures
            match res {
                Ok(_) => {
                    &&& cipher.len() < 255
                    &&& final(self)@ == spec_frame_with_encrypted_data(old(self)@, cipher@)
                },
                Err(e) => {
                    &&& cipher.len() >= 255
                    &&& e == Error::InvalidDataLength((cipher.len(), 254usize))
                    &&& final(self)@ == old(self)@
                },
            },
    {
        if cipher.len() >= 255 {
            return Err(Error::InvalidDataLength((cipher.len(), 254)));
        }
        self.buf[LEN] = (cipher.len() + 1) as u8;
        self.buf[DATA] = STEX;
        let mut i: usize = 0;
        while i < cipher.len()
            invariant
                i <= cipher.len() < 255,
                self.buf@ == spec_frame_with_encrypted_data(old(self).buf@, cipher@.take(i as int))
                    .update(LEN as int, (1 + cipher.len()) as u8),
            decreases cipher.len() - i,
        {
            self.buf[DATA + 1 + i] = cipher[i];
            assert(self.buf@ =~= spec_frame_with_encrypted_data(
                old(self).buf@,
                cipher@.take(i + 1),
            ).update(LEN as int, (1 + cipher.len()) as u8));
            i += 1;
        }
        assert(cipher@.take(cipher.len() as int) =~= cipher@);
        assert(self.buf@ =~= spec_frame_with_encrypted_data(old(self).buf@, cipher@));
        Ok(())
    }

    /// Doubles every start byte behind the first, as the wire wants it, and
    /// returns the number of wire bytes. Fails where the buffer does not begin
    /// with the start byte; the frame is then unchanged.
    pub fn stuff_encrypted_data(&mut self) -> (res: Result<usize, Error>)
        ensures
            match res {
                Ok(n) => {
                    &&& old(self)@[0] == STX
                    &&& final(self)@ == spec_stuffed(old(self)@)
                    &&& n == 1 + spec_stuff(spec_frame_packet(old(self)@).skip(1)).len()
                },
                Err(e) => {
                    &&& old(self)@[0] != STX
                    &&& e == Error::FramingError
                    &&& final(self)@ == old(self)@
                },
            },
    {
        if self.buf[0] != STX {
            return Err(Error::FramingError);
        }
        let len: usize = self.len();
        let mut wire: Vec<u8> = Vec::new();
        wire.push(STX);
        let mut i: usize = 1;
        while i < len
            invariant
                1 <= i <= len,
                len == spec_frame_len(self@),
                len <= 260,
                wire@ == seq![STX] + spec_stuff(self@.subrange(1, i as int)),
            decreases len - i,
        {
            let byte: u8 = self.buf[i];
            let ghost before = wire@;
            if byte == STX {
                wire.push(STX);
                wire.push(STX);
            } else {
                wire.push(byte);
            }
            proof {
                let done = self@.subrange(1, i as int);
                assert(self@.subrange(1, i + 1) =~= done + seq![byte]);
                lemma_stuff_concat(done, seq![byte]);
                assert(seq![byte].skip(1) =~= Seq::<u8>::empty());
                assert(spec_stuff(Seq::<u8>::empty()) =~= Seq::<u8>::empty());
                assert(spec_stuff(seq![byte]) =~= if byte == STX {
                    seq![STX, STX]
                } else {
                    seq![byte]
                });
                assert(wire@ =~= before + spec_stuff(seq![byte]));
            }
            i += 1;
        }
        assert(self@.subrange(1, len as int) =~= spec_frame_packet(self@).skip(1));
        let n: usize = wire.len();
        self.buf = padded(wire.as_slice());
        Ok(n)
    }

    /// Reads the frame back from its stuffed form and returns its length.
    /// Fails where the buffer does not begin with the start byte or a start
    /// byte stands alone in it; the frame is then unchanged.
    pub fn unstuff_encrypted_data(&mut self) -> (res: Result<usize, Error>)
        ensures
            match res {
                Ok(n) => {
                    &&& spec_unstuffed(old(self)@) == Some(final(self)@)
                    &&& n == spec_frame_len(final(self)@)
                },
                Err(e) => {
                    &&& spec_unstuffed(old(self)@).is_none()
                    &&& e == Error::FramingError
                    &&& final(self)@ == old(self)@
                },
            },
    {
        if self.buf[0] != STX {
            return Err(Error::FramingError);
        }
        let mut packet: Vec<u8> = Vec::new();
        packet.push(STX);
        let pos: usize = match unstuff_into(&self.buf, 1, 2, &mut packet) {
            Some(pos) => pos,
            None => {
                return Err(Error::FramingError);
            },
        };
        let data_len: usize = packet[2] as usize;
        match unstuff_into(&self.buf, pos, data_len + 2, &mut packet) {
            Some(_) => {},
            None => {
                return Err(Error::FramingError);
            },
        }
        let n: usize = packet.len();
        self.buf = padded(packet.as_slice());
        Ok(n)
    }
}

} // verus!
