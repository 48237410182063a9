//! The encrypted message: a plain command in a fixed layout that is encrypted
//! as a unit and carried in the data field of a transport frame.
//!
//! | STEX | LEN | COUNT 0..3 | DATA 0..N | PACKING 0..P | CRC low | CRC high |
//!
//! The length byte counts the data bytes. Everything behind the start marker
//! is encrypted, so the packing makes that part a whole number of cipher
//! blocks.

use vstd::prelude::*;
use zeroize::Zeroize;

use crate::block_cipher::{
    aes_decrypt_blocks,
    aes_encrypt_blocks,
    spec_decrypt_blocks,
    spec_encrypt_blocks,
    AesKey,
};
use crate::crc::{crc16, spec_crc16};
use crate::encrypted::encrypted_index::{COUNT, COUNT_END, DATA, LEN};
use crate::encrypted::wrapped::{
    lemma_unstuffed_stuffed,
    spec_frame_data_len,
    spec_frame_encrypted_data,
    spec_frame_new,
    spec_frame_with_checksum,
    spec_frame_with_encrypted_data,
    spec_stuffed,
    spec_u16_from_bytes,
    spec_unstuffed,
    WrappedEncryptedMessage,
    STEX,
};
use crate::error::Error;
use crate::len::{
    aes_packing_len,
    spec_aes_packing_len,
    ENCRYPTED_COMMAND,
    ENCRYPTED_METADATA,
    MAX_ENCRYPTED_DATA,
};
use crate::packing::{spec_is_packing, PackingSource};
use crate::sequence::{
    lemma_count_bytes_round_trip,
    spec_count_from_bytes,
    spec_count_to_bytes,
    spec_next_count,
    SequenceCount,
    SequenceCounter,
};

verus! {

/// `buf` with `bytes` written over it from position `at` on.
pub open spec fn spec_splice(buf: Seq<u8>, at: int, bytes: Seq<u8>) -> Seq<u8> {
    Seq::new(
        buf.len(),
        |i: int|
            if at <= i < at + bytes.len() {
                bytes[i - at]
            } else {
                buf[i]
            },
    )
}

/// The buffer of a new message: the start marker, then zeros.
pub open spec fn spec_new() -> Seq<u8> {
    Seq::new(
        ENCRYPTED_COMMAND as nat,
        |i: int|
            if i == 0 {
                STEX
            } else {
                0u8
            },
    )
}

/// Number of data bytes of the message in `buf`.
pub open spec fn spec_data_len(buf: Seq<u8>) -> nat {
    buf[LEN as int] as nat
}

/// Number of packing bytes of the message in `buf`: the fewest that make the
/// encrypted part a whole number of blocks.
pub open spec fn spec_packing_len(buf: Seq<u8>) -> nat {
    spec_aes_packing_len((ENCRYPTED_METADATA - 1) as nat + spec_data_len(buf))
}

/// Length of the message in `buf`.
pub open spec fn spec_len(buf: Seq<u8>) -> nat {
    ENCRYPTED_METADATA as nat + spec_data_len(buf) + spec_packing_len(buf)
}

/// The message in `buf`: what stands in front of the unused rest of the
/// buffer.
pub open spec fn spec_buf(buf: Seq<u8>) -> Seq<u8> {
    buf.take(spec_len(buf) as int)
}

/// The four count bytes of the message in `buf`.
pub open spec fn spec_count_buf(buf: Seq<u8>) -> Seq<u8> {
    buf.subrange(COUNT as int, COUNT_END as int)
}

/// The sequence count of the message in `buf`.
pub open spec fn spec_count(buf: Seq<u8>) -> u32 {
    spec_count_from_bytes(spec_count_buf(buf))
}

/// The data bytes of the message in `buf`.
pub open spec fn spec_message_data(buf: Seq<u8>) -> Seq<u8> {
    buf.subrange(DATA as int, DATA + spec_data_len(buf))
}

/// The packing bytes of the message in `buf`.
pub open spec fn spec_packing(buf: Seq<u8>) -> Seq<u8> {
    buf.subrange(
        DATA + spec_data_len(buf),
        DATA + spec_data_len(buf) + spec_packing_len(buf),
    )
}

/// The bytes of the message in `buf` that its checksum covers: all between
/// the start marker and the checksum.
pub open spec fn spec_checked(buf: Seq<u8>) -> Seq<u8> {
    buf.subrange(LEN as int, spec_len(buf) - 2)
}

/// The checksum that the message in `buf` stores in its last two bytes, low
/// byte first.
pub open spec fn spec_checksum(buf: Seq<u8>) -> u16 {
    spec_u16_from_bytes(buf[spec_len(buf) - 2], buf[spec_len(buf) - 1])
}

/// The part of the message in `buf` that is encrypted: all behind the start
/// marker.
pub open spec fn spec_encrypt_data(buf: Seq<u8>) -> Seq<u8> {
    buf.subrange(LEN as int, spec_len(buf) as int)
}

/// The length of a message is that of its fixed fields, its data and its
/// packing; the message fits its buffer, and its encrypted part is a whole
/// number of blocks.
pub proof fn lemma_len(buf: Seq<u8>)
    ensures
        spec_packing_len(buf) < 16,
        ENCRYPTED_METADATA + spec_data_len(buf) <= spec_len(buf) <= ENCRYPTED_COMMAND,
        (spec_len(buf) - 1) % 16 == 0,
        spec_encrypt_data(buf).len() == spec_len(buf) - 1 || buf.len() < spec_len(buf),
{
}

/// Whatever the data length, the fixed fields behind the start marker, the
/// data and the packing fill a whole number of blocks.
pub proof fn lemma_packing_len_aligns(data_len: nat)
    ensures
        (ENCRYPTED_METADATA - 1 + data_len + spec_aes_packing_len(
            (ENCRYPTED_METADATA - 1) as nat + data_len,
        )) % 16 == 0,
{
}

/// The buffer of the frame that carries the message in `buf`, encrypted under
/// `key`: a new frame with the cipher text of all behind the start marker, its
/// checksum, and every start byte behind the first doubled. Where the cipher
/// text is more than a frame can declare, the frame carries none.
pub open spec fn spec_encrypted(key: Seq<u8>, buf: Seq<u8>) -> Seq<u8> {
    let cipher = spec_encrypt_blocks(key, spec_encrypt_data(buf));
    let carried = if cipher.len() < 255 {
        spec_frame_with_encrypted_data(spec_frame_new(), cipher)
    } else {
        spec_frame_new()
    };
    spec_stuffed(spec_frame_with_checksum(carried))
}

/// The buffer of the message that a frame with the buffer `frame` carries,
/// decrypted under `key`. The frame is unstuffed, or taken as it is where that
/// fails. The message is a new one whose length byte counts what the frame
/// declares beyond the fixed fields; where the frame carries as much cipher
/// text as that message has behind its start marker, the plain text stands
/// there.
pub open spec fn spec_decrypted(key: Seq<u8>, frame: Seq<u8>) -> Seq<u8> {
    let wire = match spec_unstuffed(frame) {
        Some(unstuffed) => unstuffed,
        None => frame,
    };
    let declared = spec_frame_data_len(wire);
    let data_len = if declared >= ENCRYPTED_METADATA {
        (declared - ENCRYPTED_METADATA) as u8
    } else {
        0u8
    };
    let fresh = spec_new().update(LEN as int, data_len);
    let cipher = spec_frame_encrypted_data(wire);
    if cipher.len() == spec_len(fresh) - 1 {
        spec_splice(fresh, LEN as int, spec_decrypt_blocks(key, cipher))
    } else {
        fresh
    }
}

/// Decrypting the frame of an encrypted message gives the message back, with
/// zeros behind it, wherever the cipher's decryption undoes its encryption on
/// the blocks of that message.
pub proof fn lemma_decrypted_encrypted(key: Seq<u8>, buf: Seq<u8>)
    requires
        buf.len() == ENCRYPTED_COMMAND,
        spec_data_len(buf) <= MAX_ENCRYPTED_DATA,
        spec_decrypt_blocks(key, spec_encrypt_blocks(key, spec_encrypt_data(buf)))
            == spec_encrypt_data(buf),
    ensures
        spec_decrypted(key, spec_encrypted(key, buf)) == spec_splice(
            spec_new(),
            LEN as int,
            spec_encrypt_data(buf),
        ),
{
    let plain = spec_encrypt_data(buf);
    let cipher = spec_encrypt_blocks(key, plain);
    let carried = spec_frame_with_encrypted_data(spec_frame_new(), cipher);
    let checked = spec_frame_with_checksum(carried);
    let frame = spec_stuffed(checked);
    lemma_unstuffed_stuffed(checked);
    let wire = spec_unstuffed(frame).unwrap();
    assert(spec_frame_data_len(wire) == spec_len(buf));
    assert(spec_frame_encrypted_data(wire) =~= cipher);
    let fresh = spec_new().update(LEN as int, (spec_len(buf) - ENCRYPTED_METADATA) as u8);
    assert(spec_len(fresh) == spec_len(buf));
    assert(spec_splice(fresh, LEN as int, plain) =~= spec_splice(spec_new(), LEN as int, plain));
}

/// A message read back from all behind its start marker has the fields of
/// the message that was written.
pub proof fn lemma_opened_fields(buf: Seq<u8>)
    requires
        buf.len() == ENCRYPTED_COMMAND,
    ensures
        ({
            let opened = spec_splice(spec_new(), LEN as int, spec_encrypt_data(buf));
            &&& spec_data_len(opened) == spec_data_len(buf)
            &&& spec_encrypt_data(opened) == spec_encrypt_data(buf)
            &&& spec_message_data(opened) == spec_message_data(buf)
            &&& spec_count(opened) == spec_count(buf)
            &&& spec_checked(opened) == spec_checked(buf)
            &&& spec_checksum(opened) == spec_checksum(buf)
            &&& spec_packing(opened) == spec_packing(buf)
        }),
{
    let opened = spec_splice(spec_new(), LEN as int, spec_encrypt_data(buf));
    assert(spec_data_len(opened) == spec_data_len(buf));
    assert(spec_encrypt_data(opened) =~= spec_encrypt_data(buf));
    assert(spec_message_data(opened) =~= spec_message_data(buf));
    assert(spec_count_buf(opened) =~= spec_count_buf(buf));
    assert(spec_checked(opened) =~= spec_checked(buf));
    assert(spec_packing(opened) =~= spec_packing(buf));
}

/// Encrypted message.
#[derive(Clone, Debug, PartialEq)]
pub struct EncryptedCommand {
    buf: [u8; ENCRYPTED_COMMAND],
}

impl View for EncryptedCommand {
    type V = Seq<u8>;

    /// The whole buffer: the message, and zeros or older bytes behind it.
    closed spec fn view(&self) -> Seq<u8> {
        self.buf@
    }
}

/// Calls `Zeroize::zeroize` of the `zeroize` crate on the buffer. Believed,
/// not proved: every byte is zero afterwards.
#[verifier::external_body]
fn wipe(buf: &mut [u8; ENCRYPTED_COMMAND])
    ensures
        forall|i: int| 0 <= i < ENCRYPTED_COMMAND ==> final(buf)@[i] == 0,
{
    buf.zeroize();
}

impl EncryptedCommand {
    /// The buffer of a message always has the same length.
    pub proof fn lemma_view_len(&self)
        ensures
            self@.len() == ENCRYPTED_COMMAND,
    {
    }

    /// Creates a new message: the start marker, then zeros.
    pub fn new() -> (msg: Self)
        ensures
            msg@ == spec_new(),
    {
        let mut buf: [u8; ENCRYPTED_COMMAND] = [0u8; ENCRYPTED_COMMAND];
        buf[0] = STEX;
        assert(buf@ =~= spec_new());
        EncryptedCommand { buf }
    }

    /// Writes `bytes` over the buffer from position `at` on.
    fn write_at(&mut self, at: usize, bytes: &[u8])
        requires
            at + bytes.len() <= ENCRYPTED_COMMAND,
        ensures
            final(self)@ == spec_splice(old(self)@, at as int, bytes@),
    {
        let mut i: usize = 0;
        while i < bytes.len()
            invariant
                i <= bytes.len(),
                at + bytes.len() <= ENCRYPTED_COMMAND,
                self.buf@ == spec_splice(old(self).buf@, at as int, bytes@.take(i as int)),
            decreases bytes.len() - i,
        {
            self.buf[at + i] = bytes[i];
            assert(self.buf@ =~= spec_splice(old(self).buf@, at as int, bytes@.take(i + 1)));
            i += 1;
        }
        assert(bytes@.take(bytes.len() as int) =~= bytes@);
    }

    /// Gets the number of data bytes.
    pub fn data_len(&self) -> (len: usize)
        ensures
            len == spec_data_len(self@),
            len <= 255,
    {
        self.buf[LEN] as usize
    }

    /// Sets the number of data bytes.
    pub fn set_data_len(&mut self, len: u8)
        ensures
            final(self)@ == old(self)@.update(LEN as int, len),
    {
        self.buf[LEN] = len;
    }

    /// Gets the length of the message: fixed fields, data and packing.
    pub fn len(&self) -> (len: usize)
        ensures
            len == spec_len(self@),
            ENCRYPTED_METADATA <= len <= ENCRYPTED_COMMAND,
            (len - 1) % 16 == 0,
    {
        ENCRYPTED_METADATA + self.data_len() + self.packing_len()
    }

    /// Gets the message: the bytes in front of the unused rest of the buffer.
    pub fn buf(&self) -> (bytes: &[u8])
        ensures
            bytes@ == spec_buf(self@),
    {
        let len: usize = self.len();
        &self.buf[0..len]
    }

    /// Gets the whole buffer: the message, and zeros or older bytes behind it.
    pub fn as_bytes(&self) -> (bytes: &[u8])
        ensures
            bytes@ == self@,
    {
        self.buf.as_slice()
    }

    /// Gets the sequence count.
    pub fn count(&self) -> (count: SequenceCount)
        ensures
            count@ == spec_count(self@),
    {
        let bytes: [u8; 4] = [
            self.buf[COUNT],
            self.buf[COUNT + 1],
            self.buf[COUNT + 2],
            self.buf[COUNT + 3],
        ];
        assert(bytes@ =~= spec_count_buf(self@));
        SequenceCount::from_le_bytes(&bytes)
    }

    /// Gets the four count bytes.
    pub fn count_buf(&self) -> (bytes: &[u8])
        ensures
            bytes@ == spec_count_buf(self@),
    {
        &self.buf[COUNT..COUNT_END]
    }

    /// Sets the sequence count.
    pub fn set_count(&mut self, count: SequenceCount)
        ensures
            final(self)@ == spec_splice(old(self)@, COUNT as int, spec_count_to_bytes(count@)),
    {
        let bytes = count.to_le_bytes();
        self.write_at(COUNT, bytes.as_slice());
    }

    /// Builder function that sets the sequence count.
    pub fn with_count(self, count: SequenceCount) -> (msg: Self)
        ensures
            msg@ == spec_splice(self@, COUNT as int, spec_count_to_bytes(count@)),
    {
        let mut msg = self;
        msg.set_count(count);
        msg
    }

    /// Gets the position of the first data byte.
    pub fn data_start(&self) -> (start: usize)
        ensures
            start == DATA,
    {
        DATA
    }

    /// Gets the position after the last data byte.
    pub fn data_end(&self) -> (end: usize)
        ensures
            end == DATA + spec_data_len(self@),
    {
        self.data_start() + self.data_len()
    }

    /// Gets the message data.
    pub fn message_data(&self) -> (data: &[u8])
        ensures
            data@ == spec_message_data(self@),
    {
        let start: usize = self.data_start();
        let end: usize = self.data_end();
        &self.buf[start..end]
    }

    /// Sets the message data: stores the length and copies the bytes into the
    /// data field. `declared` is the length that the wrapped command states of
    /// its data, `data` the data themselves.
    ///
    /// Fails where the two lengths differ, with the declared length and the
    /// length found, and where the data are longer than
    /// [`MAX_ENCRYPTED_DATA`], with their length and that maximum. A message
    /// that is refused stays as it was.
    pub fn set_message_data(&mut self, declared: usize, data: &[u8]) -> (res: Result<(), Error>)
        ensures
            match res {
                Ok(_) => {
                    &&& declared == data.len()
                    &&& data.len() <= MAX_ENCRYPTED_DATA
                    &&& final(self)@ == spec_splice(
                        old(self)@.update(LEN as int, data.len() as u8),
                        DATA as int,
                        data@,
                    )
                },
                Err(e) => {
                    &&& final(self)@ == old(self)@
                    &&& if declared != data.len() {
                        e == Error::InvalidDataLength((declared, data.len()))
                    } else {
                        data.len() > MAX_ENCRYPTED_DATA && e == Error::InvalidDataLength(
                            (data.len(), MAX_ENCRYPTED_DATA),
                        )
                    }
                },
            },
    {
        let len: usize = declared;
        if data.len() != len {
            return Err(Error::InvalidDataLength((len, data.len())));
        }
        if len <= MAX_ENCRYPTED_DATA {
            self.set_data_len(len as u8);
            let start: usize = self.data_start();
            self.write_at(start, data);
            Ok(())
        } else {
            Err(Error::InvalidDataLength((len, MAX_ENCRYPTED_DATA)))
        }
    }

    /// Builder function that sets the message data.
    pub fn with_message_data(self, declared: usize, data: &[u8]) -> (res: Result<Self, Error>)
        ensures
            match res {
                Ok(msg) => {
                    &&& declared == data.len()
                    &&& data.len() <= MAX_ENCRYPTED_DATA
                    &&& msg@ == spec_splice(
                        self@.update(LEN as int, data.len() as u8),
                        DATA as int,
                        data@,
                    )
                },
                Err(e) => if declared != data.len() {
                    e == Error::InvalidDataLength((declared, data.len()))
                } else {
                    data.len() > MAX_ENCRYPTED_DATA && e == Error::InvalidDataLength(
                        (data.len(), MAX_ENCRYPTED_DATA),
                    )
                },
            },
    {
        let mut msg = self;
        match msg.set_message_data(declared, data) {
            Ok(_) => Ok(msg),
            Err(e) => Err(e),
        }
    }

    /// Gets the position of the first packing byte.
    pub fn packing_start(&self) -> (start: usize)
        ensures
            start == DATA + spec_data_len(self@),
    {
        self.data_end()
    }

    /// Gets the position after the last packing byte.
    pub fn packing_end(&self) -> (end: usize)
        ensures
            end == DATA + spec_data_len(self@) + spec_packing_len(self@),
    {
        self.packing_start() + self.packing_len()
    }

    /// Gets the packing: the bytes that make the encrypted part of the message
    /// a whole number of cipher blocks.
    pub fn packing(&self) -> (pad: &[u8])
        ensures
            pad@ == spec_packing(self@),
    {
        let start: usize = self.packing_start();
        let end: usize = self.packing_end();
        &self.buf[start..end]
    }

    /// Gets the number of packing bytes: the fewest that, with the fixed
    /// fields behind the start marker and the data, fill a whole number of
    /// cipher blocks.
    pub fn packing_len(&self) -> (len: usize)
        ensures
            len == spec_packing_len(self@),
            len < 16,
            (ENCRYPTED_METADATA - 1 + spec_data_len(self@) + len) % 16 == 0,
    {
        let meta: usize = ENCRYPTED_METADATA - 1;
        let raw_len: usize = meta + self.data_len();
        aes_packing_len(raw_len)
    }

    /// Stores `pad` as the packing. Fails, with the length found and the
    /// length of the packing, where `pad` has another length; the message is
    /// then unchanged.
    pub fn fill_packing(&mut self, pad: &[u8]) -> (res: Result<(), Error>)
        ensures
            match res {
                Ok(_) => {
                    &&& pad.len() == spec_packing_len(old(self)@)
                    &&& final(self)@ == spec_splice(
                        old(self)@,
                        DATA + spec_data_len(old(self)@),
                        pad@,
                    )
                },
                Err(e) => {
                    &&& pad.len() != spec_packing_len(old(self)@)
                    &&& e == Error::InvalidLength(
                        (pad.len(), spec_packing_len(old(self)@) as usize),
                    )
                    &&& final(self)@ == old(self)@
                },
            },
    {
        let len: usize = self.packing_len();
        if pad.len() != len {
            return Err(Error::InvalidLength((pad.len(), len)));
        }
        let start: usize = self.packing_start();
        self.write_at(start, pad);
        Ok(())
    }

    /// Fills the packing from `source`. A message that needs no packing stays
    /// as it is. A seeded source is seeded from the message as it stands and
    /// its count bytes.
    pub fn set_packing(&mut self, source: PackingSource)
        ensures
            final(self)@.len() == old(self)@.len(),
            forall|i: int|
                0 <= i < old(self)@.len() && !(DATA + spec_data_len(old(self)@) <= i < DATA
                    + spec_data_len(old(self)@) + spec_packing_len(old(self)@))
                    ==> final(self)@[i] == old(self)@[i],
            spec_packing_len(old(self)@) > 0 ==> spec_is_packing(
                source,
                spec_buf(old(self)@),
                spec_count_buf(old(self)@),
                spec_packing_len(old(self)@),
                spec_packing(final(self)@),
            ),
            spec_packing_len(old(self)@) == 0 ==> final(self)@ == old(self)@,
    {
        let len: usize = self.packing_len();
        if len == 0 {
            return ;
        }
        let pad = source.draw(self.buf(), self.count_buf(), len);
        let start: usize = self.packing_start();
        self.write_at(start, pad.as_slice());
        assert(spec_packing(self@) =~= pad@);
    }

    /// Computes the checksum over all bytes between the start marker and the
    /// checksum, stores it in the last two bytes, low byte first, and returns
    /// it.
    pub fn calculate_checksum(&mut self) -> (crc: u16)
        ensures
            crc == spec_crc16(spec_checked(old(self)@)),
            final(self)@ == spec_splice(
                old(self)@,
                spec_len(old(self)@) - 2,
                seq![(crc & 0xff) as u8, (crc >> 8) as u8],
            ),
            spec_checksum(final(self)@) == crc,
    {
        let len: usize = self.len();
        let crc = crc16(&self.buf[LEN..len - 2]);
        let low: u8 = (crc & 0xff) as u8;
        let high: u8 = (crc >> 8) as u8;
        let bytes: [u8; 2] = [low, high];
        assert(bytes@ =~= seq![(crc & 0xff) as u8, (crc >> 8) as u8]);
        self.write_at(len - 2, bytes.as_slice());
        assert((low as u16) | ((high as u16) << 8) == crc) by (bit_vector)
            requires
                low == (crc & 0xff) as u8,
                high == (crc >> 8) as u8,
        ;
        crc
    }

    /// Gets the checksum that the message stores.
    pub fn checksum(&self) -> (crc: u16)
        ensures
            crc == spec_checksum(self@),
    {
        let len: usize = self.len();
        (self.buf[len - 2] as u16) | ((self.buf[len - 1] as u16) << 8)
    }

    /// Compares the stored checksum with the one computed over the message.
    /// Fails, with the stored checksum and the computed one, where they
    /// differ.
    pub fn verify_checksum(&self) -> (res: Result<(), Error>)
        ensures
            match res {
                Ok(_) => spec_checksum(self@) == spec_crc16(spec_checked(self@)),
                Err(e) => {
                    &&& spec_checksum(self@) != spec_crc16(spec_checked(self@))
                    &&& e == Error::ChecksumMismatch(
                        (spec_checksum(self@), spec_crc16(spec_checked(self@))),
                    )
                },
            },
    {
        let len: usize = self.len();
        let computed = crc16(&self.buf[LEN..len - 2]);
        let stored = self.checksum();
        if stored == computed {
            Ok(())
        } else {
            Err(Error::ChecksumMismatch((stored, computed)))
        }
    }

    /// Gets the part of the message that is encrypted: all behind the start
    /// marker, a whole number of cipher blocks.
    pub fn encrypt_data(&self) -> (data: &[u8])
        ensures
            data@ == spec_encrypt_data(self@),
            data@.len() % 16 == 0,
    {
        let len: usize = self.len();
        &self.buf[LEN..len]
    }

    /// Stores `plain` as the part of the message that is encrypted: all behind
    /// the start marker, the length byte first. Fails, with the length found
    /// and the length of that part, where `plain` has another length; the
    /// message is then unchanged.
    pub fn set_encrypt_data(&mut self, plain: &[u8]) -> (res: Result<(), Error>)
        ensures
            match res {
                Ok(_) => {
                    &&& plain.len() == spec_len(old(self)@) - 1
                    &&& final(self)@ == spec_splice(old(self)@, LEN as int, plain@)
                },
                Err(e) => {
                    &&& plain.len() != spec_len(old(self)@) - 1
                    &&& e == Error::InvalidLength(
                        (plain.len(), (spec_len(old(self)@) - 1) as usize),
                    )
                    &&& final(self)@ == old(self)@
                },
            },
    {
        let len: usize = self.len() - 1;
        if plain.len() != len {
            return Err(Error::InvalidLength((plain.len(), len)));
        }
        self.write_at(LEN, plain);
        Ok(())
    }

    /// Makes the message ready to be encrypted: fills the packing from
    /// `source`, takes `count` as the sequence count unless the message has a
    /// count of its own, and computes and stores the checksum.
    fn prepare(&mut self, count: SequenceCount, source: PackingSource)
        ensures
            final(self)@.len() == old(self)@.len(),
            spec_data_len(final(self)@) == spec_data_len(old(self)@),
            spec_message_data(final(self)@) == spec_message_data(old(self)@),
            spec_count(final(self)@) == if spec_count(old(self)@) != 0 {
                spec_count(old(self)@)
            } else {
                count@
            },
            spec_checksum(final(self)@) == spec_crc16(spec_checked(final(self)@)),
            spec_packing_len(old(self)@) > 0 ==> spec_is_packing(
                source,
                spec_buf(old(self)@),
                spec_count_buf(old(self)@),
                spec_packing_len(old(self)@),
                spec_packing(final(self)@),
            ),
    {
        self.set_packing(source);
        let ghost packed = self@;
        if self.count().as_inner() == 0 {
            self.set_count(count);
            proof {
                lemma_count_bytes_round_trip(count@);
                assert(spec_count_buf(self@) =~= spec_count_to_bytes(count@));
            }
        }
        let ghost counted = self@;
        self.calculate_checksum();
        proof {
            assert(spec_message_data(self@) =~= spec_message_data(old(self)@));
            assert(spec_count_buf(self@) =~= spec_count_buf(counted));
            assert(spec_count_buf(packed) =~= spec_count_buf(old(self)@));
            assert(spec_checked(self@) =~= spec_checked(counted));
            assert(spec_packing(self@) =~= spec_packing(packed));
        }
    }

    /// Encrypts all behind the start marker under `key`, block by block, into
    /// the data of a new frame, and gives the frame its checksum and its
    /// stuffing.
    fn seal(&self, key: &AesKey) -> (frame: WrappedEncryptedMessage)
        ensures
            frame@ == spec_encrypted(key@, self@),
            spec_data_len(self@) <= MAX_ENCRYPTED_DATA ==> spec_decrypted(key@, frame@)
                == spec_splice(spec_new(), LEN as int, spec_encrypt_data(self@)),
            spec_data_len(self@) > MAX_ENCRYPTED_DATA ==> frame@ == spec_stuffed(
                spec_frame_with_checksum(spec_frame_new()),
            ),
    {
        let mut frame = WrappedEncryptedMessage::new();
        match aes_encrypt_blocks(key, self.encrypt_data()) {
            Ok(cipher) => {
                let _ = frame.set_encrypted_data(cipher.as_slice());
            },
            Err(_) => {},
        }
        frame.calculate_checksum();
        let _ = frame.verify_checksum();
        let _ = frame.stuff_encrypted_data();
        proof {
            if spec_data_len(self@) <= MAX_ENCRYPTED_DATA {
                lemma_decrypted_encrypted(key@, self@);
            }
        }
        frame
    }

    /// Encrypts and consumes the message, and returns the transport frame that
    /// carries it.
    ///
    /// The packing is filled from `source`. A count other than zero that was
    /// set on the message stays; a message without one gets the count of
    /// `counter` as its sequence count. The checksum is computed and stored. All behind the start marker is encrypted under `key`, block by
    /// block, into the data of a new frame, behind the start marker. The frame
    /// gets its checksum and its stuffing. The counter advances by one, and
    /// the plain text is wiped.
    ///
    /// A message with more data than [`MAX_ENCRYPTED_DATA`] does not fit a
    /// frame: the frame that comes back carries none.
    ///
    /// Decrypting the frame under the same key gives back the data, the
    /// sequence count, the packing and the checksum of the message that was
    /// sealed.
    pub fn encrypt(
        self,
        key: &AesKey,
        counter: &mut SequenceCounter,
        source: PackingSource,
    ) -> (frame: WrappedEncryptedMessage)
        ensures
            final(counter)@ == spec_next_count(old(counter)@),
            spec_data_len(self@) <= MAX_ENCRYPTED_DATA ==> ({
                let opened = spec_decrypted(key@, frame@);
                &&& frame@ == spec_encrypted(key@, opened)
                &&& spec_data_len(opened) == spec_data_len(self@)
                &&& spec_message_data(opened) == spec_message_data(self@)
                &&& spec_count(opened) == if spec_count(self@) != 0 {
                    spec_count(self@)
                } else {
                    old(counter)@
                }
                &&& spec_checksum(opened) == spec_crc16(spec_checked(opened))
                &&& spec_packing_len(self@) > 0 ==> spec_is_packing(
                    source,
                    spec_buf(self@),
                    spec_count_buf(self@),
                    spec_packing_len(self@),
                    spec_packing(opened),
                )
            }),
            spec_data_len(self@) > MAX_ENCRYPTED_DATA ==> frame@ == spec_stuffed(
                spec_frame_with_checksum(spec_frame_new()),
            ),
    {
        let mut msg = self;
        msg.prepare(counter.current(), source);
        let frame = msg.seal(key);
        let ghost sealed = msg@;
        let _ = counter.increment();
        msg.zeroize();
        proof {
            if spec_data_len(self@) <= MAX_ENCRYPTED_DATA {
                lemma_opened_fields(sealed);
            }
        }
        frame
    }

    /// Decrypts and consumes a transport frame, and returns the message that
    /// it carries.
    ///
    /// The frame is unstuffed. A new message gets as its length what the frame
    /// declares beyond the fixed fields. The cipher text, which stands behind
    /// the start marker in the data of the frame, is decrypted under `key`,
    /// block by block, into all behind the start marker of the message. The
    /// counter advances by one.
    ///
    /// A frame that cannot be unstuffed is taken as it is, and a frame that
    /// carries more or less cipher text than the message has room for gives
    /// the new message with nothing decrypted into it. Neither fails the call.
    pub fn decrypt(
        key: &AesKey,
        message: WrappedEncryptedMessage,
        counter: &mut SequenceCounter,
    ) -> (msg: Self)
        ensures
            msg@ == spec_decrypted(key@, message@),
            final(counter)@ == spec_next_count(old(counter)@),
    {
        let mut frame = message;
        let _ = frame.unstuff_encrypted_data();
        let declared: usize = frame.data_len();
        let data_len: usize = if declared >= ENCRYPTED_METADATA {
            declared - ENCRYPTED_METADATA
        } else {
            0
        };
        let mut msg = Self::new();
        msg.set_data_len(data_len as u8);
        let cipher = frame.encrypted_data();
        if cipher.len() == msg.len() - 1 {
            match aes_decrypt_blocks(key, cipher) {
                Ok(plain) => {
                    let _ = msg.set_encrypt_data(plain.as_slice());
                },
                Err(_) => {},
            }
        }
        let _ = counter.increment();
        msg
    }

    /// Overwrites the whole buffer with zeros, in a way that the compiler does
    /// not remove. A message holds plain text next to key material, so its
    /// owner wipes it when done with it.
    pub fn zeroize(&mut self)
        ensures
            final(self)@ == Seq::new(ENCRYPTED_COMMAND as nat, |i: int| 0u8),
    {
        wipe(&mut self.buf);
        assert(self.buf@ =~= Seq::new(ENCRYPTED_COMMAND as nat, |i: int| 0u8));
    }
}

} // verus!
