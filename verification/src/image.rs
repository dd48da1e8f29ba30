use crate::error::ReaderError;
use vstd::prelude::*;

verus! {

/// What an image is to a contract: its bytes, and the offset at which the
/// next read starts.
pub struct ImageState {
    pub bytes: Seq<u8>,
    pub cursor: nat,
}

impl ImageState {
    /// The cursor stands inside the buffer or at its end.
    pub open spec fn wf(self) -> bool {
        self.cursor <= self.bytes.len()
    }

    /// The same bytes with the cursor at `cursor`.
    pub open spec fn at(self, cursor: int) -> ImageState {
        ImageState { bytes: self.bytes, cursor: cursor as nat }
    }

    /// An absolute seek: allowed to any offset up to and including the end.
    pub open spec fn seek(self, target: int) -> Result<ImageState, ReaderError> {
        if 0 <= target <= self.bytes.len() {
            Ok(self.at(target))
        } else {
            Err(ReaderError::Read)
        }
    }
}

/// The 32-bit word that the four bytes encode, least significant byte first.
pub open spec fn word_of(b0: u8, b1: u8, b2: u8, b3: u8) -> u32 {
    (b0 + 0x100 * b1 + 0x1_0000 * b2 + 0x100_0000 * b3) as u32
}

/// The 32-bit word whose little-endian encoding stands at `bytes[at..at + 4]`.
pub open spec fn word_at(bytes: Seq<u8>, at: int) -> u32
    recommends
        0 <= at,
        at + 4 <= bytes.len(),
{
    word_of(bytes[at], bytes[at + 1], bytes[at + 2], bytes[at + 3])
}

/// An owned byte buffer with a cursor. The cursor never leaves the buffer:
/// a seek or a read that would take it past the end fails and changes
/// nothing.
pub struct ByteImage {
    data: Vec<u8>,
    pos: usize,
}

impl View for ByteImage {
    type V = ImageState;

    closed spec fn view(&self) -> ImageState {
        ImageState { bytes: self.data@, cursor: self.pos as nat }
    }
}

impl ByteImage {
    #[verifier::type_invariant]
    spec fn cursor_in_bounds(&self) -> bool {
        self.pos <= self.data@.len()
    }

    /// Takes ownership of `bytes`; the cursor starts at offset 0.
    pub fn new(bytes: Vec<u8>) -> (image: ByteImage)
        ensures
            image@ == (ImageState { bytes: bytes@, cursor: 0 }),
    {
        ByteImage { data: bytes, pos: 0 }
    }

    /// Gives the buffer back and forgets the cursor.
    pub fn into_bytes(self) -> (bytes: Vec<u8>)
        ensures
            bytes@ == self@.bytes,
    {
        self.data
    }

    /// The number of bytes in the buffer.
    pub fn len(&self) -> (n: usize)
        ensures
            n == self@.bytes.len(),
    {
        self.data.len()
    }

    /// The bytes of the buffer, whatever the cursor.
    pub fn as_slice(&self) -> (bytes: &[u8])
        ensures
            bytes@ == self@.bytes,
    {
        self.data.as_slice()
    }

    /// The offset at which the next read starts.
    pub fn position(&self) -> (cursor: u64)
        ensures
            cursor == self@.cursor,
            self@.wf(),
    {
        proof {
            use_type_invariant(self);
        }
        self.pos as u64
    }

    /// Absolute seek. Fails, leaving the image as it was, when `target` lies
    /// past the end of the buffer.
    pub fn seek(&mut self, target: u64) -> (r: Result<(), ReaderError>)
        ensures
            match old(self)@.seek(target as int) {
                Ok(moved) => r == Ok::<(), ReaderError>(()) && final(self)@ == moved,
                Err(e) => r == Err::<(), ReaderError>(e) && final(self)@ == old(self)@,
            },
    {
        if target <= self.data.len() as u64 {
            self.pos = target as usize;
            Ok(())
        } else {
            Err(ReaderError::Read)
        }
    }

    /// Relative seek: moves the cursor by `offset`, forwards or backwards.
    /// Fails, leaving the image as it was, when that would take the cursor
    /// before the start or past the end of the buffer.
    pub fn seek_relative(&mut self, offset: i64) -> (r: Result<(), ReaderError>)
        ensures
            match old(self)@.seek(old(self)@.cursor + offset) {
                Ok(moved) => r == Ok::<(), ReaderError>(()) && final(self)@ == moved,
                Err(e) => r == Err::<(), ReaderError>(e) && final(self)@ == old(self)@,
            },
    {
        proof {
            use_type_invariant(&*self);
        }
        if offset >= 0 {
            let forward: u64 = offset as u64;
            if forward <= (self.data.len() - self.pos) as u64 {
                self.pos = self.pos + forward as usize;
                Ok(())
            } else {
                Err(ReaderError::Read)
            }
        } else {
            let backward: u64 = (-(offset + 1)) as u64 + 1;
            if backward <= self.pos as u64 {
                self.pos = self.pos - backward as usize;
                Ok(())
            } else {
                Err(ReaderError::Read)
            }
        }
    }

    /// Reads the little-endian 32-bit word at the cursor and moves the cursor
    /// past it. Fails, leaving the image as it was, when fewer than four
    /// bytes are left.
    pub fn read_u32_le(&mut self) -> (r: Result<u32, ReaderError>)
        ensures
            old(self)@.wf(),
            old(self)@.cursor + 4 <= old(self)@.bytes.len() ==> r == Ok::<u32, ReaderError>(
                word_at(old(self)@.bytes, old(self)@.cursor as int),
            ) && final(self)@ == old(self)@.at(old(self)@.cursor as int + 4),
            old(self)@.cursor + 4 > old(self)@.bytes.len() ==> r == Err::<u32, ReaderError>(
                ReaderError::Read,
            ) && final(self)@ == old(self)@,
    {
        proof {
            use_type_invariant(&*self);
        }
        if self.data.len() - self.pos < 4 {
            return Err(ReaderError::Read);
        }
        let b0: u32 = self.data[self.pos] as u32;
        let b1: u32 = self.data[self.pos + 1] as u32;
        let b2: u32 = self.data[self.pos + 2] as u32;
        let b3: u32 = self.data[self.pos + 3] as u32;
        self.pos = self.pos + 4;
        Ok(b0 + 0x100 * b1 + 0x1_0000 * b2 + 0x100_0000 * b3)
    }

    /// Overwrites the byte at `index`; the cursor stays. Fails, leaving the
    /// image as it was, when `index` is not inside the buffer.
    pub fn write_u8(&mut self, index: usize, value: u8) -> (r: Result<(), ReaderError>)
        ensures
            index < old(self)@.bytes.len() ==> r == Ok::<(), ReaderError>(()) && final(self)@ == (
            ImageState {
                bytes: old(self)@.bytes.update(index as int, value),
                cursor: old(self)@.cursor,
            }),
            index >= old(self)@.bytes.len() ==> r == Err::<(), ReaderError>(ReaderError::Read)
                && final(self)@ == old(self)@,
    {
        proof {
            use_type_invariant(&*self);
        }
        if index < self.data.len() {
            self.data[index] = value;
            Ok(())
        } else {
            Err(ReaderError::Read)
        }
    }
}

} // verus!
