use crate::error::ReaderError;
use crate::image::{word_at, word_of, ByteImage, ImageState};
use vstd::prelude::*;

verus! {

/// The value that the two masked words of a header add up to.
pub const MAGIC: u32 = 0xF714_0067;

/// The number of bytes that one step of the scan reads: two words.
pub const PATTERN_LEN: u64 = 8;

/// Keeps the second and fourth byte of a word.
pub const ODD_LANES: u32 = 0xFF00_FF00;

/// Keeps the first and third byte of a word.
pub const EVEN_LANES: u32 = 0x00FF_00FF;

/// The odd byte lanes of `w1` plus the even byte lanes of `w2`, reduced
/// modulo 2^32.
pub open spec fn combined(w1: u32, w2: u32) -> u32 {
    (((w1 & ODD_LANES) + (w2 & EVEN_LANES)) % 0x1_0000_0000) as u32
}

/// A header stands at offset `i`: eight bytes are there, and the two words
/// they hold combine to [`MAGIC`].
pub open spec fn header_at(bytes: Seq<u8>, i: int) -> bool {
    &&& 0 <= i
    &&& i + PATTERN_LEN <= bytes.len()
    &&& combined(word_at(bytes, i), word_at(bytes, i + 4)) == MAGIC
}

/// The offsets that a scan from `start` reads: every offset from `start` on
/// that leaves more than eight bytes before the end.
pub open spec fn scanned(bytes: Seq<u8>, start: int, i: int) -> bool {
    start <= i && i + PATTERN_LEN < bytes.len()
}

/// `f` is the first scanned offset at which a header stands.
pub open spec fn first_header(bytes: Seq<u8>, start: int, f: int) -> bool {
    &&& scanned(bytes, start, f)
    &&& header_at(bytes, f)
    &&& forall|j: int| scanned(bytes, start, j) && j < f ==> !#[trigger] header_at(bytes, j)
}

/// What a scan from `start` finds: the first scanned offset with a header,
/// if there is one. Where `start` itself leaves eight bytes or fewer, no
/// offset is scanned and nothing is found.
pub open spec fn locate(bytes: Seq<u8>, start: int) -> Option<int> {
    if exists|f: int| first_header(bytes, start, f) {
        Some(choose|f: int| first_header(bytes, start, f))
    } else {
        None
    }
}

/// Where a scan from `start` leaves the cursor: past the header it found;
/// past the last offset it read when it found none; and where it was when
/// it read nothing.
pub open spec fn scan_end(image: ImageState, start: int) -> int {
    match locate(image.bytes, start) {
        Some(f) => f + PATTERN_LEN,
        None => if scanned(image.bytes, start, start) {
            image.bytes.len() - 1
        } else {
            image.cursor as int
        },
    }
}

/// The two masks share no bit, so the sum of the masked words never carries
/// out of 32 bits: reducing it modulo 2^32 changes nothing, and it is the
/// bitwise union of the two masked words.
pub proof fn lemma_combined_never_carries(w1: u32, w2: u32)
    ensures
        (w1 & ODD_LANES) + (w2 & EVEN_LANES) <= u32::MAX,
        combined(w1, w2) == (w1 & ODD_LANES) + (w2 & EVEN_LANES),
        combined(w1, w2) == (w1 & ODD_LANES) | (w2 & EVEN_LANES),
{
    assert((w1 & 0xFF00_FF00u32) + (w2 & 0x00FF_00FFu32) <= 0xFFFF_FFFF) by (bit_vector);
    assert((w1 & 0xFF00_FF00u32) + (w2 & 0x00FF_00FFu32)
        == (w1 & 0xFF00_FF00u32) | (w2 & 0x00FF_00FFu32)) by (bit_vector);
}

/// What each mask keeps of a word, in terms of the word's bytes.
proof fn lemma_lanes(b0: u8, b1: u8, b2: u8, b3: u8)
    ensures
        word_of(b0, b1, b2, b3) & ODD_LANES == 0x100 * b1 + 0x100_0000 * b3,
        word_of(b0, b1, b2, b3) & EVEN_LANES == b0 + 0x1_0000 * b2,
{
    let word: u32 = word_of(b0, b1, b2, b3);
    assert(word & 0xFF00_FF00u32 == 0x100 * (b1 as u32) + 0x100_0000 * (b3 as u32)
        && word & 0x00FF_00FFu32 == (b0 as u32) + 0x1_0000 * (b2 as u32)) by (bit_vector)
        requires
            word == (b0 as u32) + 0x100 * (b1 as u32) + 0x1_0000 * (b2 as u32)
                + 0x100_0000 * (b3 as u32),
    ;
}

/// Of the eight bytes of a header only four are fixed, two in each word:
/// a header stands at `i` exactly when the second and fourth byte there are
/// `00` and `F7` and the fifth and seventh are `67` and `14`. The other four
/// bytes may hold anything.
pub proof fn lemma_header_bytes(bytes: Seq<u8>, i: int)
    requires
        0 <= i,
        i + PATTERN_LEN <= bytes.len(),
    ensures
        header_at(bytes, i) <==> bytes[i + 1] == 0x00 && bytes[i + 3] == 0xF7
            && bytes[i + 4] == 0x67 && bytes[i + 6] == 0x14,
{
    lemma_lanes(bytes[i], bytes[i + 1], bytes[i + 2], bytes[i + 3]);
    lemma_lanes(bytes[i + 4], bytes[i + 5], bytes[i + 6], bytes[i + 7]);
    lemma_combined_never_carries(word_at(bytes, i), word_at(bytes, i + 4));
}

/// At most one offset is the first header of a scan.
pub proof fn lemma_first_header_unique(bytes: Seq<u8>, start: int, f: int, g: int)
    requires
        first_header(bytes, start, f),
        first_header(bytes, start, g),
    ensures
        f == g,
{
}

/// The first header of a scan is what the scan finds.
pub proof fn lemma_first_header_is_located(bytes: Seq<u8>, start: int, f: int)
    requires
        first_header(bytes, start, f),
    ensures
        locate(bytes, start) == Some(f),
{
    let chosen = choose|g: int| first_header(bytes, start, g);
    lemma_first_header_unique(bytes, start, f, chosen);
}

/// A header standing at the offset where the scan starts is found there,
/// as long as that offset is scanned at all.
pub proof fn lemma_header_at_start(bytes: Seq<u8>, start: int)
    requires
        header_at(bytes, start),
        scanned(bytes, start, start),
    ensures
        locate(bytes, start) == Some(start),
{
    lemma_first_header_is_located(bytes, start, start);
}

/// Where no offset is a first header, no scanned offset below `bound` has a
/// header at all.
proof fn lemma_no_first_header(bytes: Seq<u8>, start: int, bound: int)
    requires
        !exists|f: int| first_header(bytes, start, f),
    ensures
        forall|j: int| scanned(bytes, start, j) && j < bound ==> !#[trigger] header_at(bytes, j),
    decreases bound - start,
{
    if bound > start {
        lemma_no_first_header(bytes, start, bound - 1);
        let last = bound - 1;
        if scanned(bytes, start, last) && header_at(bytes, last) {
            assert(first_header(bytes, start, last));
        }
    }
}

/// The two outcomes of a scan, spelled out: it finds `f` exactly when `f`
/// is the first scanned offset with a header, and nothing exactly when no
/// scanned offset has one. What it finds leaves more than eight bytes
/// before the end: a header in the last eight bytes is never found, and a
/// scan that starts there finds nothing.
pub proof fn lemma_locate_cases(bytes: Seq<u8>, start: int)
    ensures
        match locate(bytes, start) {
            Some(f) => first_header(bytes, start, f) && start <= f && f + PATTERN_LEN
                < bytes.len(),
            None => forall|j: int| scanned(bytes, start, j) ==> !#[trigger] header_at(bytes, j),
        },
        start + PATTERN_LEN >= bytes.len() ==> locate(bytes, start).is_none(),
{
    if !exists|f: int| first_header(bytes, start, f) {
        lemma_no_first_header(bytes, start, bytes.len() as int);
    }
}

/// Combines two words as the scan does: the odd byte lanes of `w1` plus the
/// even byte lanes of `w2`, in wrapping 32-bit arithmetic.
pub fn masked_combine(w1: u32, w2: u32) -> (val: u32)
    ensures
        val == combined(w1, w2),
{
    (w1 & ODD_LANES).wrapping_add(w2 & EVEN_LANES)
}

/// Scans forward from `start` for a header. An offset that leaves eight
/// bytes or fewer to the end stops the scan, with `Ok(None)`, before
/// anything is read there. At any other offset the scan seeks there, reads
/// two words and combines them: a sum of [`MAGIC`] ends the scan with that
/// offset, and else the scan moves on by one byte.
///
/// Every read is inside the buffer, so the scan never fails. The bytes are
/// never written; the cursor ends at `scan_end`.
pub fn locate_header(image: &mut ByteImage, start: u64) -> (found: Result<Option<u64>, ReaderError>)
    ensures
        final(image)@.bytes == old(image)@.bytes,
        final(image)@.cursor == scan_end(old(image)@, start as int),
        match found {
            Ok(Some(f)) => locate(old(image)@.bytes, start as int) == Some(f as int),
            Ok(None) => locate(old(image)@.bytes, start as int).is_none(),
            Err(_) => false,
        },
{
    let len: u64 = image.len() as u64;
    let mut i: u64 = start;
    loop
        invariant
            image@.bytes == old(image)@.bytes,
            len == image@.bytes.len(),
            start <= i,
            i == start ==> image@ == old(image)@,
            i > start ==> i + PATTERN_LEN <= len && image@.cursor == i - 1 + PATTERN_LEN,
            forall|j: int|
                scanned(image@.bytes, start as int, j) && j < i
                    ==> !#[trigger] header_at(image@.bytes, j),
        decreases len - i,
    {
        if i >= len || len - i <= PATTERN_LEN {
            assert forall|f: int| !first_header(image@.bytes, start as int, f) by {
                if scanned(image@.bytes, start as int, f) {
                    assert(f < i);
                }
            }
            return Ok(None);
        }
        match image.seek(i) {
            Ok(()) => {},
            Err(e) => {
                return Err(e);
            },
        }
        let w1: u32 = match image.read_u32_le() {
            Ok(word) => word,
            Err(e) => {
                return Err(e);
            },
        };
        let w2: u32 = match image.read_u32_le() {
            Ok(word) => word,
            Err(e) => {
                return Err(e);
            },
        };
        if masked_combine(w1, w2) == MAGIC {
            proof {
                lemma_first_header_is_located(image@.bytes, start as int, i as int);
            }
            return Ok(Some(i));
        }
        assert(!header_at(image@.bytes, i as int));
        i = i + 1;
    }
}

} // verus!
