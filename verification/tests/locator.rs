use gm8exe::{locate_header, masked_combine, ByteImage, MAGIC};

/// Eight bytes whose two words combine to the magic value; the bytes in
/// the lanes that the masks drop are arbitrary.
const PATTERN: [u8; 8] = [0xAA, 0x00, 0xBB, 0xF7, 0x67, 0xCC, 0x14, 0xDD];

fn filled(len: usize, pattern_at: &[usize]) -> ByteImage {
    let mut bytes = vec![0x11u8; len];
    for &at in pattern_at {
        bytes[at..at + 8].copy_from_slice(&PATTERN);
    }
    ByteImage::new(bytes)
}

#[test]
fn magic_is_the_documented_constant() {
    assert_eq!(MAGIC, 0xF714_0067);
}

#[test]
fn masked_combine_takes_odd_lanes_of_first_and_even_lanes_of_second() {
    assert_eq!(masked_combine(0x1234_5678, 0x9ABC_DEF0), 0x12BC_56F0);
    assert_eq!(masked_combine(0xF700_0000, 0x0014_0067), MAGIC);
    assert_eq!(masked_combine(0xF7AB_00CD, 0x1214_3467), MAGIC);
    assert_eq!(masked_combine(0, 0), 0);
}

#[test]
fn masked_combine_ignores_the_masked_out_lanes() {
    assert_eq!(masked_combine(0x00FF_00FF, 0xFF00_FF00), 0);
    assert_eq!(masked_combine(0xFFFF_FFFF, 0), 0xFF00_FF00);
    assert_eq!(masked_combine(0, 0xFFFF_FFFF), 0x00FF_00FF);
}

#[test]
fn masked_combine_of_the_largest_words_stays_within_32_bits() {
    assert_eq!(masked_combine(u32::MAX, u32::MAX), u32::MAX);
    assert_eq!(
        masked_combine(u32::MAX, u32::MAX) as u64,
        (u32::MAX & 0xFF00_FF00) as u64 + (u32::MAX & 0x00FF_00FF) as u64
    );
}

#[test]
fn pattern_bytes_combine_to_magic() {
    let mut image = ByteImage::new(PATTERN.to_vec());
    let w1 = image.read_u32_le().unwrap();
    let w2 = image.read_u32_le().unwrap();
    assert_eq!(w1, 0xF7BB_00AA);
    assert_eq!(w2, 0xDD14_CC67);
    assert_eq!(masked_combine(w1, w2), MAGIC);
}

#[test]
fn locate_finds_pattern_at_start() {
    let mut image = filled(64, &[16]);
    assert_eq!(locate_header(&mut image, 16), Ok(Some(16)));
    assert_eq!(image.position(), 24);
}

#[test]
fn locate_finds_pattern_after_some_drift() {
    let mut image = filled(64, &[21]);
    assert_eq!(locate_header(&mut image, 16), Ok(Some(21)));
    assert_eq!(image.position(), 29);
}

#[test]
fn locate_returns_the_first_of_two_patterns() {
    let mut image = filled(128, &[40, 80]);
    assert_eq!(locate_header(&mut image, 3), Ok(Some(40)));
    assert_eq!(image.position(), 48);
    assert_eq!(locate_header(&mut image, 41), Ok(Some(80)));
}

#[test]
fn locate_does_not_look_before_start() {
    let mut image = filled(64, &[8]);
    assert_eq!(locate_header(&mut image, 9), Ok(None));
}

#[test]
fn locate_without_pattern_reads_to_one_byte_before_the_end() {
    let mut image = filled(64, &[]);
    assert_eq!(locate_header(&mut image, 0), Ok(None));
    assert_eq!(image.position(), 63);
}

#[test]
fn locate_finds_pattern_nine_bytes_before_the_end() {
    let mut image = filled(64, &[55]);
    assert_eq!(locate_header(&mut image, 10), Ok(Some(55)));
    assert_eq!(image.position(), 63);
}

#[test]
fn locate_gives_up_before_pattern_in_the_last_eight_bytes() {
    let mut image = filled(64, &[56]);
    assert_eq!(locate_header(&mut image, 10), Ok(None));
    assert_eq!(image.position(), 63);
}

#[test]
fn locate_does_not_read_start_in_the_last_eight_bytes() {
    let mut image = filled(64, &[56]);
    assert_eq!(image.seek(5), Ok(()));
    assert_eq!(locate_header(&mut image, 56), Ok(None));
    assert_eq!(image.position(), 5);
}

#[test]
fn locate_from_the_last_full_window_reads_nothing() {
    let mut image = filled(64, &[]);
    assert_eq!(image.seek(7), Ok(()));
    assert_eq!(locate_header(&mut image, 56), Ok(None));
    assert_eq!(image.position(), 7);
}

#[test]
fn locate_from_the_offset_before_the_last_without_pattern() {
    let mut image = filled(64, &[]);
    assert_eq!(locate_header(&mut image, 55), Ok(None));
    assert_eq!(image.position(), 63);
}

#[test]
fn locate_from_the_offset_before_the_last_with_pattern() {
    let mut image = filled(64, &[55]);
    assert_eq!(locate_header(&mut image, 55), Ok(Some(55)));
    assert_eq!(image.position(), 63);
}

#[test]
fn locate_with_fewer_than_eight_bytes_left_finds_nothing() {
    let mut image = filled(64, &[]);
    assert_eq!(image.seek(9), Ok(()));
    assert_eq!(locate_header(&mut image, 57), Ok(None));
    assert_eq!(locate_header(&mut image, 61), Ok(None));
    assert_eq!(locate_header(&mut image, 64), Ok(None));
    assert_eq!(image.position(), 9);
}

#[test]
fn locate_from_past_the_end_finds_nothing() {
    let mut image = filled(64, &[]);
    assert_eq!(image.seek(5), Ok(()));
    assert_eq!(locate_header(&mut image, 65), Ok(None));
    assert_eq!(image.position(), 5);
    assert_eq!(locate_header(&mut image, u64::MAX), Ok(None));
    assert_eq!(locate_header(&mut image, u64::MAX - 7), Ok(None));
    assert_eq!(image.position(), 5);
}

#[test]
fn locate_on_image_of_a_pattern_and_no_more_finds_nothing() {
    let mut image = ByteImage::new(PATTERN.to_vec());
    assert_eq!(locate_header(&mut image, 0), Ok(None));
    assert_eq!(image.position(), 0);
    let mut longer = PATTERN.to_vec();
    longer.push(0);
    let mut image = ByteImage::new(longer);
    assert_eq!(locate_header(&mut image, 0), Ok(Some(0)));
    assert_eq!(image.position(), 8);
}

#[test]
fn locate_on_short_or_empty_image_finds_nothing() {
    let mut image = ByteImage::new(vec![0x67, 0, 0x14]);
    assert_eq!(locate_header(&mut image, 0), Ok(None));
    let mut image = ByteImage::new(Vec::new());
    assert_eq!(locate_header(&mut image, 0), Ok(None));
}

#[test]
fn locate_never_fails() {
    for len in 0..40usize {
        for start in 0..48u64 {
            let mut image = filled(len, &[]);
            assert_eq!(locate_header(&mut image, start), Ok(None));
        }
    }
}

#[test]
fn locate_never_writes() {
    let mut image = filled(96, &[30]);
    let before = image.as_slice().to_vec();
    assert_eq!(locate_header(&mut image, 0), Ok(Some(30)));
    assert_eq!(image.as_slice(), &before[..]);
}

#[test]
fn locate_tolerates_any_bytes_in_the_unmasked_lanes() {
    let mut bytes = vec![0u8; 32];
    bytes[8..16].copy_from_slice(&[0x00, 0x00, 0xFF, 0xF7, 0x67, 0x01, 0x14, 0x02]);
    let mut image = ByteImage::new(bytes);
    assert_eq!(locate_header(&mut image, 0), Ok(Some(8)));
}
