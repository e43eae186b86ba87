use deterministic_ball_sim::picture::{grey_picture, grey_picture_of_bytes, PICTURE_BYTES, PICTURE_ROWS, PICTURE_WIDTH};

#[test]
fn picture_has_one_grey_column_per_key() {
    let words: Vec<u32> = (0..4096u32).map(|k| k.wrapping_mul(2_654_435_761)).collect();
    let rgb = grey_picture(&words);
    assert_eq!(rgb.len(), PICTURE_BYTES);
    assert_eq!(PICTURE_BYTES, PICTURE_WIDTH * 3 * PICTURE_ROWS);
    for i in 0..PICTURE_ROWS {
        for j in 0..PICTURE_WIDTH {
            let grey = (words[2 * j] / 16777216) as u8;
            for c in 0..3 {
                assert_eq!(rgb[3 * (j + 2048 * i) + c], grey);
            }
        }
    }
}

#[test]
fn grey_level_is_the_top_byte_and_odd_words_are_ignored() {
    let mut words = vec![0u32; 4095];
    words[0] = 0xAB00_0000;
    words[1] = 0xFFFF_FFFF;
    words[2] = 0x00FF_FFFF;
    words[4094] = 0x7F12_3456;
    let rgb = grey_picture(&words);
    assert_eq!(&rgb[0..6], &[0xAB, 0xAB, 0xAB, 0, 0, 0]);
    assert_eq!(&rgb[6141..6144], &[0x7F, 0x7F, 0x7F]);
    assert_eq!(&rgb[614400 - 3..], &[0x7F, 0x7F, 0x7F]);
    assert_eq!(&rgb[6144..6147], &[0xAB, 0xAB, 0xAB]);
}

#[test]
fn picture_of_bytes_reads_the_words_in_machine_order() {
    let words: Vec<u32> = (0..4096u32).map(|k| k.wrapping_mul(0x9E37_79B9) ^ (k << 24)).collect();
    let bytes: &[u8] = bytemuck::cast_slice(&words);
    let rgb = grey_picture_of_bytes(bytes).expect("bytes of a word vector are aligned");
    assert_eq!(rgb, grey_picture(&words));
    assert_eq!(rgb[3 * 5], (words[10] >> 24) as u8);
}

#[test]
fn picture_of_bytes_refuses_a_length_that_is_not_whole_words() {
    let words = vec![0x1234_5678u32; 4097];
    let bytes: &[u8] = bytemuck::cast_slice(&words);
    assert!(grey_picture_of_bytes(&bytes[..16381]).is_none());
    assert!(grey_picture_of_bytes(&bytes[..16383]).is_none());
    let whole = grey_picture_of_bytes(&bytes[..16384]).unwrap();
    assert!(whole.iter().all(|&g| g == 0x12));
}
