use staffat_firmware::entropy::{fill_from_words, words_for};

#[test]
fn words_give_their_bytes_most_significant_first() {
    let words = vec![0x0102_0304, 0xa0b0_c0d0];
    assert_eq!(
        fill_from_words(8, &words),
        vec![0x01, 0x02, 0x03, 0x04, 0xa0, 0xb0, 0xc0, 0xd0]
    );
    assert_eq!(fill_from_words(6, &words), vec![0x01, 0x02, 0x03, 0x04, 0xa0, 0xb0]);
    assert_eq!(fill_from_words(1, &words), vec![0x01]);
    assert_eq!(fill_from_words(0, &words), Vec::<u8>::new());
    assert_eq!(fill_from_words(0, &Vec::new()), Vec::<u8>::new());
    assert_eq!(fill_from_words(4, &vec![u32::MAX]), vec![0xff; 4]);
    assert_eq!(fill_from_words(4, &vec![5]), 5u32.to_be_bytes().to_vec());
}

#[test]
fn a_word_is_needed_for_every_four_bytes_or_part_of_them() {
    assert_eq!(words_for(0), 0);
    assert_eq!(words_for(1), 1);
    assert_eq!(words_for(4), 1);
    assert_eq!(words_for(5), 2);
    assert_eq!(words_for(8), 2);
    assert_eq!(words_for(usize::MAX), usize::MAX / 4 + 1);
}
