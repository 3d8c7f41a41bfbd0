use ledboard::leds::{Led, LedByte, Leds, ZigZag, BYTES_PER_LED, RESET_BYTES};

const OFF: Led = Led { red: 0, green: 0, blue: 0, white: 0 };

fn slot_of(index: usize, cols: usize) -> usize {
    let (x, y) = (index % cols, index / cols);
    if x % 2 == 0 {
        x * cols + y
    } else {
        (x + 1) * cols - y - 1
    }
}

fn slots<const N: usize>(cols: usize) -> Vec<usize> {
    let mut walk = ZigZag::<N>::new(cols);
    let mut out = Vec::new();
    while let Some(start) = walk.next() {
        assert_eq!((start - RESET_BYTES) % BYTES_PER_LED, 0);
        out.push((start - RESET_BYTES) / BYTES_PER_LED);
    }
    assert_eq!(walk.next(), None);
    out
}

fn assert_permutation(slots: &[usize], n: usize) {
    assert_eq!(slots.len(), n);
    let mut seen = vec![false; n];
    for &slot in slots {
        assert!(slot < n);
        assert!(!seen[slot], "slot {} taken twice", slot);
        seen[slot] = true;
    }
    assert!(seen.iter().all(|s| *s));
}

#[test]
fn default_pixel_is_off() {
    assert_eq!(Led::default(), OFF);
}

#[test]
fn frame_constants() {
    assert_eq!(RESET_BYTES, 64);
    assert_eq!(BYTES_PER_LED, 16);
}

#[test]
fn template_table() {
    assert_eq!(LedByte::from_byte(0b00_00_00_00).0, [0x88, 0x88, 0x88, 0x88]);
    assert_eq!(LedByte::from_byte(0b01_01_01_01).0, [0x8c, 0x8c, 0x8c, 0x8c]);
    assert_eq!(LedByte::from_byte(0b10_10_10_10).0, [0xc8, 0xc8, 0xc8, 0xc8]);
    assert_eq!(LedByte::from_byte(0b11_11_11_11).0, [0xcc, 0xcc, 0xcc, 0xcc]);
}

#[test]
fn most_significant_pair_comes_first() {
    assert_eq!(LedByte::from_byte(0b00_01_10_11).0, [0x88, 0x8c, 0xc8, 0xcc]);
    assert_eq!(LedByte::from_byte(0b11_10_01_00).0, [0xcc, 0xc8, 0x8c, 0x88]);
    assert_eq!(LedByte::from_byte(200).0, [0xcc, 0x88, 0xc8, 0x88]);
    assert_eq!(LedByte::from_byte(1).0, [0x88, 0x88, 0x88, 0x8c]);
    assert_eq!(LedByte::from_byte(128).0, [0xc8, 0x88, 0x88, 0x88]);
}

#[test]
fn every_channel_value_survives_encoding() {
    let mut words = Vec::new();
    for value in 0..=255u8 {
        let word = LedByte::from_byte(value);
        assert_eq!(word.to_byte(), Some(value));
        assert!(!words.contains(&word.0), "two values share a word");
        words.push(word.0);
    }
    assert_eq!(words.len(), 256);
}

#[test]
fn bytes_that_are_no_template_decode_to_nothing() {
    assert_eq!(LedByte([0x88, 0x88, 0x88, 0x00]).to_byte(), None);
    assert_eq!(LedByte([0xff, 0x88, 0x88, 0x88]).to_byte(), None);
    assert_eq!(LedByte([0x88, 0x89, 0x88, 0x88]).to_byte(), None);
    assert_eq!(LedByte([0x88, 0x88, 0xc9, 0x88]).to_byte(), None);
    assert_eq!(LedByte([0xcc, 0xc8, 0x8c, 0x88]).to_byte(), Some(0b11_10_01_00));
}

#[test]
fn zigzag_on_twelve_columns() {
    let slots = slots::<144>(12);
    assert_eq!(slots[0], 0);
    assert_eq!(slots[1], 23);
    assert_eq!(slots[2], 24);
    assert_eq!(slots[3], 47);
    assert_eq!(slots[11], 143);
    assert_eq!(slots[12], 1);
    assert_eq!(slots[13], 22);
    assert_eq!(slots[143], 132);
    for (index, slot) in slots.iter().enumerate() {
        assert_eq!(*slot, slot_of(index, 12));
    }
}

#[test]
fn zigzag_first_pixel_starts_after_the_pause() {
    let mut walk = ZigZag::<144>::new(12);
    assert_eq!(walk.next(), Some(64));
    assert_eq!(walk.next(), Some(64 + 23 * 16));
}

#[test]
fn zigzag_is_a_permutation_for_every_width() {
    assert_permutation(&slots::<1>(1), 1);
    assert_permutation(&slots::<4>(2), 4);
    assert_permutation(&slots::<9>(3), 9);
    assert_permutation(&slots::<25>(5), 25);
    assert_permutation(&slots::<64>(8), 64);
    assert_permutation(&slots::<144>(12), 144);
    assert_permutation(&slots::<169>(13), 169);
    assert_permutation(&slots::<1024>(32), 1024);
}

#[test]
fn zigzag_snakes_through_the_columns() {
    assert_eq!(slots::<9>(3), vec![0, 5, 6, 1, 4, 7, 2, 3, 8]);
    assert_eq!(slots::<4>(2), vec![0, 3, 1, 2]);
}

#[test]
fn frame_has_pause_pixels_pause() {
    let leds = Leds::<144>::new(12);
    let frame = leds.update(&[Led { red: 255, green: 255, blue: 255, white: 255 }; 144]);
    assert_eq!(frame.len(), 2 * 64 + 16 * 144);
    assert!(frame[..64].iter().all(|b| *b == 0));
    assert!(frame[64 + 16 * 144..].iter().all(|b| *b == 0));
    assert!(frame[64..64 + 16 * 144].iter().all(|b| *b == 0xcc));
}

#[test]
fn empty_picture_switches_every_pixel_off() {
    let leds = Leds::<144>::new(12);
    let frame = leds.update(&[]);
    assert_eq!(frame.len(), 2432);
    assert!(frame[..64].iter().all(|b| *b == 0));
    assert!(frame[64..2368].iter().all(|b| *b == 0x88));
    assert!(frame[2368..].iter().all(|b| *b == 0));
}

#[test]
fn channels_go_out_green_red_blue_white() {
    let leds = Leds::<1>::new(1);
    let frame = leds.update(&[Led { red: 0b01_01_01_01, green: 0, blue: 0b10_10_10_10, white: 0xff }]);
    let mut expected = vec![0u8; 64];
    expected.extend_from_slice(&[0x88; 4]);
    expected.extend_from_slice(&[0x8c; 4]);
    expected.extend_from_slice(&[0xc8; 4]);
    expected.extend_from_slice(&[0xcc; 4]);
    expected.extend_from_slice(&[0u8; 64]);
    assert_eq!(frame, expected);
}

#[test]
fn pixels_land_in_their_slots() {
    let leds = Leds::<9>::new(3);
    let pixels: Vec<Led> =
        (0..9u8).map(|i| Led { red: i, green: 10 + i, blue: 20 + i, white: 30 + i }).collect();
    let frame = leds.update(&pixels);
    assert_eq!(frame.len(), 128 + 16 * 9);
    for (index, led) in pixels.iter().enumerate() {
        let start = 64 + 16 * slot_of(index, 3);
        assert_eq!(frame[start..start + 4], LedByte::from_byte(led.green).0);
        assert_eq!(frame[start + 4..start + 8], LedByte::from_byte(led.red).0);
        assert_eq!(frame[start + 8..start + 12], LedByte::from_byte(led.blue).0);
        assert_eq!(frame[start + 12..start + 16], LedByte::from_byte(led.white).0);
    }
}

#[test]
fn second_pixel_of_a_twelve_column_panel() {
    let leds = Leds::<144>::new(12);
    let frame = leds.update(&[OFF, Led { red: 0, green: 0, blue: 0, white: 0b00_00_00_11 }]);
    let start = 64 + 23 * 16;
    for (k, byte) in frame.iter().enumerate() {
        let expected = if k < 64 || k >= 2368 {
            0
        } else if k == start + 15 {
            0xcc
        } else {
            0x88
        };
        assert_eq!(*byte, expected, "byte {}", k);
    }
}

#[test]
fn short_picture_leaves_the_rest_off() {
    let leds = Leds::<4>::new(2);
    let lit = Led { red: 255, green: 255, blue: 255, white: 255 };
    let frame = leds.update(&[lit, lit]);
    // logical 0 and 1 sit in the slots 0 and 3
    assert!(frame[64..80].iter().all(|b| *b == 0xcc));
    assert!(frame[80..112].iter().all(|b| *b == 0x88));
    assert!(frame[112..128].iter().all(|b| *b == 0xcc));
    assert!(frame[128..].iter().all(|b| *b == 0));
}

#[test]
fn pixels_beyond_the_panel_are_not_shown() {
    let leds = Leds::<4>::new(2);
    let lit = Led { red: 1, green: 2, blue: 3, white: 4 };
    let exact = leds.update(&[lit; 4]);
    let more = leds.update(&[lit; 9]);
    assert_eq!(exact, more);
    assert_eq!(more.len(), 128 + 64);
}

#[test]
fn fill_paints_every_pixel() {
    let leds = Leds::<144>::new(12);
    let flash = Led { red: 8, green: 0, blue: 0, white: 0 };
    assert_eq!(leds.fill(flash), leds.update(&[flash; 144]));
    assert_eq!(leds.fill(OFF), leds.update(&[]));
}
