use serial_terminal::event::{
    encode_char, encode_key, KeyCode, ALT, CONTROL, HYPER, META, NO_MODIFIERS, SHIFT, SUPER,
};

#[test]
fn modifier_bits() {
    assert_eq!(NO_MODIFIERS, 0);
    assert_eq!(SHIFT, 1);
    assert_eq!(CONTROL, 2);
    assert_eq!(ALT, 4);
    assert_eq!(SUPER, 8);
    assert_eq!(HYPER, 16);
    assert_eq!(META, 32);
}

#[test]
fn key_up_is_escape_bracket_a() {
    assert_eq!(encode_key(KeyCode::Up), vec![27, 91, 65]);
}

#[test]
fn character_a_is_its_single_byte() {
    assert_eq!(encode_key(KeyCode::Char('A')), vec![65]);
}

#[test]
fn the_whole_key_table() {
    assert_eq!(encode_key(KeyCode::Backspace), vec![8]);
    assert_eq!(encode_key(KeyCode::Tab), vec![9]);
    assert_eq!(encode_key(KeyCode::Enter), vec![10]);
    assert_eq!(encode_key(KeyCode::Esc), vec![27]);
    assert_eq!(encode_key(KeyCode::Up), vec![27, 91, 65]);
    assert_eq!(encode_key(KeyCode::Down), vec![27, 91, 66]);
    assert_eq!(encode_key(KeyCode::Right), vec![27, 91, 67]);
    assert_eq!(encode_key(KeyCode::Left), vec![27, 91, 68]);
    assert_eq!(encode_key(KeyCode::End), vec![27, 91, 70]);
    assert_eq!(encode_key(KeyCode::Home), vec![27, 91, 72]);
    assert_eq!(encode_key(KeyCode::BackTab), vec![27, 91, 90]);
    assert_eq!(encode_key(KeyCode::Insert), vec![27, 91, 50, 126]);
    assert_eq!(encode_key(KeyCode::Delete), vec![27, 91, 51, 126]);
    assert_eq!(encode_key(KeyCode::PageUp), vec![27, 91, 53, 126]);
    assert_eq!(encode_key(KeyCode::PageDown), vec![27, 91, 54, 126]);
}

#[test]
fn unmapped_keys_give_no_bytes() {
    assert_eq!(encode_key(KeyCode::Other), Vec::<u8>::new());
    assert_eq!(encode_key(KeyCode::F(1)), Vec::<u8>::new());
    assert_eq!(encode_key(KeyCode::F(12)), Vec::<u8>::new());
}

#[test]
fn characters_of_each_width() {
    assert_eq!(encode_char('h'), vec![0x68]);
    assert_eq!(encode_char('\u{0}'), vec![0x00]);
    assert_eq!(encode_char('\u{7f}'), vec![0x7f]);
    assert_eq!(encode_char('\u{80}'), vec![0xc2, 0x80]);
    assert_eq!(encode_char('é'), vec![0xc3, 0xa9]);
    assert_eq!(encode_char('\u{7ff}'), vec![0xdf, 0xbf]);
    assert_eq!(encode_char('\u{800}'), vec![0xe0, 0xa0, 0x80]);
    assert_eq!(encode_char('€'), vec![0xe2, 0x82, 0xac]);
    assert_eq!(encode_char('\u{d7ff}'), vec![0xed, 0x9f, 0xbf]);
    assert_eq!(encode_char('\u{e000}'), vec![0xee, 0x80, 0x80]);
    assert_eq!(encode_char('\u{ffff}'), vec![0xef, 0xbf, 0xbf]);
    assert_eq!(encode_char('\u{10000}'), vec![0xf0, 0x90, 0x80, 0x80]);
    assert_eq!(encode_char('😀'), vec![0xf0, 0x9f, 0x98, 0x80]);
    assert_eq!(encode_char('\u{10ffff}'), vec![0xf4, 0x8f, 0xbf, 0xbf]);
}

#[test]
fn every_character_is_encoded_as_the_standard_library_does() {
    let mut buffer = [0u8; 4];
    for scalar in 0u32..=0x10ffff {
        if let Some(ch) = char::from_u32(scalar) {
            let expected = ch.encode_utf8(&mut buffer).as_bytes();
            assert_eq!(encode_char(ch).as_slice(), expected, "U+{:04X}", scalar);
        }
    }
}

#[test]
fn a_character_key_is_its_encoding() {
    assert_eq!(encode_key(KeyCode::Char('i')), vec![105]);
    assert_eq!(encode_key(KeyCode::Char('ß')), "ß".as_bytes().to_vec());
    assert_eq!(encode_key(KeyCode::Char('語')), "語".as_bytes().to_vec());
}
