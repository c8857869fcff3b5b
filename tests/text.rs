use gb_mmo::text::{char_at, encode_char, encode_str, slice_shift_char, Encoder};

#[test]
fn letters_and_digits() {
    assert_eq!(encode_char('A'), 0x80);
    assert_eq!(encode_char('Z'), 0x99);
    assert_eq!(encode_char('a'), 0xA0);
    assert_eq!(encode_char('z'), 0xB9);
    assert_eq!(encode_char('0'), 0xF6);
    assert_eq!(encode_char('9'), 0xFF);
}

#[test]
fn punctuation_and_control() {
    assert_eq!(encode_char('('), 0x9A);
    assert_eq!(encode_char(')'), 0x9B);
    assert_eq!(encode_char(':'), 0x9C);
    assert_eq!(encode_char(';'), 0x9D);
    assert_eq!(encode_char('['), 0x9E);
    assert_eq!(encode_char(']'), 0x9F);
    assert_eq!(encode_char('\''), 0xE0);
    assert_eq!(encode_char('-'), 0xE3);
    assert_eq!(encode_char('?'), 0xE6);
    assert_eq!(encode_char('!'), 0xE7);
    assert_eq!(encode_char('.'), 0xE8);
    assert_eq!(encode_char('>'), 0xED);
    assert_eq!(encode_char('/'), 0xF3);
    assert_eq!(encode_char(','), 0xF4);
    assert_eq!(encode_char(' '), 0x7F);
    assert_eq!(encode_char('\n'), 0x4E);
}

#[test]
fn unknown_characters_become_question_marks() {
    assert_eq!(encode_char('#'), 0xE6);
    assert_eq!(encode_char('é'), 0xE6);
    assert_eq!(encode_char('\u{1F600}'), 0xE6);
}

#[test]
fn encoder_walks_the_text() {
    let mut e = Encoder::new("Ab");
    assert_eq!(e.next(), Some(0x80));
    assert_eq!(e.next(), Some(0xA1));
    assert_eq!(e.next(), None);
    assert_eq!(e.next(), None);
}

#[test]
fn encode_whole_text() {
    assert_eq!(encode_str("PLAYER has"), vec![0x8F, 0x8B, 0x80, 0x98, 0x84, 0x91, 0x7F, 0xA7, 0xA0, 0xB2]);
    assert!(encode_str("").is_empty());
    assert_eq!(encode_str("né"), vec![0xAD, 0xE6]);
}

#[test]
fn shift_and_index_characters() {
    assert_eq!(slice_shift_char(""), None);
    assert_eq!(slice_shift_char("éa"), Some(('é', "a")));
    assert_eq!(char_at("abc", 1), 'b');
    assert_eq!(char_at("héllo", 1), 'é');
}
