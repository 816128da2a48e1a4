use ilo_toki::input_buffer::InputBuffer;

fn chars(s: &str) -> Vec<char> {
    s.chars().collect()
}

fn check_lockstep(b: &InputBuffer) {
    // The byte offset equals the byte length of the characters before the
    // character offset, and the character offset counts those characters.
    assert!(b.char_pos <= b.chars.len());
    let byte_len: usize = b.chars[..b.char_pos].iter().map(|c| c.len_utf8()).sum();
    assert_eq!(b.byte_pos, byte_len);
    let total: usize = b.chars.iter().map(|c| c.len_utf8()).sum();
    assert_eq!(b.total_bytes, total);
}

#[test]
fn new_buffer_is_empty() {
    let b = InputBuffer::new();
    assert_eq!(b.chars.len(), 0);
    assert_eq!(b.char_pos, 0);
    assert_eq!(b.byte_pos, 0);
    check_lockstep(&b);
}

#[test]
fn insert_ascii_advances_one_byte() {
    let mut b = InputBuffer::new();
    b.insert('a');
    b.insert('b');
    assert_eq!(b.chars, chars("ab"));
    assert_eq!(b.char_pos, 2);
    assert_eq!(b.byte_pos, 2);
    check_lockstep(&b);
}

#[test]
fn insert_multibyte_advances_encoded_width() {
    let mut b = InputBuffer::new();
    b.insert('e');
    b.insert('\u{e9}'); // 2 bytes
    b.insert('\u{8a9e}'); // 3 bytes
    b.insert('\u{1f980}'); // 4 bytes
    assert_eq!(b.char_pos, 4);
    assert_eq!(b.byte_pos, 1 + 2 + 3 + 4);
    check_lockstep(&b);
}

#[test]
fn move_left_and_right_step_one_character() {
    let mut b = InputBuffer::new();
    b.insert('a');
    b.insert('\u{e9}');
    b.insert('b');
    b.move_left();
    assert_eq!(b.char_pos, 2);
    assert_eq!(b.byte_pos, 3);
    b.move_left();
    assert_eq!(b.char_pos, 1);
    assert_eq!(b.byte_pos, 1);
    b.move_left();
    assert_eq!(b.char_pos, 0);
    assert_eq!(b.byte_pos, 0);
    // At the start a further move does nothing.
    b.move_left();
    assert_eq!(b.char_pos, 0);
    b.move_right();
    assert_eq!(b.char_pos, 1);
    assert_eq!(b.byte_pos, 1);
    check_lockstep(&b);
}

#[test]
fn move_right_at_end_is_noop() {
    let mut b = InputBuffer::new();
    b.insert('x');
    b.move_right();
    assert_eq!(b.char_pos, 1);
    assert_eq!(b.byte_pos, 1);
    check_lockstep(&b);
}

#[test]
fn insert_mid_buffer() {
    let mut b = InputBuffer::new();
    b.insert('a');
    b.insert('c');
    b.move_left();
    b.insert('\u{e9}');
    assert_eq!(b.chars, chars("a\u{e9}c"));
    assert_eq!(b.char_pos, 2);
    assert_eq!(b.byte_pos, 3);
    check_lockstep(&b);
}

#[test]
fn backspace_removes_character_before_cursor() {
    let mut b = InputBuffer::new();
    b.insert('a');
    b.insert('\u{8a9e}');
    b.insert('b');
    b.move_left();
    b.backspace();
    assert_eq!(b.chars, chars("ab"));
    assert_eq!(b.char_pos, 1);
    assert_eq!(b.byte_pos, 1);
    check_lockstep(&b);
}

#[test]
fn backspace_at_start_is_noop() {
    let mut b = InputBuffer::new();
    b.insert('a');
    b.move_left();
    b.backspace();
    assert_eq!(b.chars, chars("a"));
    assert_eq!(b.char_pos, 0);
    check_lockstep(&b);
}

#[test]
fn random_walk_keeps_lockstep() {
    // A fixed pseudo-random sequence of operations on mixed-width text.
    let mut b = InputBuffer::new();
    let alphabet = ['a', '\u{e9}', '\u{8a9e}', '\u{1f980}', 'z'];
    let mut seed: u64 = 0x2545F4914F6CDD1D;
    for _ in 0..500 {
        seed = seed.wrapping_mul(6364136223846793005).wrapping_add(1442695040888963407);
        match seed % 4 {
            0 => b.insert(alphabet[(seed >> 8) as usize % alphabet.len()]),
            1 => b.backspace(),
            2 => b.move_left(),
            _ => b.move_right(),
        }
        check_lockstep(&b);
    }
}

#[test]
fn take_empties_and_returns_contents() {
    let mut b = InputBuffer::new();
    b.insert('h');
    b.insert('i');
    let taken = b.take();
    assert_eq!(taken, chars("hi"));
    assert_eq!(b.chars.len(), 0);
    assert_eq!(b.char_pos, 0);
    assert_eq!(b.byte_pos, 0);
    check_lockstep(&b);
}

#[test]
fn from_text_puts_cursor_at_end() {
    let b = InputBuffer::from_text(chars("a\u{e9}\u{8a9e}")).unwrap();
    assert_eq!(b.char_pos, 3);
    assert_eq!(b.byte_pos, 6);
    check_lockstep(&b);
}
