use learning_os::keyboard::{echo_key, keyboard_interrupt, KeyOutput, KeyboardDecoder};
use learning_os::vga_buffer::{Color, Writer, BUFFER_HEIGHT};

#[test]
fn make_code_of_a_decodes_to_a() {
    let mut k = KeyboardDecoder::new();
    assert_eq!(k.add_scancode(0x1E), Some(KeyOutput::Unicode('a')));
}

#[test]
fn orphan_byte_is_dropped_and_decoder_recovers() {
    let mut k = KeyboardDecoder::new();
    assert_eq!(k.add_scancode(0x59), None);
    assert_eq!(k.add_scancode(0x1E), Some(KeyOutput::Unicode('a')));
}

#[test]
fn release_code_yields_nothing() {
    let mut k = KeyboardDecoder::new();
    assert_eq!(k.add_scancode(0x1E), Some(KeyOutput::Unicode('a')));
    assert_eq!(k.add_scancode(0x9E), None);
}

#[test]
fn shift_gives_capital() {
    let mut k = KeyboardDecoder::new();
    assert_eq!(k.add_scancode(0x2A), None);
    assert_eq!(k.add_scancode(0x1E), Some(KeyOutput::Unicode('A')));
}

#[test]
fn extended_sequence_gives_named_key() {
    let mut k = KeyboardDecoder::new();
    assert_eq!(k.add_scancode(0xE0), None);
    assert_eq!(k.add_scancode(0x48), Some(KeyOutput::RawKey(String::from("ArrowUp"))));
}

#[test]
fn keyboard_interrupt_echoes_character() {
    let mut k = KeyboardDecoder::new();
    let mut w = Writer::new(Color::Yellow, Color::Black);
    let r = keyboard_interrupt(&mut k, &mut w, 0x1E);
    assert_eq!(r, Some(KeyOutput::Unicode('a')));
    assert_eq!(w.read_cell(BUFFER_HEIGHT - 1, 0).character, b'a');
    assert_eq!(w.column_position(), 1);
    let r = keyboard_interrupt(&mut k, &mut w, 0x59);
    assert_eq!(r, None);
    assert_eq!(w.column_position(), 1);
}

#[test]
fn echo_named_key_writes_its_name() {
    let mut w = Writer::new(Color::Yellow, Color::Black);
    echo_key(&mut w, &KeyOutput::RawKey(String::from("F1")));
    assert_eq!(w.read_cell(BUFFER_HEIGHT - 1, 0).character, b'F');
    assert_eq!(w.read_cell(BUFFER_HEIGHT - 1, 1).character, b'1');
    assert_eq!(w.column_position(), 2);
}

#[test]
fn echo_character_writes_it() {
    let mut w = Writer::new(Color::Yellow, Color::Black);
    echo_key(&mut w, &KeyOutput::Unicode('z'));
    assert_eq!(w.read_cell(BUFFER_HEIGHT - 1, 0).character, b'z');
    assert_eq!(w.column_position(), 1);
}

#[test]
fn release_then_make_code_still_decodes() {
    let mut k = KeyboardDecoder::new();
    let mut w = Writer::new(Color::Yellow, Color::Black);
    assert_eq!(keyboard_interrupt(&mut k, &mut w, 0x9E), None);
    assert_eq!(w.column_position(), 0);
    assert_eq!(keyboard_interrupt(&mut k, &mut w, 0x1E), Some(KeyOutput::Unicode('a')));
    assert_eq!(w.read_cell(BUFFER_HEIGHT - 1, 0).character, b'a');
}

#[test]
fn prefix_is_cleared_by_next_byte() {
    let mut k = KeyboardDecoder::new();
    assert_eq!(k.add_scancode(0xE0), None);
    // 0x1E is no extended key: the pair is dropped and the prefix is gone.
    assert_eq!(k.add_scancode(0x1E), None);
    assert_eq!(k.add_scancode(0x1E), Some(KeyOutput::Unicode('a')));
}

#[test]
fn garbage_run_then_a() {
    let mut k = KeyboardDecoder::new();
    for b in [0x00u8, 0x59, 0x5A, 0x7F, 0xD9, 0xFF] {
        assert_eq!(k.add_scancode(b), None);
    }
    assert_eq!(k.add_scancode(0x1E), Some(KeyOutput::Unicode('a')));
}

#[test]
fn named_key_echo_is_its_name() {
    let mut k = KeyboardDecoder::new();
    let mut w = Writer::new(Color::Yellow, Color::Black);
    assert_eq!(keyboard_interrupt(&mut k, &mut w, 0xE0), None);
    let r = keyboard_interrupt(&mut k, &mut w, 0x48);
    assert_eq!(r, Some(KeyOutput::RawKey(String::from("ArrowUp"))));
    let shown: Vec<u8> = (0..7).map(|c| w.read_cell(BUFFER_HEIGHT - 1, c).character).collect();
    assert_eq!(shown, b"ArrowUp".to_vec());
}
