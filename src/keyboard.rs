//! Keyboard input: scancode-set-1 bytes are decoded by pc_keyboard's state
//! machine, and each decoded key is echoed on the console.
use vstd::prelude::*;
use vstd::string::StringSliceAdditionalSpecFns;
use vstd::utf8::encode_utf8;
use pc_keyboard::layouts::Us104Key;
use pc_keyboard::{DecodedKey, HandleControl, KeyCode, KeyEvent, KeyState, Keyboard, ScancodeSet1};
use crate::vga_buffer::{put_bytes, shown_bytes, Writer};

verus! {

/// pc_keyboard's KeyEvent: a key code and whether the key went down or up.
#[verifier::external_type_specification]
pub struct ExKeyEvent(KeyEvent);

/// pc_keyboard's KeyCode: the keys, each a variant without fields.
#[verifier::external_type_specification]
pub struct ExKeyCode(KeyCode);

/// pc_keyboard's KeyState: down or up.
#[verifier::external_type_specification]
pub struct ExKeyState(KeyState);

/// pc_keyboard's decode error; every error drops the byte.
#[verifier::external_type_specification]
#[verifier::external_body]
pub struct ExKeyboardError(pc_keyboard::Error);

/// pc_keyboard's DecodedKey, whose two variants the decoder tells apart.
#[verifier::external_type_specification]
pub struct ExDecodedKey(DecodedKey);

/// Keyboard decoder state: holds a partly received multi-byte sequence and
/// the modifier keys held down. The pc_keyboard decoder is kept in a private
/// field, out of Verus's sight: its declaration bounds its parameters by
/// pc_keyboard's traits, which Verus does not accept.
#[verifier::external_body]
pub struct KeyboardDecoder {
    keyboard: Keyboard<Us104Key, ScancodeSet1>,
}

/// Whether the decoder has taken an 0xE0 prefix and waits for the byte that
/// completes the extended sequence.
pub uninterp spec fn prefix_pending(d: KeyboardDecoder) -> bool;

/// Whether letters come out as capitals: a Shift key held, or Caps Lock on,
/// but not both.
pub uninterp spec fn capitals_active(d: KeyboardDecoder) -> bool;

/// The bytes that scancode set 1 maps to a key, as a press or (with the top
/// bit set) as a release; 0xE0 is the extended prefix instead.
pub open spec fn set1_known(b: u8) -> bool {
    let c = if b >= 0x80 { (b - 0x80) as u8 } else { b };
    (0x01 <= c <= 0x53) || c == 0x57 || c == 0x58
}

/// A key's name: ASCII letters and digits, at least one.
pub open spec fn is_key_name(s: Seq<char>) -> bool {
    &&& s.len() > 0
    &&& forall|i: int|
        0 <= i < s.len() ==> ('0' <= #[trigger] s[i] <= '9') || ('A' <= s[i] <= 'Z') || ('a' <= s[i]
            <= 'z')
}

/// Relies on pc_keyboard's Keyboard::new: a US 104-key, scancode-set-1 decoder
/// in its start state, no modifier held, Caps Lock off; Ctrl with a letter is
/// not mapped to a control character.
#[verifier::external_body]
fn new_us104_set1() -> (r: KeyboardDecoder)
    ensures
        !prefix_pending(r),
        !capitals_active(r),
{
    KeyboardDecoder { keyboard: Keyboard::new(Us104Key, ScancodeSet1, HandleControl::Ignore) }
}

/// Relies on pc_keyboard's Keyboard::add_byte with ScancodeSet1::advance_state
/// and map_scancode: it touches only the prefix state; from the start state
/// 0xE0 sets the prefix, a byte below 0x80 is a press and one above a release
/// of the key that the table maps it to, an unmapped byte is an error; the byte
/// after a prefix clears it.
#[verifier::external_body]
fn keyboard_add_byte(decoder: &mut KeyboardDecoder, byte: u8) -> (r: Result<
    Option<KeyEvent>,
    pc_keyboard::Error,
>)
    ensures
        capitals_active(*final(decoder)) == capitals_active(*old(decoder)),
        prefix_pending(*old(decoder)) ==> !prefix_pending(*final(decoder)),
        !prefix_pending(*old(decoder)) && byte == 0xE0 ==> (r matches Ok(None) && prefix_pending(
            *final(decoder),
        )),
        !prefix_pending(*old(decoder)) && byte != 0xE0 ==> !prefix_pending(*final(decoder)),
        !prefix_pending(*old(decoder)) && byte == 0x1E ==> (r matches Ok(Some(e)) && e == (KeyEvent {
            code: KeyCode::A,
            state: KeyState::Down,
        })),
        !prefix_pending(*old(decoder)) && byte != 0xE0 && !set1_known(byte) ==> r is Err,
        !prefix_pending(*old(decoder)) && byte >= 0x80 && byte != 0xE0 ==> (r is Err || (
        r matches Ok(Some(e)) && e.state == KeyState::Up && (byte != 0xAA && byte != 0xB6 ==> (
        e.code != KeyCode::ShiftLeft && e.code != KeyCode::ShiftRight)))),
{
    decoder.keyboard.add_byte(byte)
}

/// Relies on pc_keyboard's Keyboard::process_keyevent with Us104Key's
/// map_keycode: it leaves the prefix state alone; a release gives nothing and
/// changes the capitals only for a Shift key; the A key going down gives 'a',
/// or 'A' with capitals active, and changes no modifier.
#[verifier::external_body]
fn keyboard_process_keyevent(decoder: &mut KeyboardDecoder, ev: KeyEvent) -> (r: Option<
    DecodedKey,
>)
    ensures
        prefix_pending(*final(decoder)) == prefix_pending(*old(decoder)),
        ev.state == KeyState::Up ==> r is None,
        ev.state == KeyState::Up && ev.code != KeyCode::ShiftLeft && ev.code != KeyCode::ShiftRight
            ==> capitals_active(*final(decoder)) == capitals_active(*old(decoder)),
        ev == (KeyEvent { code: KeyCode::A, state: KeyState::Down }) ==> r == Some(
            DecodedKey::Unicode(
                if capitals_active(*old(decoder)) {
                    'A'
                } else {
                    'a'
                },
            ),
        ) && capitals_active(*final(decoder)) == capitals_active(*old(decoder)),
{
    decoder.keyboard.process_keyevent(ev)
}

/// Relies on the derived Debug impl of pc_keyboard's KeyCode: the variant's
/// name, which for every key is ASCII letters and digits.
#[verifier::external_body]
fn key_code_name(code: KeyCode) -> (r: String)
    ensures
        is_key_name(r@),
{
    format!("{:?}", code)
}

/// Relies on std's Display for char: the string of that one character.
#[verifier::external_body]
fn char_string(c: char) -> (r: String)
    ensures
        r@ == seq![c],
{
    c.to_string()
}

/// A decoded key: a character, or the name of a key that has none.
#[derive(Debug, PartialEq, Eq)]
pub enum KeyOutput {
    Unicode(char),
    RawKey(String),
}

/// The characters echoed for a key.
pub open spec fn key_chars(k: KeyOutput) -> Seq<char> {
    match k {
        KeyOutput::Unicode(c) => seq![c],
        KeyOutput::RawKey(name) => name@,
    }
}

impl KeyboardDecoder {
    /// A decoder in its start state, with capitals off.
    pub fn new() -> (r: KeyboardDecoder)
        ensures
            !prefix_pending(r),
            !capitals_active(r),
    {
        new_us104_set1()
    }

    /// Feeds one scancode byte. Returns the key that the byte completes, if
    /// any; a byte that the protocol does not know is dropped.
    pub fn add_scancode(&mut self, scancode: u8) -> (r: Option<KeyOutput>)
        ensures
            decodes_as(*old(self), *final(self), scancode, r),
    {
        match keyboard_add_byte(self, scancode) {
            Ok(Some(event)) => match keyboard_process_keyevent(self, event) {
                Some(key) => Some(key_output(key)),
                None => None,
            },
            Ok(None) => None,
            Err(_) => None,
        }
    }
}

/// What one scancode byte does to the decoder, from `before` to `after`, and
/// what it yields: an 0xE0 prefix is taken and cleared by the next byte; from
/// the start state 0x1E is the A key; a byte that set 1 does not know, or a
/// release, yields nothing and leaves the decoder in its start state, and
/// only the release of a Shift key changes the capitals; a named key's name is
/// letters and digits.
pub open spec fn decodes_as(
    before: KeyboardDecoder,
    after: KeyboardDecoder,
    scancode: u8,
    r: Option<KeyOutput>,
) -> bool {
    &&& prefix_pending(before) ==> !prefix_pending(after)
    &&& !prefix_pending(before) && scancode == 0xE0 ==> r is None && prefix_pending(after)
        && capitals_active(after) == capitals_active(before)
    &&& !prefix_pending(before) && scancode != 0xE0 ==> !prefix_pending(after)
    &&& !prefix_pending(before) && scancode == 0x1E ==> r == Some(
        KeyOutput::Unicode(
            if capitals_active(before) {
                'A'
            } else {
                'a'
            },
        ),
    ) && capitals_active(after) == capitals_active(before)
    &&& !prefix_pending(before) && scancode != 0xE0 && !set1_known(scancode) ==> r is None
        && capitals_active(after) == capitals_active(before)
    &&& !prefix_pending(before) && scancode >= 0x80 && scancode != 0xE0 ==> r is None && (
    scancode != 0xAA && scancode != 0xB6 ==> capitals_active(after) == capitals_active(before))
    &&& r matches Some(KeyOutput::RawKey(name)) ==> is_key_name(name@)
}

/// The library's form of a decoded key: a character stays a character, a key
/// without one becomes its name.
pub fn key_output(key: DecodedKey) -> (r: KeyOutput)
    ensures
        key matches DecodedKey::Unicode(c) ==> r == KeyOutput::Unicode(c),
        key matches DecodedKey::RawKey(_) ==> (r matches KeyOutput::RawKey(name) && is_key_name(
            name@,
        )),
{
    match key {
        DecodedKey::Unicode(c) => KeyOutput::Unicode(c),
        DecodedKey::RawKey(code) => KeyOutput::RawKey(key_code_name(code)),
    }
}

/// Echoes a decoded key on the console: a character as its UTF-8 bytes, a
/// named key as its name.
pub fn echo_key(writer: &mut Writer, key: &KeyOutput)
    requires
        old(writer).wf(),
    ensures
        final(writer).wf(),
        final(writer)@ == put_bytes(old(writer)@, shown_bytes(encode_utf8(key_chars(*key)))),
{
    match key {
        KeyOutput::Unicode(c) => {
            let text = char_string(*c);
            let s = text.as_str();
            assert(s.spec_bytes() == encode_utf8(key_chars(*key)));
            writer.write_string(s);
        },
        KeyOutput::RawKey(name) => {
            let s = name.as_str();
            assert(s.spec_bytes() == encode_utf8(key_chars(*key)));
            writer.write_string(s);
        },
    }
}

/// The keyboard line's work for one scancode: decode it and echo the key it
/// completes, if any. Returns that key.
pub fn keyboard_interrupt(decoder: &mut KeyboardDecoder, writer: &mut Writer, scancode: u8) -> (r:
    Option<KeyOutput>)
    requires
        old(writer).wf(),
    ensures
        decodes_as(*old(decoder), *final(decoder), scancode, r),
        final(writer).wf(),
        match r {
            None => final(writer)@ == old(writer)@,
            Some(k) => final(writer)@ == put_bytes(
                old(writer)@,
                shown_bytes(encode_utf8(key_chars(k))),
            ),
        },
{
    let key = decoder.add_scancode(scancode);
    match &key {
        Some(k) => echo_key(writer, k),
        None => {},
    }
    key
}

} // verus!
