use tui_client::encoder::{encode, encode_key};
use tui_client::keys::{Action, InputEvent, KeyCode, KeyEvent, KeyEventKind, Modifiers};

fn mods(control: bool, alt: bool, shift: bool) -> Modifiers {
    Modifiers { control, alt, shift }
}

fn key(code: KeyCode, modifiers: Modifiers) -> KeyEvent {
    KeyEvent { code, modifiers, kind: KeyEventKind::Press }
}

fn sent_bytes(a: Action) -> Vec<u8> {
    match a {
        Action::Send(s) => s.into_bytes(),
        other => panic!("expected Send, got {:?}", other),
    }
}

#[test]
fn ctrl_letters_encode_alphabet_position() {
    for (i, c) in ('a'..='z').enumerate() {
        if c == 'q' || c == 'l' {
            continue;
        }
        let pos = (i + 1) as u8;
        let a = encode_key(key(KeyCode::Char(c), mods(true, false, false)));
        assert_eq!(sent_bytes(a), vec![pos], "Ctrl+{}", c);
        let upper = c.to_ascii_uppercase();
        if upper == 'L' {
            continue;
        }
        let a = encode_key(key(KeyCode::Char(upper), mods(true, false, false)));
        assert_eq!(sent_bytes(a), vec![pos], "Ctrl+{}", upper);
    }
}

#[test]
fn ctrl_c_is_0x03() {
    let a = encode_key(key(KeyCode::Char('c'), mods(true, false, false)));
    assert_eq!(sent_bytes(a), vec![0x03]);
}

#[test]
fn ctrl_d_is_0x04() {
    let a = encode_key(key(KeyCode::Char('d'), mods(true, false, false)));
    assert_eq!(sent_bytes(a), vec![0x04]);
}

#[test]
fn ctrl_non_letter_is_ignored() {
    for c in ['1', ' ', '[', ';', 'é', '✓'] {
        let a = encode_key(key(KeyCode::Char(c), mods(true, false, false)));
        assert_eq!(a, Action::Ignore, "Ctrl+{:?}", c);
    }
}

#[test]
fn release_events_are_ignored() {
    let codes = [
        KeyCode::Char('a'),
        KeyCode::Char('q'),
        KeyCode::Char('l'),
        KeyCode::Enter,
        KeyCode::Up,
        KeyCode::F(5),
        KeyCode::Other,
    ];
    for code in codes {
        for m in [mods(false, false, false), mods(true, true, true)] {
            let k = KeyEvent { code, modifiers: m, kind: KeyEventKind::Release };
            assert_eq!(encode_key(k), Action::Ignore, "{:?}", code);
        }
    }
}

#[test]
fn repeat_events_encode_like_presses() {
    let k = KeyEvent {
        code: KeyCode::Char('x'),
        modifiers: mods(false, false, false),
        kind: KeyEventKind::Repeat,
    };
    assert_eq!(sent_bytes(encode_key(k)), b"x".to_vec());
}

#[test]
fn ctrl_q_quits_with_any_other_modifiers() {
    for m in [
        mods(true, false, false),
        mods(true, true, false),
        mods(true, false, true),
        mods(true, true, true),
    ] {
        assert_eq!(encode_key(key(KeyCode::Char('q'), m)), Action::Quit);
    }
}

#[test]
fn ctrl_l_clears_either_case_and_never_sends_0x0c() {
    for code in [KeyCode::Char('l'), KeyCode::Char('L')] {
        for m in [mods(true, false, false), mods(true, true, true)] {
            let a = encode_key(key(code, m));
            assert_eq!(a, Action::ClearScreen);
        }
    }
}

#[test]
fn alt_prefixes_esc_on_printable() {
    let a = encode_key(key(KeyCode::Char('a'), mods(false, true, false)));
    assert_eq!(sent_bytes(a), vec![0x1b, b'a']);
}

#[test]
fn alt_prefixes_esc_on_named_key() {
    let a = encode_key(key(KeyCode::Up, mods(false, true, false)));
    assert_eq!(sent_bytes(a), vec![0x1b, 0x1b, b'[', b'A']);
}

#[test]
fn alt_prefixes_esc_on_ctrl_letter() {
    let a = encode_key(key(KeyCode::Char('c'), mods(true, true, false)));
    assert_eq!(sent_bytes(a), vec![0x1b, 0x03]);
}

#[test]
fn named_keys_map_exactly() {
    let table: &[(KeyCode, &[u8])] = &[
        (KeyCode::Enter, b"\r"),
        (KeyCode::Tab, b"\t"),
        (KeyCode::Backspace, b"\x7f"),
        (KeyCode::Delete, b"\x1b[3~"),
        (KeyCode::Insert, b"\x1b[2~"),
        (KeyCode::Esc, b"\x1b"),
        (KeyCode::Up, b"\x1b[A"),
        (KeyCode::Down, b"\x1b[B"),
        (KeyCode::Right, b"\x1b[C"),
        (KeyCode::Left, b"\x1b[D"),
        (KeyCode::Home, b"\x1b[H"),
        (KeyCode::End, b"\x1b[F"),
        (KeyCode::PageUp, b"\x1b[5~"),
        (KeyCode::PageDown, b"\x1b[6~"),
        (KeyCode::F(1), b"\x1bOP"),
        (KeyCode::F(2), b"\x1bOQ"),
        (KeyCode::F(3), b"\x1bOR"),
        (KeyCode::F(4), b"\x1bOS"),
        (KeyCode::F(5), b"\x1b[15~"),
        (KeyCode::F(6), b"\x1b[17~"),
        (KeyCode::F(7), b"\x1b[18~"),
        (KeyCode::F(8), b"\x1b[19~"),
        (KeyCode::F(9), b"\x1b[20~"),
        (KeyCode::F(10), b"\x1b[21~"),
        (KeyCode::F(11), b"\x1b[23~"),
        (KeyCode::F(12), b"\x1b[24~"),
    ];
    for (code, expected) in table {
        let a = encode_key(key(*code, mods(false, false, false)));
        assert_eq!(sent_bytes(a), expected.to_vec(), "{:?}", code);
        // Modifiers the encoder does not react to leave the sequence alone.
        let a = encode_key(key(*code, mods(true, false, true)));
        assert_eq!(sent_bytes(a), expected.to_vec(), "{:?} with Ctrl+Shift", code);
    }
}

#[test]
fn enter_is_single_byte_0x0d() {
    let a = encode_key(key(KeyCode::Enter, mods(false, false, false)));
    assert_eq!(sent_bytes(a), vec![0x0d]);
}

#[test]
fn backspace_is_single_byte_0x7f() {
    let a = encode_key(key(KeyCode::Backspace, mods(false, false, false)));
    assert_eq!(sent_bytes(a), vec![0x7f]);
}

#[test]
fn up_is_esc_bracket_a() {
    let a = encode_key(key(KeyCode::Up, mods(false, false, false)));
    assert_eq!(sent_bytes(a), vec![0x1b, 0x5b, 0x41]);
}

#[test]
fn unmapped_keys_are_ignored() {
    assert_eq!(encode_key(key(KeyCode::Other, mods(false, false, false))), Action::Ignore);
    assert_eq!(encode_key(key(KeyCode::F(13), mods(false, false, false))), Action::Ignore);
    assert_eq!(encode_key(key(KeyCode::F(0), mods(false, false, false))), Action::Ignore);
}

#[test]
fn printable_chars_send_their_utf8() {
    let a = encode_key(key(KeyCode::Char('a'), mods(false, false, false)));
    assert_eq!(sent_bytes(a), b"a".to_vec());
    let a = encode_key(key(KeyCode::Char('é'), mods(false, false, false)));
    assert_eq!(sent_bytes(a), "é".as_bytes().to_vec());
}

#[test]
fn paste_sends_text_verbatim() {
    let a = encode(&InputEvent::Paste(String::from("echo hi\n")));
    assert_eq!(sent_bytes(a), b"echo hi\n".to_vec());
}

#[test]
fn empty_paste_is_ignored() {
    assert_eq!(encode(&InputEvent::Paste(String::new())), Action::Ignore);
}

#[test]
fn resize_is_no_encoder_input() {
    assert_eq!(encode(&InputEvent::Resize(80, 24)), Action::Ignore);
}

#[test]
fn encoding_is_pure() {
    let events = [
        InputEvent::Key(key(KeyCode::Char('c'), mods(true, false, false))),
        InputEvent::Key(key(KeyCode::Up, mods(false, true, false))),
        InputEvent::Paste(String::from("twice")),
        InputEvent::Resize(1, 2),
    ];
    for ev in events {
        assert_eq!(encode(&ev), encode(&ev));
    }
}
