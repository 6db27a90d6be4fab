//! The key encoder: the pure, total mapping from one local input event to
//! the action the client takes for it.
//!
//! Rules, in priority order: release events produce nothing; Ctrl+q quits
//! the client; Ctrl+l (either case) clears the screens; Ctrl+<letter> sends
//! the letter's control byte (its position in the alphabet); named keys send
//! their fixed terminal sequence; a printable character sends itself; the
//! Alt modifier prefixes any sent sequence with ESC; non-empty pasted text
//! is sent verbatim; everything else is ignored.

use vstd::prelude::*;

use crate::keys::{
    Action, ActionModel, EventModel, InputEvent, KeyCode, KeyEvent, KeyEventKind, Modifiers,
};
use crate::text::push_char;

verus! {

/// The escape character, 0x1B.
pub open spec fn esc() -> char {
    '\u{1b}'
}

/// Whether `c` is an ASCII letter.
pub open spec fn is_ascii_letter(c: char) -> bool {
    (97 <= c as u32 && c as u32 <= 122) || (65 <= c as u32 && c as u32 <= 90)
}

/// The 1-indexed position of an ASCII letter in the alphabet, case
/// insensitive: a/A is 1, z/Z is 26.
pub open spec fn letter_pos(c: char) -> int
    recommends
        is_ascii_letter(c),
{
    if 97 <= c as u32 {
        c as u32 - 96
    } else {
        c as u32 - 64
    }
}

/// The control character for an ASCII letter: Ctrl+C is 0x03.
pub open spec fn ctrl_char(c: char) -> char
    recommends
        is_ascii_letter(c),
{
    ((letter_pos(c)) as u8) as char
}

/// ESC-prefixes the sequence when the Alt modifier was held.
pub open spec fn alt_wrap(alt: bool, s: Seq<char>) -> Seq<char> {
    if alt {
        seq![esc()] + s
    } else {
        s
    }
}

/// The fixed terminal sequence of a named key, independent of modifiers;
/// `None` for keys the client has no mapping for.  Printable characters are
/// not in this table (they send themselves).
pub open spec fn named_key_seq(code: KeyCode) -> Option<Seq<char>> {
    match code {
        KeyCode::Enter => Some(seq!['\r']),
        KeyCode::Tab => Some(seq!['\t']),
        KeyCode::Backspace => Some(seq!['\u{7f}']),
        KeyCode::Delete => Some(seq![esc(), '[', '3', '~']),
        KeyCode::Insert => Some(seq![esc(), '[', '2', '~']),
        KeyCode::Esc => Some(seq![esc()]),
        KeyCode::Up => Some(seq![esc(), '[', 'A']),
        KeyCode::Down => Some(seq![esc(), '[', 'B']),
        KeyCode::Right => Some(seq![esc(), '[', 'C']),
        KeyCode::Left => Some(seq![esc(), '[', 'D']),
        KeyCode::Home => Some(seq![esc(), '[', 'H']),
        KeyCode::End => Some(seq![esc(), '[', 'F']),
        KeyCode::PageUp => Some(seq![esc(), '[', '5', '~']),
        KeyCode::PageDown => Some(seq![esc(), '[', '6', '~']),
        KeyCode::F(n) => named_function_key_seq(n),
        KeyCode::Char(_) => None,
        KeyCode::Other => None,
    }
}

/// The xterm sequence of function key `n`: F1..F4 use the SS3 forms, F5..F12
/// the numbered CSI forms (15, 17, 18, 19, 20, 21, 23, 24).
pub open spec fn named_function_key_seq(n: u8) -> Option<Seq<char>> {
    if n == 1 {
        Some(seq![esc(), 'O', 'P'])
    } else if n == 2 {
        Some(seq![esc(), 'O', 'Q'])
    } else if n == 3 {
        Some(seq![esc(), 'O', 'R'])
    } else if n == 4 {
        Some(seq![esc(), 'O', 'S'])
    } else if n == 5 {
        Some(seq![esc(), '[', '1', '5', '~'])
    } else if n == 6 {
        Some(seq![esc(), '[', '1', '7', '~'])
    } else if n == 7 {
        Some(seq![esc(), '[', '1', '8', '~'])
    } else if n == 8 {
        Some(seq![esc(), '[', '1', '9', '~'])
    } else if n == 9 {
        Some(seq![esc(), '[', '2', '0', '~'])
    } else if n == 10 {
        Some(seq![esc(), '[', '2', '1', '~'])
    } else if n == 11 {
        Some(seq![esc(), '[', '2', '3', '~'])
    } else if n == 12 {
        Some(seq![esc(), '[', '2', '4', '~'])
    } else {
        None
    }
}

/// The encoder's decision for one keyboard event.
pub open spec fn spec_encode_key(k: KeyEvent) -> ActionModel {
    if k.kind == KeyEventKind::Release {
        ActionModel::Ignore
    } else {
        match k.code {
            KeyCode::Char(c) => {
                if k.modifiers.control {
                    if c == 'q' {
                        ActionModel::Quit
                    } else if c == 'l' || c == 'L' {
                        ActionModel::ClearScreen
                    } else if is_ascii_letter(c) {
                        ActionModel::Send(alt_wrap(k.modifiers.alt, seq![ctrl_char(c)]))
                    } else {
                        ActionModel::Ignore
                    }
                } else {
                    ActionModel::Send(alt_wrap(k.modifiers.alt, seq![c]))
                }
            },
            _ => {
                match named_key_seq(k.code) {
                    Some(s) => ActionModel::Send(alt_wrap(k.modifiers.alt, s)),
                    None => ActionModel::Ignore,
                }
            },
        }
    }
}

/// The encoder's decision for one input event.  Pasted text is sent
/// verbatim when non-empty; resizes are no input to the remote shell and
/// produce nothing here (the session loop routes them to the control
/// endpoint instead).
pub open spec fn spec_encode(ev: EventModel) -> ActionModel {
    match ev {
        EventModel::Key(k) => spec_encode_key(k),
        EventModel::Paste(t) => if t.len() == 0 {
            ActionModel::Ignore
        } else {
            ActionModel::Send(t)
        },
        EventModel::Resize(_, _) => ActionModel::Ignore,
    }
}

/// The fixed terminal sequence of a named key, as a string slice.
fn named_key_str(code: KeyCode) -> (r: Option<&'static str>)
    ensures
        match r {
            Some(s) => named_key_seq(code) == Some(s@),
            None => named_key_seq(code) is None,
        },
{
    proof {
        lemma_named_key_literals();
    }
    match code {
        KeyCode::Enter => Some("\r"),
        KeyCode::Tab => Some("\t"),
        KeyCode::Backspace => Some("\u{7f}"),
        KeyCode::Delete => Some("\u{1b}[3~"),
        KeyCode::Insert => Some("\u{1b}[2~"),
        KeyCode::Esc => Some("\u{1b}"),
        KeyCode::Up => Some("\u{1b}[A"),
        KeyCode::Down => Some("\u{1b}[B"),
        KeyCode::Right => Some("\u{1b}[C"),
        KeyCode::Left => Some("\u{1b}[D"),
        KeyCode::Home => Some("\u{1b}[H"),
        KeyCode::End => Some("\u{1b}[F"),
        KeyCode::PageUp => Some("\u{1b}[5~"),
        KeyCode::PageDown => Some("\u{1b}[6~"),
        KeyCode::F(n) => match n {
            1 => Some("\u{1b}OP"),
            2 => Some("\u{1b}OQ"),
            3 => Some("\u{1b}OR"),
            4 => Some("\u{1b}OS"),
            5 => Some("\u{1b}[15~"),
            6 => Some("\u{1b}[17~"),
            7 => Some("\u{1b}[18~"),
            8 => Some("\u{1b}[19~"),
            9 => Some("\u{1b}[20~"),
            10 => Some("\u{1b}[21~"),
            11 => Some("\u{1b}[23~"),
            12 => Some("\u{1b}[24~"),
            _ => None,
        },
        KeyCode::Char(_) => None,
        KeyCode::Other => None,
    }
}

/// The views of the named-key string literals, char by char.
proof fn lemma_named_key_literals()
    ensures
        "\r"@ =~= seq!['\r'],
        "\t"@ =~= seq!['\t'],
        "\u{7f}"@ =~= seq!['\u{7f}'],
        "\u{1b}"@ =~= seq![esc()],
        "\u{1b}[3~"@ =~= seq![esc(), '[', '3', '~'],
        "\u{1b}[2~"@ =~= seq![esc(), '[', '2', '~'],
        "\u{1b}[A"@ =~= seq![esc(), '[', 'A'],
        "\u{1b}[B"@ =~= seq![esc(), '[', 'B'],
        "\u{1b}[C"@ =~= seq![esc(), '[', 'C'],
        "\u{1b}[D"@ =~= seq![esc(), '[', 'D'],
        "\u{1b}[H"@ =~= seq![esc(), '[', 'H'],
        "\u{1b}[F"@ =~= seq![esc(), '[', 'F'],
        "\u{1b}[5~"@ =~= seq![esc(), '[', '5', '~'],
        "\u{1b}[6~"@ =~= seq![esc(), '[', '6', '~'],
        "\u{1b}OP"@ =~= seq![esc(), 'O', 'P'],
        "\u{1b}OQ"@ =~= seq![esc(), 'O', 'Q'],
        "\u{1b}OR"@ =~= seq![esc(), 'O', 'R'],
        "\u{1b}OS"@ =~= seq![esc(), 'O', 'S'],
        "\u{1b}[15~"@ =~= seq![esc(), '[', '1', '5', '~'],
        "\u{1b}[17~"@ =~= seq![esc(), '[', '1', '7', '~'],
        "\u{1b}[18~"@ =~= seq![esc(), '[', '1', '8', '~'],
        "\u{1b}[19~"@ =~= seq![esc(), '[', '1', '9', '~'],
        "\u{1b}[20~"@ =~= seq![esc(), '[', '2', '0', '~'],
        "\u{1b}[21~"@ =~= seq![esc(), '[', '2', '1', '~'],
        "\u{1b}[23~"@ =~= seq![esc(), '[', '2', '3', '~'],
        "\u{1b}[24~"@ =~= seq![esc(), '[', '2', '4', '~'],
{
    reveal_strlit("\r");
    reveal_strlit("\t");
    reveal_strlit("\u{7f}");
    reveal_strlit("\u{1b}");
    reveal_strlit("\u{1b}[3~");
    reveal_strlit("\u{1b}[2~");
    reveal_strlit("\u{1b}[A");
    reveal_strlit("\u{1b}[B");
    reveal_strlit("\u{1b}[C");
    reveal_strlit("\u{1b}[D");
    reveal_strlit("\u{1b}[H");
    reveal_strlit("\u{1b}[F");
    reveal_strlit("\u{1b}[5~");
    reveal_strlit("\u{1b}[6~");
    reveal_strlit("\u{1b}OP");
    reveal_strlit("\u{1b}OQ");
    reveal_strlit("\u{1b}OR");
    reveal_strlit("\u{1b}OS");
    reveal_strlit("\u{1b}[15~");
    reveal_strlit("\u{1b}[17~");
    reveal_strlit("\u{1b}[18~");
    reveal_strlit("\u{1b}[19~");
    reveal_strlit("\u{1b}[20~");
    reveal_strlit("\u{1b}[21~");
    reveal_strlit("\u{1b}[23~");
    reveal_strlit("\u{1b}[24~");
}

/// Builds a one-character sequence, ESC-prefixed when `alt` is set.
fn send_char(alt: bool, c: char) -> (r: String)
    ensures
        r@ == alt_wrap(alt, seq![c]),
{
    let mut s = String::new();
    if alt {
        push_char(&mut s, '\u{1b}');
    }
    push_char(&mut s, c);
    proof {
        assert(s@ =~= alt_wrap(alt, seq![c]));
    }
    s
}

/// Encodes one keyboard event.
pub fn encode_key(k: KeyEvent) -> (r: Action)
    ensures
        r@ == spec_encode_key(k),
{
    if matches!(k.kind, KeyEventKind::Release) {
        return Action::Ignore;
    }
    match k.code {
        KeyCode::Char(c) => {
            if k.modifiers.control {
                if c == 'q' {
                    Action::Quit
                } else if c == 'l' || c == 'L' {
                    Action::ClearScreen
                } else {
                    let u = c as u32;
                    let pos: u32 = if u >= 97 && u <= 122 {
                        u - 96
                    } else if u >= 65 && u <= 90 {
                        u - 64
                    } else {
                        0
                    };
                    if pos != 0 {
                        Action::Send(send_char(k.modifiers.alt, (pos as u8) as char))
                    } else {
                        Action::Ignore
                    }
                }
            } else {
                Action::Send(send_char(k.modifiers.alt, c))
            }
        },
        _ => {
            match named_key_str(k.code) {
                Some(fixed) => {
                    let mut s = String::new();
                    if k.modifiers.alt {
                        push_char(&mut s, '\u{1b}');
                    }
                    s.append(fixed);
                    proof {
                        assert(s@ =~= alt_wrap(k.modifiers.alt, named_key_seq(k.code)->Some_0));
                    }
                    Action::Send(s)
                },
                None => Action::Ignore,
            }
        },
    }
}

/// Encodes one local input event.
pub fn encode(ev: &InputEvent) -> (r: Action)
    ensures
        r@ == spec_encode(ev@),
{
    match ev {
        InputEvent::Key(k) => encode_key(*k),
        InputEvent::Paste(t) => {
            if t.as_str().is_empty() {
                Action::Ignore
            } else {
                Action::Send(t.clone())
            }
        },
        InputEvent::Resize(_, _) => Action::Ignore,
    }
}

/// Law: a press or repeat of Ctrl and an ASCII letter (apart from q, which
/// quits, and l/L, which clear) sends exactly one character, the letter's
/// control character, whose code is the letter's 1-indexed position in the
/// alphabet (Ctrl+C sends 0x03, Ctrl+D sends 0x04).
pub proof fn lemma_ctrl_letter_encodes_position(k: KeyEvent, c: char)
    requires
        k.kind != KeyEventKind::Release,
        k.modifiers.control,
        !k.modifiers.alt,
        k.code == KeyCode::Char(c),
        is_ascii_letter(c),
        c != 'q',
        c != 'l',
        c != 'L',
    ensures
        spec_encode_key(k) == ActionModel::Send(seq![ctrl_char(c)]),
        ctrl_char(c) as u32 == letter_pos(c),
        1 <= letter_pos(c) <= 26,
{
}

/// Law: a release-kind key event encodes to `Ignore`, whatever its key code
/// and modifiers.
pub proof fn lemma_release_is_ignored(k: KeyEvent)
    requires
        k.kind == KeyEventKind::Release,
    ensures
        spec_encode_key(k) == ActionModel::Ignore,
{
}

/// Law: Ctrl+q quits, whatever other modifiers are held with Control.
pub proof fn lemma_ctrl_q_quits(k: KeyEvent)
    requires
        k.kind != KeyEventKind::Release,
        k.modifiers.control,
        k.code == KeyCode::Char('q'),
    ensures
        spec_encode_key(k) == ActionModel::Quit,
{
}

/// Law: Ctrl+l in either case clears the screens and never sends anything
/// (in particular never a literal 0x0C byte), whatever other modifiers are
/// held with Control.
pub proof fn lemma_ctrl_l_clears(k: KeyEvent)
    requires
        k.kind != KeyEventKind::Release,
        k.modifiers.control,
        k.code == KeyCode::Char('l') || k.code == KeyCode::Char('L'),
    ensures
        spec_encode_key(k) == ActionModel::ClearScreen,
{
}

/// Law: when a key event without Alt encodes to a sequence, the same event
/// with Alt held encodes to ESC followed by that sequence; events that
/// quit, clear or are ignored are unaffected by Alt.
pub proof fn lemma_alt_prefixes_esc(k: KeyEvent, s: Seq<char>)
    requires
        !k.modifiers.alt,
        spec_encode_key(k) == ActionModel::Send(s),
    ensures
        spec_encode_key(
            KeyEvent {
                modifiers: Modifiers { alt: true, ..k.modifiers },
                ..k
            },
        ) == ActionModel::Send(seq![esc()] + s),
{
}

/// Law: encoding is a pure function of the event; two encodings of the same
/// event are the same action.
pub proof fn lemma_encode_deterministic(e: EventModel, a1: ActionModel, a2: ActionModel)
    requires
        a1 == spec_encode(e),
        a2 == spec_encode(e),
    ensures
        a1 == a2,
{
}

} // verus!
