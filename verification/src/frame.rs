//! Framing of encoded input for the duplex channel.
//!
//! Input is sent to the remote session as a JSON text frame of the shape
//! `{"event":"type","text":<payload>,"nonewline":true}`.  The payload is a
//! JSON string: quote, backslash and control characters are escaped as JSON
//! requires (the short escapes `\b \t \n \f \r` where they exist, `\u00xx`
//! with lowercase hex digits for the other control characters), every other
//! character stands for itself.  Empty input is never framed: no no-op
//! frame goes out.

use vstd::prelude::*;

use crate::text::push_char;

verus! {

/// The lowercase hex digit for a value below 16.
pub open spec fn hex_digit(d: u32) -> char
    recommends
        d < 16,
{
    if d < 10 {
        ((48 + d) as u8) as char
    } else {
        ((87 + d) as u8) as char
    }
}

/// How one character appears inside a JSON string.
pub open spec fn json_escape_char(c: char) -> Seq<char> {
    if c == '"' {
        seq!['\\', '"']
    } else if c == '\\' {
        seq!['\\', '\\']
    } else if c == '\u{8}' {
        seq!['\\', 'b']
    } else if c == '\t' {
        seq!['\\', 't']
    } else if c == '\n' {
        seq!['\\', 'n']
    } else if c == '\u{c}' {
        seq!['\\', 'f']
    } else if c == '\r' {
        seq!['\\', 'r']
    } else if (c as u32) < 32 {
        seq!['\\', 'u', '0', '0', hex_digit(c as u32 / 16), hex_digit(c as u32 % 16)]
    } else {
        seq![c]
    }
}

/// How a text appears inside a JSON string: each character escaped.
pub open spec fn json_escape(s: Seq<char>) -> Seq<char>
    decreases s.len(),
{
    if s.len() == 0 {
        Seq::<char>::empty()
    } else {
        json_escape_char(s[0]) + json_escape(s.skip(1))
    }
}

/// Escaping a text is escaping all but its last character, then that one.
pub proof fn lemma_json_escape_snoc(s: Seq<char>)
    requires
        s.len() > 0,
    ensures
        json_escape(s) == json_escape(s.drop_last()) + json_escape_char(s.last()),
    decreases s.len(),
{
    if s.len() == 1 {
        assert(s.skip(1) =~= Seq::<char>::empty());
        assert(s.drop_last() =~= Seq::<char>::empty());
        assert(json_escape(s) =~= json_escape(s.drop_last()) + json_escape_char(s.last()));
    } else {
        lemma_json_escape_snoc(s.skip(1));
        assert(s.skip(1).drop_last() =~= s.drop_last().skip(1));
        assert(s.skip(1).last() == s.last());
        assert(s.drop_last()[0] == s[0]);
        assert(json_escape(s) =~= json_escape(s.drop_last()) + json_escape_char(s.last()));
    }
}

/// The duplex-channel frame that carries one piece of input text.
pub open spec fn type_frame_chars(text: Seq<char>) -> Seq<char> {
    "{\"event\":\"type\",\"text\":\""@ + json_escape(text) + "\",\"nonewline\":true}"@
}

/// Appends `text` to `out` in its JSON-string form.
fn append_json_escaped(out: &mut String, text: &str)
    ensures
        final(out)@ == old(out)@ + json_escape(text@),
{
    let len = text.unicode_len();
    let mut i: usize = 0;
    while i < len
        invariant
            i <= len,
            len == text@.len(),
            out@ == old(out)@ + json_escape(text@.take(i as int)),
        decreases len - i,
    {
        let c = text.get_char(i);
        proof {
            lemma_escape_literals();
        }
        if c == '"' {
            out.append("\\\"");
        } else if c == '\\' {
            out.append("\\\\");
        } else if c == '\u{8}' {
            out.append("\\b");
        } else if c == '\t' {
            out.append("\\t");
        } else if c == '\n' {
            out.append("\\n");
        } else if c == '\u{c}' {
            out.append("\\f");
        } else if c == '\r' {
            out.append("\\r");
        } else if (c as u32) < 32 {
            out.append("\\u00");
            let u = c as u32;
            let high: u32 = u / 16;
            let low: u32 = u % 16;
            push_char(out, ((48 + high) as u8) as char);
            push_char(out, (if low < 10 {
                (48 + low) as u8
            } else {
                (87 + low) as u8
            }) as char);
        } else {
            push_char(out, c);
        }
        proof {
            lemma_json_escape_snoc(text@.take(i + 1));
            assert(text@.take(i + 1).drop_last() =~= text@.take(i as int));
            assert(text@.take(i + 1).last() == text@[i as int]);
            assert(out@ =~= old(out)@ + json_escape(text@.take(i + 1)));
        }
        i += 1;
    }
    proof {
        assert(text@.take(len as int) =~= text@);
    }
}

/// The views of the escape string literals, char by char.
proof fn lemma_escape_literals()
    ensures
        "\\\""@ =~= seq!['\\', '"'],
        "\\\\"@ =~= seq!['\\', '\\'],
        "\\b"@ =~= seq!['\\', 'b'],
        "\\t"@ =~= seq!['\\', 't'],
        "\\n"@ =~= seq!['\\', 'n'],
        "\\f"@ =~= seq!['\\', 'f'],
        "\\r"@ =~= seq!['\\', 'r'],
        "\\u00"@ =~= seq!['\\', 'u', '0', '0'],
{
    reveal_strlit("\\\"");
    reveal_strlit("\\\\");
    reveal_strlit("\\b");
    reveal_strlit("\\t");
    reveal_strlit("\\n");
    reveal_strlit("\\f");
    reveal_strlit("\\r");
    reveal_strlit("\\u00");
}

/// Frames one piece of encoded input for the duplex channel, or nothing
/// when the input is empty.
pub fn frame_input(chunk: &str) -> (r: Option<String>)
    ensures
        match r {
            Some(f) => chunk@.len() > 0 && f@ == type_frame_chars(chunk@),
            None => chunk@.len() == 0,
        },
{
    if chunk.is_empty() {
        None
    } else {
        let mut out = String::from_str("{\"event\":\"type\",\"text\":\"");
        append_json_escaped(&mut out, chunk);
        out.append("\",\"nonewline\":true}");
        Some(out)
    }
}

} // verus!
