use vstd::prelude::*;

verus! {

/// The lower-case hexadecimal digit of `n`, for `n < 16`.
pub open spec fn hex_digit(n: u32) -> char {
    seq!['0', '1', '2', '3', '4', '5', '6', '7', '8', '9', 'a', 'b', 'c', 'd', 'e', 'f'][n as int]
}

/// How one character is written inside a JSON string literal: the quote and the
/// backslash are escaped, the control characters below U+0020 take their short
/// escape or `\u00XX`, every other character stands as it is.
pub open spec fn escape_char(c: char) -> Seq<char> {
    if c == '"' {
        seq!['\\', '"']
    } else if c == '\\' {
        seq!['\\', '\\']
    } else if c == '\u{8}' {
        seq!['\\', 'b']
    } else if c == '\t' {
        seq!['\\', 't']
    } else if c == '\n' {
        seq!['\\', 'n']
    } else if c == '\u{c}' {
        seq!['\\', 'f']
    } else if c == '\r' {
        seq!['\\', 'r']
    } else if (c as u32) < 0x20 {
        seq!['\\', 'u', '0', '0', hex_digit((c as u32) / 16), hex_digit((c as u32) % 16)]
    } else {
        seq![c]
    }
}

/// The escaped form of a whole character sequence.
pub open spec fn escape_text(s: Seq<char>) -> Seq<char>
    decreases s.len(),
{
    if s.len() == 0 {
        Seq::empty()
    } else {
        escape_text(s.drop_last()) + escape_char(s.last())
    }
}

/// The JSON string literal that denotes `s`.
pub open spec fn quoted(s: Seq<char>) -> Seq<char> {
    seq!['"'] + escape_text(s) + seq!['"']
}

/// A character that JSON writes without an escape.
pub open spec fn is_plain(c: char) -> bool {
    c != '"' && c != '\\' && (c as u32) >= 0x20
}

/// The JSON object text `{"status":<status>,"message":<message>}`.
pub open spec fn status_message_text(status: Seq<char>, message: Seq<char>) -> Seq<char> {
    "{\"status\":"@ + quoted(status) + ",\"message\":"@ + quoted(message) + "}"@
}

/// A text made of plain characters only is its own escaped form.
pub proof fn lemma_plain_text_unescaped(s: Seq<char>)
    requires
        forall|i: int| 0 <= i < s.len() ==> is_plain(#[trigger] s[i]),
    ensures
        escape_text(s) == s,
    decreases s.len(),
{
    if s.len() > 0 {
        let init = s.drop_last();
        assert forall|i: int| 0 <= i < init.len() implies is_plain(#[trigger] init[i]) by {
            assert(init[i] == s[i]);
        }
        lemma_plain_text_unescaped(init);
        assert(is_plain(s[s.len() - 1]));
        assert(escape_text(s) =~= s);
    }
}

/// Relies on serde_json::to_string for a `str`: the text is the string literal
/// that `format_escaped_str` writes, a quote, each character as `escape_char`
/// gives it, and a quote. Its only failure for a `str` is an I/O error of the
/// writer, and the writer is a `Vec<u8>`, so the `Err` arm is never taken.
#[verifier::external_body]
pub(crate) fn json_string(s: &str) -> (r: String)
    ensures
        r@ == quoted(s@),
{
    serde_json::to_string(s).unwrap_or_default()
}

/// The JSON object with the two string members `status` and `message`, in
/// that order.
pub fn status_message_json(status: &str, message: &str) -> (r: String)
    ensures
        r@ == status_message_text(status@, message@),
{
    let mut out = String::from_str("{\"status\":");
    let s = json_string(status);
    out.append(s.as_str());
    out.append(",\"message\":");
    let m = json_string(message);
    out.append(m.as_str());
    out.append("}");
    out
}

/// Whether two texts are the same character for character.
pub fn text_eq(a: &str, b: &str) -> (r: bool)
    ensures
        r == (a@ == b@),
{
    let n = a.unicode_len();
    if n != b.unicode_len() {
        return false;
    }
    let mut i: usize = 0;
    while i < n
        invariant
            n == a@.len(),
            n == b@.len(),
            i <= n,
            forall|j: int| 0 <= j < i ==> a@[j] == b@[j],
        decreases n - i,
    {
        if a.get_char(i) != b.get_char(i) {
            return false;
        }
        i = i + 1;
    }
    assert(a@ =~= b@);
    true
}

} // verus!
