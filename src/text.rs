use vstd::prelude::*;
use vstd::string::*;

verus! {

/// Lower-case hexadecimal digit of a value below 16.
pub open spec fn hex_digit(d: nat) -> Seq<char> {
    "0123456789abcdef"@.subrange(d as int, d + 1 as int)
}

/// How one character is written inside a JSON string literal.
pub open spec fn json_escape_char(c: char) -> Seq<char> {
    if c == '"' {
        "\\\""@
    } else if c == '\\' {
        "\\\\"@
    } else if c == '\n' {
        "\\n"@
    } else if c == '\r' {
        "\\r"@
    } else if c == '\t' {
        "\\t"@
    } else if c == '\u{8}' {
        "\\b"@
    } else if c == '\u{c}' {
        "\\f"@
    } else if (c as u32) < 0x20 {
        "\\u00"@ + hex_digit((c as u32 / 16) as nat) + hex_digit((c as u32 % 16) as nat)
    } else {
        seq![c]
    }
}

/// The characters of a text as they are written inside a JSON string literal.
pub open spec fn json_escape(s: Seq<char>) -> Seq<char>
    decreases s.len(),
{
    if s.len() == 0 {
        Seq::empty()
    } else {
        json_escape(s.drop_last()) + json_escape_char(s.last())
    }
}

/// A text as a JSON string literal, quotes included.
pub open spec fn json_string(s: Seq<char>) -> Seq<char> {
    "\""@ + json_escape(s) + "\""@
}

/// Whether `part` occurs in `whole` as a contiguous run.
pub open spec fn contains(whole: Seq<char>, part: Seq<char>) -> bool {
    exists|i: int|
        0 <= i && i + part.len() <= whole.len() && #[trigger] whole.subrange(i, i + part.len())
            == part
}

/// A text that `part` occurs in, with anything before and after it.
pub proof fn lemma_contains_middle(pre: Seq<char>, part: Seq<char>, post: Seq<char>)
    ensures
        contains(pre + part + post, part),
{
    let whole = pre + part + post;
    assert(whole.subrange(pre.len() as int, (pre.len() + part.len()) as int) =~= part);
}

/// Appends the hexadecimal digit of `d` to `out`.
fn push_hex_digit(out: &mut String, d: u32)
    requires
        d < 16,
    ensures
        final(out)@ == old(out)@ + hex_digit(d as nat),
{
    let digits = "0123456789abcdef";
    proof {
        reveal_strlit("0123456789abcdef");
    }
    out.append(digits.substring_char(d as usize, d as usize + 1));
}

/// Appends `s` to `out` as the inside of a JSON string literal.
pub fn push_json_escaped(out: &mut String, s: &str)
    ensures
        final(out)@ == old(out)@ + json_escape(s@),
{
    let n = s.unicode_len();
    let mut i: usize = 0;
    while i < n
        invariant
            n == s@.len(),
            i <= n,
            out@ == old(out)@ + json_escape(s@.subrange(0, i as int)),
        decreases n - i,
    {
        let c = s.get_char(i);
        let ghost before = out@;
        if c == '"' {
            out.append("\\\"");
        } else if c == '\\' {
            out.append("\\\\");
        } else if c == '\n' {
            out.append("\\n");
        } else if c == '\r' {
            out.append("\\r");
        } else if c == '\t' {
            out.append("\\t");
        } else if c == '\u{8}' {
            out.append("\\b");
        } else if c == '\u{c}' {
            out.append("\\f");
        } else if (c as u32) < 0x20 {
            out.append("\\u00");
            push_hex_digit(out, c as u32 / 16);
            push_hex_digit(out, c as u32 % 16);
        } else {
            out.append(s.substring_char(i, i + 1));
        }
        proof {
            let next = s@.subrange(0, i + 1);
            assert(next.drop_last() =~= s@.subrange(0, i as int));
            assert(next.last() == c);
            assert(out@ =~= before + json_escape_char(c));
        }
        i = i + 1;
    }
    proof {
        assert(s@.subrange(0, n as int) =~= s@);
    }
}

/// Appends `s` to `out` as a JSON string literal, quotes included.
pub fn push_json_string(out: &mut String, s: &str)
    ensures
        final(out)@ == old(out)@ + json_string(s@),
{
    out.append("\"");
    push_json_escaped(out, s);
    out.append("\"");
    proof {
        assert(out@ =~= old(out)@ + json_string(s@));
    }
}

/// Whether a character has the Unicode `White_Space` property, as
/// `char::is_whitespace` tells.
pub open spec fn is_white_space(c: char) -> bool {
    let v = c as u32;
    (0x9 <= v && v <= 0xd) || v == 0x20 || v == 0x85 || v == 0xa0 || v == 0x1680 || (0x2000 <= v
        && v <= 0x200a) || v == 0x2028 || v == 0x2029 || v == 0x202f || v == 0x205f || v == 0x3000
}

/// A text without its trailing white space.
pub open spec fn trim_white_end(s: Seq<char>) -> Seq<char>
    decreases s.len(),
{
    if s.len() > 0 && is_white_space(s.last()) {
        trim_white_end(s.drop_last())
    } else {
        s
    }
}

/// White space appended to a text is trimmed off again.
pub proof fn lemma_trim_ignores_appended_white_space(t: Seq<char>, w: Seq<char>)
    requires
        forall|i: int| 0 <= i < w.len() ==> is_white_space(#[trigger] w[i]),
    ensures
        trim_white_end(t + w) == trim_white_end(t),
    decreases w.len(),
{
    if w.len() == 0 {
        assert(t + w =~= t);
    } else {
        assert((t + w).drop_last() =~= t + w.drop_last());
        assert(is_white_space(w[w.len() - 1]));
        lemma_trim_ignores_appended_white_space(t, w.drop_last());
    }
}

/// A text that does not end in white space is kept whole by trimming.
pub proof fn lemma_trim_keeps_text_without_trailing_space(s: Seq<char>)
    requires
        s.len() == 0 || !is_white_space(s.last()),
    ensures
        trim_white_end(s) == s,
{
}

/// Whether `c` has the Unicode `White_Space` property.
pub fn is_white_space_char(c: char) -> (r: bool)
    ensures
        r == is_white_space(c),
{
    let v = c as u32;
    (0x9 <= v && v <= 0xd) || v == 0x20 || v == 0x85 || v == 0xa0 || v == 0x1680 || (0x2000 <= v
        && v <= 0x200a) || v == 0x2028 || v == 0x2029 || v == 0x202f || v == 0x205f || v == 0x3000
}

/// The text without its trailing white space.
pub fn trim_end_white(text: &str) -> (r: &str)
    ensures
        r@ == trim_white_end(text@),
{
    let n = text.unicode_len();
    let mut end: usize = n;
    let mut done = false;
    proof {
        assert(text@.subrange(0, n as int) =~= text@);
    }
    while !done && end > 0
        invariant
            n == text@.len(),
            end <= n,
            trim_white_end(text@) == trim_white_end(text@.subrange(0, end as int)),
            done ==> trim_white_end(text@.subrange(0, end as int)) == text@.subrange(
                0,
                end as int,
            ),
        decreases end + (if done { 0int } else { 1int }),
    {
        let c = text.get_char(end - 1);
        let ghost part = text@.subrange(0, end as int);
        proof {
            assert(part.last() == c);
            assert(part.drop_last() =~= text@.subrange(0, end - 1));
        }
        if is_white_space_char(c) {
            end = end - 1;
        } else {
            done = true;
        }
    }
    proof {
        if !done {
            assert(text@.subrange(0, 0) =~= Seq::<char>::empty());
        }
    }
    text.substring_char(0, end)
}

} // verus!
