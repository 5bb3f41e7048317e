//! Escaping text for HTML and JSON output.
use vstd::prelude::*;
use crate::text::{chars_of, push_char, push_str};

verus! {

broadcast use vstd::string::group_string_axioms;

/// Each character of `s` replaced by the text `f` gives for it.
pub open spec fn expand(s: Seq<char>, f: spec_fn(char) -> Seq<char>) -> Seq<char>
    decreases s.len(),
{
    if s.len() == 0 {
        Seq::<char>::empty()
    } else {
        f(s[0]) + expand(s.skip(1), f)
    }
}

/// Expanding a sequence with one more character appends that character's expansion.
pub proof fn lemma_expand_push(s: Seq<char>, c: char, f: spec_fn(char) -> Seq<char>)
    ensures
        expand(s.push(c), f) == expand(s, f) + f(c),
    decreases s.len(),
{
    if s.len() == 0 {
        assert(s.push(c).skip(1) =~= Seq::<char>::empty());
        assert(expand(Seq::<char>::empty(), f) == Seq::<char>::empty());
        assert(s.push(c)[0] == c);
        assert(expand(s.push(c), f) =~= f(c) + Seq::<char>::empty());
    } else {
        lemma_expand_push(s.skip(1), c, f);
        assert(s.push(c).skip(1) =~= s.skip(1).push(c));
        assert(expand(s.push(c), f) =~= f(s[0]) + (expand(s.skip(1), f) + f(c)));
    }
}

/// Expanding two sequences one after the other expands each in turn.
pub proof fn lemma_expand_add(a: Seq<char>, b: Seq<char>, f: spec_fn(char) -> Seq<char>)
    ensures
        expand(a + b, f) == expand(a, f) + expand(b, f),
    decreases a.len(),
{
    if a.len() == 0 {
        assert(a + b =~= b);
    } else {
        lemma_expand_add(a.skip(1), b, f);
        assert((a + b).skip(1) =~= a.skip(1) + b);
    }
}

/// How one character is written in HTML text and attribute values.
pub open spec fn html_char(c: char) -> Seq<char> {
    if c == '&' {
        "&amp;"@
    } else if c == '<' {
        "&lt;"@
    } else if c == '>' {
        "&gt;"@
    } else if c == '"' {
        "&quot;"@
    } else if c == '\'' {
        "&#39;"@
    } else {
        seq![c]
    }
}

/// `s` with `&`, `<`, `>`, `"` and `'` written as character references.
pub open spec fn html_escaped(s: Seq<char>) -> Seq<char> {
    expand(s, |c: char| html_char(c))
}

/// Escapes `value` for HTML text and attribute values.
pub fn escape_html(value: &str) -> (r: String)
    ensures
        r@ == html_escaped(value@),
{
    let v = chars_of(value);
    let mut out = String::new();
    let mut i: usize = 0;
    let ghost f = |c: char| html_char(c);
    proof {
        assert(v@.take(0) =~= Seq::<char>::empty());
    }
    while i < v.len()
        invariant
            i <= v@.len(),
            v@ == value@,
            f == (|c: char| html_char(c)),
            out@ == expand(v@.take(i as int), f),
        decreases v@.len() - i,
    {
        let c = v[i];
        if c == '&' {
            push_str(&mut out, "&amp;");
        } else if c == '<' {
            push_str(&mut out, "&lt;");
        } else if c == '>' {
            push_str(&mut out, "&gt;");
        } else if c == '"' {
            push_str(&mut out, "&quot;");
        } else if c == '\'' {
            push_str(&mut out, "&#39;");
        } else {
            push_char(&mut out, c);
        }
        proof {
            assert(v@.take(i + 1) =~= v@.take(i as int).push(c));
            lemma_expand_push(v@.take(i as int), c, f);
        }
        i = i + 1;
    }
    proof {
        assert(v@.take(v@.len() as int) =~= v@);
    }
    out
}

/// The lowercase hexadecimal digit for a value below 16.
pub open spec fn hex_lower(d: int) -> char {
    if d < 10 {
        (48 + d) as char
    } else {
        (87 + d) as char
    }
}

/// How one character is written inside a JSON string.
pub open spec fn json_char(c: char) -> Seq<char> {
    if c == '"' {
        seq!['\\', '"']
    } else if c == '\\' {
        seq!['\\', '\\']
    } else if c == '\n' {
        seq!['\\', 'n']
    } else if c == '\r' {
        seq!['\\', 'r']
    } else if c == '\t' {
        seq!['\\', 't']
    } else if c == '\u{8}' {
        seq!['\\', 'b']
    } else if c == '\u{c}' {
        seq!['\\', 'f']
    } else if c <= '\u{1f}' {
        seq!['\\', 'u', '0', '0', hex_lower((c as int) / 16), hex_lower((c as int) % 16)]
    } else {
        seq![c]
    }
}

/// A JSON string literal holding `s`.
pub open spec fn json_quoted(s: Seq<char>) -> Seq<char> {
    seq!['"'] + expand(s, |c: char| json_char(c)) + seq!['"']
}

fn hex_lower_exec(d: u32) -> (c: char)
    requires
        d < 16,
    ensures
        c == hex_lower(d as int),
{
    let b: u8 = d as u8;
    if b < 10 {
        (48 + b) as char
    } else {
        (87 + b) as char
    }
}

fn push_json_char(out: &mut String, c: char)
    ensures
        final(out)@ == old(out)@ + json_char(c),
{
    let ghost before = out@;
    if c == '"' {
        push_char(out, '\\');
        push_char(out, '"');
    } else if c == '\\' {
        push_char(out, '\\');
        push_char(out, '\\');
    } else if c == '\n' {
        push_char(out, '\\');
        push_char(out, 'n');
    } else if c == '\r' {
        push_char(out, '\\');
        push_char(out, 'r');
    } else if c == '\t' {
        push_char(out, '\\');
        push_char(out, 't');
    } else if c == '\u{8}' {
        push_char(out, '\\');
        push_char(out, 'b');
    } else if c == '\u{c}' {
        push_char(out, '\\');
        push_char(out, 'f');
    } else if c <= '\u{1f}' {
        let code = c as u32;
        assert(code as int == c as int);
        assert(code <= 31);
        push_char(out, '\\');
        push_char(out, 'u');
        push_char(out, '0');
        push_char(out, '0');
        push_char(out, hex_lower_exec(code / 16));
        push_char(out, hex_lower_exec(code % 16));
    } else {
        push_char(out, c);
    }
    assert(out@ =~= before + json_char(c));
}

/// Appends the JSON string literal of `v` to `out`.
pub fn push_json_string(out: &mut String, value: &str)
    ensures
        final(out)@ == old(out)@ + json_quoted(value@),
{
    let v = chars_of(value);
    let ghost start = out@;
    let ghost f = |c: char| json_char(c);
    push_char(out, '"');
    let mut i: usize = 0;
    proof {
        assert(v@.take(0) =~= Seq::<char>::empty());
        assert(out@ =~= start + seq!['"'] + expand(v@.take(0), f));
    }
    while i < v.len()
        invariant
            i <= v@.len(),
            v@ == value@,
            f == (|c: char| json_char(c)),
            out@ == start + seq!['"'] + expand(v@.take(i as int), f),
        decreases v@.len() - i,
    {
        let c = v[i];
        let ghost before = out@;
        push_json_char(out, c);
        proof {
            assert(v@.take(i + 1) =~= v@.take(i as int).push(c));
            lemma_expand_push(v@.take(i as int), c, f);
            assert(out@ =~= start + seq!['"'] + expand(v@.take(i + 1), f));
        }
        i = i + 1;
    }
    push_char(out, '"');
    proof {
        assert(v@.take(v@.len() as int) =~= v@);
        assert(out@ =~= start + json_quoted(value@));
    }
}

/// The JSON string literal of `value`.
pub fn escape_json_string(value: &str) -> (r: String)
    ensures
        r@ == json_quoted(value@),
{
    let mut out = String::new();
    push_json_string(&mut out, value);
    assert(out@ =~= json_quoted(value@));
    out
}

} // verus!
