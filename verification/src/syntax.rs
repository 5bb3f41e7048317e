//! Highlighting of source code by syntect, with two-face's syntax set.
use vstd::prelude::*;
use crate::review::opt_text;
use crate::text::{
    chars_of, find_char, first_index, push_str, slice_chars, string_of, views,
};

verus! {

broadcast use vstd::string::group_string_axioms;

/// The name of the syntax of files with extension (or name) `extension`.
pub uninterp spec fn syntax_by_extension(extension: Seq<char>) -> Option<Seq<char>>;

/// The name of the syntax named by a code-block token `token`.
pub uninterp spec fn syntax_by_token(token: Seq<char>) -> Option<Seq<char>>;

/// The name of the syntax recognised by a file's first line `line`.
pub uninterp spec fn syntax_by_first_line(line: Seq<char>) -> Option<Seq<char>>;

/// The highlighted HTML of each line of `content` in syntax `syntax`, or `None` when
/// highlighting fails.
pub uninterp spec fn highlighted_lines(content: Seq<char>, syntax: Seq<char>, theme: Seq<char>) -> Option<
    Seq<Seq<char>>,
>;

/// `SyntaxSet::find_syntax_by_extension` on two-face's syntax set: the name of the
/// syntax whose extensions include `extension` (ignoring ASCII case), a function of
/// the extension alone.
#[verifier::external_body]
fn find_by_extension(extension: &str) -> (r: Option<String>)
    ensures
        opt_text(r) == syntax_by_extension(extension@),
{
    two_face::syntax::extra_newlines().find_syntax_by_extension(extension).map(|s| s.name.clone())
}

/// `SyntaxSet::find_syntax_by_token` on two-face's syntax set: the name of the syntax
/// found by extension, else by name, a function of the token alone.
#[verifier::external_body]
fn find_by_token(token: &str) -> (r: Option<String>)
    ensures
        opt_text(r) == syntax_by_token(token@),
{
    two_face::syntax::extra_newlines().find_syntax_by_token(token).map(|s| s.name.clone())
}

/// `SyntaxSet::find_syntax_by_first_line` on two-face's syntax set: the name of the
/// syntax whose first-line pattern matches `line`, a function of the line alone.
#[verifier::external_body]
fn find_by_first_line(line: &str) -> (r: Option<String>)
    ensures
        opt_text(r) == syntax_by_first_line(line@),
{
    two_face::syntax::extra_newlines().find_syntax_by_first_line(line).map(|s| s.name.clone())
}

/// syntect's `HighlightLines` and `styled_line_to_highlighted_html` over the lines of
/// `content` (each with its line ending) in the syntax named `syntax` and the default
/// theme `theme`: the HTML of each line, or `None` when a step fails; a function of
/// the content, the syntax and the theme alone.
#[verifier::external_body]
fn highlight(content: &str, syntax: &str, theme: &str) -> (r: Option<Vec<String>>)
    requires
        theme@ == "base16-ocean.dark"@,
    ensures
        match r {
            Some(v) => highlighted_lines(content@, syntax@, theme@) == Some(crate::paths::strings(v@)),
            None => highlighted_lines(content@, syntax@, theme@) is None,
        },
{
    let syntaxes = two_face::syntax::extra_newlines();
    let themes = syntect::highlighting::ThemeSet::load_defaults();
    let found = syntaxes.find_syntax_by_name(syntax)?;
    let mut highlighter = syntect::easy::HighlightLines::new(found, &themes.themes[theme]);
    let mut lines = Vec::new();
    for line in syntect::util::LinesWithEndings::from(content) {
        let regions = highlighter.highlight_line(line, &syntaxes).ok()?;
        let html = syntect::html::styled_line_to_highlighted_html(&regions, syntect::html::IncludeBackground::No);
        lines.push(html.ok()?);
    }
    Some(lines)
}

/// The first line of `content` as `str::lines` gives it: up to the first line feed,
/// without the carriage return before it; empty for empty content.
pub open spec fn first_line(content: Seq<char>) -> Seq<char> {
    if content.contains('\n') {
        let i = first_index(content, '\n');
        if i > 0 && content[i - 1] == '\r' {
            content.take(i - 1)
        } else {
            content.take(i)
        }
    } else {
        content
    }
}

/// The first line of `content` as `BufRead::read_line` reads it: up to and with the
/// first line feed.
pub open spec fn first_line_read(content: Seq<char>) -> Seq<char> {
    if content.contains('\n') {
        content.take(first_index(content, '\n') + 1)
    } else {
        content
    }
}

/// The syntax syntect finds for a file: by its name or extension, else by the first
/// line of its contents.
pub open spec fn syntax_for_file(path: Seq<char>, content: Seq<char>) -> Option<Seq<char>> {
    let name = match crate::paths::file_name(path) {
        Some(n) => n,
        None => Seq::<char>::empty(),
    };
    let extension = match crate::paths::file_name(path) {
        Some(n) => match crate::paths::extension(n) {
            Some(e) => e,
            None => Seq::<char>::empty(),
        },
        None => Seq::<char>::empty(),
    };
    match syntax_by_extension(name) {
        Some(s) => Some(s),
        None => match syntax_by_extension(extension) {
            Some(s) => Some(s),
            None => syntax_by_first_line(first_line_read(content)),
        },
    }
}

/// The syntax a source file is highlighted in: the file's own, else the one named by
/// its token, else the one its first line suggests.
pub open spec fn syntax_of(path: Seq<char>, content: Seq<char>) -> Option<Seq<char>> {
    match syntax_for_file(path, content) {
        Some(s) => Some(s),
        None => match syntax_by_token(crate::kinds::source_token_of(path)) {
            Some(s) => Some(s),
            None => syntax_by_first_line(first_line(content)),
        },
    }
}

/// `str::trim_end_matches(['\r', '\n'])`.
pub open spec fn trim_line_end(s: Seq<char>) -> Seq<char>
    decreases s.len(),
{
    if s.len() > 0 && (s.last() == '\r' || s.last() == '\n') {
        trim_line_end(s.drop_last())
    } else {
        s
    }
}

/// Each line in its own `line` span.
pub open spec fn line_spans(lines: Seq<Seq<char>>) -> Seq<char>
    decreases lines.len(),
{
    if lines.len() == 0 {
        Seq::empty()
    } else {
        line_spans(lines.drop_last()) + "<span class=\"line\">"@ + trim_line_end(lines.last()) + "</span>"@
    }
}

/// The highlighted lines of a source file, or `None` when it is not source code, has
/// no syntax but plain text, or cannot be highlighted. A final empty line is added
/// after a trailing line feed (or for empty content).
pub open spec fn highlighted_source(content: Seq<char>, path: Seq<char>) -> Option<Seq<char>> {
    if !crate::kinds::is_source_code_path(path) {
        None
    } else {
        match syntax_of(path, content) {
            None => None,
            Some(s) => if s == "Plain Text"@ {
                None
            } else {
                match highlighted_lines(content, s, "base16-ocean.dark"@) {
                    None => None,
                    Some(lines) => {
                        let out = line_spans(lines);
                        if out.len() == 0 || (content.len() > 0 && content.last() == '\n') {
                            Some(out + "<span class=\"line\"></span>"@)
                        } else {
                            Some(out)
                        }
                    },
                }
            },
        }
    }
}

fn first_line_exec(content: &[char]) -> (r: Vec<char>)
    ensures
        r@ == first_line(content@),
{
    match find_char(content, '\n') {
        Some(i) => {
            if i > 0 && content[i - 1] == '\r' {
                slice_chars(content, 0, i - 1)
            } else {
                slice_chars(content, 0, i)
            }
        },
        None => slice_chars(content, 0, content.len()),
    }
}

fn first_line_read_exec(content: &[char]) -> (r: Vec<char>)
    ensures
        r@ == first_line_read(content@),
{
    match find_char(content, '\n') {
        Some(i) => {
            assert(i < content.len());
            slice_chars(content, 0, i + 1)
        },
        None => slice_chars(content, 0, content.len()),
    }
}

fn trim_line_end_exec(s: &[char]) -> (r: Vec<char>)
    ensures
        r@ == trim_line_end(s@),
{
    let mut n = s.len();
    proof {
        assert(s@.take(n as int) =~= s@);
    }
    while n > 0 && (s[n - 1] == '\r' || s[n - 1] == '\n')
        invariant
            n <= s@.len(),
            trim_line_end(s@.take(n as int)) == trim_line_end(s@),
        decreases n,
    {
        proof {
            assert(s@.take(n as int).drop_last() =~= s@.take(n - 1));
            assert(s@.take(n as int).last() == s@[n - 1]);
        }
        n = n - 1;
    }
    slice_chars(s, 0, n)
}

fn syntax_for_file_exec(path: &str, content: &[char]) -> (r: Option<String>)
    ensures
        opt_text(r) == syntax_for_file(path@, content@),
{
    let (name, extension) = match crate::paths::file_name_of(path) {
        Some(n) => {
            let e = match crate::paths::extension_of(n.as_slice()) {
                Some(e) => string_of(e.as_slice()),
                None => String::new(),
            };
            (string_of(n.as_slice()), e)
        },
        None => (String::new(), String::new()),
    };
    match find_by_extension(name.as_str()) {
        Some(s) => Some(s),
        None => match find_by_extension(extension.as_str()) {
            Some(s) => Some(s),
            None => {
                let line = string_of(first_line_read_exec(content).as_slice());
                find_by_first_line(line.as_str())
            },
        },
    }
}

/// The highlighted lines of a source file, as the text viewer shows them.
pub fn highlighted_source_lines(content: &str, path: &str) -> (r: Option<String>)
    ensures
        opt_text(r) == highlighted_source(content@, path@),
{
    if !crate::kinds::is_source_code(path) {
        return None;
    }
    let cc = chars_of(content);
    let syntax = match syntax_for_file_exec(path, cc.as_slice()) {
        Some(s) => s,
        None => {
            let token = crate::kinds::source_token(path);
            match find_by_token(token.as_str()) {
                Some(s) => s,
                None => {
                    let line = string_of(first_line_exec(cc.as_slice()).as_slice());
                    match find_by_first_line(line.as_str()) {
                        Some(s) => s,
                        None => return None,
                    }
                },
            }
        },
    };
    let sc = chars_of(syntax.as_str());
    if crate::text::is_text(sc.as_slice(), "Plain Text") {
        return None;
    }
    let lines = match highlight(content, syntax.as_str(), "base16-ocean.dark") {
        Some(l) => l,
        None => return None,
    };
    let ghost ls = crate::paths::strings(lines@);
    let mut out = String::new();
    let mut i: usize = 0;
    proof {
        assert(ls.take(0) =~= Seq::<Seq<char>>::empty());
    }
    while i < lines.len()
        invariant
            ls == crate::paths::strings(lines@),
            i <= ls.len(),
            out@ == line_spans(ls.take(i as int)),
        decreases ls.len() - i,
    {
        let lc = chars_of(lines[i].as_str());
        let trimmed = trim_line_end_exec(lc.as_slice());
        push_str(&mut out, "<span class=\"line\">");
        crate::text::push_chars(&mut out, trimmed.as_slice());
        push_str(&mut out, "</span>");
        proof {
            assert(ls.take(i + 1).drop_last() =~= ls.take(i as int));
            assert(ls.take(i + 1).last() == lines@[i as int]@);
            assert(out@ =~= line_spans(ls.take(i + 1)));
        }
        i = i + 1;
    }
    proof {
        assert(ls.take(i as int) =~= ls);
    }
    let oc = chars_of(out.as_str());
    if oc.len() == 0 || (cc.len() > 0 && cc[cc.len() - 1] == '\n') {
        push_str(&mut out, "<span class=\"line\"></span>");
    }
    Some(out)
}

} // verus!
