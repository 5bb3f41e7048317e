//! What the text viewer shows, and request bodies read as text.
use vstd::prelude::*;
use crate::text::{chars_of, string_of};

verus! {

broadcast use vstd::string::group_string_axioms;

/// A file shown in the text viewer.
pub struct TextFile {
    pub title: String,
    pub kind: String,
    pub content: String,
}

/// A file may be shown as text when it is small enough and its extension is not one
/// of a binary format.
pub open spec fn text_viewable(path: Seq<char>, size: u64) -> bool {
    size <= crate::routing::MAX_TEXT_VIEWER_FILE && !crate::kinds::is_binary_extension(crate::kinds::path_extension(path))
}

pub fn is_text_viewable(path: &str, size: u64) -> (r: bool)
    ensures
        r == text_viewable(path@, size),
{
    size <= crate::routing::MAX_TEXT_VIEWER_FILE && !crate::kinds::has_binary_extension(path)
}

/// The text file the bytes of `path` make: none for binary content or text with
/// control characters; the content loses its leading byte order marks.
pub open spec fn text_file_of(path: Seq<char>, bytes: Seq<u8>) -> Option<(Seq<char>, Seq<char>, Seq<char>)> {
    if crate::kinds::is_binary_content(bytes) || !crate::kinds::is_plain_text(bytes) {
        None
    } else {
        Some(
            (
                crate::routing::title_or(path, "Text"@),
                crate::kinds::text_kind_of(path),
                crate::pages::trim_boms(vstd::utf8::decode_utf8(bytes)),
            ),
        )
    }
}

/// Reads the bytes of a text-viewable file as a text file, if they are text.
pub fn text_file(path: &str, bytes: Vec<u8>) -> (r: Option<TextFile>)
    ensures
        match r {
            Some(f) => text_file_of(path@, bytes@) == Some((f.title@, f.kind@, f.content@)),
            None => text_file_of(path@, bytes@) is None,
        },
{
    if crate::kinds::has_binary_magic(bytes.as_slice()) || !crate::kinds::looks_like_utf8_text(bytes.as_slice()) {
        return None;
    }
    let ghost b = bytes@;
    let text = match crate::text::utf8_text(bytes) {
        Some(t) => t,
        None => return None,
    };
    let tc = chars_of(text.as_str());
    let content = string_of(crate::pages::trim_boms_chars(tc.as_slice()).as_slice());
    let title = match crate::paths::file_name_of(path) {
        Some(n) => string_of(n.as_slice()),
        None => string_of(chars_of("Text").as_slice()),
    };
    let kind = string_of(chars_of(crate::kinds::text_kind(path)).as_slice());
    Some(TextFile { title, kind, content })
}

/// A request body read in full (`None` when it ended early) as UTF-8 text, or the
/// message that refuses it.
pub open spec fn body_text(bytes: Option<Seq<u8>>) -> Result<Seq<char>, Seq<char>> {
    match bytes {
        None => Err("请求内容不完整\n"@),
        Some(b) => if vstd::utf8::valid_utf8(b) {
            Ok(vstd::utf8::decode_utf8(b))
        } else {
            Err("Markdown 必须是 UTF-8 文本\n"@)
        },
    }
}

pub fn read_body_text(bytes: Option<Vec<u8>>) -> (r: Result<String, String>)
    ensures
        match r {
            Ok(t) => body_text(
                match bytes {
                    Some(b) => Some(b@),
                    None => None,
                },
            ) == Ok::<Seq<char>, Seq<char>>(t@),
            Err(m) => body_text(
                match bytes {
                    Some(b) => Some(b@),
                    None => None,
                },
            ) == Err::<Seq<char>, Seq<char>>(m@),
        },
{
    match bytes {
        None => Err(string_of(chars_of("请求内容不完整\n").as_slice())),
        Some(b) => match crate::text::utf8_text(b) {
            Some(t) => Ok(t),
            None => Err(string_of(chars_of("Markdown 必须是 UTF-8 文本\n").as_slice())),
        },
    }
}

/// A line of an error report: the file's name, then what went wrong.
pub open spec fn failure_line(name: Seq<char>, message: Seq<char>) -> Seq<char> {
    name + "："@ + message
}

pub fn failure(name: &str, message: &str) -> (r: String)
    ensures
        r@ == failure_line(name@, message@),
{
    let mut r = string_of(chars_of(name).as_slice());
    crate::text::push_str(&mut r, "：");
    crate::text::push_str(&mut r, message);
    r
}


/// What went wrong after a file was deleted, while forgetting what was kept about it:
/// its comments or its cached state.
pub enum Cleanup {
    Comments,
    Cache,
}

/// A line of an error report for a file that was deleted but whose `cleanup` failed.
pub open spec fn cleanup_failure_line(name: Seq<char>, cleanup: Cleanup, message: Seq<char>) -> Seq<char> {
    name + match cleanup {
        Cleanup::Comments => " 已删除，但清理评论失败："@,
        Cleanup::Cache => " 已删除，但清理缓存失败："@,
    } + message
}

pub fn cleanup_failure(name: &str, cleanup: Cleanup, message: &str) -> (r: String)
    ensures
        r@ == cleanup_failure_line(name@, cleanup, message@),
{
    let mut r = string_of(chars_of(name).as_slice());
    match cleanup {
        Cleanup::Comments => crate::text::push_str(&mut r, " 已删除，但清理评论失败："),
        Cleanup::Cache => crate::text::push_str(&mut r, " 已删除，但清理缓存失败："),
    }
    crate::text::push_str(&mut r, message);
    r
}

} // verus!
