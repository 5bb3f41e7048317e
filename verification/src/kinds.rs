//! Classification of files by name, extension and leading bytes: the kind shown in
//! listings, the text kind of the text viewer, the MIME type, and whether a file is
//! binary.
use vstd::prelude::*;
use crate::paths::{file_name, file_name_of, has_extension, has_extension_exec, lower_extension, lower_extension_of};
use crate::text::{is_text, lower, lower_chars};

verus! {

broadcast use vstd::string::group_string_axioms;

/// The lowercase file name of a path, or the empty text when it has none.
pub open spec fn lower_name(path: Seq<char>) -> Seq<char> {
    match file_name(path) {
        Some(n) => lower(n),
        None => Seq::<char>::empty(),
    }
}

fn lower_name_of(path: &str) -> (r: Vec<char>)
    ensures
        r@ == lower_name(path@),
{
    match file_name_of(path) {
        Some(n) => lower_chars(n.as_slice()),
        None => Vec::new(),
    }
}

/// The lowercase extension of the file a path names, or the empty text.
pub open spec fn path_extension(path: Seq<char>) -> Seq<char> {
    match file_name(path) {
        Some(n) => lower_extension(n),
        None => Seq::<char>::empty(),
    }
}

fn path_extension_of(path: &str) -> (r: Vec<char>)
    ensures
        r@ == path_extension(path@),
{
    match file_name_of(path) {
        Some(n) => lower_extension_of(n.as_slice()),
        None => Vec::new(),
    }
}

/// Whether the file `path` names has extension `expected`, ignoring ASCII case.
pub open spec fn path_has_extension(path: Seq<char>, expected: Seq<char>) -> bool {
    match file_name(path) {
        Some(n) => has_extension(n, expected),
        None => false,
    }
}

pub fn path_has_extension_exec(path: &str, expected: &str) -> (r: bool)
    ensures
        r == path_has_extension(path@, expected@),
{
    match file_name_of(path) {
        Some(n) => has_extension_exec(n.as_slice(), expected),
        None => false,
    }
}

/// The listing kind of a lowercase extension.
pub open spec fn kind_of_extension(e: Seq<char>) -> Seq<char> {
    if e == "html"@ || e == "htm"@ {
        "HTML"@
    } else if e == "md"@ {
        "MD"@
    } else if e == "css"@ {
        "CSS"@
    } else if e == "js"@ || e == "mjs"@ {
        "JS"@
    } else if e == "json"@ {
        "JSON"@
    } else if e == "toml"@ {
        "TOML"@
    } else if e == "xml"@ {
        "XML"@
    } else if e == "yaml"@ || e == "yml"@ {
        "YAML"@
    } else if e == "conf"@ || e == "config"@ || e == "cfg"@ || e == "ini"@ {
        "CONFIG"@
    } else if e == "sh"@ || e == "bash"@ || e == "zsh"@ || e == "fish"@ {
        "SHELL"@
    } else if e == "rs"@ {
        "RUST"@
    } else if e == "sql"@ {
        "SQL"@
    } else if e == "go"@ {
        "GO"@
    } else if e == "ts"@ || e == "tsx"@ {
        "TYPESCRIPT"@
    } else if e == "py"@ || e == "pyw"@ {
        "PYTHON"@
    } else if e == "java"@ {
        "JAVA"@
    } else if e == "c"@ || e == "h"@ || e == "cc"@ || e == "cpp"@ || e == "cxx"@ || e == "hpp"@ || e == "hxx"@ {
        "C/C++"@
    } else if e == "lisp"@ || e == "lsp"@ || e == "cl"@ || e == "el"@ || e == "scm"@ || e == "ss"@ || e == "rkt"@ {
        "LISP"@
    } else if e == "png"@ || e == "jpg"@ || e == "jpeg"@ || e == "gif"@ || e == "webp"@ || e == "svg"@ {
        "IMAGE"@
    } else if e == "mp4"@ {
        "VIDEO"@
    } else if e == "drawio"@ {
        "DRAWIO"@
    } else if e == "pdf"@ {
        "PDF"@
    } else if e == "txt"@ {
        "TEXT"@
    } else {
        "FILE"@
    }
}

fn kind_of_extension_exec(e: &[char]) -> (r: &'static str)
    ensures
        r@ == kind_of_extension(e@),
{
    if is_text(e, "html") || is_text(e, "htm") {
        return "HTML";
    }
    if is_text(e, "md") {
        return "MD";
    }
    if is_text(e, "css") {
        return "CSS";
    }
    if is_text(e, "js") || is_text(e, "mjs") {
        return "JS";
    }
    if is_text(e, "json") {
        return "JSON";
    }
    if is_text(e, "toml") {
        return "TOML";
    }
    if is_text(e, "xml") {
        return "XML";
    }
    if is_text(e, "yaml") || is_text(e, "yml") {
        return "YAML";
    }
    if is_text(e, "conf") || is_text(e, "config") || is_text(e, "cfg") || is_text(e, "ini") {
        return "CONFIG";
    }
    if is_text(e, "sh") || is_text(e, "bash") || is_text(e, "zsh") || is_text(e, "fish") {
        return "SHELL";
    }
    if is_text(e, "rs") {
        return "RUST";
    }
    if is_text(e, "sql") {
        return "SQL";
    }
    if is_text(e, "go") {
        return "GO";
    }
    if is_text(e, "ts") || is_text(e, "tsx") {
        return "TYPESCRIPT";
    }
    if is_text(e, "py") || is_text(e, "pyw") {
        return "PYTHON";
    }
    if is_text(e, "java") {
        return "JAVA";
    }
    if is_text(e, "c") || is_text(e, "h") || is_text(e, "cc") || is_text(e, "cpp") || is_text(e, "cxx") || is_text(e, "hpp") || is_text(e, "hxx") {
        return "C/C++";
    }
    if is_text(e, "lisp") || is_text(e, "lsp") || is_text(e, "cl") || is_text(e, "el") || is_text(e, "scm") || is_text(e, "ss") || is_text(e, "rkt") {
        return "LISP";
    }
    if is_text(e, "png") || is_text(e, "jpg") || is_text(e, "jpeg") || is_text(e, "gif") || is_text(e, "webp") || is_text(e, "svg") {
        return "IMAGE";
    }
    if is_text(e, "mp4") {
        return "VIDEO";
    }
    if is_text(e, "drawio") {
        return "DRAWIO";
    }
    if is_text(e, "pdf") {
        return "PDF";
    }
    if is_text(e, "txt") {
        return "TEXT";
    }
    "FILE"
}

/// The listing kind of a file: by its lowercase name for a few build files, else by its
/// lowercase extension.
pub open spec fn file_kind_of(path: Seq<char>) -> Seq<char> {
    let name = lower_name(path);
    if name == "dockerfile"@ || name == "dockfile"@ || name == "containerfile"@ {
        "DOCKERFILE"@
    } else if name == "makefile"@ || name == "gnumakefile"@ {
        "MAKEFILE"@
    } else {
        kind_of_extension(path_extension(path))
    }
}

pub fn file_kind(path: &str) -> (r: &'static str)
    ensures
        r@ == file_kind_of(path@),
{
    let name = lower_name_of(path);
    if is_text(&name, "dockerfile") || is_text(&name, "dockfile") || is_text(&name, "containerfile") {
        return "DOCKERFILE";
    }
    if is_text(&name, "makefile") || is_text(&name, "gnumakefile") {
        return "MAKEFILE";
    }
    let e = path_extension_of(path);
    kind_of_extension_exec(&e)
}

/// Extensions of files that are never shown as text.
pub open spec fn is_binary_extension(e: Seq<char>) -> bool {
    e == "png"@
        || e == "jpg"@
        || e == "jpeg"@
        || e == "gif"@
        || e == "webp"@
        || e == "ico"@
        || e == "bmp"@
        || e == "avif"@
        || e == "pdf"@
        || e == "zip"@
        || e == "gz"@
        || e == "bz2"@
        || e == "xz"@
        || e == "7z"@
        || e == "rar"@
        || e == "tar"@
        || e == "wasm"@
        || e == "exe"@
        || e == "dll"@
        || e == "so"@
        || e == "dylib"@
        || e == "a"@
        || e == "o"@
        || e == "class"@
        || e == "jar"@
        || e == "woff"@
        || e == "woff2"@
        || e == "ttf"@
        || e == "otf"@
        || e == "mp3"@
        || e == "mp4"@
        || e == "wav"@
        || e == "ogg"@
        || e == "webm"@
        || e == "mov"@
        || e == "avi"@
        || e == "sqlite"@
        || e == "db"@
        || e == "doc"@
        || e == "docx"@
        || e == "xls"@
        || e == "xlsx"@
        || e == "ppt"@
        || e == "pptx"@
        || e == "bin"@
        || e == "dat"@
        || e == "pak"@
        || e == "img"@
        || e == "iso"@
        || e == "dmg"@
        || e == "deb"@
        || e == "rpm"@
        || e == "protobuf"@
        || e == "msgpack"@
}

pub fn has_binary_extension(path: &str) -> (r: bool)
    ensures
        r == is_binary_extension(path_extension(path@)),
{
    let e = path_extension_of(path);
    if is_text(&e, "png") {
        return true;
    }
    if is_text(&e, "jpg") {
        return true;
    }
    if is_text(&e, "jpeg") {
        return true;
    }
    if is_text(&e, "gif") {
        return true;
    }
    if is_text(&e, "webp") {
        return true;
    }
    if is_text(&e, "ico") {
        return true;
    }
    if is_text(&e, "bmp") {
        return true;
    }
    if is_text(&e, "avif") {
        return true;
    }
    if is_text(&e, "pdf") {
        return true;
    }
    if is_text(&e, "zip") {
        return true;
    }
    if is_text(&e, "gz") {
        return true;
    }
    if is_text(&e, "bz2") {
        return true;
    }
    if is_text(&e, "xz") {
        return true;
    }
    if is_text(&e, "7z") {
        return true;
    }
    if is_text(&e, "rar") {
        return true;
    }
    if is_text(&e, "tar") {
        return true;
    }
    if is_text(&e, "wasm") {
        return true;
    }
    if is_text(&e, "exe") {
        return true;
    }
    if is_text(&e, "dll") {
        return true;
    }
    if is_text(&e, "so") {
        return true;
    }
    if is_text(&e, "dylib") {
        return true;
    }
    if is_text(&e, "a") {
        return true;
    }
    if is_text(&e, "o") {
        return true;
    }
    if is_text(&e, "class") {
        return true;
    }
    if is_text(&e, "jar") {
        return true;
    }
    if is_text(&e, "woff") {
        return true;
    }
    if is_text(&e, "woff2") {
        return true;
    }
    if is_text(&e, "ttf") {
        return true;
    }
    if is_text(&e, "otf") {
        return true;
    }
    if is_text(&e, "mp3") {
        return true;
    }
    if is_text(&e, "mp4") {
        return true;
    }
    if is_text(&e, "wav") {
        return true;
    }
    if is_text(&e, "ogg") {
        return true;
    }
    if is_text(&e, "webm") {
        return true;
    }
    if is_text(&e, "mov") {
        return true;
    }
    if is_text(&e, "avi") {
        return true;
    }
    if is_text(&e, "sqlite") {
        return true;
    }
    if is_text(&e, "db") {
        return true;
    }
    if is_text(&e, "doc") {
        return true;
    }
    if is_text(&e, "docx") {
        return true;
    }
    if is_text(&e, "xls") {
        return true;
    }
    if is_text(&e, "xlsx") {
        return true;
    }
    if is_text(&e, "ppt") {
        return true;
    }
    if is_text(&e, "pptx") {
        return true;
    }
    if is_text(&e, "bin") {
        return true;
    }
    if is_text(&e, "dat") {
        return true;
    }
    if is_text(&e, "pak") {
        return true;
    }
    if is_text(&e, "img") {
        return true;
    }
    if is_text(&e, "iso") {
        return true;
    }
    if is_text(&e, "dmg") {
        return true;
    }
    if is_text(&e, "deb") {
        return true;
    }
    if is_text(&e, "rpm") {
        return true;
    }
    if is_text(&e, "protobuf") {
        return true;
    }
    if is_text(&e, "msgpack") {
        return true;
    }
    false
}

/// The text viewer kind of a lowercase extension.
pub open spec fn text_kind_of_extension(e: Seq<char>) -> Seq<char> {
    if e == "toml"@ {
        "TOML"@
    } else if e == "xml"@ {
        "XML"@
    } else if e == "yaml"@ || e == "yml"@ {
        "YAML"@
    } else if e == "json"@ || e == "jsonl"@ {
        "JSON"@
    } else if e == "txt"@ {
        "TEXT"@
    } else if e == "conf"@ || e == "config"@ || e == "cfg"@ || e == "ini"@ || e == "properties"@ {
        "CONFIG"@
    } else if e == "sh"@ || e == "bash"@ || e == "zsh"@ || e == "fish"@ {
        "SHELL"@
    } else if e == "lisp"@ || e == "lsp"@ || e == "cl"@ || e == "el"@ || e == "scm"@ || e == "ss"@ || e == "rkt"@ {
        "LISP"@
    } else if e == "rs"@ {
        "RUST"@
    } else if e == "go"@ {
        "GO"@
    } else if e == "py"@ {
        "PYTHON"@
    } else if e == "rb"@ {
        "RUBY"@
    } else if e == "java"@ {
        "JAVA"@
    } else if e == "c"@ || e == "h"@ || e == "cc"@ || e == "cpp"@ || e == "hpp"@ {
        "C/C++"@
    } else if e == "ts"@ || e == "tsx"@ {
        "TYPESCRIPT"@
    } else if e == "js"@ || e == "jsx"@ || e == "mjs"@ {
        "JAVASCRIPT"@
    } else if e == "css"@ || e == "scss"@ || e == "sass"@ || e == "less"@ {
        "CSS"@
    } else if e == "sql"@ {
        "SQL"@
    } else if e == "log"@ {
        "LOG"@
    } else {
        "TEXT"@
    }
}

fn text_kind_of_extension_exec(e: &[char]) -> (r: &'static str)
    ensures
        r@ == text_kind_of_extension(e@),
{
    if is_text(e, "toml") {
        return "TOML";
    }
    if is_text(e, "xml") {
        return "XML";
    }
    if is_text(e, "yaml") || is_text(e, "yml") {
        return "YAML";
    }
    if is_text(e, "json") || is_text(e, "jsonl") {
        return "JSON";
    }
    if is_text(e, "txt") {
        return "TEXT";
    }
    if is_text(e, "conf") || is_text(e, "config") || is_text(e, "cfg") || is_text(e, "ini") || is_text(e, "properties") {
        return "CONFIG";
    }
    if is_text(e, "sh") || is_text(e, "bash") || is_text(e, "zsh") || is_text(e, "fish") {
        return "SHELL";
    }
    if is_text(e, "lisp") || is_text(e, "lsp") || is_text(e, "cl") || is_text(e, "el") || is_text(e, "scm") || is_text(e, "ss") || is_text(e, "rkt") {
        return "LISP";
    }
    if is_text(e, "rs") {
        return "RUST";
    }
    if is_text(e, "go") {
        return "GO";
    }
    if is_text(e, "py") {
        return "PYTHON";
    }
    if is_text(e, "rb") {
        return "RUBY";
    }
    if is_text(e, "java") {
        return "JAVA";
    }
    if is_text(e, "c") || is_text(e, "h") || is_text(e, "cc") || is_text(e, "cpp") || is_text(e, "hpp") {
        return "C/C++";
    }
    if is_text(e, "ts") || is_text(e, "tsx") {
        return "TYPESCRIPT";
    }
    if is_text(e, "js") || is_text(e, "jsx") || is_text(e, "mjs") {
        return "JAVASCRIPT";
    }
    if is_text(e, "css") || is_text(e, "scss") || is_text(e, "sass") || is_text(e, "less") {
        return "CSS";
    }
    if is_text(e, "sql") {
        return "SQL";
    }
    if is_text(e, "log") {
        return "LOG";
    }
    "TEXT"
}

/// The text viewer kind of a file: by its lowercase name for well-known dot files and
/// build files, else by its lowercase extension.
pub open spec fn text_kind_of(path: Seq<char>) -> Seq<char> {
    let name = lower_name(path);
    if name == "dockerfile"@ || name == "dockfile"@ || name == "containerfile"@ {
        "DOCKERFILE"@
    } else if name == "makefile"@ || name == "gnumakefile"@ {
        "MAKEFILE"@
    } else if name == ".bashrc"@ || name == ".bash_profile"@ || name == ".zshrc"@ || name == ".profile"@ {
        "SHELL"@
    } else if name == ".gitignore"@ || name == ".gitattributes"@ || name == ".dockerignore"@ {
        "CONFIG"@
    } else if name == ".env"@ || name == ".editorconfig"@ {
        "CONFIG"@
    } else {
        text_kind_of_extension(path_extension(path))
    }
}

pub fn text_kind(path: &str) -> (r: &'static str)
    ensures
        r@ == text_kind_of(path@),
{
    let name = lower_name_of(path);
    if is_text(&name, "dockerfile") || is_text(&name, "dockfile") || is_text(&name, "containerfile") {
        return "DOCKERFILE";
    }
    if is_text(&name, "makefile") || is_text(&name, "gnumakefile") {
        return "MAKEFILE";
    }
    if is_text(&name, ".bashrc") || is_text(&name, ".bash_profile") || is_text(&name, ".zshrc") || is_text(&name, ".profile") {
        return "SHELL";
    }
    if is_text(&name, ".gitignore") || is_text(&name, ".gitattributes") || is_text(&name, ".dockerignore") {
        return "CONFIG";
    }
    if is_text(&name, ".env") || is_text(&name, ".editorconfig") {
        return "CONFIG";
    }
    let e = path_extension_of(path);
    text_kind_of_extension_exec(&e)
}

/// Files the text viewer highlights as source code: a few build files by name, and
/// programming language extensions.
pub open spec fn is_source_code_path(path: Seq<char>) -> bool {
    let name = lower_name(path);
    let e = path_extension(path);
    name == "dockerfile"@ || name == "dockfile"@ || name == "containerfile"@ || name == "makefile"@ || name == "gnumakefile"@
        || e == "rs"@
        || e == "sql"@
        || e == "json"@
        || e == "jsonl"@
        || e == "go"@
        || e == "js"@
        || e == "jsx"@
        || e == "mjs"@
        || e == "cjs"@
        || e == "ts"@
        || e == "tsx"@
        || e == "sh"@
        || e == "bash"@
        || e == "zsh"@
        || e == "fish"@
        || e == "lisp"@
        || e == "lsp"@
        || e == "cl"@
        || e == "el"@
        || e == "scm"@
        || e == "ss"@
        || e == "rkt"@
        || e == "py"@
        || e == "pyw"@
        || e == "java"@
        || e == "c"@
        || e == "h"@
        || e == "cc"@
        || e == "cpp"@
        || e == "cxx"@
        || e == "hpp"@
        || e == "hxx"@
        || e == "cs"@
        || e == "rb"@
        || e == "php"@
        || e == "swift"@
        || e == "kt"@
        || e == "kts"@
        || e == "scala"@
        || e == "lua"@
        || e == "dart"@
        || e == "ex"@
        || e == "exs"@
        || e == "erl"@
        || e == "hrl"@
        || e == "hs"@
}

pub fn is_source_code(path: &str) -> (r: bool)
    ensures
        r == is_source_code_path(path@),
{
    let name = lower_name_of(path);
    if is_text(&name, "dockerfile") {
        return true;
    }
    if is_text(&name, "dockfile") {
        return true;
    }
    if is_text(&name, "containerfile") {
        return true;
    }
    if is_text(&name, "makefile") {
        return true;
    }
    if is_text(&name, "gnumakefile") {
        return true;
    }
    let e = path_extension_of(path);
    if is_text(&e, "rs") {
        return true;
    }
    if is_text(&e, "sql") {
        return true;
    }
    if is_text(&e, "json") {
        return true;
    }
    if is_text(&e, "jsonl") {
        return true;
    }
    if is_text(&e, "go") {
        return true;
    }
    if is_text(&e, "js") {
        return true;
    }
    if is_text(&e, "jsx") {
        return true;
    }
    if is_text(&e, "mjs") {
        return true;
    }
    if is_text(&e, "cjs") {
        return true;
    }
    if is_text(&e, "ts") {
        return true;
    }
    if is_text(&e, "tsx") {
        return true;
    }
    if is_text(&e, "sh") {
        return true;
    }
    if is_text(&e, "bash") {
        return true;
    }
    if is_text(&e, "zsh") {
        return true;
    }
    if is_text(&e, "fish") {
        return true;
    }
    if is_text(&e, "lisp") {
        return true;
    }
    if is_text(&e, "lsp") {
        return true;
    }
    if is_text(&e, "cl") {
        return true;
    }
    if is_text(&e, "el") {
        return true;
    }
    if is_text(&e, "scm") {
        return true;
    }
    if is_text(&e, "ss") {
        return true;
    }
    if is_text(&e, "rkt") {
        return true;
    }
    if is_text(&e, "py") {
        return true;
    }
    if is_text(&e, "pyw") {
        return true;
    }
    if is_text(&e, "java") {
        return true;
    }
    if is_text(&e, "c") {
        return true;
    }
    if is_text(&e, "h") {
        return true;
    }
    if is_text(&e, "cc") {
        return true;
    }
    if is_text(&e, "cpp") {
        return true;
    }
    if is_text(&e, "cxx") {
        return true;
    }
    if is_text(&e, "hpp") {
        return true;
    }
    if is_text(&e, "hxx") {
        return true;
    }
    if is_text(&e, "cs") {
        return true;
    }
    if is_text(&e, "rb") {
        return true;
    }
    if is_text(&e, "php") {
        return true;
    }
    if is_text(&e, "swift") {
        return true;
    }
    if is_text(&e, "kt") {
        return true;
    }
    if is_text(&e, "kts") {
        return true;
    }
    if is_text(&e, "scala") {
        return true;
    }
    if is_text(&e, "lua") {
        return true;
    }
    if is_text(&e, "dart") {
        return true;
    }
    if is_text(&e, "ex") {
        return true;
    }
    if is_text(&e, "exs") {
        return true;
    }
    if is_text(&e, "erl") {
        return true;
    }
    if is_text(&e, "hrl") {
        return true;
    }
    if is_text(&e, "hs") {
        return true;
    }
    false
}

/// The syntax token used to look up a highlighter when the file name alone finds none:
/// a canonical extension for common aliases, else the extension as written.
pub open spec fn source_token_of(path: Seq<char>) -> Seq<char> {
    let raw = match file_name(path) {
        Some(n) => match crate::paths::extension(n) {
            Some(e) => e,
            None => Seq::<char>::empty(),
        },
        None => Seq::<char>::empty(),
    };
    let e = lower(raw);
    if e == "jsonl"@ {
        "json"@
    } else if e == "cjs"@ || e == "mjs"@ || e == "jsx"@ {
        "js"@
    } else if e == "tsx"@ {
        "ts"@
    } else if e == "bash"@ || e == "zsh"@ || e == "fish"@ {
        "sh"@
    } else if e == "lsp"@ || e == "cl"@ || e == "el"@ || e == "scm"@ || e == "ss"@ || e == "rkt"@ {
        "lisp"@
    } else if e == "pyw"@ {
        "py"@
    } else if e == "cc"@ || e == "cxx"@ || e == "hpp"@ || e == "hxx"@ {
        "cpp"@
    } else if e == "kts"@ {
        "kt"@
    } else if e == "exs"@ {
        "ex"@
    } else if e == "hrl"@ {
        "erl"@
    } else {
        raw
    }
}

pub fn source_token(path: &str) -> (r: String)
    ensures
        r@ == source_token_of(path@),
{
    let raw: Vec<char> = match file_name_of(path) {
        Some(n) => match crate::paths::extension_of(n.as_slice()) {
            Some(e) => e,
            None => Vec::new(),
        },
        None => Vec::new(),
    };
    let e = lower_chars(raw.as_slice());
    if is_text(&e, "jsonl") {
        return crate::text::string_of(crate::text::chars_of("json").as_slice());
    }
    if is_text(&e, "cjs") || is_text(&e, "mjs") || is_text(&e, "jsx") {
        return crate::text::string_of(crate::text::chars_of("js").as_slice());
    }
    if is_text(&e, "tsx") {
        return crate::text::string_of(crate::text::chars_of("ts").as_slice());
    }
    if is_text(&e, "bash") || is_text(&e, "zsh") || is_text(&e, "fish") {
        return crate::text::string_of(crate::text::chars_of("sh").as_slice());
    }
    if is_text(&e, "lsp") || is_text(&e, "cl") || is_text(&e, "el") || is_text(&e, "scm") || is_text(&e, "ss") || is_text(&e, "rkt") {
        return crate::text::string_of(crate::text::chars_of("lisp").as_slice());
    }
    if is_text(&e, "pyw") {
        return crate::text::string_of(crate::text::chars_of("py").as_slice());
    }
    if is_text(&e, "cc") || is_text(&e, "cxx") || is_text(&e, "hpp") || is_text(&e, "hxx") {
        return crate::text::string_of(crate::text::chars_of("cpp").as_slice());
    }
    if is_text(&e, "kts") {
        return crate::text::string_of(crate::text::chars_of("kt").as_slice());
    }
    if is_text(&e, "exs") {
        return crate::text::string_of(crate::text::chars_of("ex").as_slice());
    }
    if is_text(&e, "hrl") {
        return crate::text::string_of(crate::text::chars_of("erl").as_slice());
    }
    crate::text::string_of(raw.as_slice())
}

/// The MIME type served for a lowercase extension.
pub open spec fn mime_of_extension(e: Seq<char>) -> Seq<char> {
    if e == "html"@ || e == "htm"@ {
        "text/html; charset=utf-8"@
    } else if e == "css"@ {
        "text/css; charset=utf-8"@
    } else if e == "js"@ || e == "mjs"@ {
        "text/javascript; charset=utf-8"@
    } else if e == "json"@ {
        "application/json; charset=utf-8"@
    } else if e == "txt"@ {
        "text/plain; charset=utf-8"@
    } else if e == "md"@ {
        "text/markdown; charset=utf-8"@
    } else if e == "drawio"@ {
        "application/vnd.jgraph.mxfile"@
    } else if e == "svg"@ {
        "image/svg+xml"@
    } else if e == "png"@ {
        "image/png"@
    } else if e == "jpg"@ || e == "jpeg"@ {
        "image/jpeg"@
    } else if e == "gif"@ {
        "image/gif"@
    } else if e == "webp"@ {
        "image/webp"@
    } else if e == "ico"@ {
        "image/x-icon"@
    } else if e == "wasm"@ {
        "application/wasm"@
    } else if e == "pdf"@ {
        "application/pdf"@
    } else if e == "mp4"@ {
        "video/mp4"@
    } else if e == "xml"@ {
        "application/xml"@
    } else {
        "application/octet-stream"@
    }
}

fn mime_of_extension_exec(e: &[char]) -> (r: &'static str)
    ensures
        r@ == mime_of_extension(e@),
{
    if is_text(e, "html") || is_text(e, "htm") {
        return "text/html; charset=utf-8";
    }
    if is_text(e, "css") {
        return "text/css; charset=utf-8";
    }
    if is_text(e, "js") || is_text(e, "mjs") {
        return "text/javascript; charset=utf-8";
    }
    if is_text(e, "json") {
        return "application/json; charset=utf-8";
    }
    if is_text(e, "txt") {
        return "text/plain; charset=utf-8";
    }
    if is_text(e, "md") {
        return "text/markdown; charset=utf-8";
    }
    if is_text(e, "drawio") {
        return "application/vnd.jgraph.mxfile";
    }
    if is_text(e, "svg") {
        return "image/svg+xml";
    }
    if is_text(e, "png") {
        return "image/png";
    }
    if is_text(e, "jpg") || is_text(e, "jpeg") {
        return "image/jpeg";
    }
    if is_text(e, "gif") {
        return "image/gif";
    }
    if is_text(e, "webp") {
        return "image/webp";
    }
    if is_text(e, "ico") {
        return "image/x-icon";
    }
    if is_text(e, "wasm") {
        return "application/wasm";
    }
    if is_text(e, "pdf") {
        return "application/pdf";
    }
    if is_text(e, "mp4") {
        return "video/mp4";
    }
    if is_text(e, "xml") {
        return "application/xml";
    }
    "application/octet-stream"
}

/// The MIME type served for a file.
pub open spec fn mime_type_of(path: Seq<char>) -> Seq<char> {
    mime_of_extension(path_extension(path))
}

proof fn lemma_extension_names_differ()
    ensures
        "css"@ != "html"@ && "css"@ != "htm"@,
        "js"@ != "html"@ && "js"@ != "htm"@ && "js"@ != "css"@,
        "mjs"@ != "html"@ && "mjs"@ != "htm"@ && "mjs"@ != "css"@,
        "json"@ != "html"@ && "json"@ != "htm"@ && "json"@ != "css"@ && "json"@ != "js"@ && "json"@
            != "mjs"@,
        "md"@ != "html"@ && "md"@ != "htm"@ && "md"@ != "css"@ && "md"@ != "js"@ && "md"@ != "mjs"@
            && "md"@ != "json"@ && "md"@ != "txt"@,
        "svg"@ != "html"@ && "svg"@ != "htm"@ && "svg"@ != "css"@ && "svg"@ != "js"@ && "svg"@
            != "mjs"@ && "svg"@ != "json"@ && "svg"@ != "txt"@ && "svg"@ != "md"@ && "svg"@
            != "drawio"@,
        "png"@ != "html"@ && "png"@ != "htm"@ && "png"@ != "css"@ && "png"@ != "js"@ && "png"@
            != "mjs"@ && "png"@ != "json"@ && "png"@ != "txt"@ && "png"@ != "md"@ && "png"@
            != "drawio"@ && "png"@ != "svg"@,
        "jpg"@ != "html"@ && "jpg"@ != "htm"@ && "jpg"@ != "css"@ && "jpg"@ != "js"@ && "jpg"@
            != "mjs"@ && "jpg"@ != "json"@ && "jpg"@ != "txt"@ && "jpg"@ != "md"@ && "jpg"@
            != "drawio"@ && "jpg"@ != "svg"@ && "jpg"@ != "png"@,
        "jpeg"@ != "html"@ && "jpeg"@ != "htm"@ && "jpeg"@ != "css"@ && "jpeg"@ != "js"@ && "jpeg"@
            != "mjs"@ && "jpeg"@ != "json"@ && "jpeg"@ != "txt"@ && "jpeg"@ != "md"@ && "jpeg"@
            != "drawio"@ && "jpeg"@ != "svg"@ && "jpeg"@ != "png"@,
        "gif"@ != "html"@ && "gif"@ != "htm"@ && "gif"@ != "css"@ && "gif"@ != "js"@ && "gif"@
            != "mjs"@ && "gif"@ != "json"@ && "gif"@ != "txt"@ && "gif"@ != "md"@ && "gif"@
            != "drawio"@ && "gif"@ != "svg"@ && "gif"@ != "png"@ && "gif"@ != "jpg"@ && "gif"@
            != "jpeg"@,
        "pdf"@ != "html"@ && "pdf"@ != "htm"@ && "pdf"@ != "css"@ && "pdf"@ != "js"@ && "pdf"@
            != "mjs"@ && "pdf"@ != "json"@ && "pdf"@ != "txt"@ && "pdf"@ != "md"@ && "pdf"@
            != "drawio"@ && "pdf"@ != "svg"@ && "pdf"@ != "png"@ && "pdf"@ != "jpg"@ && "pdf"@
            != "jpeg"@ && "pdf"@ != "gif"@ && "pdf"@ != "webp"@ && "pdf"@ != "ico"@ && "pdf"@
            != "wasm"@,
{
    reveal_strlit("html");
    reveal_strlit("htm");
    reveal_strlit("css");
    reveal_strlit("js");
    reveal_strlit("mjs");
    reveal_strlit("json");
    reveal_strlit("txt");
    reveal_strlit("md");
    reveal_strlit("drawio");
    reveal_strlit("svg");
    reveal_strlit("png");
    reveal_strlit("jpg");
    reveal_strlit("jpeg");
    reveal_strlit("gif");
    reveal_strlit("webp");
    reveal_strlit("ico");
    reveal_strlit("wasm");
    reveal_strlit("pdf");
    assert("css"@.len() != "html"@.len());
    assert("js"@.len() != "html"@.len());
    assert("js"@.len() != "htm"@.len());
    assert("js"@.len() != "css"@.len());
    assert("mjs"@.len() != "html"@.len());
    assert("json"@.len() != "htm"@.len());
    assert("json"@.len() != "css"@.len());
    assert("json"@.len() != "js"@.len());
    assert("json"@.len() != "mjs"@.len());
    assert("md"@.len() != "html"@.len());
    assert("md"@.len() != "htm"@.len());
    assert("md"@.len() != "css"@.len());
    assert("md"@.len() != "mjs"@.len());
    assert("md"@.len() != "json"@.len());
    assert("md"@.len() != "txt"@.len());
    assert("svg"@.len() != "html"@.len());
    assert("svg"@.len() != "js"@.len());
    assert("svg"@.len() != "json"@.len());
    assert("svg"@.len() != "md"@.len());
    assert("svg"@.len() != "drawio"@.len());
    assert("png"@.len() != "html"@.len());
    assert("png"@.len() != "js"@.len());
    assert("png"@.len() != "json"@.len());
    assert("png"@.len() != "md"@.len());
    assert("png"@.len() != "drawio"@.len());
    assert("jpg"@.len() != "html"@.len());
    assert("jpg"@.len() != "js"@.len());
    assert("jpg"@.len() != "json"@.len());
    assert("jpg"@.len() != "md"@.len());
    assert("jpg"@.len() != "drawio"@.len());
    assert("jpeg"@.len() != "htm"@.len());
    assert("jpeg"@.len() != "css"@.len());
    assert("jpeg"@.len() != "js"@.len());
    assert("jpeg"@.len() != "mjs"@.len());
    assert("jpeg"@.len() != "txt"@.len());
    assert("jpeg"@.len() != "md"@.len());
    assert("jpeg"@.len() != "drawio"@.len());
    assert("jpeg"@.len() != "svg"@.len());
    assert("jpeg"@.len() != "png"@.len());
    assert("gif"@.len() != "html"@.len());
    assert("gif"@.len() != "js"@.len());
    assert("gif"@.len() != "json"@.len());
    assert("gif"@.len() != "md"@.len());
    assert("gif"@.len() != "drawio"@.len());
    assert("gif"@.len() != "jpeg"@.len());
    assert("pdf"@.len() != "html"@.len());
    assert("pdf"@.len() != "js"@.len());
    assert("pdf"@.len() != "json"@.len());
    assert("pdf"@.len() != "md"@.len());
    assert("pdf"@.len() != "drawio"@.len());
    assert("pdf"@.len() != "jpeg"@.len());
    assert("pdf"@.len() != "webp"@.len());
    assert("pdf"@.len() != "wasm"@.len());
    assert("css"@[0] != "htm"@[0]);
    assert("mjs"@[0] != "htm"@[0]);
    assert("mjs"@[0] != "css"@[0]);
    assert("json"@[0] != "html"@[0]);
    assert("md"@[0] != "js"@[0]);
    assert("svg"@[0] != "htm"@[0]);
    assert("svg"@[0] != "css"@[0]);
    assert("svg"@[0] != "mjs"@[0]);
    assert("svg"@[0] != "txt"@[0]);
    assert("png"@[0] != "htm"@[0]);
    assert("png"@[0] != "css"@[0]);
    assert("png"@[0] != "mjs"@[0]);
    assert("png"@[0] != "txt"@[0]);
    assert("png"@[0] != "svg"@[0]);
    assert("jpg"@[0] != "htm"@[0]);
    assert("jpg"@[0] != "css"@[0]);
    assert("jpg"@[0] != "mjs"@[0]);
    assert("jpg"@[0] != "txt"@[0]);
    assert("jpg"@[0] != "svg"@[0]);
    assert("jpg"@[0] != "png"@[0]);
    assert("jpeg"@[0] != "html"@[0]);
    assert("jpeg"@[1] != "json"@[1]);
    assert("gif"@[0] != "htm"@[0]);
    assert("gif"@[0] != "css"@[0]);
    assert("gif"@[0] != "mjs"@[0]);
    assert("gif"@[0] != "txt"@[0]);
    assert("gif"@[0] != "svg"@[0]);
    assert("gif"@[0] != "png"@[0]);
    assert("gif"@[0] != "jpg"@[0]);
    assert("pdf"@[0] != "htm"@[0]);
    assert("pdf"@[0] != "css"@[0]);
    assert("pdf"@[0] != "mjs"@[0]);
    assert("pdf"@[0] != "txt"@[0]);
    assert("pdf"@[0] != "svg"@[0]);
    assert("pdf"@[1] != "png"@[1]);
    assert("pdf"@[0] != "jpg"@[0]);
    assert("pdf"@[0] != "gif"@[0]);
    assert("pdf"@[0] != "ico"@[0]);
}

/// The MIME type served for a file names the media type of its extension: HTML
/// pages are served as HTML, style sheets as CSS, scripts as JavaScript, Markdown as
/// Markdown, and images, PDF files and JSON by their own types, whatever the case of
/// the extension and whatever directory the file is in.
pub proof fn law_mime_types(path: Seq<char>)
    ensures
        path_extension(path) == "html"@ || path_extension(path) == "htm"@ ==> mime_type_of(path)
            == "text/html; charset=utf-8"@,
        path_extension(path) == "css"@ ==> mime_type_of(path) == "text/css; charset=utf-8"@,
        path_extension(path) == "js"@ || path_extension(path) == "mjs"@ ==> mime_type_of(path)
            == "text/javascript; charset=utf-8"@,
        path_extension(path) == "json"@ ==> mime_type_of(path) == "application/json; charset=utf-8"@,
        path_extension(path) == "md"@ ==> mime_type_of(path) == "text/markdown; charset=utf-8"@,
        path_extension(path) == "svg"@ ==> mime_type_of(path) == "image/svg+xml"@,
        path_extension(path) == "png"@ ==> mime_type_of(path) == "image/png"@,
        path_extension(path) == "jpg"@ || path_extension(path) == "jpeg"@ ==> mime_type_of(path)
            == "image/jpeg"@,
        path_extension(path) == "gif"@ ==> mime_type_of(path) == "image/gif"@,
        path_extension(path) == "pdf"@ ==> mime_type_of(path) == "application/pdf"@,
{
    lemma_extension_names_differ();
}

pub fn mime_type(path: &str) -> (r: &'static str)
    ensures
        r@ == mime_type_of(path@),
{
    let e = path_extension_of(path);
    mime_of_extension_exec(&e)
}

/// Leading bytes of common binary formats.
pub open spec fn binary_magic(i: int) -> Seq<u8> {
    if i == 0 {
        seq![127u8, 69u8, 76u8, 70u8]
    } else if i == 1 {
        seq![137u8, 80u8, 78u8, 71u8, 13u8, 10u8, 26u8, 10u8]
    } else if i == 2 {
        seq![255u8, 216u8, 255u8]
    } else if i == 3 {
        seq![71u8, 73u8, 70u8, 56u8, 55u8, 97u8]
    } else if i == 4 {
        seq![71u8, 73u8, 70u8, 56u8, 57u8, 97u8]
    } else if i == 5 {
        seq![37u8, 80u8, 68u8, 70u8, 45u8]
    } else if i == 6 {
        seq![80u8, 75u8, 3u8, 4u8]
    } else if i == 7 {
        seq![80u8, 75u8, 5u8, 6u8]
    } else if i == 8 {
        seq![31u8, 139u8]
    } else if i == 9 {
        seq![0u8, 97u8, 115u8, 109u8]
    } else if i == 10 {
        seq![83u8, 81u8, 76u8, 105u8, 116u8, 101u8, 32u8, 102u8, 111u8, 114u8, 109u8, 97u8, 116u8, 32u8, 51u8, 0u8]
    } else if i == 11 {
        seq![0u8, 1u8, 0u8, 0u8]
    } else if i == 12 {
        seq![119u8, 79u8, 70u8, 70u8]
    } else {
        seq![119u8, 79u8, 70u8, 50u8]
    }
}

pub const BINARY_MAGIC_COUNT: usize = 14;

fn binary_magic_exec(i: usize) -> (r: Vec<u8>)
    requires
        i < BINARY_MAGIC_COUNT,
    ensures
        r@ == binary_magic(i as int),
{
    if i == 0 {
        let r: Vec<u8> = vec![127u8, 69u8, 76u8, 70u8];
        assert(r@ =~= binary_magic(i as int));
        r
    } else if i == 1 {
        let r: Vec<u8> = vec![137u8, 80u8, 78u8, 71u8, 13u8, 10u8, 26u8, 10u8];
        assert(r@ =~= binary_magic(i as int));
        r
    } else if i == 2 {
        let r: Vec<u8> = vec![255u8, 216u8, 255u8];
        assert(r@ =~= binary_magic(i as int));
        r
    } else if i == 3 {
        let r: Vec<u8> = vec![71u8, 73u8, 70u8, 56u8, 55u8, 97u8];
        assert(r@ =~= binary_magic(i as int));
        r
    } else if i == 4 {
        let r: Vec<u8> = vec![71u8, 73u8, 70u8, 56u8, 57u8, 97u8];
        assert(r@ =~= binary_magic(i as int));
        r
    } else if i == 5 {
        let r: Vec<u8> = vec![37u8, 80u8, 68u8, 70u8, 45u8];
        assert(r@ =~= binary_magic(i as int));
        r
    } else if i == 6 {
        let r: Vec<u8> = vec![80u8, 75u8, 3u8, 4u8];
        assert(r@ =~= binary_magic(i as int));
        r
    } else if i == 7 {
        let r: Vec<u8> = vec![80u8, 75u8, 5u8, 6u8];
        assert(r@ =~= binary_magic(i as int));
        r
    } else if i == 8 {
        let r: Vec<u8> = vec![31u8, 139u8];
        assert(r@ =~= binary_magic(i as int));
        r
    } else if i == 9 {
        let r: Vec<u8> = vec![0u8, 97u8, 115u8, 109u8];
        assert(r@ =~= binary_magic(i as int));
        r
    } else if i == 10 {
        let r: Vec<u8> = vec![83u8, 81u8, 76u8, 105u8, 116u8, 101u8, 32u8, 102u8, 111u8, 114u8, 109u8, 97u8, 116u8, 32u8, 51u8, 0u8];
        assert(r@ =~= binary_magic(i as int));
        r
    } else if i == 11 {
        let r: Vec<u8> = vec![0u8, 1u8, 0u8, 0u8];
        assert(r@ =~= binary_magic(i as int));
        r
    } else if i == 12 {
        let r: Vec<u8> = vec![119u8, 79u8, 70u8, 70u8];
        assert(r@ =~= binary_magic(i as int));
        r
    } else {
        let r: Vec<u8> = vec![119u8, 79u8, 70u8, 50u8];
        assert(r@ =~= binary_magic(i as int));
        r
    }
}

/// Content that is binary by its bytes: it holds a zero byte or begins like a known
/// binary format.
pub open spec fn is_binary_content(b: Seq<u8>) -> bool {
    b.contains(0u8) || exists|i: int| 0 <= i < BINARY_MAGIC_COUNT && #[trigger] binary_magic(i).is_prefix_of(b)
}

fn bytes_start_with(b: &[u8], p: &Vec<u8>) -> (r: bool)
    ensures
        r == p@.is_prefix_of(b@),
{
    if p.len() > b.len() {
        return false;
    }
    let mut i: usize = 0;
    while i < p.len()
        invariant
            p@.len() <= b@.len(),
            i <= p@.len(),
            forall|j: int| 0 <= j < i ==> p@[j] == b@[j],
        decreases p@.len() - i,
    {
        if p[i] != b[i] {
            return false;
        }
        i = i + 1;
    }
    true
}

pub fn has_binary_magic(bytes: &[u8]) -> (r: bool)
    ensures
        r == is_binary_content(bytes@),
{
    let mut i: usize = 0;
    while i < bytes.len()
        invariant
            i <= bytes@.len(),
            forall|j: int| 0 <= j < i ==> bytes@[j] != 0u8,
        decreases bytes@.len() - i,
    {
        if bytes[i] == 0 {
            assert(bytes@.contains(0u8));
            return true;
        }
        i = i + 1;
    }
    let mut k: usize = 0;
    while k < BINARY_MAGIC_COUNT
        invariant
            !bytes@.contains(0u8),
            k <= BINARY_MAGIC_COUNT,
            forall|j: int| 0 <= j < k ==> !(#[trigger] binary_magic(j)).is_prefix_of(bytes@),
        decreases BINARY_MAGIC_COUNT - k,
    {
        let m = binary_magic_exec(k);
        if bytes_start_with(bytes, &m) {
            return true;
        }
        k = k + 1;
    }
    false
}

/// `char::is_control`: the general category `Cc`.
pub open spec fn is_control(c: char) -> bool {
    c <= '\u{1f}' || ('\u{7f}' <= c && c <= '\u{9f}')
}

/// Bytes that read as UTF-8 text without control characters other than line breaks and tabs.
pub open spec fn is_plain_text(b: Seq<u8>) -> bool {
    vstd::utf8::valid_utf8(b) && forall|i: int| 0 <= i < vstd::utf8::decode_utf8(b).len() ==> {
        let c = #[trigger] vstd::utf8::decode_utf8(b)[i];
        !is_control(c) || c == '\n' || c == '\r' || c == '\t'
    }
}

pub fn looks_like_utf8_text(bytes: &[u8]) -> (r: bool)
    ensures
        r == is_plain_text(bytes@),
{
    let text = match crate::text::utf8_text(vstd::slice::slice_to_vec(bytes)) {
        Some(t) => t,
        None => return false,
    };
    let cs = crate::text::chars_of(text.as_str());
    let mut i: usize = 0;
    while i < cs.len()
        invariant
            i <= cs@.len(),
            cs@ == vstd::utf8::decode_utf8(bytes@),
            forall|j: int| 0 <= j < i ==> {
                let c = #[trigger] cs@[j];
                !is_control(c) || c == '\n' || c == '\r' || c == '\t'
            },
        decreases cs@.len() - i,
    {
        let c = cs[i];
        if (c <= '\u{1f}' || ('\u{7f}' <= c && c <= '\u{9f}')) && !(c == '\n' || c == '\r' || c == '\t') {
            return false;
        }
        i = i + 1;
    }
    true
}

/// Images shown in the gallery and previews.
pub open spec fn is_image_path(path: Seq<char>) -> bool {
    file_kind_of(path) == "IMAGE"@
}

pub fn is_image_file(path: &str) -> (r: bool)
    ensures
        r == is_image_path(path@),
{
    let k = file_kind(path);
    let kc = crate::text::chars_of(k);
    is_text(kc.as_slice(), "IMAGE")
}

/// Images that are decoded to pixels (every image but SVG).
pub open spec fn is_raster_path(path: Seq<char>) -> bool {
    is_image_path(path) && !path_has_extension(path, "svg"@)
}

pub fn is_raster_image(path: &str) -> (r: bool)
    ensures
        r == is_raster_path(path@),
{
    is_image_file(path) && !path_has_extension_exec(path, "svg")
}

/// A directory offers the gallery view when it holds at least one file and one image.
pub fn should_use_gallery(image_count: usize, file_count: usize) -> (r: bool)
    ensures
        r == (file_count > 0 && image_count > 0),
{
    file_count > 0 && image_count > 0
}


/// The text of an optional string slice.
pub open spec fn opt_view(v: Option<&str>) -> Option<Seq<char>> {
    match v {
        Some(s) => Some(s@),
        None => None,
    }
}

/// The largest image, in bytes, for which previews are generated.
pub const MAX_THUMBNAIL_SOURCE: u64 = 67108864;

/// The URL of a listing thumbnail: SVG images are shown as they are, other images
/// through the list or gallery thumbnail; none for non-images, empty or oversized
/// files, or files without a version.
pub open spec fn thumbnail_link(
    href: Seq<char>,
    path: Seq<char>,
    size: u64,
    gallery_mode: bool,
    version: Option<Seq<char>>,
) -> Option<Seq<char>> {
    if size == 0 || size > MAX_THUMBNAIL_SOURCE || !is_image_path(path) {
        None
    } else {
        match version {
            None => None,
            Some(v) => if path_has_extension(path, "svg"@) {
                Some(href + "?mode=asset&amp;v="@ + v)
            } else if gallery_mode {
                Some(href + "?mode=gallery-thumb&amp;v="@ + v)
            } else {
                Some(href + "?mode=thumb&amp;v="@ + v)
            },
        }
    }
}

fn link(href: &str, middle: &str, version: &str) -> (r: String)
    ensures
        r@ == href@ + middle@ + version@,
{
    let mut r = crate::text::string_of(crate::text::chars_of(href).as_slice());
    crate::text::push_str(&mut r, middle);
    crate::text::push_str(&mut r, version);
    r
}

pub fn thumbnail_url(href: &str, path: &str, size: u64, gallery_mode: bool, version: Option<&str>) -> (r:
    Option<String>)
    ensures
        match r {
            Some(u) => thumbnail_link(href@, path@, size, gallery_mode, opt_view(version))
                == Some(u@),
            None => thumbnail_link(href@, path@, size, gallery_mode, opt_view(version))
                is None,
        },
{
    if size == 0 || size > MAX_THUMBNAIL_SOURCE || !is_image_file(path) {
        return None;
    }
    let version = match version {
        Some(v) => v,
        None => return None,
    };
    if path_has_extension_exec(path, "svg") {
        Some(link(href, "?mode=asset&amp;v=", version))
    } else if gallery_mode {
        Some(link(href, "?mode=gallery-thumb&amp;v=", version))
    } else {
        Some(link(href, "?mode=thumb&amp;v=", version))
    }
}

/// The URL of the screen-sized gallery preview of a raster image that is not a GIF;
/// none for other files, empty or oversized ones, or files without a version.
pub open spec fn gallery_preview_link(href: Seq<char>, path: Seq<char>, size: u64, version: Option<
    Seq<char>,
>) -> Option<Seq<char>> {
    if size == 0 || size > MAX_THUMBNAIL_SOURCE || !is_raster_path(path) || path_has_extension(
        path,
        "gif"@,
    ) {
        None
    } else {
        match version {
            Some(v) => Some(href + "?mode=gallery-preview&amp;v="@ + v),
            None => None,
        }
    }
}

pub fn gallery_preview_url(href: &str, path: &str, size: u64, version: Option<&str>) -> (r: Option<
    String,
>)
    ensures
        match r {
            Some(u) => gallery_preview_link(href@, path@, size, opt_view(version)) == Some(
                u@,
            ),
            None => gallery_preview_link(href@, path@, size, opt_view(version)) is None,
        },
{
    if size == 0 || size > MAX_THUMBNAIL_SOURCE || !is_raster_image(path) || path_has_extension_exec(
        path,
        "gif",
    ) {
        return None;
    }
    match version {
        Some(v) => Some(link(href, "?mode=gallery-preview&amp;v=", v)),
        None => None,
    }
}

} // verus!
