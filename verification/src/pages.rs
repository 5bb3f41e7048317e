//! The HTML pages the server renders itself.
use vstd::prelude::*;
use crate::assets::{
    AUTH_PAGE_CSS, DRAWIO_CSS, DRAWIO_JS, FILE_NAVIGATION_CSS, MARKDOWN_CSS_1, MARKDOWN_CSS_2, MARKDOWN_CSS_3,
    MARKDOWN_CSS_4, MARKDOWN_CSS_5, MARKDOWN_CSS_6, NOT_FOUND_CSS_1, NOT_FOUND_CSS_2, SVG_CSS, SVG_JS, TEXT_CSS,
    TEXT_JS, VIDEO_CSS,
};
use crate::markup::{escape_html, html_escaped};
use crate::text::{chars_of, push_str, string_of};

verus! {

broadcast use vstd::string::group_string_axioms;

/// The page that asks for the access token (`auto_submit`: it first tries the token
/// the browser kept) and then goes to `target`, a JSON string.
pub open spec fn auth_shell(title: Seq<char>, description: Seq<char>, target: Seq<char>, auto_submit: bool) -> Seq<char> {
    "<!doctype html><html lang=\"zh-CN\"><head><meta charset=\"utf-8\"><meta name=\"viewport\" content=\"width=device-width, initial-scale=1\"><title>"@
        + title + " · webdir</title><style>"@ + AUTH_PAGE_CSS@
        + "</style></head><body><main><section class=\"auth-card\"><div class=\"lock\" aria-hidden=\"true\">⌁</div><p class=\"eyebrow\">WEBDIR / PROTECTED</p><h1>"@
        + title + "</h1><p>"@ + description
        + "</p><form id=\"auth-form\"><label for=\"auth-token\">访问令牌</label><div class=\"token-row\"><input id=\"auth-token\" type=\"password\" autocomplete=\"current-password\" required autofocus><button>验证并继续</button></div><p id=\"auth-error\" role=\"alert\" hidden></p></form></section></main><script>const key='webdir-auth-token',target="@
        + target
        + ",form=document.querySelector('#auth-form'),input=document.querySelector('#auth-token'),error=document.querySelector('#auth-error');async function verify(token,save){error.hidden=true;const response=await fetch('"@
        + "/__webdir/auth"@
        + "',{method:'POST',headers:{'X-Webdir-Auth-Token':token}});if(response.ok){if(save)localStorage.setItem(key,token);location.replace(target);return}location.replace('"@
        + "/__webdir/invalid-access"@
        + "')};form.addEventListener('submit',event=>{event.preventDefault();verify(input.value,true)});const saved=localStorage.getItem(key);if("@
        + (if auto_submit { "true"@ } else { "false"@ })
        + "&&saved)verify(saved,false);</script></body></html>"@
}

pub fn render_auth_shell(title: &str, description: &str, target: &str, auto_submit: bool) -> (r: String)
    ensures
        r@ == auth_shell(title@, description@, target@, auto_submit),
{
    let flag = if auto_submit { "true" } else { "false" };
    let mut r = String::new();
    push_str(&mut r, "<!doctype html><html lang=\"zh-CN\"><head><meta charset=\"utf-8\"><meta name=\"viewport\" content=\"width=device-width, initial-scale=1\"><title>");
    push_str(&mut r, title);
    push_str(&mut r, " · webdir</title><style>");
    push_str(&mut r, AUTH_PAGE_CSS);
    push_str(&mut r, "</style></head><body><main><section class=\"auth-card\"><div class=\"lock\" aria-hidden=\"true\">⌁</div><p class=\"eyebrow\">WEBDIR / PROTECTED</p><h1>");
    push_str(&mut r, title);
    push_str(&mut r, "</h1><p>");
    push_str(&mut r, description);
    push_str(&mut r, "</p><form id=\"auth-form\"><label for=\"auth-token\">访问令牌</label><div class=\"token-row\"><input id=\"auth-token\" type=\"password\" autocomplete=\"current-password\" required autofocus><button>验证并继续</button></div><p id=\"auth-error\" role=\"alert\" hidden></p></form></section></main><script>const key='webdir-auth-token',target=");
    push_str(&mut r, target);
    push_str(&mut r, ",form=document.querySelector('#auth-form'),input=document.querySelector('#auth-token'),error=document.querySelector('#auth-error');async function verify(token,save){error.hidden=true;const response=await fetch('");
    push_str(&mut r, "/__webdir/auth");
    push_str(&mut r, "',{method:'POST',headers:{'X-Webdir-Auth-Token':token}});if(response.ok){if(save)localStorage.setItem(key,token);location.replace(target);return}location.replace('");
    push_str(&mut r, "/__webdir/invalid-access");
    push_str(&mut r, "')};form.addEventListener('submit',event=>{event.preventDefault();verify(input.value,true)});const saved=localStorage.getItem(key);if(");
    push_str(&mut r, flag);
    push_str(&mut r, "&&saved)verify(saved,false);</script></body></html>");
    proof {
        assert(r@ =~= auth_shell(title@, description@, target@, auto_submit));
    }
    r
}

/// The sign-in page shown to a browser that has no token yet; after signing in it
/// returns to `target`.
pub open spec fn auth_page(target: Seq<char>) -> Seq<char> {
    auth_shell(
        "需要访问令牌"@,
        "这个工作区已开启访问保护。输入令牌后即可继续。"@,
        crate::markup::json_quoted(target),
        true,
    )
}

pub fn render_auth_page(target: &str) -> (r: String)
    ensures
        r@ == auth_page(target@),
{
    let target = crate::markup::escape_json_string(target);
    render_auth_shell(
        "需要访问令牌",
        "这个工作区已开启访问保护。输入令牌后即可继续。",
        target.as_str(),
        true,
    )
}

/// The page shown when a token was refused.
pub open spec fn invalid_access_page() -> Seq<char> {
    auth_shell(
        "访问未获授权"@,
        "令牌无效，或该服务已使用新的访问令牌重启。请重新验证后回到根目录。"@,
        "\"/\""@,
        false,
    )
}

pub fn render_invalid_access_page() -> (r: String)
    ensures
        r@ == invalid_access_page(),
{
    render_auth_shell(
        "访问未获授权",
        "令牌无效，或该服务已使用新的访问令牌重启。请重新验证后回到根目录。",
        "\"/\"",
        false,
    )
}

/// The page answering a path that names nothing.
pub open spec fn not_found_page(request_path: Seq<char>) -> Seq<char> {
    "<!doctype html>\n<html lang=\"zh-CN\">\n<head>\n<meta charset=\"utf-8\">\n<meta name=\"viewport\" content=\"width=device-width, initial-scale=1\">\n<link rel=\"icon\" href=\"/favicon.svg\" type=\"image/svg+xml\">\n<title>文件未找到 · 404</title>\n<style>"@
        + NOT_FOUND_CSS_1@ + NOT_FOUND_CSS_2@
        + "</style>\n</head>\n<body>\n<main><section class=\"message\" aria-labelledby=\"not-found-title\"><p class=\"status\"><span></span>HTTP 404</p><h1 id=\"not-found-title\">这个文件<br>不在这里</h1><p class=\"explanation\">它可能被移动、重命名，或者这个地址原本就不存在。</p><div class=\"requested\"><span>请求路径</span><code>"@
        + html_escaped(if request_path.len() == 0 { "/"@ } else { request_path })
        + "</code></div><nav aria-label=\"后续操作\"><a class=\"primary\" href=\"/\">浏览根目录 <span aria-hidden=\"true\">→</span></a><a class=\"secondary\" href=\".\">返回上一级</a></nav></section><div class=\"visual\" aria-hidden=\"true\"><div class=\"file-card\"><div class=\"fold\"></div><span class=\"file-label\">FILE</span><strong>404</strong><div class=\"rule long\"></div><div class=\"rule short\"></div><div class=\"tear\"><i></i><i></i><i></i><i></i><i></i></div></div><p>RESOURCE / MISSING</p></div></main>\n</body>\n</html>"@
}

pub fn render_not_found_page(request_path: &str) -> (r: String)
    ensures
        r@ == not_found_page(request_path@),
{
    let shown = if chars_of(request_path).len() == 0 { "/" } else { request_path };
    let path = escape_html(shown);
    let mut r = String::new();
    push_str(&mut r, "<!doctype html>\n<html lang=\"zh-CN\">\n<head>\n<meta charset=\"utf-8\">\n<meta name=\"viewport\" content=\"width=device-width, initial-scale=1\">\n<link rel=\"icon\" href=\"/favicon.svg\" type=\"image/svg+xml\">\n<title>文件未找到 · 404</title>\n<style>");
    push_str(&mut r, NOT_FOUND_CSS_1);
    push_str(&mut r, NOT_FOUND_CSS_2);
    push_str(&mut r, "</style>\n</head>\n<body>\n<main><section class=\"message\" aria-labelledby=\"not-found-title\"><p class=\"status\"><span></span>HTTP 404</p><h1 id=\"not-found-title\">这个文件<br>不在这里</h1><p class=\"explanation\">它可能被移动、重命名，或者这个地址原本就不存在。</p><div class=\"requested\"><span>请求路径</span><code>");
    push_str(&mut r, path.as_str());
    push_str(&mut r, "</code></div><nav aria-label=\"后续操作\"><a class=\"primary\" href=\"/\">浏览根目录 <span aria-hidden=\"true\">→</span></a><a class=\"secondary\" href=\".\">返回上一级</a></nav></section><div class=\"visual\" aria-hidden=\"true\"><div class=\"file-card\"><div class=\"fold\"></div><span class=\"file-label\">FILE</span><strong>404</strong><div class=\"rule long\"></div><div class=\"rule short\"></div><div class=\"tear\"><i></i><i></i><i></i><i></i><i></i></div></div><p>RESOURCE / MISSING</p></div></main>\n</body>\n</html>");
    proof {
        assert(r@ =~= not_found_page(request_path@));
    }
    r
}

/// The SVG viewer for a file named `title` of size `size` (as shown in listings).
pub open spec fn svg_page(title: Seq<char>, size: nat) -> Seq<char> {
    "<!doctype html>\n<html lang=\"zh-CN\"><head><meta charset=\"utf-8\"><meta name=\"viewport\" content=\"width=device-width,initial-scale=1\"><link rel=\"icon\" href=\"/favicon.svg\" type=\"image/svg+xml\"><title>"@
        + html_escaped(title) + "</title><style>"@ + SVG_CSS@
        + "</style></head><body><header><button class=\"back\" id=\"history-back\" type=\"button\" aria-label=\"返回上一页\">←</button><span class=\"kind\">SVG</span><span class=\"filename\">"@
        + html_escaped(title) + "</span><span class=\"meta\">"@ + crate::sizes::size_text(size)
        + "</span><button id=\"scale\" type=\"button\">原始尺寸</button><a class=\"raw\" href=\"?mode=raw\">Raw</a></header><main class=\"canvas\"><img id=\"artwork\" src=\"?mode=asset\" alt=\""@
        + html_escaped(title) + "\"><p id=\"error\" hidden>无法渲染这个 SVG 文件</p></main><script>"@
        + SVG_JS@ + "</script></body></html>"@
}

pub fn render_svg_page(title: &str, size: u64) -> (r: String)
    ensures
        r@ == svg_page(title@, size as nat),
{
    let t = escape_html(title);
    let mut r = String::new();
    push_str(&mut r, "<!doctype html>\n<html lang=\"zh-CN\"><head><meta charset=\"utf-8\"><meta name=\"viewport\" content=\"width=device-width,initial-scale=1\"><link rel=\"icon\" href=\"/favicon.svg\" type=\"image/svg+xml\"><title>");
    push_str(&mut r, t.as_str());
    push_str(&mut r, "</title><style>");
    push_str(&mut r, SVG_CSS);
    push_str(&mut r, "</style></head><body><header><button class=\"back\" id=\"history-back\" type=\"button\" aria-label=\"返回上一页\">←</button><span class=\"kind\">SVG</span><span class=\"filename\">");
    push_str(&mut r, t.as_str());
    push_str(&mut r, "</span><span class=\"meta\">");
    let shown = crate::sizes::human_size(size);
    push_str(&mut r, shown.as_str());
    push_str(&mut r, "</span><button id=\"scale\" type=\"button\">原始尺寸</button><a class=\"raw\" href=\"?mode=raw\">Raw</a></header><main class=\"canvas\"><img id=\"artwork\" src=\"?mode=asset\" alt=\"");
    push_str(&mut r, t.as_str());
    push_str(&mut r, "\"><p id=\"error\" hidden>无法渲染这个 SVG 文件</p></main><script>");
    push_str(&mut r, SVG_JS);
    push_str(&mut r, "</script></body></html>");
    proof {
        assert(r@ =~= svg_page(title@, size as nat));
    }
    r
}

/// The image viewer for a file named `title` of kind `kind` and size `size`.
pub open spec fn image_page(title: Seq<char>, kind: Seq<char>, size: nat) -> Seq<char> {
    "<!doctype html>\n<html lang=\"zh-CN\"><head><meta charset=\"utf-8\"><meta name=\"viewport\" content=\"width=device-width,initial-scale=1\"><link rel=\"icon\" href=\"/favicon.svg\" type=\"image/svg+xml\"><title>"@
        + html_escaped(title) + "</title><style>"@ + SVG_CSS@
        + "</style></head><body><header><button class=\"back\" id=\"history-back\" type=\"button\" aria-label=\"返回上一页\">←</button><span class=\"kind\">"@
        + html_escaped(kind) + "</span><span class=\"filename\">"@ + html_escaped(title)
        + "</span><span class=\"meta\">"@ + crate::sizes::size_text(size)
        + "</span><button id=\"scale\" type=\"button\">原始尺寸</button><a class=\"raw\" href=\"?mode=asset\">原图</a></header><main class=\"canvas\"><img id=\"artwork\" src=\"?mode=asset\" alt=\""@
        + html_escaped(title) + "\"><p id=\"error\" hidden>无法渲染这张图片</p></main><script>"@ + SVG_JS@
        + "</script></body></html>"@
}

pub fn render_image_page(title: &str, kind: &str, size: u64) -> (r: String)
    ensures
        r@ == image_page(title@, kind@, size as nat),
{
    let t = escape_html(title);
    let k = escape_html(kind);
    let mut r = String::new();
    push_str(&mut r, "<!doctype html>\n<html lang=\"zh-CN\"><head><meta charset=\"utf-8\"><meta name=\"viewport\" content=\"width=device-width,initial-scale=1\"><link rel=\"icon\" href=\"/favicon.svg\" type=\"image/svg+xml\"><title>");
    push_str(&mut r, t.as_str());
    push_str(&mut r, "</title><style>");
    push_str(&mut r, SVG_CSS);
    push_str(&mut r, "</style></head><body><header><button class=\"back\" id=\"history-back\" type=\"button\" aria-label=\"返回上一页\">←</button><span class=\"kind\">");
    push_str(&mut r, k.as_str());
    push_str(&mut r, "</span><span class=\"filename\">");
    push_str(&mut r, t.as_str());
    push_str(&mut r, "</span><span class=\"meta\">");
    let shown = crate::sizes::human_size(size);
    push_str(&mut r, shown.as_str());
    push_str(&mut r, "</span><button id=\"scale\" type=\"button\">原始尺寸</button><a class=\"raw\" href=\"?mode=asset\">原图</a></header><main class=\"canvas\"><img id=\"artwork\" src=\"?mode=asset\" alt=\"");
    push_str(&mut r, t.as_str());
    push_str(&mut r, "\"><p id=\"error\" hidden>无法渲染这张图片</p></main><script>");
    push_str(&mut r, SVG_JS);
    push_str(&mut r, "</script></body></html>");
    proof {
        assert(r@ =~= image_page(title@, kind@, size as nat));
    }
    r
}

/// The video player for a file named `title` of size `size`.
pub open spec fn video_page(title: Seq<char>, size: nat) -> Seq<char> {
    "<!doctype html>\n<html lang=\"zh-CN\"><head><meta charset=\"utf-8\"><meta name=\"viewport\" content=\"width=device-width,initial-scale=1\"><link rel=\"icon\" href=\"/favicon.svg\" type=\"image/svg+xml\"><title>"@
        + html_escaped(title) + "</title><style>"@ + VIDEO_CSS@
        + "</style></head><body><header><button class=\"back\" id=\"history-back\" type=\"button\" aria-label=\"返回上一页\">←</button><span class=\"kind\">MP4</span><span class=\"filename\">"@
        + html_escaped(title) + "</span><span class=\"meta\">"@ + crate::sizes::size_text(size)
        + "</span><a class=\"download\" href=\"?mode=asset\" download>下载</a></header><main><div class=\"player\"><video controls playsinline preload=\"metadata\" src=\"?mode=asset\">浏览器无法播放这个 MP4 文件。</video></div></main></body></html>"@
}

pub fn render_video_page(title: &str, size: u64) -> (r: String)
    ensures
        r@ == video_page(title@, size as nat),
{
    let t = escape_html(title);
    let mut r = String::new();
    push_str(&mut r, "<!doctype html>\n<html lang=\"zh-CN\"><head><meta charset=\"utf-8\"><meta name=\"viewport\" content=\"width=device-width,initial-scale=1\"><link rel=\"icon\" href=\"/favicon.svg\" type=\"image/svg+xml\"><title>");
    push_str(&mut r, t.as_str());
    push_str(&mut r, "</title><style>");
    push_str(&mut r, VIDEO_CSS);
    push_str(&mut r, "</style></head><body><header><button class=\"back\" id=\"history-back\" type=\"button\" aria-label=\"返回上一页\">←</button><span class=\"kind\">MP4</span><span class=\"filename\">");
    push_str(&mut r, t.as_str());
    push_str(&mut r, "</span><span class=\"meta\">");
    let shown = crate::sizes::human_size(size);
    push_str(&mut r, shown.as_str());
    push_str(&mut r, "</span><a class=\"download\" href=\"?mode=asset\" download>下载</a></header><main><div class=\"player\"><video controls playsinline preload=\"metadata\" src=\"?mode=asset\">浏览器无法播放这个 MP4 文件。</video></div></main></body></html>");
    proof {
        assert(r@ =~= video_page(title@, size as nat));
    }
    r
}

/// `str::trim_end_matches('\r')`.
pub open spec fn trim_cr(s: Seq<char>) -> Seq<char>
    decreases s.len(),
{
    if s.len() > 0 && s.last() == '\r' {
        trim_cr(s.drop_last())
    } else {
        s
    }
}

/// Lines shown as they are, each escaped in its own `line` span.
pub open spec fn plain_lines(lines: Seq<Seq<char>>) -> Seq<char>
    decreases lines.len(),
{
    if lines.len() == 0 {
        Seq::empty()
    } else {
        plain_lines(lines.drop_last()) + "<span class=\"line\">"@ + html_escaped(trim_cr(lines.last()))
            + "</span>"@
    }
}

fn trim_cr_exec(s: &[char]) -> (r: Vec<char>)
    ensures
        r@ == trim_cr(s@),
{
    let mut n = s.len();
    proof {
        assert(s@.take(n as int) =~= s@);
    }
    while n > 0 && s[n - 1] == '\r'
        invariant
            n <= s@.len(),
            trim_cr(s@.take(n as int)) == trim_cr(s@),
        decreases n,
    {
        proof {
            assert(s@.take(n as int).drop_last() =~= s@.take(n - 1));
            assert(s@.take(n as int).last() == s@[n - 1]);
        }
        n = n - 1;
    }
    crate::text::slice_chars(s, 0, n)
}

fn plain_lines_exec(content: &str) -> (r: String)
    ensures
        r@ == plain_lines(crate::text::split(content@, '\n')),
{
    let cc = chars_of(content);
    let parts = crate::text::split_exec(cc.as_slice(), '\n');
    let ghost ps = crate::text::views(parts@);
    let mut r = String::new();
    let mut i: usize = 0;
    proof {
        assert(ps.take(0) =~= Seq::<Seq<char>>::empty());
    }
    while i < parts.len()
        invariant
            ps == crate::text::views(parts@),
            ps == crate::text::split(content@, '\n'),
            i <= ps.len(),
            r@ == plain_lines(ps.take(i as int)),
        decreases ps.len() - i,
    {
        let line = trim_cr_exec(parts[i].as_slice());
        let ls = string_of(line.as_slice());
        let escaped = escape_html(ls.as_str());
        push_str(&mut r, "<span class=\"line\">");
        push_str(&mut r, escaped.as_str());
        push_str(&mut r, "</span>");
        proof {
            assert(ps.take(i + 1).drop_last() =~= ps.take(i as int));
            assert(ps.take(i + 1).last() == parts@[i as int]@);
            assert(r@ =~= plain_lines(ps.take(i + 1)));
        }
        i = i + 1;
    }
    proof {
        assert(ps.take(i as int) =~= ps);
    }
    r
}

/// The text viewer for `content`, a file of kind `kind` named `title` at `path`:
/// source code is highlighted, other text shown as it is.
pub open spec fn text_page(content: Seq<char>, title: Seq<char>, kind: Seq<char>, path: Seq<char>) -> Seq<char> {
    let highlighted = crate::syntax::highlighted_source(content, path);
    "<!doctype html>\n<html lang=\"zh-CN\"><head><meta charset=\"utf-8\"><meta name=\"viewport\" content=\"width=device-width,initial-scale=1\"><link rel=\"icon\" href=\"/favicon.svg\" type=\"image/svg+xml\"><title>"@
        + html_escaped(title) + "</title><style>"@ + TEXT_CSS@ + "</style></head><body"@
        + (if highlighted is Some { " class=\"highlighted\""@ } else { ""@ })
        + "><header><button class=\"back\" id=\"history-back\" type=\"button\" aria-label=\"返回上一页\">←</button><span class=\"kind\">"@
        + kind + "</span><span class=\"filename\">"@ + html_escaped(title)
        + "</span><span class=\"meta\">"@
        + crate::respond::decimal(crate::text::split(content, '\n').len()) + " 行 · "@
        + crate::sizes::size_text(crate::respond::byte_len(content))
        + "</span><button id=\"wrap\" type=\"button\">自动换行</button><button id=\"copy\" type=\"button\">复制</button><a class=\"raw\" href=\"?mode=raw\">Raw</a></header><main><pre id=\"code\"><code>"@
        + (match highlighted { Some(h) => h, None => plain_lines(crate::text::split(content, '\n')) })
        + "</code></pre></main><div id=\"toast\" role=\"status\"></div><script>"@ + TEXT_JS@
        + "</script></body></html>"@
}

pub fn render_text_page(content: &str, title: &str, kind: &str, path: &str) -> (r: String)
    ensures
        r@ == text_page(content@, title@, kind@, path@),
{
    let highlighted = crate::syntax::highlighted_source_lines(content, path);
    let body_class = match &highlighted {
        Some(_) => " class=\"highlighted\"",
        None => "",
    };
    let lines = match highlighted {
        Some(h) => h,
        None => plain_lines_exec(content),
    };
    let cc = chars_of(content);
    let parts = crate::text::split_exec(cc.as_slice(), '\n');
    let mut count = String::new();
    crate::respond::push_decimal(&mut count, parts.len() as u64);
    let t = escape_html(title);
    let mut r = String::new();
    push_str(&mut r, "<!doctype html>\n<html lang=\"zh-CN\"><head><meta charset=\"utf-8\"><meta name=\"viewport\" content=\"width=device-width,initial-scale=1\"><link rel=\"icon\" href=\"/favicon.svg\" type=\"image/svg+xml\"><title>");
    push_str(&mut r, t.as_str());
    push_str(&mut r, "</title><style>");
    push_str(&mut r, TEXT_CSS);
    push_str(&mut r, "</style></head><body");
    push_str(&mut r, body_class);
    push_str(&mut r, "><header><button class=\"back\" id=\"history-back\" type=\"button\" aria-label=\"返回上一页\">←</button><span class=\"kind\">");
    push_str(&mut r, kind);
    push_str(&mut r, "</span><span class=\"filename\">");
    push_str(&mut r, t.as_str());
    push_str(&mut r, "</span><span class=\"meta\">");
    push_str(&mut r, count.as_str());
    push_str(&mut r, " 行 · ");
    let size = crate::respond::byte_count(content) as u64;
    let shown = crate::sizes::human_size(size);
    push_str(&mut r, shown.as_str());
    push_str(&mut r, "</span><button id=\"wrap\" type=\"button\">自动换行</button><button id=\"copy\" type=\"button\">复制</button><a class=\"raw\" href=\"?mode=raw\">Raw</a></header><main><pre id=\"code\"><code>");
    push_str(&mut r, lines.as_str());
    push_str(&mut r, "</code></pre></main><div id=\"toast\" role=\"status\"></div><script>");
    push_str(&mut r, TEXT_JS);
    push_str(&mut r, "</script></body></html>");
    proof {
        assert(r@ =~= text_page(content@, title@, kind@, path@));
    }
    r
}

/// `str::trim_start_matches('\u{feff}')`: every leading byte order mark removed.
pub open spec fn trim_boms(s: Seq<char>) -> Seq<char>
    decreases s.len(),
{
    if s.len() > 0 && s[0] == '\u{feff}' {
        trim_boms(s.skip(1))
    } else {
        s
    }
}

pub fn trim_boms_chars(s: &[char]) -> (r: Vec<char>)
    ensures
        r@ == trim_boms(s@),
{
    let mut k: usize = 0;
    proof {
        assert(s@.skip(0) =~= s@);
    }
    while k < s.len() && s[k] == '\u{feff}'
        invariant
            k <= s@.len(),
            trim_boms(s@.skip(k as int)) == trim_boms(s@),
        decreases s@.len() - k,
    {
        proof {
            assert(s@.skip(k as int).skip(1) =~= s@.skip(k + 1));
            assert(s@.skip(k as int)[0] == s@[k as int]);
        }
        k = k + 1;
    }
    let r = crate::text::slice_chars(s, k, s.len());
    proof {
        assert(r@ =~= s@.skip(k as int));
    }
    r
}

/// The configuration of the Draw.io viewer for a diagram.
pub open spec fn drawio_config(diagram: Seq<char>) -> Seq<char> {
    "{\"highlight\":\"#5b5bd6\",\"nav\":true,\"resize\":true,\"toolbar\":\"zoom layers lightbox\",\"xml\":"@
        + crate::markup::json_quoted(trim_boms(diagram)) + "}"@
}

/// The Draw.io viewer for `diagram`, a file named `title` whose size is shown as
/// `size`.
pub open spec fn drawio_page(diagram: Seq<char>, title: Seq<char>, size: nat) -> Seq<char> {
    "<!doctype html>\n<html lang=\"zh-CN\"><head><meta charset=\"utf-8\"><meta name=\"viewport\" content=\"width=device-width,initial-scale=1\"><meta http-equiv=\"Content-Security-Policy\" content=\"default-src 'self' data: blob:; connect-src 'none'; script-src 'self' 'unsafe-inline'; style-src 'self' 'unsafe-inline'; img-src 'self' data: blob:; font-src 'self' data:; object-src 'none'; base-uri 'none'; frame-src 'none'; worker-src 'self' blob:\"><link rel=\"icon\" href=\"/favicon.svg\" type=\"image/svg+xml\"><title>"@
        + html_escaped(title) + "</title><style>"@ + DRAWIO_CSS@
        + "</style></head><body><header><button class=\"back\" id=\"history-back\" type=\"button\" aria-label=\"返回上一页\">←</button><span class=\"kind\">DRAWIO</span><span class=\"filename\">"@
        + html_escaped(title) + "</span><span class=\"meta\">"@ + crate::sizes::size_text(size)
        + "</span><a class=\"raw\" href=\"?mode=raw\">Raw</a></header><main class=\"canvas\"><div id=\"viewer-status\" class=\"viewer-status\"><span class=\"spinner\" aria-hidden=\"true\"></span><strong>正在渲染图表</strong><small>本地 Draw.io Viewer</small></div><div class=\"mxgraph\" data-mxgraph=\""@
        + html_escaped(drawio_config(diagram)) + "\"></div></main><script>"@ + DRAWIO_JS@
        + "</script><script src=\""@ + "/__webdir/drawio-viewer-31.3.1.js"@
        + "\" onerror=\"drawioViewerFailed()\"></script></body></html>"@
}

pub fn render_drawio_page(diagram: &str, title: &str, size: u64) -> (r: String)
    ensures
        r@ == drawio_page(diagram@, title@, size as nat),
{
    let dc = chars_of(diagram);
    let trimmed = string_of(trim_boms_chars(dc.as_slice()).as_slice());
    let mut raw_config = string_of(
        chars_of("{\"highlight\":\"#5b5bd6\",\"nav\":true,\"resize\":true,\"toolbar\":\"zoom layers lightbox\",\"xml\":").as_slice(),
    );
    crate::markup::push_json_string(&mut raw_config, trimmed.as_str());
    push_str(&mut raw_config, "}");
    let config = escape_html(raw_config.as_str());
    let t = escape_html(title);
    let mut r = String::new();
    push_str(&mut r, "<!doctype html>\n<html lang=\"zh-CN\"><head><meta charset=\"utf-8\"><meta name=\"viewport\" content=\"width=device-width,initial-scale=1\"><meta http-equiv=\"Content-Security-Policy\" content=\"default-src 'self' data: blob:; connect-src 'none'; script-src 'self' 'unsafe-inline'; style-src 'self' 'unsafe-inline'; img-src 'self' data: blob:; font-src 'self' data:; object-src 'none'; base-uri 'none'; frame-src 'none'; worker-src 'self' blob:\"><link rel=\"icon\" href=\"/favicon.svg\" type=\"image/svg+xml\"><title>");
    push_str(&mut r, t.as_str());
    push_str(&mut r, "</title><style>");
    push_str(&mut r, DRAWIO_CSS);
    push_str(&mut r, "</style></head><body><header><button class=\"back\" id=\"history-back\" type=\"button\" aria-label=\"返回上一页\">←</button><span class=\"kind\">DRAWIO</span><span class=\"filename\">");
    push_str(&mut r, t.as_str());
    push_str(&mut r, "</span><span class=\"meta\">");
    let shown = crate::sizes::human_size(size);
    push_str(&mut r, shown.as_str());
    push_str(&mut r, "</span><a class=\"raw\" href=\"?mode=raw\">Raw</a></header><main class=\"canvas\"><div id=\"viewer-status\" class=\"viewer-status\"><span class=\"spinner\" aria-hidden=\"true\"></span><strong>正在渲染图表</strong><small>本地 Draw.io Viewer</small></div><div class=\"mxgraph\" data-mxgraph=\"");
    push_str(&mut r, config.as_str());
    push_str(&mut r, "\"></div></main><script>");
    push_str(&mut r, DRAWIO_JS);
    push_str(&mut r, "</script><script src=\"");
    push_str(&mut r, "/__webdir/drawio-viewer-31.3.1.js");
    push_str(&mut r, "\" onerror=\"drawioViewerFailed()\"></script></body></html>");
    proof {
        assert(r@ =~= drawio_page(diagram@, title@, size as nat));
    }
    r
}

/// The Markdown page for `markdown`, a file named `title`, with its rendered
/// `article` and the scripts of the editor (`markdown_js`) and of diagrams
/// (`mermaid_js`).
pub open spec fn markdown_page(markdown: Seq<char>, title: Seq<char>, article: Seq<char>, markdown_js: Seq<char>, mermaid_js: Seq<char>) -> Seq<char> {
    "<!doctype html>\n<html lang=\"zh-CN\">\n<head>\n<meta charset=\"utf-8\">\n<meta name=\"viewport\" content=\"width=device-width, initial-scale=1\">\n<link rel=\"icon\" href=\"/favicon.svg\" type=\"image/svg+xml\">\n<title>"@
        + html_escaped(title) + "</title>\n<style>"@
        + MARKDOWN_CSS_1@ + MARKDOWN_CSS_2@ + MARKDOWN_CSS_3@ + MARKDOWN_CSS_4@ + MARKDOWN_CSS_5@ + MARKDOWN_CSS_6@
        + "</style>\n</head>\n<body class=\"review-closed\">\n<header class=\"topbar\"><button class=\"home\" id=\"history-back\" type=\"button\" aria-label=\"返回上一页\">←</button><span class=\"mark\">MD</span><span class=\"filename\">"@
        + html_escaped(title)
        + "</span><span class=\"top-actions\"><button class=\"identity-button\" id=\"identity-button\" type=\"button\" title=\"切换审阅身份\"></button><button class=\"button ghost review-toggle\" id=\"review-toggle\" type=\"button\" aria-expanded=\"false\">评论 <b id=\"review-count\">0</b></button><a class=\"button ghost raw-button\" href=\"?mode=raw\">Raw</a><button class=\"button\" id=\"edit-button\" type=\"button\">编辑</button></span></header>\n<div id=\"reader\" class=\"reader-layout\"><aside id=\"toc\" aria-label=\"文档目录\"></aside><main class=\"paper\"><article id=\"article\">"@
        + article
        + "</article></main><aside id=\"review-panel\" class=\"review-panel\" aria-label=\"审阅评论\"><header class=\"review-header\"><div><span>REVIEW</span><strong>审阅讨论</strong></div><button id=\"review-close\" type=\"button\" aria-label=\"收起评论\">×</button></header><div class=\"review-file-actions\"><a id=\"open-review-file\" target=\"_blank\">打开评论文件</a><button id=\"copy-review-path\" type=\"button\">复制评论文件路径</button></div><div class=\"review-presence\"><i aria-hidden=\"true\"></i><span id=\"review-users\">正在连接…</span></div><button class=\"document-comment\" id=\"document-comment\" type=\"button\">＋ 全文评论</button><div class=\"review-composer\" id=\"review-composer\" hidden><p id=\"composer-scope\"></p><label for=\"comment-body\">写下需要讨论或修改的内容</label><textarea id=\"comment-body\" rows=\"4\"></textarea><div><button class=\"text-button\" id=\"composer-cancel\" type=\"button\">取消</button><button class=\"button\" id=\"composer-submit\" type=\"button\">提交评论</button></div></div><nav class=\"review-filters\" aria-label=\"评论状态\"><button class=\"active\" type=\"button\" data-review-filter=\"open\">待处理 <b>0</b></button><button type=\"button\" data-review-filter=\"addressed\">待确认 <b>0</b></button><button type=\"button\" data-review-filter=\"resolved\">已解决 <b>0</b></button></nav><div class=\"review-complete\" id=\"review-complete\" hidden><strong>审阅已完成</strong><span>可以交给 AI 执行</span></div><div class=\"review-error\" id=\"review-error\" role=\"status\" hidden></div><div class=\"comment-list\" id=\"comment-list\"></div></aside></div>\n<button class=\"selection-comment\" id=\"selection-comment\" type=\"button\" hidden>＋ 添加批注</button><div class=\"toast\" id=\"review-toast\" role=\"status\" hidden></div><dialog class=\"identity-dialog\" id=\"identity-dialog\"><form method=\"dialog\"><span class=\"dialog-kicker\">REVIEW IDENTITY</span><h2>你以什么身份参与审阅？</h2><p>输入一个方便其他审阅者辨认的名称，浏览器会在此设备上记住它。</p><label for=\"identity-input\">审阅人名称</label><input id=\"identity-input\" name=\"identity\" autocomplete=\"username\" placeholder=\"例如：小明、Alice、dev-01\" required><span class=\"identity-error\" id=\"identity-error\"></span><button class=\"button\" id=\"identity-submit\" value=\"confirm\">进入审阅</button></form></dialog>\n<section id=\"editor\" class=\"editor-shell\" hidden><div class=\"editor-toolbar\"><div class=\"format-tools\" role=\"toolbar\" aria-label=\"Markdown 格式\"><button type=\"button\" data-format=\"heading\" title=\"标题\">H</button><button type=\"button\" data-format=\"bold\" title=\"粗体\"><strong>B</strong></button><button type=\"button\" data-format=\"italic\" title=\"斜体\"><em>I</em></button><button type=\"button\" data-format=\"link\" title=\"链接\">↗</button><button type=\"button\" data-format=\"quote\" title=\"引用\">❯</button><button type=\"button\" data-format=\"code\" title=\"代码\">&lt;/&gt;</button><button type=\"button\" data-format=\"list\" title=\"列表\">≡</button><button type=\"button\" data-format=\"task\" title=\"任务\">☑</button></div><span class=\"collaboration-status\" role=\"status\"><i id=\"connection-dot\" aria-hidden=\"true\"></i><span id=\"save-status\">未连接</span><span id=\"presence\"></span></span><button class=\"button ghost\" id=\"cancel-button\" type=\"button\">退出编辑</button><button class=\"button\" id=\"save-button\" type=\"button\">立即保存</button></div><div class=\"editor-panes\"><div class=\"pane preview-pane\"><span>PREVIEW</span><iframe id=\"preview\" title=\"Markdown 实时预览\"></iframe></div><label class=\"pane source-pane\"><span>MARKDOWN</span><textarea id=\"source\" spellcheck=\"false\" disabled>"@
        + html_escaped(markdown) + "</textarea></label></div></section>\n<script src=\""@
        + "/__webdir/mermaid-11.17.2.min.js"@ + "\"></script><script>"@ + mermaid_js
        + "</script>\n<script src=\""@ + "/__webdir/yjs-13.6.32.min.js"@ + "\"></script><script>"@
        + markdown_js + "</script>\n</body>\n</html>"@
}

pub fn render_markdown_page(markdown: &str, title: &str, article: &str, markdown_js: &str, mermaid_js: &str) -> (r: String)
    ensures
        r@ == markdown_page(markdown@, title@, article@, markdown_js@, mermaid_js@),
{
    let t = escape_html(title);
    let source = escape_html(markdown);
    let mut r = String::new();
    push_str(&mut r, "<!doctype html>\n<html lang=\"zh-CN\">\n<head>\n<meta charset=\"utf-8\">\n<meta name=\"viewport\" content=\"width=device-width, initial-scale=1\">\n<link rel=\"icon\" href=\"/favicon.svg\" type=\"image/svg+xml\">\n<title>");
    push_str(&mut r, t.as_str());
    push_str(&mut r, "</title>\n<style>");
    push_str(&mut r, MARKDOWN_CSS_1);
    push_str(&mut r, MARKDOWN_CSS_2);
    push_str(&mut r, MARKDOWN_CSS_3);
    push_str(&mut r, MARKDOWN_CSS_4);
    push_str(&mut r, MARKDOWN_CSS_5);
    push_str(&mut r, MARKDOWN_CSS_6);
    push_str(&mut r, "</style>\n</head>\n<body class=\"review-closed\">\n<header class=\"topbar\"><button class=\"home\" id=\"history-back\" type=\"button\" aria-label=\"返回上一页\">←</button><span class=\"mark\">MD</span><span class=\"filename\">");
    push_str(&mut r, t.as_str());
    push_str(&mut r, "</span><span class=\"top-actions\"><button class=\"identity-button\" id=\"identity-button\" type=\"button\" title=\"切换审阅身份\"></button><button class=\"button ghost review-toggle\" id=\"review-toggle\" type=\"button\" aria-expanded=\"false\">评论 <b id=\"review-count\">0</b></button><a class=\"button ghost raw-button\" href=\"?mode=raw\">Raw</a><button class=\"button\" id=\"edit-button\" type=\"button\">编辑</button></span></header>\n<div id=\"reader\" class=\"reader-layout\"><aside id=\"toc\" aria-label=\"文档目录\"></aside><main class=\"paper\"><article id=\"article\">");
    push_str(&mut r, article);
    push_str(&mut r, "</article></main><aside id=\"review-panel\" class=\"review-panel\" aria-label=\"审阅评论\"><header class=\"review-header\"><div><span>REVIEW</span><strong>审阅讨论</strong></div><button id=\"review-close\" type=\"button\" aria-label=\"收起评论\">×</button></header><div class=\"review-file-actions\"><a id=\"open-review-file\" target=\"_blank\">打开评论文件</a><button id=\"copy-review-path\" type=\"button\">复制评论文件路径</button></div><div class=\"review-presence\"><i aria-hidden=\"true\"></i><span id=\"review-users\">正在连接…</span></div><button class=\"document-comment\" id=\"document-comment\" type=\"button\">＋ 全文评论</button><div class=\"review-composer\" id=\"review-composer\" hidden><p id=\"composer-scope\"></p><label for=\"comment-body\">写下需要讨论或修改的内容</label><textarea id=\"comment-body\" rows=\"4\"></textarea><div><button class=\"text-button\" id=\"composer-cancel\" type=\"button\">取消</button><button class=\"button\" id=\"composer-submit\" type=\"button\">提交评论</button></div></div><nav class=\"review-filters\" aria-label=\"评论状态\"><button class=\"active\" type=\"button\" data-review-filter=\"open\">待处理 <b>0</b></button><button type=\"button\" data-review-filter=\"addressed\">待确认 <b>0</b></button><button type=\"button\" data-review-filter=\"resolved\">已解决 <b>0</b></button></nav><div class=\"review-complete\" id=\"review-complete\" hidden><strong>审阅已完成</strong><span>可以交给 AI 执行</span></div><div class=\"review-error\" id=\"review-error\" role=\"status\" hidden></div><div class=\"comment-list\" id=\"comment-list\"></div></aside></div>\n<button class=\"selection-comment\" id=\"selection-comment\" type=\"button\" hidden>＋ 添加批注</button><div class=\"toast\" id=\"review-toast\" role=\"status\" hidden></div><dialog class=\"identity-dialog\" id=\"identity-dialog\"><form method=\"dialog\"><span class=\"dialog-kicker\">REVIEW IDENTITY</span><h2>你以什么身份参与审阅？</h2><p>输入一个方便其他审阅者辨认的名称，浏览器会在此设备上记住它。</p><label for=\"identity-input\">审阅人名称</label><input id=\"identity-input\" name=\"identity\" autocomplete=\"username\" placeholder=\"例如：小明、Alice、dev-01\" required><span class=\"identity-error\" id=\"identity-error\"></span><button class=\"button\" id=\"identity-submit\" value=\"confirm\">进入审阅</button></form></dialog>\n<section id=\"editor\" class=\"editor-shell\" hidden><div class=\"editor-toolbar\"><div class=\"format-tools\" role=\"toolbar\" aria-label=\"Markdown 格式\"><button type=\"button\" data-format=\"heading\" title=\"标题\">H</button><button type=\"button\" data-format=\"bold\" title=\"粗体\"><strong>B</strong></button><button type=\"button\" data-format=\"italic\" title=\"斜体\"><em>I</em></button><button type=\"button\" data-format=\"link\" title=\"链接\">↗</button><button type=\"button\" data-format=\"quote\" title=\"引用\">❯</button><button type=\"button\" data-format=\"code\" title=\"代码\">&lt;/&gt;</button><button type=\"button\" data-format=\"list\" title=\"列表\">≡</button><button type=\"button\" data-format=\"task\" title=\"任务\">☑</button></div><span class=\"collaboration-status\" role=\"status\"><i id=\"connection-dot\" aria-hidden=\"true\"></i><span id=\"save-status\">未连接</span><span id=\"presence\"></span></span><button class=\"button ghost\" id=\"cancel-button\" type=\"button\">退出编辑</button><button class=\"button\" id=\"save-button\" type=\"button\">立即保存</button></div><div class=\"editor-panes\"><div class=\"pane preview-pane\"><span>PREVIEW</span><iframe id=\"preview\" title=\"Markdown 实时预览\"></iframe></div><label class=\"pane source-pane\"><span>MARKDOWN</span><textarea id=\"source\" spellcheck=\"false\" disabled>");
    push_str(&mut r, source.as_str());
    push_str(&mut r, "</textarea></label></div></section>\n<script src=\"");
    push_str(&mut r, "/__webdir/mermaid-11.17.2.min.js");
    push_str(&mut r, "\"></script><script>");
    push_str(&mut r, mermaid_js);
    push_str(&mut r, "</script>\n<script src=\"");
    push_str(&mut r, "/__webdir/yjs-13.6.32.min.js");
    push_str(&mut r, "\"></script><script>");
    push_str(&mut r, markdown_js);
    push_str(&mut r, "</script>\n</body>\n</html>");
    proof {
        assert(r@ =~= markdown_page(markdown@, title@, article@, markdown_js@, mermaid_js@));
    }
    r
}

/// The live preview of a Markdown draft whose rendered article is `article`.
pub open spec fn markdown_preview_page(article: Seq<char>, mermaid_js: Seq<char>) -> Seq<char> {
    "<!doctype html><html lang=\"zh-CN\"><head><meta charset=\"utf-8\"><meta name=\"viewport\" content=\"width=device-width,initial-scale=1\"><link rel=\"icon\" href=\"/favicon.svg\" type=\"image/svg+xml\"><style>"@
        + MARKDOWN_CSS_1@ + MARKDOWN_CSS_2@ + MARKDOWN_CSS_3@ + MARKDOWN_CSS_4@ + MARKDOWN_CSS_5@ + MARKDOWN_CSS_6@
        + "</style></head><body class=\"preview-body\"><main class=\"paper preview-paper\"><article>"@
        + article + "</article></main><script src=\""@ + "/__webdir/mermaid-11.17.2.min.js"@
        + "\"></script><script>"@ + mermaid_js + "</script></body></html>"@
}

pub fn render_markdown_preview_page(article: &str, mermaid_js: &str) -> (r: String)
    ensures
        r@ == markdown_preview_page(article@, mermaid_js@),
{
    let mut r = String::new();
    push_str(&mut r, "<!doctype html><html lang=\"zh-CN\"><head><meta charset=\"utf-8\"><meta name=\"viewport\" content=\"width=device-width,initial-scale=1\"><link rel=\"icon\" href=\"/favicon.svg\" type=\"image/svg+xml\"><style>");
    push_str(&mut r, MARKDOWN_CSS_1);
    push_str(&mut r, MARKDOWN_CSS_2);
    push_str(&mut r, MARKDOWN_CSS_3);
    push_str(&mut r, MARKDOWN_CSS_4);
    push_str(&mut r, MARKDOWN_CSS_5);
    push_str(&mut r, MARKDOWN_CSS_6);
    push_str(&mut r, "</style></head><body class=\"preview-body\"><main class=\"paper preview-paper\"><article>");
    push_str(&mut r, article);
    push_str(&mut r, "</article></main><script src=\"");
    push_str(&mut r, "/__webdir/mermaid-11.17.2.min.js");
    push_str(&mut r, "\"></script><script>");
    push_str(&mut r, mermaid_js);
    push_str(&mut r, "</script></body></html>");
    proof {
        assert(r@ =~= markdown_preview_page(article@, mermaid_js@));
    }
    r
}

/// The name the site icon shows the initial of: the served directory's name.
pub open spec fn site_name(root: Seq<char>) -> Seq<char> {
    match crate::paths::file_name(root) {
        Some(n) => if n.len() > 0 {
            n
        } else {
            "webdir"@
        },
        None => "webdir"@,
    }
}

/// The uppercase mapping of a character under Unicode.
pub uninterp spec fn unicode_upper(c: char) -> Seq<char>;

/// `char::to_uppercase`, collected: the Unicode uppercase mapping of `c`, a function
/// of `c` alone.
#[verifier::external_body]
fn uppercase_of(c: char) -> (r: String)
    ensures
        r@ == unicode_upper(c),
{
    c.to_uppercase().collect()
}

/// The first character of `name` that is not white space, in upper case, or `W`.
pub open spec fn site_initial(name: Seq<char>) -> Seq<char> {
    if exists|i: int| 0 <= i < name.len() && !crate::text::is_space(#[trigger] name[i]) {
        let i = choose|i: int|
            0 <= i < name.len() && !crate::text::is_space(#[trigger] name[i]) && forall|j: int|
                0 <= j < i ==> crate::text::is_space(#[trigger] name[j]);
        unicode_upper(name[i])
    } else {
        "W"@
    }
}

/// One step of the 32-bit FNV-1a hash.
pub open spec fn fnv_step(h: u32, b: u8) -> u32 {
    (((h ^ (b as u32)) as nat * 16777619) % 4294967296) as u32
}

/// The 32-bit FNV-1a hash of `bytes`.
pub open spec fn fnv_hash(bytes: Seq<u8>) -> u32
    decreases bytes.len(),
{
    if bytes.len() == 0 {
        2166136261
    } else {
        fnv_step(fnv_hash(bytes.drop_last()), bytes.last())
    }
}

/// The icon colour picked by a hash.
pub open spec fn site_color(h: u32) -> Seq<char> {
    let k = h % 6;
    if k == 0 {
        "#5B5BD6"@
    } else if k == 1 {
        "#287D8E"@
    } else if k == 2 {
        "#A24A70"@
    } else if k == 3 {
        "#3E6F49"@
    } else if k == 4 {
        "#8A5A2B"@
    } else {
        "#5367A8"@
    }
}

fn site_color_exec(h: u32) -> (r: &'static str)
    ensures
        r@ == site_color(h),
{
    let k = h % 6;
    if k == 0 {
        "#5B5BD6"
    } else if k == 1 {
        "#287D8E"
    } else if k == 2 {
        "#A24A70"
    } else if k == 3 {
        "#3E6F49"
    } else if k == 4 {
        "#8A5A2B"
    } else {
        "#5367A8"
    }
}

/// The site icon for the served directory `root`: its initial on a colour picked by
/// the hash of its name.
pub open spec fn site_icon(root: Seq<char>) -> Seq<char> {
    "<svg xmlns=\"http://www.w3.org/2000/svg\" viewBox=\"0 0 64 64\"><rect width=\"64\" height=\"64\" rx=\"15\" fill=\""@
        + site_color(fnv_hash(vstd::utf8::encode_utf8(site_name(root))))
        + "\"/><circle cx=\"51\" cy=\"13\" r=\"5\" fill=\"#fff\" opacity=\".22\"/><text x=\"32\" y=\"42\" text-anchor=\"middle\" fill=\"#fff\" font-family=\"ui-sans-serif,system-ui,sans-serif\" font-size=\"32\" font-weight=\"750\">"@
        + html_escaped(site_initial(site_name(root))) + "</text></svg>"@
}

pub fn render_site_icon(root: &str) -> (r: String)
    ensures
        r@ == site_icon(root@),
{
    let name = match crate::paths::file_name_of(root) {
        Some(n) => if n.len() > 0 {
            string_of(n.as_slice())
        } else {
            string_of(chars_of("webdir").as_slice())
        },
        None => string_of(chars_of("webdir").as_slice()),
    };
    let nc = chars_of(name.as_str());
    let mut i: usize = 0;
    while i < nc.len() && crate::text::is_space_exec(nc[i])
        invariant
            i <= nc@.len(),
            forall|j: int| 0 <= j < i ==> crate::text::is_space(#[trigger] nc@[j]),
        decreases nc@.len() - i,
    {
        i = i + 1;
    }
    let upper = if i < nc.len() {
        proof {
            let w = choose|w: int|
                0 <= w < nc@.len() && !crate::text::is_space(#[trigger] nc@[w]) && forall|j: int|
                    0 <= j < w ==> crate::text::is_space(#[trigger] nc@[j]);
            assert(w == i);
        }
        uppercase_of(nc[i])
    } else {
        proof {
            assert forall|w: int| 0 <= w < nc@.len() implies crate::text::is_space(#[trigger] nc@[w]) by {}
        }
        string_of(chars_of("W").as_slice())
    };
    let bytes = vstd::string::StrSliceExecFns::as_bytes_vec(name.as_str());
    let mut h: u32 = 2166136261;
    let mut k: usize = 0;
    proof {
        assert(bytes@.take(0) =~= Seq::<u8>::empty());
    }
    while k < bytes.len()
        invariant
            k <= bytes@.len(),
            h == fnv_hash(bytes@.take(k as int)),
        decreases bytes@.len() - k,
    {
        h = (h ^ (bytes[k] as u32)).wrapping_mul(16777619);
        proof {
            assert(bytes@.take(k + 1).drop_last() =~= bytes@.take(k as int));
        }
        k = k + 1;
    }
    proof {
        assert(bytes@.take(k as int) =~= bytes@);
    }
    let color = site_color_exec(h);
    let initial = escape_html(upper.as_str());
    let mut r = String::new();
    push_str(&mut r, "<svg xmlns=\"http://www.w3.org/2000/svg\" viewBox=\"0 0 64 64\"><rect width=\"64\" height=\"64\" rx=\"15\" fill=\"");
    push_str(&mut r, color);
    push_str(&mut r, "\"/><circle cx=\"51\" cy=\"13\" r=\"5\" fill=\"#fff\" opacity=\".22\"/><text x=\"32\" y=\"42\" text-anchor=\"middle\" fill=\"#fff\" font-family=\"ui-sans-serif,system-ui,sans-serif\" font-size=\"32\" font-weight=\"750\">");
    push_str(&mut r, initial.as_str());
    push_str(&mut r, "</text></svg>");
    proof {
        assert(r@ =~= site_icon(root@));
    }
    r
}

/// The breadcrumbs of the directories `parts`: the root, then each directory in turn.
pub open spec fn breadcrumbs(parts: Seq<Seq<char>>) -> Seq<char>
    decreases parts.len(),
{
    if parts.len() == 0 {
        "<a href=\"/\">root</a>"@
    } else {
        breadcrumbs(parts.drop_last()) + "<span aria-hidden=\"true\">/</span><a href=\""@
            + crate::paths::parts_url(parts, true) + "\">"@ + html_escaped(parts.last()) + "</a>"@
    }
}

/// The breadcrumbs of a relative directory path.
pub fn render_breadcrumbs(relative: &str) -> (r: String)
    ensures
        r@ == breadcrumbs(crate::paths::normal_parts(relative@)),
{
    let rc = chars_of(relative);
    let parts = crate::paths::path_parts(rc.as_slice(), true);
    breadcrumbs_of(&parts)
}

fn breadcrumbs_of(parts: &Vec<Vec<char>>) -> (r: String)
    ensures
        r@ == breadcrumbs(crate::text::views(parts@)),
{
    let ghost ps = crate::text::views(parts@);
    let mut r = string_of(chars_of("<a href=\"/\">root</a>").as_slice());
    let mut prefix: Vec<Vec<char>> = Vec::new();
    let mut i: usize = 0;
    proof {
        assert(ps.take(0) =~= Seq::<Seq<char>>::empty());
    }
    while i < parts.len()
        invariant
            ps == crate::text::views(parts@),
            i <= ps.len(),
            crate::text::views(prefix@) == ps.take(i as int),
            r@ == breadcrumbs(ps.take(i as int)),
        decreases ps.len() - i,
    {
        let name = string_of(parts[i].as_slice());
        prefix.push(chars_of(name.as_str()));
        proof {
            assert(crate::text::views(prefix@) =~= ps.take(i + 1));
        }
        let href = crate::paths::parts_url_exec(&prefix, true);
        let label = escape_html(name.as_str());
        push_str(&mut r, "<span aria-hidden=\"true\">/</span><a href=\"");
        push_str(&mut r, href.as_str());
        push_str(&mut r, "\">");
        push_str(&mut r, label.as_str());
        push_str(&mut r, "</a>");
        proof {
            assert(ps.take(i + 1).drop_last() =~= ps.take(i as int));
            assert(ps.take(i + 1).last() == parts@[i as int]@);
            assert(r@ =~= breadcrumbs(ps.take(i + 1)));
        }
        i = i + 1;
    }
    proof {
        assert(ps.take(i as int) =~= ps);
    }
    r
}

/// A file page with the file's place in the tree added: its path on the body, the
/// breadcrumb style, the breadcrumbs of its directory before the header, and the
/// keyboard shortcuts script `shortcuts_js`.
pub open spec fn file_page(body: Seq<char>, relative: Seq<Seq<char>>, shortcuts_js: Seq<char>) -> Seq<char> {
    let b1 = crate::text::replace_first(body, "<body"@, "<body data-file-path=\""@ + html_escaped(crate::paths::join_parts(relative)) + "\""@);
    let b2 = crate::text::replace_first(b1, "</head>"@, "<style>"@ + FILE_NAVIGATION_CSS@ + "</style></head>"@);
    let b3 = crate::text::replace_first(
        b2,
        "<header"@,
        "<nav class=\"file-breadcrumbs\" aria-label=\"当前位置\">"@ + breadcrumbs(relative.drop_last())
            + "</nav><header"@,
    );
    crate::text::replace_first(b3, "</body>"@, "<script>"@ + shortcuts_js + "</script></body>"@)
}

/// Adds the file's place in the tree to a file page; `relative` names the file.
pub fn render_file_page(body: &str, relative: &Vec<String>, shortcuts_js: &str) -> (r: String)
    requires
        relative@.len() > 0,
    ensures
        r@ == file_page(body@, crate::paths::strings(relative@), shortcuts_js@),
{
    proof {
        reveal_strlit("<body");
        reveal_strlit("</head>");
        reveal_strlit("<header");
        reveal_strlit("</body>");
        assert("<body"@.len() == 5 && "</head>"@.len() == 7);
        assert("<header"@.len() == 7 && "</body>"@.len() == 7);
    }
    let parts = crate::paths::chars_list(relative);
    let joined = crate::paths::join_parts_exec(&parts);
    let mut attribute = string_of(chars_of("<body data-file-path=\"").as_slice());
    let escaped = escape_html(joined.as_str());
    push_str(&mut attribute, escaped.as_str());
    push_str(&mut attribute, "\"");
    let b1 = crate::text::replace_first_exec(body, "<body", attribute.as_str());
    let mut style = string_of(chars_of("<style>").as_slice());
    push_str(&mut style, FILE_NAVIGATION_CSS);
    push_str(&mut style, "</style></head>");
    let b2 = crate::text::replace_first_exec(b1.as_str(), "</head>", style.as_str());
    let mut directory = parts;
    directory.pop();
    let crumbs = breadcrumbs_of(&directory);
    let mut nav = string_of(chars_of("<nav class=\"file-breadcrumbs\" aria-label=\"当前位置\">").as_slice());
    push_str(&mut nav, crumbs.as_str());
    push_str(&mut nav, "</nav><header");
    let b3 = crate::text::replace_first_exec(b2.as_str(), "<header", nav.as_str());
    let mut script = string_of(chars_of("<script>").as_slice());
    push_str(&mut script, shortcuts_js);
    push_str(&mut script, "</script></body>");
    let r = crate::text::replace_first_exec(b3.as_str(), "</body>", script.as_str());
    proof {
        assert(crate::text::views(directory@) =~= crate::paths::strings(relative@).drop_last());
    }
    r
}

} // verus!
