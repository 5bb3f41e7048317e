//! HTTP responses: status lines, headers and bodies, as the text written to the client.
use vstd::prelude::*;
use crate::text::{chars_of, push_char, push_str, string_of};
use vstd::string::StrSliceExecFns;

verus! {

broadcast use vstd::string::group_string_axioms;

/// The decimal digit `d`.
pub open spec fn digit_char(d: int) -> char {
    if d == 0 {
        '0'
    } else if d == 1 {
        '1'
    } else if d == 2 {
        '2'
    } else if d == 3 {
        '3'
    } else if d == 4 {
        '4'
    } else if d == 5 {
        '5'
    } else if d == 6 {
        '6'
    } else if d == 7 {
        '7'
    } else if d == 8 {
        '8'
    } else {
        '9'
    }
}

/// `n` written in decimal, as `Display` writes an unsigned integer.
pub open spec fn decimal(n: nat) -> Seq<char>
    decreases n,
{
    if n < 10 {
        seq![digit_char(n as int)]
    } else {
        decimal(n / 10).push(digit_char((n % 10) as int))
    }
}

fn digit_exec(d: u64) -> (c: char)
    requires
        d < 10,
    ensures
        c == digit_char(d as int),
{
    if d == 0 {
        '0'
    } else if d == 1 {
        '1'
    } else if d == 2 {
        '2'
    } else if d == 3 {
        '3'
    } else if d == 4 {
        '4'
    } else if d == 5 {
        '5'
    } else if d == 6 {
        '6'
    } else if d == 7 {
        '7'
    } else if d == 8 {
        '8'
    } else {
        '9'
    }
}

/// Appends the decimal digits of `n`.
pub fn push_decimal(s: &mut String, n: u64)
    ensures
        final(s)@ == old(s)@ + decimal(n as nat),
    decreases n,
{
    if n >= 10 {
        push_decimal(s, n / 10);
    }
    push_char(s, digit_exec(n % 10));
    proof {
        if n >= 10 {
            assert(decimal(n as nat) == decimal((n / 10) as nat).push(digit_char((n % 10) as int)));
        }
    }
}

/// Appends the decimal digits of a wide number.
pub fn push_decimal_wide(s: &mut String, n: u128)
    ensures
        final(s)@ == old(s)@ + decimal(n as nat),
    decreases n,
{
    if n >= 10 {
        push_decimal_wide(s, n / 10);
    }
    push_char(s, digit_exec((n % 10) as u64));
    proof {
        if n >= 10 {
            assert(decimal(n as nat) == decimal((n / 10) as nat).push(digit_char((n % 10) as int)));
        }
    }
}

/// The number of bytes of the UTF-8 encoding of `s`.
pub open spec fn byte_len(s: Seq<char>) -> nat {
    vstd::utf8::encode_utf8(s).len()
}

pub(crate) fn byte_count(s: &str) -> (n: usize)
    ensures
        n == byte_len(s@),
{
    s.as_bytes_vec().len()
}

/// The status line `HTTP/1.1 <status> <reason>`, without its line break.
pub open spec fn status_line(status: u16, reason: Seq<char>) -> Seq<char> {
    "HTTP/1.1 "@ + decimal(status as nat) + " "@ + reason
}

/// The head of a response whose body of `length` bytes has type `content_type`.
pub open spec fn content_head(status: u16, reason: Seq<char>, length: nat, content_type: Seq<char>) -> Seq<char> {
    status_line(status, reason) + "\r\nContent-Length: "@ + decimal(length) + "\r\nContent-Type: "@
        + content_type + "\r\nConnection: close\r\n\r\n"@
}

/// The head, then the body unless only the head was asked for.
pub open spec fn with_body(head: Seq<char>, body: Seq<char>, head_only: bool) -> Seq<char> {
    if head_only {
        head
    } else {
        head + body
    }
}

/// `s` holds no carriage return.
pub open spec fn no_cr(s: Seq<char>) -> bool {
    forall|i: int| 0 <= i < s.len() ==> #[trigger] s[i] != '\r'
}

/// Every carriage return of `s` is followed, two places on and within `s`, by
/// something else: no blank line `\r\n\r\n` starts in `s`.
pub open spec fn lone_cr(s: Seq<char>) -> bool {
    forall|i: int| 0 <= i < s.len() && #[trigger] s[i] == '\r' ==> i + 2 < s.len() && s[i + 2] != '\r'
}

/// A blank line `\r\n\r\n` starts at position `p` of `s`.
pub open spec fn blank_line_at(s: Seq<char>, p: int) -> bool {
    s.subrange(p, p + 4) == "\r\n\r\n"@
}

proof fn lemma_lone_cr_concat(a: Seq<char>, b: Seq<char>)
    requires
        lone_cr(a),
        lone_cr(b),
    ensures
        lone_cr(a + b),
{
    let s = a + b;
    assert forall|i: int| 0 <= i < s.len() && #[trigger] s[i] == '\r' implies i + 2 < s.len() && s[i + 2] != '\r' by {
        if i < a.len() {
            assert(a[i] == '\r');
        } else {
            assert(b[i - a.len()] == '\r');
        }
    }
}

proof fn lemma_decimal_no_cr(n: nat)
    ensures
        no_cr(decimal(n)),
    decreases n,
{
    if n >= 10 {
        lemma_decimal_no_cr(n / 10);
    }
}

/// The answer to `HEAD` is the head of the answer to `GET`: all of it up to and
/// including its first blank line, with the same status and headers, and nothing
/// after.
pub proof fn law_head_answer_is_get_head(status: u16, reason: Seq<char>, body: Seq<char>, content_type: Seq<char>)
    requires
        no_cr(reason),
        no_cr(content_type),
    ensures
        ({
            let head = content_head(status, reason, byte_len(body), content_type);
            let get = with_body(head, body, false);
            &&& with_body(head, body, true) == get.take(head.len() as int)
            &&& get.subrange(head.len() - 4, head.len() as int) == "\r\n\r\n"@
            &&& forall|p: int| 0 <= p < head.len() - 4 ==> !#[trigger] blank_line_at(get, p)
        }),
{
    let head = content_head(status, reason, byte_len(body), content_type);
    let get = head + body;
    reveal_strlit("HTTP/1.1 ");
    reveal_strlit(" ");
    reveal_strlit("\r\nContent-Length: ");
    reveal_strlit("\r\nContent-Type: ");
    reveal_strlit("\r\nConnection: close\r\n\r\n");
    reveal_strlit("\r\n\r\n");
    lemma_decimal_no_cr(status as nat);
    lemma_decimal_no_cr(byte_len(body));
    let l1 = "HTTP/1.1 "@;
    let l2 = " "@;
    let l3 = "\r\nContent-Length: "@;
    let l4 = "\r\nContent-Type: "@;
    let tail = "\r\nConnection: close\r\n\r\n"@;
    assert(lone_cr(l1));
    assert(lone_cr(l2));
    assert(lone_cr(l3));
    assert(lone_cr(l4));
    let front = l1 + decimal(status as nat) + l2 + reason + l3 + decimal(byte_len(body)) + l4 + content_type;
    lemma_lone_cr_concat(l1, decimal(status as nat));
    lemma_lone_cr_concat(l1 + decimal(status as nat), l2);
    lemma_lone_cr_concat(l1 + decimal(status as nat) + l2, reason);
    lemma_lone_cr_concat(l1 + decimal(status as nat) + l2 + reason, l3);
    lemma_lone_cr_concat(l1 + decimal(status as nat) + l2 + reason + l3, decimal(byte_len(body)));
    lemma_lone_cr_concat(l1 + decimal(status as nat) + l2 + reason + l3 + decimal(byte_len(body)), l4);
    lemma_lone_cr_concat(l1 + decimal(status as nat) + l2 + reason + l3 + decimal(byte_len(body)) + l4, content_type);
    assert(head =~= front + tail);
    assert(get.take(head.len() as int) =~= head);
    assert(tail.len() == 23);
    assert(get.subrange(head.len() - 4, head.len() as int) =~= "\r\n\r\n"@) by {
        assert forall|k: int| 0 <= k < 4 implies #[trigger] get.subrange(head.len() - 4, head.len() as int)[k] == tail[19 + k] by {
            assert(get[head.len() - 4 + k] == head[head.len() - 4 + k]);
        }
    }
    assert forall|p: int| 0 <= p < head.len() - 4 implies !#[trigger] blank_line_at(get, p) by {
        if blank_line_at(get, p) {
            assert(get.subrange(p, p + 4)[0] == '\r' && get.subrange(p, p + 4)[2] == '\r');
            assert(head[p] == '\r' && head[p + 2] == '\r');
            if p < front.len() {
                assert(front[p] == '\r');
                if p + 2 < front.len() {
                    assert(front[p + 2] == head[p + 2]);
                }
            } else {
                let q = p - front.len();
                assert(tail[q] == '\r' && tail[q + 2] == '\r');
                assert(q < 19);
            }
        }
    }
}

fn head_for(status: u16, reason: &str, length: u64, content_type: &str) -> (r: String)
    ensures
        r@ == content_head(status, reason@, length as nat, content_type@),
{
    let mut r = string_of(chars_of("HTTP/1.1 ").as_slice());
    push_decimal(&mut r, status as u64);
    push_str(&mut r, " ");
    push_str(&mut r, reason);
    push_str(&mut r, "\r\nContent-Length: ");
    push_decimal(&mut r, length);
    push_str(&mut r, "\r\nContent-Type: ");
    push_str(&mut r, content_type);
    push_str(&mut r, "\r\nConnection: close\r\n\r\n");
    proof {
        assert(r@ =~= content_head(status, reason@, length as nat, content_type@));
    }
    r
}

/// A plain-text response.
pub fn text_response(status: u16, reason: &str, body: &str, head_only: bool) -> (r: String)
    ensures
        r@ == with_body(
            content_head(status, reason@, byte_len(body@), "text/plain; charset=utf-8"@),
            body@,
            head_only,
        ),
{
    let n = byte_count(body);
    let mut r = head_for(status, reason, n as u64, "text/plain; charset=utf-8");
    if !head_only {
        push_str(&mut r, body);
    }
    r
}

/// An HTML response.
pub fn html_response(status: u16, reason: &str, body: &str, head_only: bool) -> (r: String)
    ensures
        r@ == with_body(
            content_head(status, reason@, byte_len(body@), "text/html; charset=utf-8"@),
            body@,
            head_only,
        ),
{
    let n = byte_count(body);
    let mut r = head_for(status, reason, n as u64, "text/html; charset=utf-8");
    if !head_only {
        push_str(&mut r, body);
    }
    r
}

/// The head of a `200 OK` response whose body of `length` bytes follows, such as a
/// file's contents.
pub fn ok_head(length: u64, content_type: &str) -> (r: String)
    ensures
        r@ == content_head(200, "OK"@, length as nat, content_type@),
{
    head_for(200, "OK", length, content_type)
}

/// A response with no body.
pub open spec fn empty_text(status: u16, reason: Seq<char>) -> Seq<char> {
    status_line(status, reason) + "\r\nContent-Length: 0\r\nConnection: close\r\n\r\n"@
}

pub fn empty_response(status: u16, reason: &str) -> (r: String)
    ensures
        r@ == empty_text(status, reason@),
{
    let mut r = string_of(chars_of("HTTP/1.1 ").as_slice());
    push_decimal(&mut r, status as u64);
    push_str(&mut r, " ");
    push_str(&mut r, reason);
    push_str(&mut r, "\r\nContent-Length: 0\r\nConnection: close\r\n\r\n");
    proof {
        assert(r@ =~= empty_text(status, reason@));
    }
    r
}

/// A permanent redirect to `location`.
pub open spec fn redirect_text(location: Seq<char>) -> Seq<char> {
    "HTTP/1.1 301 Moved Permanently\r\nLocation: "@ + location
        + "\r\nContent-Length: 0\r\nConnection: close\r\n\r\n"@
}

pub fn redirect_response(location: &str) -> (r: String)
    ensures
        r@ == redirect_text(location@),
{
    let mut r = string_of(chars_of("HTTP/1.1 301 Moved Permanently\r\nLocation: ").as_slice());
    push_str(&mut r, location);
    push_str(&mut r, "\r\nContent-Length: 0\r\nConnection: close\r\n\r\n");
    r
}

/// The name of the cookie that carries the access token.
pub open spec fn auth_cookie_name() -> Seq<char> {
    "webdir_auth_token"@
}

/// The answer to a correct access token: the token is kept in a session cookie.
pub open spec fn authenticated_text(token: Seq<char>) -> Seq<char> {
    "HTTP/1.1 204 No Content\r\nSet-Cookie: webdir_auth_token="@ + crate::url::percent_encoded(token)
        + "; Path=/; HttpOnly; SameSite=Lax\r\nContent-Length: 0\r\nConnection: close\r\n\r\n"@
}

pub fn authenticated_response(token: &str) -> (r: String)
    ensures
        r@ == authenticated_text(token@),
{
    let cookie = crate::url::percent_encode_component(token);
    let mut r = string_of(chars_of("HTTP/1.1 204 No Content\r\nSet-Cookie: webdir_auth_token=").as_slice());
    push_str(&mut r, cookie.as_str());
    push_str(&mut r, "; Path=/; HttpOnly; SameSite=Lax\r\nContent-Length: 0\r\nConnection: close\r\n\r\n");
    r
}

/// How a file that can be read in ranges is answered.
pub struct RangedReply {
    /// The response head.
    pub head: String,
    /// The first byte of the file to send.
    pub start: u64,
    /// How many bytes of the file follow the head (none for a refused range).
    pub count: u64,
}

/// The head and the byte span of the answer to a request with `Range` header `range`
/// for a file of `length` bytes.
pub open spec fn ranged(range: Seq<char>, length: u64, content_type: Seq<char>) -> (Seq<char>, int, int) {
    if range.len() == 0 {
        (
            "HTTP/1.1 200 OK\r\nContent-Length: "@ + decimal(length as nat) + "\r\nContent-Type: "@
                + content_type + "\r\nAccept-Ranges: bytes\r\nConnection: close\r\n\r\n"@,
            0,
            length as int,
        )
    } else {
        match crate::http::byte_range(range, length as int) {
            None => (
                "HTTP/1.1 416 Range Not Satisfiable\r\nContent-Range: bytes */"@ + decimal(length as nat)
                    + "\r\nContent-Length: 0\r\nAccept-Ranges: bytes\r\nConnection: close\r\n\r\n"@,
                0,
                0,
            ),
            Some((start, end)) => (
                "HTTP/1.1 206 Partial Content\r\nContent-Length: "@ + decimal((end - start + 1) as nat)
                    + "\r\nContent-Type: "@ + content_type + "\r\nContent-Range: bytes "@ + decimal(
                    start as nat,
                ) + "-"@ + decimal(end as nat) + "/"@ + decimal(length as nat)
                    + "\r\nAccept-Ranges: bytes\r\nConnection: close\r\n\r\n"@,
                start,
                end - start + 1,
            ),
        }
    }
}

pub fn ranged_reply(range: &str, length: u64, content_type: &str) -> (r: RangedReply)
    ensures
        (r.head@, r.start as int, r.count as int) == ranged(range@, length, content_type@),
{
    let rc = chars_of(range);
    if rc.len() == 0 {
        let mut head = string_of(chars_of("HTTP/1.1 200 OK\r\nContent-Length: ").as_slice());
        push_decimal(&mut head, length);
        push_str(&mut head, "\r\nContent-Type: ");
        push_str(&mut head, content_type);
        push_str(&mut head, "\r\nAccept-Ranges: bytes\r\nConnection: close\r\n\r\n");
        proof {
            assert(range@.len() == 0);
        }
        return RangedReply { head, start: 0, count: length };
    }
    match crate::http::parse_byte_range(range, length) {
        None => {
            let mut head = string_of(
                chars_of("HTTP/1.1 416 Range Not Satisfiable\r\nContent-Range: bytes */").as_slice(),
            );
            push_decimal(&mut head, length);
            push_str(&mut head, "\r\nContent-Length: 0\r\nAccept-Ranges: bytes\r\nConnection: close\r\n\r\n");
            RangedReply { head, start: 0, count: 0 }
        },
        Some((start, end)) => {
            let count = end - start + 1;
            let mut head = string_of(chars_of("HTTP/1.1 206 Partial Content\r\nContent-Length: ").as_slice());
            push_decimal(&mut head, count);
            push_str(&mut head, "\r\nContent-Type: ");
            push_str(&mut head, content_type);
            push_str(&mut head, "\r\nContent-Range: bytes ");
            push_decimal(&mut head, start);
            push_str(&mut head, "-");
            push_decimal(&mut head, end);
            push_str(&mut head, "/");
            push_decimal(&mut head, length);
            push_str(&mut head, "\r\nAccept-Ranges: bytes\r\nConnection: close\r\n\r\n");
            proof {
                assert(head@ =~= ranged(range@, length, content_type@).0);
            }
            RangedReply { head, start, count }
        },
    }
}

/// The head of an image response, and whether the image itself follows: a matching
/// `If-None-Match` gets `304 Not Modified` and no body.
pub open spec fn image_head(
    length: u64,
    content_type: Seq<char>,
    etag: Option<Seq<char>>,
    if_none_match: Seq<char>,
    immutable: bool,
) -> (Seq<char>, bool) {
    let cache_control = crate::http::image_cache_control(immutable, etag is Some);
    match etag {
        Some(tag) => if crate::http::not_modified(if_none_match, tag) {
            (
                "HTTP/1.1 304 Not Modified\r\nETag: "@ + tag + "\r\nCache-Control: "@ + cache_control
                    + "\r\nConnection: close\r\n\r\n"@,
                false,
            )
        } else {
            (
                "HTTP/1.1 200 OK\r\nContent-Length: "@ + decimal(length as nat) + "\r\nContent-Type: "@
                    + content_type + "\r\nConnection: close\r\nETag: "@ + tag + "\r\nCache-Control: "@
                    + cache_control + "\r\n\r\n"@,
                true,
            )
        },
        None => (
            "HTTP/1.1 200 OK\r\nContent-Length: "@ + decimal(length as nat) + "\r\nContent-Type: "@
                + content_type + "\r\nConnection: close\r\nCache-Control: "@ + cache_control
                + "\r\n\r\n"@,
            true,
        ),
    }
}

pub fn image_headers(
    length: u64,
    content_type: &str,
    etag: Option<&str>,
    if_none_match: &str,
    immutable: bool,
) -> (r: (String, bool))
    ensures
        (r.0@, r.1) == image_head(length, content_type@, crate::kinds::opt_view(etag), if_none_match@, immutable),
{
    let cache_control = crate::http::image_cache_control_exec(immutable, etag.is_some());
    match etag {
        Some(tag) => {
            if crate::http::is_not_modified(if_none_match, tag) {
                let mut head = string_of(chars_of("HTTP/1.1 304 Not Modified\r\nETag: ").as_slice());
                push_str(&mut head, tag);
                push_str(&mut head, "\r\nCache-Control: ");
                push_str(&mut head, cache_control);
                push_str(&mut head, "\r\nConnection: close\r\n\r\n");
                (head, false)
            } else {
                let mut head = string_of(chars_of("HTTP/1.1 200 OK\r\nContent-Length: ").as_slice());
                push_decimal(&mut head, length);
                push_str(&mut head, "\r\nContent-Type: ");
                push_str(&mut head, content_type);
                push_str(&mut head, "\r\nConnection: close\r\nETag: ");
                push_str(&mut head, tag);
                push_str(&mut head, "\r\nCache-Control: ");
                push_str(&mut head, cache_control);
                push_str(&mut head, "\r\n\r\n");
                proof {
                    assert(head@ =~= image_head(length, content_type@, Some(tag@), if_none_match@, immutable).0);
                }
                (head, true)
            }
        },
        None => {
            let mut head = string_of(chars_of("HTTP/1.1 200 OK\r\nContent-Length: ").as_slice());
            push_decimal(&mut head, length);
            push_str(&mut head, "\r\nContent-Type: ");
            push_str(&mut head, content_type);
            push_str(&mut head, "\r\nConnection: close\r\nCache-Control: ");
            push_str(&mut head, cache_control);
            push_str(&mut head, "\r\n\r\n");
            proof {
                assert(head@ =~= image_head(length, content_type@, None, if_none_match@, immutable).0);
            }
            (head, true)
        },
    }
}

/// The `101 Switching Protocols` answer that accepts a WebSocket handshake.
pub open spec fn switching_text(accept: Seq<char>) -> Seq<char> {
    "HTTP/1.1 101 Switching Protocols\r\nUpgrade: websocket\r\nConnection: Upgrade\r\nSec-WebSocket-Accept: "@
        + accept + "\r\n\r\n"@
}

pub fn switching_response(accept: &str) -> (r: String)
    ensures
        r@ == switching_text(accept@),
{
    let mut r = string_of(
        chars_of("HTTP/1.1 101 Switching Protocols\r\nUpgrade: websocket\r\nConnection: Upgrade\r\nSec-WebSocket-Accept: ").as_slice(),
    );
    push_str(&mut r, accept);
    push_str(&mut r, "\r\n\r\n");
    r
}

} // verus!
