//! HTTP request details: numbers in headers, byte ranges, request headers, WebSocket
//! upgrades and conditional image requests.
use vstd::prelude::*;
use crate::text::{
    any_part, chars_of, contains_chars, contains_text, is_text, lower, lower_chars, occurs_at,
    same_chars, slice_chars, split, split_exec, split_once, split_once_exec, starts_with_text,
    string_of, trim, trim_exec, views,
};

verus! {

broadcast use vstd::string::group_string_axioms;

pub open spec fn is_digit(c: char) -> bool {
    '0' <= c && c <= '9'
}

/// The number written by decimal digits.
pub open spec fn digits_value(ds: Seq<char>) -> int
    decreases ds.len(),
{
    if ds.len() == 0 {
        0
    } else {
        digits_value(ds.drop_last()) * 10 + (ds.last() as int - '0' as int)
    }
}

/// The digits of an unsigned number as `str::parse` reads it: an optional leading `+`
/// is dropped.
pub open spec fn unsigned_digits(s: Seq<char>) -> Seq<char> {
    if s.len() > 0 && s[0] == '+' {
        s.skip(1)
    } else {
        s
    }
}

/// `str::parse` for an unsigned integer type whose largest value is `max`.
pub open spec fn parse_unsigned(s: Seq<char>, max: int) -> Option<int> {
    let ds = unsigned_digits(s);
    if ds.len() > 0 && (forall|i: int| 0 <= i < ds.len() ==> is_digit(#[trigger] ds[i]))
        && digits_value(ds) <= max {
        Some(digits_value(ds))
    } else {
        None
    }
}

proof fn lemma_digits_value_monotone(ds: Seq<char>, k: int)
    requires
        0 <= k <= ds.len(),
        forall|i: int| 0 <= i < ds.len() ==> is_digit(#[trigger] ds[i]),
    ensures
        digits_value(ds.take(k)) <= digits_value(ds),
        digits_value(ds.take(k)) >= 0,
    decreases ds.len() - k,
{
    if k < ds.len() {
        lemma_digits_value_monotone(ds, k + 1);
        assert(ds.take(k + 1).drop_last() =~= ds.take(k));
        lemma_digits_value_nonneg(ds.take(k));
    } else {
        assert(ds.take(k) =~= ds);
        lemma_digits_value_nonneg(ds);
    }
}

proof fn lemma_digits_value_nonneg(ds: Seq<char>)
    requires
        forall|i: int| 0 <= i < ds.len() ==> is_digit(#[trigger] ds[i]),
    ensures
        digits_value(ds) >= 0,
    decreases ds.len(),
{
    if ds.len() > 0 {
        lemma_digits_value_nonneg(ds.drop_last());
    }
}

/// Parses an unsigned number no larger than `max`.
pub fn parse_unsigned_exec(v: &[char], max: u64) -> (r: Option<u64>)
    ensures
        match r {
            Some(n) => parse_unsigned(v@, max as int) == Some(n as int),
            None => parse_unsigned(v@, max as int) is None,
        },
{
    let start: usize = if v.len() > 0 && v[0] == '+' { 1 } else { 0 };
    let ghost ds = unsigned_digits(v@);
    proof {
        assert(ds =~= v@.skip(start as int));
    }
    if start == v.len() {
        return None;
    }
    let mut acc: u64 = 0;
    let mut i = start;
    while i < v.len()
        invariant
            start <= i <= v@.len(),
            ds == v@.skip(start as int),
            ds == unsigned_digits(v@),
            acc as int == digits_value(ds.take(i - start)),
            acc <= max,
            forall|j: int| 0 <= j < i - start ==> is_digit(#[trigger] ds[j]),
        decreases v@.len() - i,
    {
        let c = v[i];
        proof {
            assert(ds.take(i + 1 - start).drop_last() =~= ds.take(i - start));
            assert(ds[i - start] == c);
        }
        if !('0' <= c && c <= '9') {
            assert(!is_digit(ds[i - start]));
            assert(!(forall|j: int| 0 <= j < ds.len() ==> is_digit(#[trigger] ds[j])));
            return None;
        }
        let d: u64 = (c as u32 - '0' as u32) as u64;
        if d > max || acc > (max - d) / 10 {
            proof {
                assert(acc * 10 + d > max) by (nonlinear_arith)
                    requires
                        d > max || acc > (max - d) / 10,
                        d <= 9,
                ;
                assert(digits_value(ds.take(i + 1 - start)) == acc * 10 + d);
                if forall|j: int| 0 <= j < ds.len() ==> is_digit(#[trigger] ds[j]) {
                    lemma_digits_value_monotone(ds, i + 1 - start);
                }
            }
            return None;
        }
        acc = acc * 10 + d;
        i = i + 1;
    }
    proof {
        assert(ds.take(i - start) =~= ds);
    }
    Some(acc)
}


pub open spec fn min_int(a: int, b: int) -> int {
    if a <= b {
        a
    } else {
        b
    }
}

/// The byte range a `Range` header value asks of a file of `length` bytes, as the
/// inclusive `(start, end)` that is served: one `bytes=start-end`, `bytes=start-` or
/// `bytes=-suffix` range, with the end clipped to the file.
pub open spec fn byte_range(value: Seq<char>, length: int) -> Option<(int, int)> {
    if !"bytes="@.is_prefix_of(value) {
        None
    } else {
        let range = value.skip(6);
        if length == 0 || range.contains(',') {
            None
        } else {
            match split_once(range, '-') {
                None => None,
                Some((start, end)) => if start.len() == 0 {
                    match parse_unsigned(end, u64::MAX as int) {
                        None => None,
                        Some(suffix) => if suffix == 0 {
                            None
                        } else {
                            Some((length - min_int(suffix, length), length - 1))
                        },
                    }
                } else {
                    match parse_unsigned(start, u64::MAX as int) {
                        None => None,
                        Some(first) => if first >= length {
                            None
                        } else {
                            let last = if end.len() == 0 {
                                Some(length - 1)
                            } else {
                                match parse_unsigned(end, u64::MAX as int) {
                                    Some(x) => Some(min_int(x, length - 1)),
                                    None => None,
                                }
                            };
                            match last {
                                None => None,
                                Some(l) => if first <= l {
                                    Some((first, l))
                                } else {
                                    None
                                },
                            }
                        },
                    }
                },
            }
        }
    }
}

/// The inclusive byte range to serve for the `Range` header `value` on a file of
/// `length` bytes; `None` when it cannot be satisfied.
pub fn parse_byte_range(value: &str, length: u64) -> (r: Option<(u64, u64)>)
    ensures
        match r {
            Some((a, b)) => byte_range(value@, length as int) == Some((a as int, b as int)) && a
                <= b && b < length,
            None => byte_range(value@, length as int) is None,
        },
{
    let v = chars_of(value);
    if !starts_with_text(v.as_slice(), "bytes=") {
        return None;
    }
    proof {
        reveal_strlit("bytes=");
    }
    let range = slice_chars(v.as_slice(), 6, v.len());
    assert(range@ =~= v@.skip(6));
    if length == 0 {
        return None;
    }
    match crate::text::find_char(range.as_slice(), ',') {
        Some(_) => return None,
        None => {},
    }
    let (start, end) = match split_once_exec(range.as_slice(), '-') {
        Some(p) => p,
        None => return None,
    };
    if start.len() == 0 {
        let suffix = match parse_unsigned_exec(end.as_slice(), u64::MAX) {
            Some(x) => x,
            None => return None,
        };
        if suffix == 0 {
            return None;
        }
        let suffix = if suffix < length { suffix } else { length };
        return Some((length - suffix, length - 1));
    }
    let first = match parse_unsigned_exec(start.as_slice(), u64::MAX) {
        Some(x) => x,
        None => return None,
    };
    if first >= length {
        return None;
    }
    let last = if end.len() == 0 {
        length - 1
    } else {
        match parse_unsigned_exec(end.as_slice(), u64::MAX) {
            Some(x) => if x < length - 1 { x } else { length - 1 },
            None => return None,
        }
    };
    if first <= last {
        Some((first, last))
    } else {
        None
    }
}


/// The request headers the server acts on. Text values are trimmed; `accept`, `range`,
/// `fetch_dest`, `connection` and `upgrade` are also lowercased.
pub struct RequestHeaders {
    pub content_length: usize,
    pub accept: String,
    pub range: String,
    pub if_none_match: String,
    pub fetch_dest: String,
    pub connection: String,
    pub cookie: String,
    pub auth_token: String,
    pub upgrade: String,
    pub websocket_key: String,
    pub websocket_version: String,
}

/// The values of [`RequestHeaders`] as text.
pub struct HeadersView {
    pub content_length: int,
    pub accept: Seq<char>,
    pub range: Seq<char>,
    pub if_none_match: Seq<char>,
    pub fetch_dest: Seq<char>,
    pub connection: Seq<char>,
    pub cookie: Seq<char>,
    pub auth_token: Seq<char>,
    pub upgrade: Seq<char>,
    pub websocket_key: Seq<char>,
    pub websocket_version: Seq<char>,
}

impl View for RequestHeaders {
    type V = HeadersView;

    open spec fn view(&self) -> HeadersView {
        HeadersView {
            content_length: self.content_length as int,
            accept: self.accept@,
            range: self.range@,
            if_none_match: self.if_none_match@,
            fetch_dest: self.fetch_dest@,
            connection: self.connection@,
            cookie: self.cookie@,
            auth_token: self.auth_token@,
            upgrade: self.upgrade@,
            websocket_key: self.websocket_key@,
            websocket_version: self.websocket_version@,
        }
    }
}

/// Headers before any line has been read: no body and empty values.
pub open spec fn empty_headers() -> HeadersView {
    HeadersView {
        content_length: 0,
        accept: Seq::empty(),
        range: Seq::empty(),
        if_none_match: Seq::empty(),
        fetch_dest: Seq::empty(),
        connection: Seq::empty(),
        cookie: Seq::empty(),
        auth_token: Seq::empty(),
        upgrade: Seq::empty(),
        websocket_key: Seq::empty(),
        websocket_version: Seq::empty(),
    }
}

impl RequestHeaders {
    pub fn new() -> (r: Self)
        ensures
            r@ == empty_headers(),
    {
        RequestHeaders {
            content_length: 0,
            accept: String::new(),
            range: String::new(),
            if_none_match: String::new(),
            fetch_dest: String::new(),
            connection: String::new(),
            cookie: String::new(),
            auth_token: String::new(),
            upgrade: String::new(),
            websocket_key: String::new(),
            websocket_version: String::new(),
        }
    }
}

/// The headers after one header line: a `name: value` line whose name matches a known
/// header (ignoring ASCII case) sets that value; other lines change nothing. `None`
/// when a `Content-Length` value is not a number.
pub open spec fn header_update(h: HeadersView, line: Seq<char>) -> Option<HeadersView> {
    match split_once(line, ':') {
        None => Some(h),
        Some((name, value)) => {
            let n = lower(name);
            let v = trim(value);
            if n == "content-length"@ {
                match parse_unsigned(v, usize::MAX as int) {
                    Some(x) => Some(HeadersView { content_length: x, ..h }),
                    None => None,
                }
            } else if n == "if-none-match"@ {
                Some(HeadersView { if_none_match: v, ..h })
            } else if n == "accept"@ {
                Some(HeadersView { accept: lower(v), ..h })
            } else if n == "range"@ {
                Some(HeadersView { range: lower(v), ..h })
            } else if n == "sec-fetch-dest"@ {
                Some(HeadersView { fetch_dest: lower(v), ..h })
            } else if n == "connection"@ {
                Some(HeadersView { connection: lower(v), ..h })
            } else if n == "cookie"@ {
                Some(HeadersView { cookie: v, ..h })
            } else if n == "x-webdir-auth-token"@ {
                Some(HeadersView { auth_token: v, ..h })
            } else if n == "upgrade"@ {
                Some(HeadersView { upgrade: lower(v), ..h })
            } else if n == "sec-websocket-key"@ {
                Some(HeadersView { websocket_key: v, ..h })
            } else if n == "sec-websocket-version"@ {
                Some(HeadersView { websocket_version: v, ..h })
            } else {
                Some(h)
            }
        },
    }
}

/// Applies one header line; `false` (headers unchanged) when it holds an invalid
/// `Content-Length`.
pub fn apply_header_line(h: &mut RequestHeaders, line: &str) -> (ok: bool)
    ensures
        ok ==> header_update(old(h)@, line@) == Some(final(h)@),
        !ok ==> header_update(old(h)@, line@) is None && final(h)@ == old(h)@,
{
    let lc = chars_of(line);
    let (name, value) = match split_once_exec(lc.as_slice(), ':') {
        Some(p) => p,
        None => return true,
    };
    let n = lower_chars(name.as_slice());
    let v = trim_exec(value.as_slice());
    if is_text(&n, "content-length") {
        match parse_unsigned_exec(v.as_slice(), usize::MAX as u64) {
            Some(x) => {
                h.content_length = x as usize;
            },
            None => return false,
        }
    } else if is_text(&n, "if-none-match") {
        h.if_none_match = string_of(v.as_slice());
    } else if is_text(&n, "accept") {
        h.accept = string_of(lower_chars(v.as_slice()).as_slice());
    } else if is_text(&n, "range") {
        h.range = string_of(lower_chars(v.as_slice()).as_slice());
    } else if is_text(&n, "sec-fetch-dest") {
        h.fetch_dest = string_of(lower_chars(v.as_slice()).as_slice());
    } else if is_text(&n, "connection") {
        h.connection = string_of(lower_chars(v.as_slice()).as_slice());
    } else if is_text(&n, "cookie") {
        h.cookie = string_of(v.as_slice());
    } else if is_text(&n, "x-webdir-auth-token") {
        h.auth_token = string_of(v.as_slice());
    } else if is_text(&n, "upgrade") {
        h.upgrade = string_of(lower_chars(v.as_slice()).as_slice());
    } else if is_text(&n, "sec-websocket-key") {
        h.websocket_key = string_of(v.as_slice());
    } else if is_text(&n, "sec-websocket-version") {
        h.websocket_version = string_of(v.as_slice());
    }
    true
}

/// The largest total size of the header lines of one request.
pub const MAX_HEADER_BYTES: usize = 65536;

/// Headers being read line by line, with the bytes read so far.
pub struct HeaderReader {
    pub headers: RequestHeaders,
    pub total: usize,
}

/// What reading one more header line leads to.
pub enum HeaderStep {
    /// More lines follow.
    More,
    /// The blank line (or the end of input) closed the headers.
    Done,
    /// The header lines are larger than [`MAX_HEADER_BYTES`].
    TooLarge,
    /// A header value is malformed.
    Invalid,
}

/// A line that ends the header block.
pub open spec fn ends_headers(line: Seq<char>, bytes: int) -> bool {
    bytes == 0 || line == seq!['\r', '\n'] || line == seq!['\n']
}

impl HeaderReader {
    pub fn new() -> (r: Self)
        ensures
            r.headers@ == empty_headers(),
            r.total == 0,
    {
        HeaderReader { headers: RequestHeaders::new(), total: 0 }
    }

    /// Takes the next header line, read as `line` of `bytes` bytes.
    pub fn feed(&mut self, line: &str, bytes: usize) -> (step: HeaderStep)
        requires
            old(self).total <= MAX_HEADER_BYTES,
        ensures
            final(self).total <= MAX_HEADER_BYTES,
            ends_headers(line@, bytes as int) ==> step is Done && *final(self) == *old(self),
            !ends_headers(line@, bytes as int) && old(self).total + bytes > MAX_HEADER_BYTES
                ==> step is TooLarge,
            !ends_headers(line@, bytes as int) && old(self).total + bytes <= MAX_HEADER_BYTES ==> {
                &&& final(self).total == old(self).total + bytes
                &&& match header_update(old(self).headers@, line@) {
                    Some(h) => step is More && final(self).headers@ == h,
                    None => step is Invalid,
                }
            },
    {
        let lc = chars_of(line);
        if bytes == 0 || (lc.len() == 2 && lc[0] == '\r' && lc[1] == '\n') || (lc.len() == 1
            && lc[0] == '\n') {
            proof {
                if lc.len() == 2 && lc[0] == '\r' && lc[1] == '\n' {
                    assert(line@ =~= seq!['\r', '\n']);
                }
                if lc.len() == 1 && lc[0] == '\n' {
                    assert(line@ =~= seq!['\n']);
                }
            }
            return HeaderStep::Done;
        }
        proof {
            if line@ == seq!['\r', '\n'] {
                assert(lc@.len() == 2 && lc@[0] == '\r' && lc@[1] == '\n');
            }
            if line@ == seq!['\n'] {
                assert(lc@.len() == 1 && lc@[0] == '\n');
            }
        }
        if bytes > MAX_HEADER_BYTES - self.total {
            return HeaderStep::TooLarge;
        }
        self.total = self.total + bytes;
        if apply_header_line(&mut self.headers, line) {
            HeaderStep::More
        } else {
            HeaderStep::Invalid
        }
    }
}

/// A WebSocket handshake request: `Upgrade: websocket`, a `Connection` list naming
/// `upgrade`, version 13, and a 24-byte base64 key ending in `==`.
pub open spec fn is_upgrade(h: HeadersView) -> bool {
    let key = vstd::utf8::encode_utf8(h.websocket_key);
    &&& h.upgrade == "websocket"@
    &&& any_part(split(h.connection, ','), |part: Seq<char>| trim(part) == "upgrade"@)
    &&& h.websocket_version == "13"@
    &&& key.len() == 24
    &&& key[22] == 61u8 && key[23] == 61u8
    &&& forall|i: int| 0 <= i < 22 ==> is_base64_byte(#[trigger] key[i])
}

pub open spec fn is_base64_byte(b: u8) -> bool {
    (48 <= b && b <= 57) || (65 <= b && b <= 90) || (97 <= b && b <= 122) || b == 43 || b == 47
}

pub fn is_websocket_upgrade(h: &RequestHeaders) -> (r: bool)
    ensures
        r == is_upgrade(h@),
{
    let key = h.websocket_key.as_str().as_bytes();
    let up = chars_of(h.upgrade.as_str());
    if !is_text(up.as_slice(), "websocket") {
        return false;
    }
    let conn = chars_of(h.connection.as_str());
    let parts = split_exec(conn.as_slice(), ',');
    let mut found = false;
    let mut i: usize = 0;
    while i < parts.len()
        invariant
            views(parts@) == split(h.connection@, ','),
            i <= parts@.len(),
            found == exists|j: int| 0 <= j < i && #[trigger] trim(views(parts@)[j]) == "upgrade"@,
        decreases parts@.len() - i,
    {
        let t = trim_exec(parts[i].as_slice());
        proof {
            assert(views(parts@)[i as int] == parts@[i as int]@);
        }
        if is_text(t.as_slice(), "upgrade") {
            found = true;
        }
        i = i + 1;
    }
    proof {
        let f = |part: Seq<char>| trim(part) == "upgrade"@;
        if found {
            let j = choose|j: int| 0 <= j < i && #[trigger] trim(views(parts@)[j]) == "upgrade"@;
            assert(f(views(parts@)[j]));
        }
        if any_part(views(parts@), f) {
            let j = choose|j: int| 0 <= j < views(parts@).len() && #[trigger] f(views(parts@)[j]);
            assert(trim(views(parts@)[j]) == "upgrade"@);
        }
    }
    if !found {
        return false;
    }
    let ver = chars_of(h.websocket_version.as_str());
    if !is_text(ver.as_slice(), "13") {
        return false;
    }
    if key.len() != 24 || key[22] != 61 || key[23] != 61 {
        return false;
    }
    let mut k: usize = 0;
    while k < 22
        invariant
            key@ == vstd::utf8::encode_utf8(h.websocket_key@),
            key@.len() == 24,
            k <= 22,
            forall|j: int| 0 <= j < k ==> is_base64_byte(#[trigger] key@[j]),
        decreases 22 - k,
    {
        let b = key[k];
        if !((48 <= b && b <= 57) || (65 <= b && b <= 90) || (97 <= b && b <= 122) || b == 43
            || b == 47) {
            assert(!is_base64_byte(key@[k as int]));
            assert(key@ == vstd::utf8::encode_utf8(h.websocket_key@));
            return false;
        }
        k = k + 1;
    }
    true
}

/// A request made by the browser for a page: `Sec-Fetch-Dest: document`, or an
/// `Accept` list that mentions `text/html`.
pub open spec fn wants_html(h: HeadersView) -> bool {
    h.fetch_dest == "document"@ || contains_text(h.accept, "text/html"@)
}

pub fn request_wants_html(h: &RequestHeaders) -> (r: bool)
    ensures
        r == wants_html(h@),
{
    let dest = chars_of(h.fetch_dest.as_str());
    if is_text(dest.as_slice(), "document") {
        return true;
    }
    let accept = chars_of(h.accept.as_str());
    let pat = chars_of("text/html");
    contains_chars(accept.as_slice(), pat.as_slice())
}

/// An `If-None-Match` entry names the current entity tag: it is `*`, or equals the tag
/// after dropping a weak `W/` prefix.
pub open spec fn matches_tag(entry: Seq<char>, etag: Seq<char>) -> bool {
    let v = trim(entry);
    v == seq!['*'] || (if "W/"@.is_prefix_of(v) {
        v.skip(2)
    } else {
        v
    }) == etag
}

/// The client already holds the current version named by `etag`.
pub open spec fn not_modified(if_none_match: Seq<char>, etag: Seq<char>) -> bool {
    any_part(split(if_none_match, ','), |entry: Seq<char>| matches_tag(entry, etag))
}

pub fn is_not_modified(if_none_match: &str, etag: &str) -> (r: bool)
    ensures
        r == not_modified(if_none_match@, etag@),
{
    let inm = chars_of(if_none_match);
    let tag = chars_of(etag);
    let parts = split_exec(inm.as_slice(), ',');
    let ghost f = |entry: Seq<char>| matches_tag(entry, etag@);
    let mut i: usize = 0;
    while i < parts.len()
        invariant
            views(parts@) == split(if_none_match@, ','),
            tag@ == etag@,
            f == (|entry: Seq<char>| matches_tag(entry, etag@)),
            i <= parts@.len(),
            forall|j: int| 0 <= j < i ==> !#[trigger] f(views(parts@)[j]),
        decreases parts@.len() - i,
    {
        let v = trim_exec(parts[i].as_slice());
        proof {
            assert(views(parts@)[i as int] == parts@[i as int]@);
            reveal_strlit("W/");
        }
        let is_star = v.len() == 1 && v[0] == '*';
        proof {
            if is_star {
                assert(v@ =~= seq!['*']);
            }
            if v@ == seq!['*'] {
                assert(v@.len() == 1);
            }
        }
        let stripped = if starts_with_text(v.as_slice(), "W/") {
            slice_chars(v.as_slice(), 2, v.len())
        } else {
            slice_chars(v.as_slice(), 0, v.len())
        };
        proof {
            assert(v@.subrange(0, v@.len() as int) =~= v@);
            assert(v@.subrange(2, v@.len() as int) =~= v@.skip(2));
        }
        if is_star || same_chars(stripped.as_slice(), tag.as_slice()) {
            assert(f(views(parts@)[i as int]));
            return true;
        }
        i = i + 1;
    }
    false
}

/// The `Cache-Control` of an image response: immutable for a request that names the
/// current version, revalidated when an entity tag is sent, else not stored.
pub open spec fn image_cache_control(immutable: bool, has_etag: bool) -> Seq<char> {
    if immutable {
        "private, max-age=31536000, immutable"@
    } else if has_etag {
        "no-cache"@
    } else {
        "no-store"@
    }
}

pub fn image_cache_control_exec(immutable: bool, has_etag: bool) -> (r: &'static str)
    ensures
        r@ == image_cache_control(immutable, has_etag),
{
    if immutable {
        "private, max-age=31536000, immutable"
    } else if has_etag {
        "no-cache"
    } else {
        "no-store"
    }
}

} // verus!
