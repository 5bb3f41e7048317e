//! Percent-encoding of URL components and lookups in query strings and cookies.
use vstd::prelude::*;
use vstd::utf8::{decode_utf8, encode_utf8, valid_utf8};
use crate::text::{
    chars_of, find_map, push_char, replace_char, replace_char_exec, same_chars, slice_chars, split,
    split_exec, split_once, split_once_exec, string_of, trim, trim_exec, utf8_text, views,
};

verus! {

broadcast use vstd::string::group_string_axioms;

/// The value of an ASCII hexadecimal digit (either case).
pub open spec fn hex_value(b: u8) -> int {
    if 48 <= b && b <= 57 {
        b - 48
    } else if 65 <= b && b <= 70 {
        b - 55
    } else {
        b - 87
    }
}

pub open spec fn is_hex_digit(b: u8) -> bool {
    (48 <= b && b <= 57) || (65 <= b && b <= 70) || (97 <= b && b <= 102)
}

/// Whether the two bytes after a `%` denote a byte value, as `u8::from_str_radix(.., 16)`
/// reads them: two hexadecimal digits, or a `+` sign followed by one.
pub open spec fn is_escape(b1: u8, b2: u8) -> bool {
    is_hex_digit(b2) && (is_hex_digit(b1) || b1 == 43)
}

/// The byte an escape denotes.
pub open spec fn escape_value(b1: u8, b2: u8) -> u8 {
    if b1 == 43 {
        hex_value(b2) as u8
    } else {
        (hex_value(b1) * 16 + hex_value(b2)) as u8
    }
}

/// The bytes that a percent-encoded byte string stands for; `None` when an escape is malformed.
pub open spec fn decode_bytes(b: Seq<u8>) -> Option<Seq<u8>>
    decreases b.len(),
{
    if b.len() == 0 {
        Some(Seq::<u8>::empty())
    } else if b[0] == 37 {
        if b.len() >= 3 && is_escape(b[1], b[2]) {
            match decode_bytes(b.skip(3)) {
                Some(r) => Some(seq![escape_value(b[1], b[2])] + r),
                None => None,
            }
        } else {
            None
        }
    } else {
        match decode_bytes(b.skip(1)) {
            Some(r) => Some(seq![b[0]] + r),
            None => None,
        }
    }
}

/// The text a percent-encoded string stands for: its escapes decoded, and the resulting
/// bytes read as UTF-8. `None` when an escape is malformed or the bytes are not UTF-8.
pub open spec fn percent_decoded(s: Seq<char>) -> Option<Seq<char>> {
    match decode_bytes(encode_utf8(s)) {
        Some(bytes) => if valid_utf8(bytes) {
            Some(decode_utf8(bytes))
        } else {
            None
        },
        None => None,
    }
}

fn hex_value_exec(b: u8) -> (r: u8)
    requires
        is_hex_digit(b),
    ensures
        r == hex_value(b),
        r < 16,
{
    if 48 <= b && b <= 57 {
        b - 48
    } else if 65 <= b && b <= 70 {
        b - 55
    } else {
        b - 87
    }
}

fn is_hex_digit_exec(b: u8) -> (r: bool)
    ensures
        r == is_hex_digit(b),
{
    (48 <= b && b <= 57) || (65 <= b && b <= 70) || (97 <= b && b <= 102)
}

/// Decodes `%XX` escapes in `input` and reads the result as UTF-8.
pub fn percent_decode(input: &str) -> (r: Option<String>)
    ensures
        match r {
            Some(t) => percent_decoded(input@) == Some(t@),
            None => percent_decoded(input@) is None,
        },
{
    let bytes = input.as_bytes();
    let ghost b = bytes@;
    let mut decoded: Vec<u8> = Vec::new();
    let mut index: usize = 0;
    proof {
        assert(b.skip(0) =~= b);
        assert(decoded@ + Seq::<u8>::empty() =~= decoded@);
    }
    while index < bytes.len()
        invariant
            b == bytes@,
            b == encode_utf8(input@),
            index <= b.len(),
            decode_bytes(b) == match decode_bytes(b.skip(index as int)) {
                Some(r) => Some(decoded@ + r),
                None => None,
            },
        decreases b.len() - index,
    {
        let ghost rest = b.skip(index as int);
        if bytes[index] == 37 {
            if bytes.len() - index < 3 {
                assert(decode_bytes(rest) is None);
                assert(decode_bytes(b) is None);
                assert(b == encode_utf8(input@));
                return None;
            }
            let b1 = bytes[index + 1];
            let b2 = bytes[index + 2];
            if !is_hex_digit_exec(b2) || !(is_hex_digit_exec(b1) || b1 == 43) {
                assert(decode_bytes(rest) is None);
                assert(decode_bytes(b) is None);
                assert(b == encode_utf8(input@));
                return None;
            }
            let value: u8 = if b1 == 43 {
                hex_value_exec(b2)
            } else {
                hex_value_exec(b1) * 16 + hex_value_exec(b2)
            };
            proof {
                assert(rest.skip(3) =~= b.skip(index + 3));
                assert(value == escape_value(b1, b2));
                match decode_bytes(rest.skip(3)) {
                    Some(r) => {
                        assert(decoded@.push(value) + r =~= decoded@ + (seq![value] + r));
                    },
                    None => {},
                }
            }
            decoded.push(value);
            index = index + 3;
        } else {
            let c = bytes[index];
            proof {
                assert(rest.skip(1) =~= b.skip(index + 1));
                match decode_bytes(rest.skip(1)) {
                    Some(r) => {
                        assert(decoded@.push(c) + r =~= decoded@ + (seq![c] + r));
                    },
                    None => {},
                }
            }
            decoded.push(c);
            index = index + 1;
        }
    }
    proof {
        assert(b.skip(index as int) =~= Seq::<u8>::empty());
        assert(decoded@ + Seq::<u8>::empty() =~= decoded@);
    }
    utf8_text(decoded)
}


/// Bytes that stay literal in an encoded URL component: ASCII letters, digits and `-._~`.
pub open spec fn is_unreserved(b: u8) -> bool {
    (48 <= b && b <= 57) || (65 <= b && b <= 90) || (97 <= b && b <= 122) || b == 45 || b == 46
        || b == 95 || b == 126
}

/// The uppercase hexadecimal digit for a value below 16.
pub open spec fn hex_digit(d: int) -> char {
    if d < 10 {
        (48 + d) as char
    } else {
        (55 + d) as char
    }
}

/// How one byte appears in an encoded URL component.
pub open spec fn encode_byte(b: u8) -> Seq<char> {
    if is_unreserved(b) {
        seq![b as char]
    } else {
        seq!['%', hex_digit((b / 16) as int), hex_digit((b % 16) as int)]
    }
}

/// How a byte string appears in an encoded URL component.
pub open spec fn encode_bytes(b: Seq<u8>) -> Seq<char>
    decreases b.len(),
{
    if b.len() == 0 {
        Seq::<char>::empty()
    } else {
        encode_byte(b[0]) + encode_bytes(b.skip(1))
    }
}

/// The percent-encoding of the UTF-8 bytes of `s`.
pub open spec fn percent_encoded(s: Seq<char>) -> Seq<char> {
    encode_bytes(encode_utf8(s))
}

fn hex_digit_exec(d: u8) -> (c: char)
    requires
        d < 16,
    ensures
        c == hex_digit(d as int),
{
    if d < 10 {
        (48 + d) as char
    } else {
        (55 + d) as char
    }
}

/// Encodes every byte of `value` except ASCII letters, digits and `-._~` as `%XX`.
pub fn percent_encode_component(value: &str) -> (r: String)
    ensures
        r@ == percent_encoded(value@),
{
    let bytes = value.as_bytes();
    let ghost b = bytes@;
    let mut encoded = String::new();
    let mut i: usize = 0;
    proof {
        assert(b.skip(0) =~= b);
    }
    while i < bytes.len()
        invariant
            b == bytes@,
            b == encode_utf8(value@),
            i <= b.len(),
            encoded@ + encode_bytes(b.skip(i as int)) == percent_encoded(value@),
        decreases b.len() - i,
    {
        let byte = bytes[i];
        let ghost before = encoded@;
        proof {
            assert(b.skip(i as int).skip(1) =~= b.skip(i + 1));
        }
        if (48 <= byte && byte <= 57) || (65 <= byte && byte <= 90) || (97 <= byte && byte <= 122)
            || byte == 45 || byte == 46 || byte == 95 || byte == 126 {
            push_char(&mut encoded, byte as char);
        } else {
            push_char(&mut encoded, '%');
            push_char(&mut encoded, hex_digit_exec(byte / 16));
            push_char(&mut encoded, hex_digit_exec(byte % 16));
        }
        proof {
            assert(encoded@ =~= before + encode_byte(byte));
            assert(encoded@ + encode_bytes(b.skip(i + 1)) =~= before + encode_bytes(b.skip(i as int)));
        }
        i = i + 1;
    }
    proof {
        assert(b.skip(i as int) =~= Seq::<u8>::empty());
        assert(encoded@ + Seq::<char>::empty() =~= encoded@);
    }
    encoded
}

/// The bytes of an ASCII character sequence.
pub open spec fn ascii_bytes(cs: Seq<char>) -> Seq<u8> {
    cs.map_values(|c: char| c as u8)
}

pub(crate) proof fn lemma_encode_bytes_ascii(b: Seq<u8>)
    ensures
        vstd::utf8::is_ascii_chars(encode_bytes(b)),
    decreases b.len(),
{
    if b.len() > 0 {
        lemma_encode_bytes_ascii(b.skip(1));
        let e = encode_byte(b[0]);
        let rest = encode_bytes(b.skip(1));
        assert forall|i: int| 0 <= i < (e + rest).len() implies '\0' <= #[trigger] (e + rest)[i]
            <= '\u{7f}' by {
            if i >= e.len() {
                assert((e + rest)[i] == rest[i - e.len()]);
            }
        }
    }
}

proof fn lemma_decode_encode_bytes(b: Seq<u8>)
    ensures
        decode_bytes(ascii_bytes(encode_bytes(b))) == Some(b),
    decreases b.len(),
{
    if b.len() == 0 {
        assert(ascii_bytes(encode_bytes(b)) =~= Seq::<u8>::empty());
    } else {
        lemma_decode_encode_bytes(b.skip(1));
        let x = b[0];
        let e = encode_byte(x);
        let rest = encode_bytes(b.skip(1));
        let bytes = ascii_bytes(e + rest);
        assert(ascii_bytes(e + rest) =~= ascii_bytes(e) + ascii_bytes(rest));
        if is_unreserved(x) {
            assert(bytes[0] == x);
            assert(bytes.skip(1) =~= ascii_bytes(rest));
            assert(seq![x] + b.skip(1) =~= b);
        } else {
            assert(bytes[0] == 37);
            assert(bytes[1] == hex_digit((x / 16) as int) as u8);
            assert(bytes[2] == hex_digit((x % 16) as int) as u8);
            assert(is_escape(bytes[1], bytes[2]));
            assert(escape_value(bytes[1], bytes[2]) == x);
            assert(bytes.skip(3) =~= ascii_bytes(rest));
            assert(seq![x] + b.skip(1) =~= b);
        }
    }
}

/// Decoding a concatenation decodes each part in turn, once the first part decodes.
pub(crate) proof fn lemma_decode_bytes_concat(x: Seq<u8>, y: Seq<u8>)
    requires
        decode_bytes(x) is Some,
    ensures
        decode_bytes(x + y) == match decode_bytes(y) {
            Some(d) => Some(decode_bytes(x).unwrap() + d),
            None => None::<Seq<u8>>,
        },
    decreases x.len(),
{
    if x.len() == 0 {
        assert(x + y =~= y);
        match decode_bytes(y) {
            Some(d) => {
                assert(decode_bytes(x).unwrap() + d =~= d);
            },
            None => {},
        }
    } else if x[0] == 37 {
        lemma_decode_bytes_concat(x.skip(3), y);
        assert((x + y).skip(3) =~= x.skip(3) + y);
        assert((x + y)[1] == x[1] && (x + y)[2] == x[2]);
        match decode_bytes(y) {
            Some(d) => {
                let head = seq![escape_value(x[1], x[2])];
                assert(head + (decode_bytes(x.skip(3)).unwrap() + d) =~= (head + decode_bytes(
                    x.skip(3),
                ).unwrap()) + d);
            },
            None => {},
        }
    } else {
        lemma_decode_bytes_concat(x.skip(1), y);
        assert((x + y).skip(1) =~= x.skip(1) + y);
        match decode_bytes(y) {
            Some(d) => {
                let head = seq![x[0]];
                assert(head + (decode_bytes(x.skip(1)).unwrap() + d) =~= (head + decode_bytes(
                    x.skip(1),
                ).unwrap()) + d);
            },
            None => {},
        }
    }
}

/// The UTF-8 encoding of a concatenation is the concatenation of the encodings.
pub proof fn lemma_encode_utf8_concat(a: Seq<char>, b: Seq<char>)
    ensures
        encode_utf8(a + b) == encode_utf8(a) + encode_utf8(b),
    decreases a.len(),
{
    if a.len() == 0 {
        assert(a + b =~= b);
        assert(encode_utf8(a) =~= Seq::<u8>::empty());
        assert(encode_utf8(a) + encode_utf8(b) =~= encode_utf8(b));
    } else {
        lemma_encode_utf8_concat(a.drop_first(), b);
        assert((a + b).drop_first() =~= a.drop_first() + b);
        assert((a + b)[0] == a[0]);
        assert(encode_utf8(a + b) =~= vstd::utf8::encode_scalar(a[0] as u32) + (encode_utf8(a.drop_first()) + encode_utf8(b)));
    }
}

/// The bytes of the percent-encoding of `s` decode back to the UTF-8 bytes of `s`.
pub(crate) proof fn lemma_encoded_bytes_decode(s: Seq<char>)
    ensures
        encode_utf8(percent_encoded(s)) == ascii_bytes(percent_encoded(s)),
        decode_bytes(encode_utf8(percent_encoded(s))) == Some(encode_utf8(s)),
{
    broadcast use vstd::utf8::group_utf8_lib;

    let e = encode_bytes(encode_utf8(s));
    lemma_encode_bytes_ascii(encode_utf8(s));
    vstd::utf8::is_ascii_chars_encode_utf8(e);
    assert(encode_utf8(e) =~= ascii_bytes(e));
    lemma_decode_encode_bytes(encode_utf8(s));
}

/// A `/` is the single byte 47, which decodes to itself.
pub(crate) proof fn lemma_slash_bytes()
    ensures
        encode_utf8(seq!['/']) == seq![47u8],
        decode_bytes(seq![47u8]) == Some(seq![47u8]),
{
    let b = encode_utf8(seq!['/']);
    let c = seq!['/'];
    assert(c.drop_first() =~= Seq::<char>::empty());
    assert(encode_utf8(c.drop_first()) =~= Seq::<u8>::empty());
    assert((c[0] as u32) == 47u32);
    assert((47u32 & 0x7Fu32) == 47u32) by (bit_vector);
    assert(vstd::utf8::has_width_1_encoding(47u32));
    assert(vstd::utf8::encode_scalar(47u32) =~= seq![47u8]);
    assert(b =~= vstd::utf8::encode_scalar(47u32) + Seq::<u8>::empty());
    let one = seq![47u8];
    assert(one.skip(1) =~= Seq::<u8>::empty());
    assert(decode_bytes(one.skip(1)) == Some(Seq::<u8>::empty()));
    assert(seq![one[0]] + Seq::<u8>::empty() =~= one);
}

/// Decoding undoes encoding: a URL component encoded with
/// [`percent_encode_component`] decodes with [`percent_decode`] to the original text.
pub proof fn law_percent_round_trip(s: Seq<char>)
    ensures
        percent_decoded(percent_encoded(s)) == Some(s),
{
    broadcast use vstd::utf8::group_utf8_lib;

    let b = encode_utf8(s);
    let e = encode_bytes(b);
    lemma_encode_bytes_ascii(b);
    vstd::utf8::is_ascii_chars_encode_utf8(e);
    assert(encode_utf8(e) =~= ascii_bytes(e));
    lemma_decode_encode_bytes(b);
}


/// The decoded value of one `name=value` pair of a query string, when its decoded name is
/// `expected`. `+` stands for a space; a pair without `=` has an empty value.
pub open spec fn query_pair_value(pair: Seq<char>, expected: Seq<char>) -> Option<Seq<char>> {
    let (name, value) = match split_once(pair, '=') {
        Some(p) => p,
        None => (pair, Seq::<char>::empty()),
    };
    match percent_decoded(replace_char(name, '+', ' ')) {
        Some(decoded) => if decoded == expected {
            percent_decoded(replace_char(value, '+', ' '))
        } else {
            None
        },
        None => None,
    }
}

/// The value of the first `&`-separated pair of `query` named `expected` that decodes.
pub open spec fn query_value(query: Seq<char>, expected: Seq<char>) -> Option<Seq<char>> {
    find_map(split(query, '&'), |pair: Seq<char>| query_pair_value(pair, expected))
}

fn decode_chars(v: &[char]) -> (r: Option<String>)
    ensures
        match r {
            Some(t) => percent_decoded(v@) == Some(t@),
            None => percent_decoded(v@) is None,
        },
{
    let s = string_of(v);
    percent_decode(s.as_str())
}

fn query_pair_value_exec(pair: &[char], expected: &[char]) -> (r: Option<String>)
    ensures
        match r {
            Some(t) => query_pair_value(pair@, expected@) == Some(t@),
            None => query_pair_value(pair@, expected@) is None,
        },
{
    let (name, value) = match split_once_exec(pair, '=') {
        Some(p) => p,
        None => (slice_chars(pair, 0, pair.len()), Vec::new()),
    };
    proof {
        assert(pair@.subrange(0, pair@.len() as int) =~= pair@);
    }
    let decoded = match decode_chars(replace_char_exec(name.as_slice(), '+', ' ').as_slice()) {
        Some(d) => d,
        None => return None,
    };
    let dc = chars_of(decoded.as_str());
    if !same_chars(dc.as_slice(), expected) {
        return None;
    }
    decode_chars(replace_char_exec(value.as_slice(), '+', ' ').as_slice())
}

/// The decoded value of parameter `expected` in the query string `query`
/// (the text after `?`), taken from the first pair that names it and decodes.
pub fn query_parameter(query: &str, expected: &str) -> (r: Option<String>)
    ensures
        match r {
            Some(t) => query_value(query@, expected@) == Some(t@),
            None => query_value(query@, expected@) is None,
        },
{
    let qc = chars_of(query);
    let ec = chars_of(expected);
    let parts = split_exec(qc.as_slice(), '&');
    let ghost f = |pair: Seq<char>| query_pair_value(pair, expected@);
    let ghost ps = views(parts@);
    let mut i: usize = 0;
    proof {
        assert(ps.skip(0) =~= ps);
    }
    while i < parts.len()
        invariant
            ps == views(parts@),
            ps == split(qc@, '&'),
            qc@ == query@,
            ec@ == expected@,
            f == (|pair: Seq<char>| query_pair_value(pair, expected@)),
            i <= ps.len(),
            find_map(ps, f) == find_map(ps.skip(i as int), f),
        decreases ps.len() - i,
    {
        proof {
            assert(ps.skip(i as int).skip(1) =~= ps.skip(i + 1));
            assert(ps.skip(i as int)[0] == parts@[i as int]@);
        }
        match query_pair_value_exec(parts[i].as_slice(), ec.as_slice()) {
            Some(v) => return Some(v),
            None => {},
        }
        i = i + 1;
    }
    None
}

/// The decoded value of cookie `name` in a `Cookie` header: the first `;`-separated,
/// trimmed `key=value` part whose key is exactly `name` and whose value decodes.
pub open spec fn cookie_part_value(part: Seq<char>, name: Seq<char>) -> Option<Seq<char>> {
    match split_once(trim(part), '=') {
        Some((key, value)) => if key == name {
            percent_decoded(value)
        } else {
            None
        },
        None => None,
    }
}

pub open spec fn cookie_lookup(cookie: Seq<char>, name: Seq<char>) -> Option<Seq<char>> {
    find_map(split(cookie, ';'), |part: Seq<char>| cookie_part_value(part, name))
}

fn cookie_part_value_exec(part: &[char], name: &[char]) -> (r: Option<String>)
    ensures
        match r {
            Some(t) => cookie_part_value(part@, name@) == Some(t@),
            None => cookie_part_value(part@, name@) is None,
        },
{
    let trimmed = trim_exec(part);
    match split_once_exec(trimmed.as_slice(), '=') {
        Some((key, value)) => {
            if same_chars(key.as_slice(), name) {
                decode_chars(value.as_slice())
            } else {
                None
            }
        },
        None => None,
    }
}

/// The value of cookie `name` in the `Cookie` header value `cookie`.
pub fn cookie_value(cookie: &str, name: &str) -> (r: Option<String>)
    ensures
        match r {
            Some(t) => cookie_lookup(cookie@, name@) == Some(t@),
            None => cookie_lookup(cookie@, name@) is None,
        },
{
    let cc = chars_of(cookie);
    let nc = chars_of(name);
    let parts = split_exec(cc.as_slice(), ';');
    let ghost f = |part: Seq<char>| cookie_part_value(part, name@);
    let ghost ps = views(parts@);
    let mut i: usize = 0;
    proof {
        assert(ps.skip(0) =~= ps);
    }
    while i < parts.len()
        invariant
            ps == views(parts@),
            ps == split(cc@, ';'),
            cc@ == cookie@,
            nc@ == name@,
            f == (|part: Seq<char>| cookie_part_value(part, name@)),
            i <= ps.len(),
            find_map(ps, f) == find_map(ps.skip(i as int), f),
        decreases ps.len() - i,
    {
        proof {
            assert(ps.skip(i as int).skip(1) =~= ps.skip(i + 1));
            assert(ps.skip(i as int)[0] == parts@[i as int]@);
        }
        match cookie_part_value_exec(parts[i].as_slice(), nc.as_slice()) {
            Some(v) => return Some(v),
            None => {},
        }
        i = i + 1;
    }
    None
}


/// A character a percent-encoded URL component may hold: an ASCII letter or digit,
/// one of `- . _ ~`, or the `%` that starts an escape.
pub open spec fn url_safe_char(c: char) -> bool {
    let v = c as u32;
    (48 <= v <= 57) || (65 <= v <= 90) || (97 <= v <= 122) || v == 45 || v == 46 || v == 95 || v == 126 || v == 37
}

/// An uppercase hexadecimal digit.
pub open spec fn upper_hex_char(c: char) -> bool {
    let v = c as u32;
    (48 <= v <= 57) || (65 <= v <= 70)
}

/// Every `%` of `s` is followed by two uppercase hexadecimal digits.
pub open spec fn escapes_well_formed(s: Seq<char>) -> bool {
    forall|i: int|
        0 <= i < s.len() && #[trigger] s[i] == '%' ==> i + 2 < s.len() && upper_hex_char(s[i + 1]) && upper_hex_char(
            s[i + 2],
        )
}

proof fn lemma_encode_bytes_safe(b: Seq<u8>)
    ensures
        forall|i: int| 0 <= i < encode_bytes(b).len() ==> url_safe_char(#[trigger] encode_bytes(b)[i]),
        escapes_well_formed(encode_bytes(b)),
    decreases b.len(),
{
    if b.len() > 0 {
        lemma_encode_bytes_safe(b.skip(1));
        let head = encode_byte(b[0]);
        let rest = encode_bytes(b.skip(1));
        let x = b[0];
        if is_unreserved(x) {
            assert(head[0] as u32 == x as u32);
            assert(head[0] != '%');
        } else {
            let hi = (x / 16) as int;
            let lo = (x % 16) as int;
            assert(0 <= hi < 16 && 0 <= lo < 16);
            assert(upper_hex_char(hex_digit(hi)) && upper_hex_char(hex_digit(lo)));
            assert(url_safe_char(hex_digit(hi)) && url_safe_char(hex_digit(lo)));
            assert(hex_digit(hi) != '%' && hex_digit(lo) != '%');
        }
        let all = head + rest;
        assert(encode_bytes(b) == all);
        assert forall|i: int| 0 <= i < all.len() implies url_safe_char(#[trigger] all[i]) by {
            if i >= head.len() {
                assert(all[i] == rest[i - head.len()]);
            }
        }
        assert forall|i: int| 0 <= i < all.len() && #[trigger] all[i] == '%' implies i + 2 < all.len() && upper_hex_char(
            all[i + 1],
        ) && upper_hex_char(all[i + 2]) by {
            if i >= head.len() {
                assert(rest[i - head.len()] == '%');
                assert(all[i + 1] == rest[i - head.len() + 1] && all[i + 2] == rest[i - head.len() + 2]);
            } else {
                assert(!is_unreserved(x) && i == 0);
            }
        }
    }
}

/// A percent-encoded component holds only ASCII letters, digits, `- . _ ~` and `%`
/// escapes of two uppercase hexadecimal digits: never `#`, `?`, `/`, a space or any
/// other character that would end or split a URL's path.
pub proof fn law_encoded_component_is_url_safe(s: Seq<char>)
    ensures
        forall|i: int| 0 <= i < percent_encoded(s).len() ==> url_safe_char(#[trigger] percent_encoded(s)[i]),
        escapes_well_formed(percent_encoded(s)),
        !percent_encoded(s).contains('#'),
        !percent_encoded(s).contains('?'),
        !percent_encoded(s).contains('/'),
{
    lemma_encode_bytes_safe(encode_utf8(s));
    let e = percent_encoded(s);
    if e.contains('#') {
        let i = choose|i: int| 0 <= i < e.len() && e[i] == '#';
        assert(url_safe_char(e[i]));
    }
    if e.contains('?') {
        let i = choose|i: int| 0 <= i < e.len() && e[i] == '?';
        assert(url_safe_char(e[i]));
    }
    if e.contains('/') {
        let i = choose|i: int| 0 <= i < e.len() && e[i] == '/';
        assert(url_safe_char(e[i]));
    }
}

} // verus!
