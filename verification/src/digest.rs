//! Versions of files and directories taken from SHA-1 digests, and the WebSocket
//! handshake key.
use vstd::prelude::*;
use sha1::Digest;
use crate::markup::hex_lower;
use crate::text::push_char;

verus! {

/// The SHA-1 digest of `data`.
pub uninterp spec fn sha1_of(data: Seq<u8>) -> Seq<u8>;

/// `sha1::Sha1::digest`: the SHA-1 digest of `data`, which is 20 bytes long and the
/// same whenever the data are.
#[verifier::external_body]
fn sha1_digest(data: &[u8]) -> (r: Vec<u8>)
    ensures
        r@ == sha1_of(data@),
        r@.len() == 20,
{
    sha1::Sha1::digest(data).to_vec()
}

/// The `Sec-WebSocket-Accept` value for a `Sec-WebSocket-Key`.
pub uninterp spec fn accept_key_of(key: Seq<u8>) -> Seq<char>;

/// `tungstenite::handshake::derive_accept_key`: the base64 SHA-1 digest of the key
/// followed by the WebSocket GUID, the same whenever the key is.
#[verifier::external_body]
fn derive_accept_key(key: &[u8]) -> (r: String)
    ensures
        r@ == accept_key_of(key@),
{
    tungstenite::handshake::derive_accept_key(key)
}

/// The answer to a WebSocket handshake with key `key`.
pub fn websocket_accept(key: &str) -> (r: String)
    ensures
        r@ == crate::respond::switching_text(accept_key_of(vstd::utf8::encode_utf8(key@))),
{
    let bytes = vstd::string::StrSliceExecFns::as_bytes_vec(key);
    let accept = derive_accept_key(bytes.as_slice());
    crate::respond::switching_response(accept.as_str())
}

/// Lowercase hexadecimal, two digits a byte.
pub open spec fn hex_text(bytes: Seq<u8>) -> Seq<char>
    decreases bytes.len(),
{
    if bytes.len() == 0 {
        Seq::empty()
    } else {
        hex_text(bytes.drop_last()) + seq![
            hex_lower((bytes.last() / 16) as int),
            hex_lower((bytes.last() % 16) as int),
        ]
    }
}

fn hex_digit(d: u8) -> (c: char)
    requires
        d < 16,
    ensures
        c == hex_lower(d as int),
{
    if d < 10 {
        (48 + d) as char
    } else {
        (87 + d) as char
    }
}

/// The bytes in lowercase hexadecimal.
pub fn hex_digest(bytes: &[u8]) -> (r: String)
    ensures
        r@ == hex_text(bytes@),
{
    let mut r = String::new();
    let mut i: usize = 0;
    proof {
        assert(bytes@.take(0) =~= Seq::<u8>::empty());
    }
    while i < bytes.len()
        invariant
            i <= bytes@.len(),
            r@ == hex_text(bytes@.take(i as int)),
        decreases bytes@.len() - i,
    {
        let b = bytes[i];
        push_char(&mut r, hex_digit(b / 16));
        push_char(&mut r, hex_digit(b % 16));
        proof {
            assert(bytes@.take(i + 1).drop_last() =~= bytes@.take(i as int));
            assert(r@ =~= hex_text(bytes@.take(i + 1)));
        }
        i = i + 1;
    }
    proof {
        assert(bytes@.take(i as int) =~= bytes@);
    }
    r
}

/// The `n` low bytes of `x`, least significant first.
pub open spec fn le_bytes(x: nat, n: nat) -> Seq<u8>
    decreases n,
{
    if n == 0 {
        Seq::empty()
    } else {
        seq![(x % 256) as u8] + le_bytes(x / 256, (n - 1) as nat)
    }
}

fn push_le(out: &mut Vec<u8>, x: u64, n: usize)
    ensures
        final(out)@ == old(out)@ + le_bytes(x as nat, n as nat),
{
    let ghost start = out@;
    let mut v = x;
    let mut k: usize = 0;
    proof {
        assert(le_bytes(x as nat, 0) =~= Seq::<u8>::empty());
        assert(out@ =~= start);
    }
    while k < n
        invariant
            k <= n,
            out@ + le_bytes(v as nat, (n - k) as nat) == start + le_bytes(x as nat, n as nat),
        decreases n - k,
    {
        let ghost before = out@;
        out.push((v % 256) as u8);
        proof {
            assert(le_bytes(v as nat, (n - k) as nat) == seq![(v % 256) as u8] + le_bytes((v / 256) as nat, (n - k - 1) as nat));
            assert(out@ + le_bytes((v / 256) as nat, (n - k - 1) as nat) =~= before + le_bytes(v as nat, (n - k) as nat));
        }
        v = v / 256;
        k = k + 1;
    }
    proof {
        assert(le_bytes(v as nat, 0) =~= Seq::<u8>::empty());
        assert(out@ =~= out@ + le_bytes(v as nat, 0));
    }
}

/// What identifies a version of a file: its length, its modification time (seconds
/// and nanoseconds since the epoch, when known) and, on Unix, its device, inode and
/// status change time.
pub struct FileStamp {
    pub len: u64,
    pub modified: Option<(u64, u32)>,
    pub dev: u64,
    pub ino: u64,
    pub ctime: i64,
    pub ctime_nsec: i64,
}

/// The bytes digested for a file's version.
pub open spec fn stamp_bytes(s: FileStamp) -> Seq<u8> {
    le_bytes(s.len as nat, 8) + match s.modified {
        Some((secs, nanos)) => le_bytes(secs as nat, 8) + le_bytes(nanos as nat, 4),
        None => Seq::<u8>::empty(),
    } + le_bytes(s.dev as nat, 8) + le_bytes(s.ino as nat, 8) + le_bytes((s.ctime as u64) as nat, 8)
        + le_bytes((s.ctime_nsec as u64) as nat, 8)
}

/// The version of a file: the hexadecimal SHA-1 digest of its stamp.
pub open spec fn file_version_of(s: FileStamp) -> Seq<char> {
    hex_text(sha1_of(stamp_bytes(s)))
}

/// The version of a file, which changes whenever the file does.
pub fn file_version(stamp: &FileStamp) -> (r: String)
    ensures
        r@ == file_version_of(*stamp),
{
    let mut bytes: Vec<u8> = Vec::new();
    push_le(&mut bytes, stamp.len, 8);
    match stamp.modified {
        Some((secs, nanos)) => {
            push_le(&mut bytes, secs, 8);
            push_le(&mut bytes, nanos as u64, 4);
        },
        None => {},
    }
    push_le(&mut bytes, stamp.dev, 8);
    push_le(&mut bytes, stamp.ino, 8);
    push_le(&mut bytes, stamp.ctime as u64, 8);
    push_le(&mut bytes, stamp.ctime_nsec as u64, 8);
    proof {
        assert(bytes@ =~= stamp_bytes(*stamp));
    }
    let digest = sha1_digest(bytes.as_slice());
    hex_digest(digest.as_slice())
}

/// The bytes digested for a directory's image set: each image's name and version,
/// each followed by a zero byte.
pub open spec fn listing_bytes(images: Seq<(Seq<char>, Seq<char>)>) -> Seq<u8>
    decreases images.len(),
{
    if images.len() == 0 {
        Seq::empty()
    } else {
        listing_bytes(images.drop_last()) + vstd::utf8::encode_utf8(images.last().0) + seq![0u8]
            + vstd::utf8::encode_utf8(images.last().1) + seq![0u8]
    }
}

pub open spec fn pair_views(v: Seq<(String, String)>) -> Seq<(Seq<char>, Seq<char>)> {
    v.map_values(|p: (String, String)| (p.0@, p.1@))
}

/// The version of a directory's image set, given as (name, version) pairs in name
/// order: the hexadecimal SHA-1 digest of their names and versions.
pub fn listing_version(images: &Vec<(String, String)>) -> (r: String)
    ensures
        r@ == hex_text(sha1_of(listing_bytes(pair_views(images@)))),
{
    let ghost ps = pair_views(images@);
    let mut bytes: Vec<u8> = Vec::new();
    let mut i: usize = 0;
    proof {
        assert(ps.take(0) =~= Seq::<(Seq<char>, Seq<char>)>::empty());
    }
    while i < images.len()
        invariant
            ps == pair_views(images@),
            i <= ps.len(),
            bytes@ == listing_bytes(ps.take(i as int)),
        decreases ps.len() - i,
    {
        let name = vstd::string::StrSliceExecFns::as_bytes_vec(images[i].0.as_str());
        let version = vstd::string::StrSliceExecFns::as_bytes_vec(images[i].1.as_str());
        let ghost before = bytes@;
        let mut k: usize = 0;
        while k < name.len()
            invariant
                k <= name@.len(),
                bytes@ == before + name@.take(k as int),
            decreases name@.len() - k,
        {
            bytes.push(name[k]);
            proof {
                assert(name@.take(k + 1) =~= name@.take(k as int).push(name@[k as int]));
            }
            k = k + 1;
        }
        bytes.push(0);
        let ghost middle = bytes@;
        let mut k: usize = 0;
        while k < version.len()
            invariant
                k <= version@.len(),
                bytes@ == middle + version@.take(k as int),
            decreases version@.len() - k,
        {
            bytes.push(version[k]);
            proof {
                assert(version@.take(k + 1) =~= version@.take(k as int).push(version@[k as int]));
            }
            k = k + 1;
        }
        bytes.push(0);
        proof {
            assert(name@.take(name@.len() as int) =~= name@);
            assert(version@.take(version@.len() as int) =~= version@);
            assert(ps.take(i + 1).drop_last() =~= ps.take(i as int));
            assert(ps.take(i + 1).last() == (images@[i as int].0@, images@[i as int].1@));
            assert(bytes@ =~= listing_bytes(ps.take(i + 1)));
        }
        i = i + 1;
    }
    proof {
        assert(ps.take(i as int) =~= ps);
    }
    let digest = sha1_digest(bytes.as_slice());
    hex_digest(digest.as_slice())
}

} // verus!
