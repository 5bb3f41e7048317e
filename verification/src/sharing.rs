//! Sharing a directory tree: signed share tokens, the scope they grant, and the pages
//! a visitor with a share sees.
use vstd::prelude::*;
use crate::markup::{escape_html, html_escaped};
use crate::text::{chars_of, push_str, string_of};

verus! {

broadcast use vstd::string::group_string_axioms;

/// The name of the cookie that carries a share token.
pub const COOKIE_NAME: &'static str = "webdir_share";

/// The HS256 token whose claims are `{"scope": scope}`, signed with `secret`.
pub uninterp spec fn signed_scope(scope: Seq<char>, secret: Seq<u8>) -> Seq<char>;

/// The `scope` claim of a token that carries a valid HS256 signature by `secret`
/// (expiry not checked), or `None`.
pub uninterp spec fn verified_scope(token: Seq<char>, secret: Seq<u8>) -> Option<Seq<char>>;

/// `jsonwebtoken::encode` with an HS256 header of claims `{"scope": scope}` and a key
/// made from `secret`: the signed token, which depends on the scope and the secret
/// alone, and which `jwt_decode` with the same secret reads back (HS256 is accepted,
/// no claim is required and expiry is not checked, so validation passes). Encoding
/// does not fail here: an HMAC key matches the HS256 header, the header and a map of
/// strings always serialise, and HMAC signing cannot fail.
#[verifier::external_body]
fn jwt_encode(scope: &str, secret: &[u8]) -> (r: Option<String>)
    ensures
        r is Some,
        r matches Some(token) ==> token@ == signed_scope(scope@, secret@),
        r matches Some(token) ==> verified_scope(token@, secret@) == Some(scope@),
{
    let claims = std::collections::BTreeMap::from([("scope", scope)]);
    let header = jsonwebtoken::Header::new(jsonwebtoken::Algorithm::HS256);
    jsonwebtoken::encode(&header, &claims, &jsonwebtoken::EncodingKey::from_secret(secret)).ok()
}

/// `jsonwebtoken::decode` of `token` with a key made from `secret`, accepting only
/// HS256 and requiring no claim (expiry not checked): the `scope` claim when it is a
/// string, else `None`; a function of the token and the secret alone.
#[verifier::external_body]
fn jwt_decode(token: &str, secret: &[u8]) -> (r: Option<String>)
    ensures
        crate::review::opt_text(r) == verified_scope(token@, secret@),
{
    let mut validation = jsonwebtoken::Validation::new(jsonwebtoken::Algorithm::HS256);
    validation.required_spec_claims.clear();
    validation.validate_exp = false;
    let key = jsonwebtoken::DecodingKey::from_secret(secret);
    let data = jsonwebtoken::decode::<std::collections::BTreeMap<String, serde_json::Value>>(token, &key, &validation).ok()?;
    match data.claims.get("scope") {
        Some(serde_json::Value::String(scope)) => Some(scope.clone()),
        _ => None,
    }
}

/// The share token for the directory `relative` of the served tree: its URL, signed.
pub open spec fn share_token(relative: Seq<char>, secret: Seq<char>) -> Seq<char> {
    signed_scope(crate::paths::url_of(relative, true), vstd::utf8::encode_utf8(secret))
}

/// Signs a share of the directory `relative`, which always succeeds. The token
/// grants that very directory: read back with the same secret, its scope is the
/// directory's components.
pub fn sign(relative: &str, secret: &str) -> (r: Option<String>)
    ensures
        r is Some,
        r matches Some(token) ==> token@ == share_token(relative@, secret@),
        r matches Some(token) ==> token_scope(token@, secret@) == Some(crate::paths::normal_parts(relative@)),
{
    let scope = crate::paths::url_for_path(relative, true);
    let key = vstd::string::StrSliceExecFns::as_bytes_vec(secret);
    proof {
        let ps = crate::paths::normal_parts(relative@);
        crate::paths::lemma_normal_parts(relative@);
        crate::paths::lemma_parts_url_decodes(ps, true);
        crate::paths::lemma_decoded_url_resolves(ps, true);
    }
    jwt_encode(scope.as_str(), key.as_slice())
}

/// The directory a share token grants, as components below the served root: `None`
/// when the token is not validly signed, or its scope does not decode or climbs out.
pub open spec fn token_scope(token: Seq<char>, secret: Seq<char>) -> Option<Seq<Seq<char>>> {
    match verified_scope(token, vstd::utf8::encode_utf8(secret)) {
        None => None,
        Some(scope) => match crate::url::percent_decoded(scope) {
            None => None,
            Some(decoded) => crate::paths::safe_relative(decoded),
        },
    }
}

/// Reads the directory a share token grants (the caller checks that it exists and is
/// a directory).
pub fn verify_token(token: &str, secret: &str) -> (r: Option<Vec<String>>)
    ensures
        match r {
            Some(parts) => token_scope(token@, secret@) == Some(crate::paths::strings(parts@)),
            None => token_scope(token@, secret@) is None,
        },
{
    let key = vstd::string::StrSliceExecFns::as_bytes_vec(secret);
    let scope = match jwt_decode(token, key.as_slice()) {
        Some(s) => s,
        None => return None,
    };
    let decoded = match crate::url::percent_decode(scope.as_str()) {
        Some(d) => d,
        None => return None,
    };
    crate::paths::safe_relative_path(decoded.as_str())
}

/// A request path `relative` lies in the shared directory `scope`, component by
/// component (the resolved target is checked against the share too).
pub fn within_scope(relative: &Vec<String>, scope: &Vec<String>) -> (r: bool)
    ensures
        r == crate::paths::parts_start_with(crate::paths::strings(relative@), crate::paths::strings(scope@)),
{
    let a = crate::paths::chars_list(relative);
    let b = crate::paths::chars_list(scope);
    crate::paths::parts_start_with_exec(&a, &b)
}

/// `str::replace` for a pattern that is not empty: every occurrence of `p`, from the
/// left, replaced by `r`.
pub open spec fn replace_all(s: Seq<char>, p: Seq<char>, r: Seq<char>) -> Seq<char>
    decreases s.len(),
{
    if p.len() == 0 || !crate::text::contains_text(s, p) {
        s
    } else {
        let i = choose|i: int| crate::text::is_first_occurrence(s, p, i);
        proof {
            lemma_first_occurrence_exists(s, p);
        }
        s.take(i) + r + replace_all(s.skip(i + p.len()), p, r)
    }
}

/// A text that contains `p` has a first occurrence of it.
pub proof fn lemma_first_occurrence_exists(s: Seq<char>, p: Seq<char>)
    requires
        crate::text::contains_text(s, p),
    ensures
        exists|i: int| crate::text::is_first_occurrence(s, p, i),
{
    let w = choose|w: int| crate::text::occurs_at(s, p, w);
    lemma_first_below(s, p, w);
}

/// An occurrence of `p` at `w` means there is a first occurrence, at or before `w`.
pub proof fn lemma_first_below(s: Seq<char>, p: Seq<char>, w: int)
    requires
        crate::text::occurs_at(s, p, w),
    ensures
        exists|i: int| crate::text::is_first_occurrence(s, p, i),
    decreases w,
{
    if forall|j: int| 0 <= j < w ==> !crate::text::occurs_at(s, p, j) {
        assert(crate::text::is_first_occurrence(s, p, w));
    } else {
        let j = choose|j: int| 0 <= j < w && crate::text::occurs_at(s, p, j);
        lemma_first_below(s, p, j);
    }
}

proof fn lemma_first_occurrence_unique(s: Seq<char>, p: Seq<char>, i: int)
    requires
        crate::text::is_first_occurrence(s, p, i),
    ensures
        crate::text::contains_text(s, p),
        (choose|k: int| crate::text::is_first_occurrence(s, p, k)) == i,
{
    assert(crate::text::occurs_at(s, p, i));
    let k = choose|k: int| crate::text::is_first_occurrence(s, p, k);
    assert(crate::text::is_first_occurrence(s, p, k));
    if k < i {
        assert(!crate::text::occurs_at(s, p, k));
    }
    if i < k {
        assert(!crate::text::occurs_at(s, p, i));
    }
}

/// Replaces every occurrence of `p` in `s` by `r`.
pub fn replace_all_exec(s: &str, p: &str, r: &str) -> (out: String)
    requires
        p@.len() > 0,
    ensures
        out@ == replace_all(s@, p@, r@),
{
    let v = chars_of(s);
    let pc = chars_of(p);
    let mut out = String::new();
    let mut start: usize = 0;
    let mut i: usize = 0;
    proof {
        assert(v@.skip(0) =~= v@);
    }
    while i < v.len()
        invariant
            v@ == s@,
            pc@ == p@,
            p@.len() > 0,
            start <= i <= v@.len(),
            forall|j: int| start <= j < i ==> !crate::text::occurs_at(v@, pc@, j),
            out@ + replace_all(v@.skip(start as int), p@, r@) == replace_all(s@, p@, r@),
        decreases v@.len() - i,
    {
        if crate::text::occurs_at_exec(v.as_slice(), pc.as_slice(), i) {
            let ghost rest = v@.skip(start as int);
            let ghost k = i - start;
            proof {
                assert forall|j: int| 0 <= j < k implies !crate::text::occurs_at(rest, p@, j) by {
                    assert(!crate::text::occurs_at(v@, pc@, start + j));
                    assert(rest.subrange(j, j + p@.len()) =~= v@.subrange(start + j, start + j + p@.len()));
                }
                assert(rest.subrange(k, k + p@.len()) =~= v@.subrange(i as int, i + p@.len()));
                assert(crate::text::is_first_occurrence(rest, p@, k));
                lemma_first_occurrence_unique(rest, p@, k);
                assert(rest.skip(k + p@.len()) =~= v@.skip(i + p@.len()));
            }
            let piece = crate::text::slice_chars(v.as_slice(), start, i);
            crate::text::push_chars(&mut out, piece.as_slice());
            push_str(&mut out, r);
            proof {
                assert(piece@ =~= rest.take(k));
            }
            start = i + pc.len();
            i = start;
        } else {
            i = i + 1;
        }
    }
    let ghost rest = v@.skip(start as int);
    proof {
        assert forall|j: int| !crate::text::occurs_at(rest, p@, j) by {
            if 0 <= j && start + j < v@.len() {
                assert(!crate::text::occurs_at(v@, pc@, start + j));
                if j + p@.len() <= rest.len() {
                    assert(rest.subrange(j, j + p@.len()) =~= v@.subrange(start + j, start + j + p@.len()));
                }
            }
        }
    }
    let tail = crate::text::slice_chars(v.as_slice(), start, v.len());
    crate::text::push_chars(&mut out, tail.as_slice());
    proof {
        assert(tail@ =~= rest);
    }
    out
}

/// The not-found page a share's visitor sees: it leads back to the shared directory
/// instead of the root.
pub open spec fn shared_not_found(request_path: Seq<char>, scope: Seq<Seq<char>>) -> Seq<char> {
    replace_all(
        crate::pages::not_found_page(request_path),
        "href=\"/\">浏览根目录"@,
        "href=\""@ + crate::paths::parts_url(scope, true) + "\">浏览分享目录"@,
    )
}

pub fn render_shared_not_found(request_path: &str, scope: &Vec<String>) -> (r: String)
    ensures
        r@ == shared_not_found(request_path@, crate::paths::strings(scope@)),
{
    proof {
        reveal_strlit("href=\"/\">浏览根目录");
        assert("href=\"/\">浏览根目录"@.len() > 0) by {
            assert("href=\"/\">浏览根目录"@[0] == 'h');
        }
    }
    let page = crate::pages::render_not_found_page(request_path);
    let parts = crate::paths::chars_list(scope);
    let url = crate::paths::parts_url_exec(&parts, true);
    let mut link = string_of(chars_of("href=\"").as_slice());
    push_str(&mut link, url.as_str());
    push_str(&mut link, "\">浏览分享目录");
    replace_all_exec(page.as_str(), "href=\"/\">浏览根目录", link.as_str())
}

/// A page as shown to someone who may share: the sharing script `script` is added
/// before the end of the body.
pub open spec fn sharing_page(body: Seq<char>, can_share: bool, script: Seq<char>) -> Seq<char> {
    if can_share {
        crate::text::replace_first(body, "</body>"@, "<script>"@ + script + "</script></body>"@)
    } else {
        body
    }
}

pub fn render_sharing_page(body: String, can_share: bool, script: &str) -> (r: String)
    ensures
        r@ == sharing_page(body@, can_share, script@),
{
    if !can_share {
        return body;
    }
    proof {
        reveal_strlit("</body>");
        assert("</body>"@.len() == 7);
    }
    let mut tag = string_of(chars_of("<script>").as_slice());
    push_str(&mut tag, script);
    push_str(&mut tag, "</script></body>");
    crate::text::replace_first_exec(body.as_str(), "</body>", tag.as_str())
}

/// The page shown when a share does not reach a path: the template `template` with
/// its `{{share_url}}` placeholders filled with the escaped `share_url`.
pub open spec fn denied_page(template: Seq<char>, share_url: Seq<char>) -> Seq<char> {
    replace_all(template, "{{share_url}}"@, html_escaped(share_url))
}

pub fn render_denied_page(template: &str, share_url: &str) -> (r: String)
    ensures
        r@ == denied_page(template@, share_url@),
{
    proof {
        reveal_strlit("{{share_url}}");
        assert("{{share_url}}"@.len() == 13);
    }
    let url = escape_html(share_url);
    replace_all_exec(template, "{{share_url}}", url.as_str())
}

} // verus!
