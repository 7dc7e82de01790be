//! URLs the dashboard builds: log download links, image links, absolute feed
//! links and inline image previews.

use vstd::prelude::*;
use vstd::string::StringSliceAdditionalSpecFns;
use crate::text::{chars_of, push_str, string_of};

verus! {

/// Bytes that `urlencoding` leaves as they are: ASCII alphanumerics and
/// `-`, `.`, `_`, `~`.
pub open spec fn is_unreserved(b: u8) -> bool {
    (48 <= b <= 57) || (65 <= b <= 90) || (97 <= b <= 122) || b == 45 || b == 46 || b == 95
        || b == 126
}

/// An upper-case hexadecimal digit.
pub open spec fn hex_upper(d: int) -> char {
    if d < 10 {
        (48 + d) as char
    } else {
        (55 + d) as char
    }
}

/// Percent-encoding of bytes: unreserved bytes stand for themselves, every
/// other byte becomes `%` and two upper-case hex digits.
pub open spec fn percent_encode(bytes: Seq<u8>) -> Seq<char>
    decreases bytes.len(),
{
    if bytes.len() == 0 {
        Seq::<char>::empty()
    } else {
        let b = bytes.last();
        percent_encode(bytes.drop_last()) + if is_unreserved(b) {
            seq![b as char]
        } else {
            seq!['%', hex_upper(b as int / 16), hex_upper(b as int % 16)]
        }
    }
}

/// `urlencoding::encode`: the percent-encoding of the UTF-8 bytes of `s`,
/// leaving only ASCII alphanumerics and `-`, `.`, `_`, `~` unescaped.
#[verifier::external_body]
fn url_encode(s: &str) -> (r: String)
    ensures
        r@ == percent_encode(s.spec_bytes()),
{
    urlencoding::encode(s).into_owned()
}

/// `s` without any trailing `c`, as `str::trim_end_matches(c)` gives it.
pub open spec fn trim_end_char(s: Seq<char>, c: char) -> Seq<char>
    decreases s.len(),
{
    if s.len() > 0 && s.last() == c {
        trim_end_char(s.drop_last(), c)
    } else {
        s
    }
}

fn trim_end_slashes(v: &Vec<char>) -> (r: Vec<char>)
    ensures
        r@ == trim_end_char(v@, '/'),
{
    let mut j = v.len();
    assert(v@.take(j as int) == v@);
    while j > 0 && v[j - 1] == '/'
        invariant
            j <= v@.len(),
            trim_end_char(v@, '/') == trim_end_char(v@.take(j as int), '/'),
        decreases j,
    {
        assert(v@.take(j as int).drop_last() == v@.take(j - 1));
        j = j - 1;
    }
    assert(v@.take(j as int) == v@.subrange(0, j as int));
    crate::text::slice_chars(v, 0, j)
}

/// The authenticated download link of a server log file.
pub open spec fn log_url_spec(origin: Seq<char>, token: Seq<u8>, name: Seq<u8>) -> Seq<char> {
    trim_end_char(origin, '/') + "/system/logs/log?name="@ + percent_encode(name) + "&api_key="@
        + percent_encode(token)
}

/// Builds the authenticated download URL for a log file; the server accepts
/// the access token as an `api_key` query parameter.
pub fn log_url(origin: &str, token: &str, name: &str) -> (r: String)
    ensures
        r@ == log_url_spec(origin@, token.spec_bytes(), name.spec_bytes()),
{
    let mut out = trim_end_slashes(&chars_of(origin));
    push_str(&mut out, "/system/logs/log?name=");
    let n = url_encode(name);
    push_str(&mut out, n.as_str());
    push_str(&mut out, "&api_key=");
    let t = url_encode(token);
    push_str(&mut out, t.as_str());
    string_of(&out)
}

/// The absolute form of a server-relative path: the page origin in front of
/// it when one is known, the path alone otherwise.
pub fn absolute_url(origin: Option<&str>, path: &str) -> (r: String)
    ensures
        r@ == match origin {
            Some(o) => o@ + path@,
            None => path@,
        },
{
    let mut out: Vec<char> = Vec::new();
    match origin {
        Some(o) => push_str(&mut out, o),
        None => {},
    }
    push_str(&mut out, path);
    assert(out@ =~= match origin {
        Some(o) => o@ + path@,
        None => path@,
    });
    string_of(&out)
}

/// The link of a collection's primary image.
pub fn primary_image_url(server_base: &str, item_id: &str, tag: &str) -> (r: String)
    ensures
        r@ == server_base@ + "/Items/"@ + item_id@ + "/Images/Primary?tag="@ + tag@,
{
    let mut out: Vec<char> = Vec::new();
    push_str(&mut out, server_base);
    push_str(&mut out, "/Items/");
    push_str(&mut out, item_id);
    push_str(&mut out, "/Images/Primary?tag=");
    push_str(&mut out, tag);
    string_of(&out)
}

/// The MIME type that the leading bytes of an image announce (JPEG when
/// none of PNG, GIF or WebP is recognised).
pub open spec fn image_content_type_spec(b: Seq<u8>) -> Seq<char> {
    if b.len() >= 3 && b[0] == 0xff && b[1] == 0xd8 && b[2] == 0xff {
        "image/jpeg"@
    } else if b.len() >= 4 && b[0] == 0x89 && b[1] == 0x50 && b[2] == 0x4e && b[3] == 0x47 {
        "image/png"@
    } else if b.len() >= 3 && b[0] == 0x47 && b[1] == 0x49 && b[2] == 0x46 {
        "image/gif"@
    } else if b.len() >= 12 && b[0] == 0x52 && b[1] == 0x49 && b[2] == 0x46 && b[3] == 0x46
        && b[8] == 0x57 && b[9] == 0x45 && b[10] == 0x42 && b[11] == 0x50 {
        "image/webp"@
    } else {
        "image/jpeg"@
    }
}

/// Recognises the image format from its leading bytes.
pub fn detect_image_content_type(b: &[u8]) -> (ct: &'static str)
    ensures
        ct@ == image_content_type_spec(b@),
{
    if b.len() >= 3 && b[0] == 0xff && b[1] == 0xd8 && b[2] == 0xff {
        "image/jpeg"
    } else if b.len() >= 4 && b[0] == 0x89 && b[1] == 0x50 && b[2] == 0x4e && b[3] == 0x47 {
        "image/png"
    } else if b.len() >= 3 && b[0] == 0x47 && b[1] == 0x49 && b[2] == 0x46 {
        "image/gif"
    } else if b.len() >= 12 && b[0] == 0x52 && b[1] == 0x49 && b[2] == 0x46 && b[3] == 0x46
        && b[8] == 0x57 && b[9] == 0x45 && b[10] == 0x42 && b[11] == 0x50 {
        "image/webp"
    } else {
        "image/jpeg"
    }
}

/// A character of the standard base64 alphabet.
pub open spec fn b64_char(v: int) -> char {
    if v < 26 {
        (65 + v) as char
    } else if v < 52 {
        (71 + v) as char
    } else if v < 62 {
        (v - 4) as char
    } else if v == 62 {
        '+'
    } else {
        '/'
    }
}

/// Standard base64 (RFC 4648, with `=` padding) of a byte sequence.
pub open spec fn base64_spec(b: Seq<u8>) -> Seq<char>
    decreases b.len(),
{
    if b.len() == 0 {
        Seq::<char>::empty()
    } else {
        let b0 = b[0] as int;
        let b1 = if b.len() > 1 { b[1] as int } else { 0 };
        let b2 = if b.len() > 2 { b[2] as int } else { 0 };
        let c0 = b64_char(b0 / 4);
        let c1 = b64_char((b0 % 4) * 16 + b1 / 16);
        if b.len() == 1 {
            seq![c0, c1, '=', '=']
        } else if b.len() == 2 {
            seq![c0, c1, b64_char((b1 % 16) * 4), '=']
        } else {
            seq![c0, c1, b64_char((b1 % 16) * 4 + b2 / 64), b64_char(b2 % 64)] + base64_spec(b.skip(3))
        }
    }
}

/// `base64::engine::general_purpose::STANDARD.encode`: standard base64 of the
/// bytes, padded with `=`. The crate panics when the encoded length does not
/// fit in `usize`, which `requires` rules out.
#[verifier::external_body]
fn base64_encode(b: &[u8]) -> (r: String)
    requires
        4 * ((b@.len() + 2) / 3) <= usize::MAX,
    ensures
        r@ == base64_spec(b@),
{
    base64::Engine::encode(&base64::engine::general_purpose::STANDARD, b)
}

/// The inline preview of an uploaded image: a `data:` URL with its detected
/// type and base64 content.
pub fn image_data_url(b: &[u8]) -> (r: String)
    requires
        4 * ((b@.len() + 2) / 3) <= usize::MAX,
    ensures
        r@ == "data:"@ + image_content_type_spec(b@) + ";base64,"@ + base64_spec(b@),
{
    let ct = detect_image_content_type(b);
    let enc = base64_encode(b);
    let mut out: Vec<char> = Vec::new();
    push_str(&mut out, "data:");
    push_str(&mut out, ct);
    push_str(&mut out, ";base64,");
    push_str(&mut out, enc.as_str());
    string_of(&out)
}

} // verus!
