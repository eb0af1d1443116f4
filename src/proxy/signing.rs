//! Signing a request before it goes upstream: the canonical input, the keyed
//! digest over it, and the authorization header that carries the digest.
use crate::key::Key;
use crate::proxy::proxy_server::{header_views, AUTHORIZATION_SCHEME};
use vstd::prelude::*;
use vstd::utf8::encode_utf8;

verus! {

/// The value of the hexadecimal digit `c`, either case.
pub open spec fn hex_digit_value(c: char) -> Option<nat> {
    if '0' <= c && c <= '9' {
        Some((c as int - '0' as int) as nat)
    } else if 'a' <= c && c <= 'f' {
        Some((c as int - 'a' as int + 10) as nat)
    } else if 'A' <= c && c <= 'F' {
        Some((c as int - 'A' as int + 10) as nat)
    } else {
        None
    }
}

/// The bytes that hexadecimal text stands for, two digits a byte; none when
/// the text has an odd length or a character that is not a hex digit.
pub open spec fn hex_decode_spec(s: Seq<char>) -> Option<Seq<u8>> {
    if s.len() % 2 == 0 && (forall|i: int| 0 <= i < s.len() ==> #[trigger] hex_digit_value(s[i]) is Some) {
        Some(
            Seq::new(
                (s.len() / 2) as nat,
                |i: int|
                    (hex_digit_value(s[2 * i])->0 * 16 + hex_digit_value(s[2 * i + 1])->0) as u8,
            ),
        )
    } else {
        None
    }
}

/// The lower-case hexadecimal digit for `d`.
pub open spec fn hex_char(d: nat) -> char {
    if d < 10 {
        (('0' as int) + d) as char
    } else {
        (('a' as int) + d - 10) as char
    }
}

/// `b` in lower-case hexadecimal, two digits a byte.
pub open spec fn hex_text(b: Seq<u8>) -> Seq<char> {
    Seq::new(
        2 * b.len(),
        |i: int|
            if i % 2 == 0 {
                hex_char((b[i / 2] / 16) as nat)
            } else {
                hex_char((b[i / 2] % 16) as nat)
            },
    )
}

/// The HMAC-SHA256 of `msg` under `key`.
pub uninterp spec fn hmac_sha256_of(key: Seq<u8>, msg: Seq<u8>) -> Seq<u8>;

/// Relies on `hex::decode`: rejects text of odd length or with a character
/// outside `0-9a-fA-F`, and otherwise reads two digits a byte.
#[verifier::external_body]
fn decode_hex(s: &str) -> (r: Option<Vec<u8>>)
    ensures
        match r {
            Some(b) => hex_decode_spec(s@) == Some(b@),
            None => hex_decode_spec(s@) is None,
        },
{
    hex::decode(s).ok()
}

/// Relies on `hex::encode`: two lower-case digits a byte.
#[verifier::external_body]
fn encode_hex(b: &Vec<u8>) -> (r: String)
    ensures
        r@ == hex_text(b@),
{
    hex::encode(b)
}

/// Relies on `hmac::Hmac<sha2::Sha256>`: keying accepts keys of any length
/// (`new_from_slice` always returns `Ok`), and the tag depends on key and
/// message alone.
#[verifier::external_body]
fn hmac_sha256(key: &Vec<u8>, msg: &Vec<u8>) -> (r: Option<Vec<u8>>)
    ensures
        r is Some,
        r->0@ == hmac_sha256_of(key@, msg@),
{
    match <hmac::Hmac<sha2::Sha256> as hmac::Mac>::new_from_slice(key) {
        Ok(mut mac) => {
            hmac::Mac::update(&mut mac, msg);
            Some(hmac::Mac::finalize(mac).into_bytes().to_vec())
        },
        Err(_) => None,
    }
}

/// The canonical bytes of the headers: each as `Name:Value`, followed by a
/// line feed.
pub open spec fn headers_input(h: Seq<(Seq<char>, Seq<char>)>) -> Seq<u8>
    decreases h.len(),
{
    if h.len() == 0 {
        seq![]
    } else {
        headers_input(h.drop_last()) + encode_utf8(h.last().0) + seq![58u8] + encode_utf8(h.last().1)
            + seq![10u8]
    }
}

/// The canonical input that is signed: the method and a line feed, each
/// header as `Name:Value` and a line feed, a blank line, then the body.
pub open spec fn signature_input_spec(method: Seq<char>, h: Seq<(Seq<char>, Seq<char>)>, body: Seq<u8>) -> Seq<u8> {
    encode_utf8(method) + seq![10u8] + headers_input(h) + seq![10u8] + body
}

/// Builds the canonical input of a request.
pub fn signature_input(method: &str, headers: &Vec<(String, String)>, body: &Vec<u8>) -> (r: Vec<u8>)
    ensures
        r@ == signature_input_spec(method@, header_views(headers@), body@),
{
    let ghost h = header_views(headers@);
    let mut out = method.as_bytes_vec();
    out.push(10u8);
    let ghost head = out@;
    let mut i: usize = 0;
    while i < headers.len()
        invariant
            h == header_views(headers@),
            i <= headers@.len(),
            out@ == head + headers_input(h.take(i as int)),
        decreases headers@.len() - i,
    {
        assert(h.take(i + 1).drop_last() == h.take(i as int));
        assert(h[i as int] == (headers@[i as int].0@, headers@[i as int].1@));
        let mut name = headers[i].0.as_str().as_bytes_vec();
        let mut value = headers[i].1.as_str().as_bytes_vec();
        out.append(&mut name);
        out.push(58u8);
        out.append(&mut value);
        out.push(10u8);
        i = i + 1;
        assert(out@ =~= head + headers_input(h.take(i as int)));
    }
    assert(h.take(h.len() as int) == h);
    out.push(10u8);
    let mut i: usize = 0;
    let ghost mid = out@;
    while i < body.len()
        invariant
            i <= body@.len(),
            out@ == mid + body@.take(i as int),
        decreases body@.len() - i,
    {
        out.push(body[i]);
        i = i + 1;
        assert(out@ =~= mid + body@.take(i as int));
    }
    assert(body@.take(body@.len() as int) == body@);
    assert(out@ =~= signature_input_spec(method@, h, body@));
    out
}

/// The value of the authorization header for `input` under `key`:
/// `<scheme> <key guid> <hex digest>`, the digest the HMAC-SHA256 of the
/// input under the key's hex-decoded bytes; none when the key is not valid
/// hexadecimal.
pub open spec fn authorization_value_spec(key: Key, input: Seq<u8>) -> Option<Seq<char>> {
    match hex_decode_spec(key.key@) {
        Some(k) => Some(authorization_text(key.guid@, hmac_sha256_of(k, input))),
        None => None,
    }
}

/// `<scheme> <guid> <digest in hex>`.
pub open spec fn authorization_text(guid: Seq<char>, digest: Seq<u8>) -> Seq<char> {
    AUTHORIZATION_SCHEME@ + seq![' '] + guid + seq![' '] + hex_text(digest)
}

/// Writes the authorization header's value for a digest made with the key
/// `guid` names.
pub fn format_authorization(guid: &str, digest: &Vec<u8>) -> (r: String)
    ensures
        r@ == authorization_text(guid@, digest@),
{
    let mut value = String::from_str(AUTHORIZATION_SCHEME);
    value.append(" ");
    value.append(guid);
    value.append(" ");
    value.append(encode_hex(digest).as_str());
    proof {
        reveal_strlit(" ");
    }
    value
}

/// Computes the authorization header's value for `input` under `key`.
pub fn authorization_value(key: &Key, input: &Vec<u8>) -> (r: Option<String>)
    ensures
        match r {
            Some(v) => authorization_value_spec(*key, input@) == Some(v@),
            None => authorization_value_spec(*key, input@) is None,
        },
{
    let key_bytes = match decode_hex(key.key.as_str()) {
        Some(b) => b,
        None => return None,
    };
    let digest = match hmac_sha256(&key_bytes, input) {
        Some(d) => d,
        None => return None,
    };
    Some(format_authorization(key.guid.as_str(), &digest))
}

} // verus!
