//! URL text operations the rewriter builds on: percent-encoding and
//! reference resolution, each behind a small trusted boundary to the
//! `urlencoding` and `url` crates.
use vstd::prelude::*;

verus! {

/// A byte the encoder passes through unchanged: ASCII alphanumerics and
/// `-`, `.`, `_`, `~`.
pub open spec fn is_unreserved(b: u8) -> bool {
    (48 <= b <= 57)  // 0-9
    || (65 <= b <= 90)  // A-Z
    || (97 <= b <= 122)  // a-z
    || b == 45  // -
    || b == 46  // .
    || b == 95  // _
    || b == 126  // ~
}

/// Upper-case hexadecimal digit for a value below 16.
pub open spec fn hex_digit(d: u8) -> u8 {
    if d < 10 {
        (48 + d) as u8
    } else {
        (55 + d) as u8  // 'A' - 10 + d
    }
}

/// How one byte is percent-encoded: unreserved bytes stand as they are,
/// every other byte becomes `%` and two upper-case hex digits.
pub open spec fn encode_byte(b: u8) -> Seq<u8> {
    if is_unreserved(b) {
        seq![b]
    } else {
        seq![37u8, hex_digit(b / 16), hex_digit(b % 16)]
    }
}

/// Percent-encoding of a whole byte string.
pub open spec fn percent_encode(s: Seq<u8>) -> Seq<u8>
    decreases s.len(),
{
    if s.len() == 0 {
        Seq::empty()
    } else {
        encode_byte(s[0]) + percent_encode(s.drop_first())
    }
}

/// Relies on urlencoding::encode_binary: percent-encodes every byte except
/// ASCII alphanumerics and `-`, `.`, `_`, `~`, with upper-case hex digits.
#[verifier::external_body]
pub fn encode_component(s: &[u8]) -> (r: Vec<u8>)
    ensures
        r@ == percent_encode(s@),
{
    urlencoding::encode_binary(s).into_owned().into_bytes()
}

/// The absolute URL that resolving reference `rel` against the URL written
/// `base` yields, as the `url` crate computes it; `None` where `base` does
/// not parse or the resolution fails. A function of the two byte strings
/// alone.
pub uninterp spec fn join_of(base: Seq<u8>, rel: Seq<u8>) -> Option<Seq<u8>>;

/// Relies on url::Url::parse and url::Url::join: standard URL reference
/// resolution of `rel` against `base`, written back out as text.
#[verifier::external_body]
pub fn resolve_against(base: &[u8], rel: &[u8]) -> (r: Option<Vec<u8>>)
    ensures
        r is Some <==> join_of(base@, rel@) is Some,
        r matches Some(v) ==> join_of(base@, rel@) == Some(v@),
{
    let b = core::str::from_utf8(base).ok()?;
    let rl = core::str::from_utf8(rel).ok()?;
    let u = url::Url::parse(b).ok()?;
    let j = u.join(rl).ok()?;
    Some(j.as_str().as_bytes().to_vec())
}

/// The normal (parsed and re-serialised) form of an absolute URL, as the
/// `url` crate writes it; `None` where the text is not a well-formed
/// absolute URL. A function of the byte string alone.
pub uninterp spec fn normal_of(s: Seq<u8>) -> Option<Seq<u8>>;

/// Relies on url::Url::parse and url::Url::as_str: parses an absolute URL
/// and hands back its serialisation.
#[verifier::external_body]
pub fn parse_url_normalized(s: &[u8]) -> (r: Option<Vec<u8>>)
    ensures
        r is Some <==> normal_of(s@) is Some,
        r matches Some(v) ==> normal_of(s@) == Some(v@),
{
    let t = core::str::from_utf8(s).ok()?;
    let u = url::Url::parse(t).ok()?;
    Some(u.as_str().as_bytes().to_vec())
}

/// The path component of an absolute URL, as the `url` crate reports it;
/// `None` where the text does not parse. A function of the byte string
/// alone.
pub uninterp spec fn path_of(s: Seq<u8>) -> Option<Seq<u8>>;

/// Relies on url::Url::parse and url::Url::path: the path component of an
/// absolute URL.
#[verifier::external_body]
pub fn url_path(s: &[u8]) -> (r: Option<Vec<u8>>)
    ensures
        r is Some <==> path_of(s@) is Some,
        r matches Some(v) ==> path_of(s@) == Some(v@),
{
    let t = core::str::from_utf8(s).ok()?;
    let u = url::Url::parse(t).ok()?;
    Some(u.path().as_bytes().to_vec())
}

} // verus!
