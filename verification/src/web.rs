//! URL parsing and encoding, done by the `url` and `urlencoding` crates.

use vstd::prelude::*;
use vstd::string::StringSliceAdditionalSpecFns;



verus! {

/// The parts of a parsed absolute URL that the library reads.
pub struct UrlParts {
    pub scheme: String,
    /// `host_str()`, or empty when the URL has no host.
    pub host: String,
    pub path: String,
    /// `query_pairs()`, percent-decoded, in order.
    pub query: Vec<(String, String)>,
}

pub open spec fn query_view(q: Seq<(String, String)>) -> Seq<(Seq<char>, Seq<char>)> {
    q.map_values(|p: (String, String)| (p.0@, p.1@))
}

impl UrlParts {
    pub open spec fn parts(&self) -> (Seq<char>, Seq<char>, Seq<char>, Seq<(Seq<char>, Seq<char>)>) {
        (self.scheme@, self.host@, self.path@, query_view(self.query@))
    }
}

/// What `url::Url::parse` yields for `s`, read as (scheme, host, path,
/// query pairs); `None` when it rejects `s`.
pub uninterp spec fn url_parse(s: Seq<char>) -> Option<(Seq<char>, Seq<char>, Seq<char>, Seq<(Seq<char>, Seq<char>)>)>;

/// Calls `url::Url::parse` and reads back `scheme()`, `host_str()`,
/// `path()` and `query_pairs()`. The contract claims only that the result is
/// a function of the input string.
#[verifier::external_body]
pub(crate) fn parse_url(s: &str) -> (r: Option<UrlParts>)
    ensures
        r matches Some(p) ==> url_parse(s@) == Some(p.parts()),
        r is None ==> url_parse(s@) is None,
{
    match url::Url::parse(s) {
        Ok(u) => Some(UrlParts {
            scheme: u.scheme().to_string(),
            host: u.host_str().unwrap_or_default().to_string(),
            path: u.path().to_string(),
            query: u.query_pairs().map(|(k, v)| (k.into_owned(), v.into_owned())).collect(),
        }),
        Err(_) => None,
    }
}

/// `b` is an unreserved byte: ASCII letter, digit, `-`, `.`, `_` or `~`.
pub open spec fn is_unreserved(b: u8) -> bool {
    (0x30 <= b && b <= 0x39) || (0x41 <= b && b <= 0x5a) || (0x61 <= b && b <= 0x7a) || b == 0x2d
        || b == 0x2e || b == 0x5f || b == 0x7e
}

/// An upper-case hexadecimal digit.
pub open spec fn hex_upper(d: int) -> char {
    if d < 10 {
        (('0' as u32) + d) as char
    } else {
        (('A' as u32) + (d - 10)) as char
    }
}

/// Percent-encoding of the bytes `b`: unreserved bytes stay as they are,
/// every other byte becomes `%` and two upper-case hex digits.
pub open spec fn percent_encode(b: Seq<u8>) -> Seq<char>
    decreases b.len(),
{
    if b.len() == 0 {
        Seq::empty()
    } else {
        let x = b.last();
        percent_encode(b.drop_last()) + if is_unreserved(x) {
            seq![x as char]
        } else {
            seq!['%', hex_upper(x as int / 16), hex_upper(x as int % 16)]
        }
    }
}

/// Calls `urlencoding::encode`, which percent-encodes every UTF-8 byte of
/// `s` except ASCII alphanumerics and `-`, `_`, `.`, `~`, with upper-case
/// hex digits.
#[verifier::external_body]
pub(crate) fn url_encode(s: &str) -> (r: String)
    ensures
        r@ == percent_encode(s.spec_bytes()),
{
    urlencoding::encode(s).into_owned()
}

} // verus!
