//! The calls this library makes into outside crates, each behind a trusted
//! item whose contract states what the outside crate's source shows.

use vstd::prelude::*;
use crate::text::{digits_value, leading_digits, opt_view, u16_text_value};

verus! {

/// ASCII letters and digits: the alphabet of `rand`'s `Alphanumeric`
/// distribution.
pub open spec fn is_ascii_alphanumeric(c: char) -> bool {
    ('0' <= c <= '9') || ('A' <= c <= 'Z') || ('a' <= c <= 'z')
}

/// Calls `rand::distributions::Alphanumeric.sample_string` with the thread-local
/// generator. The result is random; the contract states only what holds of
/// every outcome: `len` characters, each an ASCII letter or digit (the
/// distribution samples from `A-Z`, `a-z`, `0-9`).
#[verifier::external_body]
pub(crate) fn random_alphanumeric(len: usize) -> (s: String)
    ensures
        s@.len() == len,
        forall|i: int| 0 <= i < len ==> is_ascii_alphanumeric(#[trigger] s@[i]),
{
    rand::distributions::DistString::sample_string(
        &rand::distributions::Alphanumeric,
        &mut rand::thread_rng(),
        len,
    )
}

/// What `atoi::atoi::<u8>` returns on the UTF-8 bytes of a text. An
/// optional sign (`+` or `-`) comes first, then the run of decimal digits
/// that follows (possibly empty). With `-`, the result is 0 when those
/// digits are all zeros (or there are none), else none (the checked
/// subtraction from 0 underflows). Otherwise the result is the digits'
/// value when it fits in a `u8`, and none when it does not; without a sign
/// and without digits there is no number, and none is returned. A lone `+`
/// gives 0. (Signs and digits are ASCII, so reading characters reads bytes.)
pub open spec fn atoi_u8(text: Seq<char>) -> Option<u8> {
    if text.len() > 0 && text[0] == '-' {
        if digits_value(leading_digits(text.drop_first())) == 0 {
            Some(0u8)
        } else {
            None
        }
    } else {
        let signed = text.len() > 0 && text[0] == '+';
        let d = leading_digits(
            if signed {
                text.drop_first()
            } else {
                text
            },
        );
        if !signed && d.len() == 0 {
            None
        } else if digits_value(d) <= 255 {
            Some(digits_value(d) as u8)
        } else {
            None
        }
    }
}

/// Calls `atoi::atoi::<u8>` on the bytes of `text`; the result is
/// `atoi_u8` of the text.
#[verifier::external_body]
pub(crate) fn parse_leading_u8(text: &str) -> (r: Option<u8>)
    ensures
        r == atoi_u8(text@),
{
    atoi::atoi::<u8>(text.as_bytes())
}

/// The host name and port that `urlparse::urlparse` finds in a URL.
pub uninterp spec fn url_host_port(url: Seq<char>) -> (Option<Seq<char>>, Option<u16>);

/// A character that `urlparse` keeps as it is in a host name: ASCII, not
/// an upper-case letter, and none of the delimiters `: / ? # @ [ ]`.
pub open spec fn is_host_char(c: char) -> bool {
    &&& (c as int) < 128
    &&& !('A' <= c <= 'Z')
    &&& c != ':' && c != '/' && c != '?' && c != '#' && c != '@' && c != '[' && c != ']'
}

/// A host name of such characters, at least one.
pub open spec fn url_host(h: Seq<char>) -> bool {
    &&& h.len() > 0
    &&& forall|i: int| 0 <= i < h.len() ==> is_host_char(#[trigger] h[i])
}

/// `http://<h>:<p>`.
pub open spec fn http_url(h: Seq<char>, p: Seq<char>) -> Seq<char> {
    "http://"@ + h + ":"@ + p
}

/// Calls `urlparse::urlparse` and keeps the `hostname` and `port` fields of
/// the parsed URL. What they hold depends on the URL alone and is named
/// `url_host_port`. Of one form of URL the contract says more:
/// `http://<h>:<p>`, with `h` a host of the characters of `is_host_char`
/// and `p` a port text that `str::parse::<u16>` reads as a number above 0,
/// gives host `h` and that port (the parser ends the scheme at the first
/// `:`, takes the network location after `//` up to the first `/`, `?` or
/// `#`, splits off user information at `@`, splits the port off at the last
/// `:` or `]` and reads it with `parse::<u16>`, keeping it when it is not 0,
/// trims `[` and `]` from the host and lower-cases it, which leaves such a
/// host unchanged). Nothing is claimed of other URLs.
#[verifier::external_body]
pub(crate) fn url_host_and_port(url: &str) -> (r: (Option<String>, Option<u16>))
    ensures
        (opt_view(r.0), r.1) == url_host_port(url@),
        forall|h: Seq<char>, p: Seq<char>|
            #![trigger http_url(h, p)]
            url_host(h) && u16_text_value(p) is Some && u16_text_value(p)->0 > 0 && url@ == http_url(
                h,
                p,
            ) ==> opt_view(r.0) == Some(h) && r.1 == u16_text_value(p),
{
    let parsed = urlparse::urlparse(url);
    (parsed.hostname, parsed.port)
}

/// Whether `semver` finds that `version` meets the requirement `req`: `None`
/// when either does not parse (`VersionReq::parse`, `Version::parse`),
/// else what `VersionReq::matches` answers.
pub uninterp spec fn semver_requirement_met(req: Seq<char>, version: Seq<char>) -> Option<bool>;

/// Parses `req` with `semver::VersionReq::parse` and `version` with
/// `semver::Version::parse`, and asks `VersionReq::matches`. The answer
/// depends on the two texts alone and is named `semver_requirement_met`;
/// nothing more of it is claimed.
#[verifier::external_body]
pub(crate) fn version_meets_requirement(req: &str, version: &str) -> (r: Option<bool>)
    ensures
        r == semver_requirement_met(req@, version@),
{
    match (semver::VersionReq::parse(req), semver::Version::parse(version)) {
        (Ok(req), Ok(version)) => Some(req.matches(&version)),
        _ => None,
    }
}

} // verus!
