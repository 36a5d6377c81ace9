//! Validation of the target address before any page is rendered.
use vstd::prelude::*;

verus! {

/// What `url::Url::parse` makes of a text: `None` where it refuses it, else
/// the serialisation, the scheme and the host (if the address has one).
pub uninterp spec fn url_parse_of(s: Seq<char>) -> Option<(Seq<char>, Seq<char>, Option<Seq<char>>)>;

/// The view of an optional string.
pub open spec fn opt_view(o: Option<String>) -> Option<Seq<char>> {
    match o {
        Some(x) => Some(x@),
        None => None,
    }
}

/// A parsed address, read off as plain strings.
pub struct UrlParts {
    pub text: String,
    pub scheme: String,
    pub host: Option<String>,
}

impl UrlParts {
    pub open spec fn view(&self) -> (Seq<char>, Seq<char>, Option<Seq<char>>) {
        (self.text@, self.scheme@, opt_view(self.host))
    }
}

/// Relies on `url::Url::parse`, and on `Url::as_str`, `Url::scheme` and
/// `Url::host_str` of its result. A text without `':'` has no scheme, which an
/// absolute address needs, so the parser refuses it; a scheme is never empty.
#[verifier::external_body]
fn parse_url(s: &str) -> (r: Option<UrlParts>)
    ensures
        r is Some <==> url_parse_of(s@) is Some,
        r matches Some(p) ==> url_parse_of(s@) == Some(p@),
        r matches Some(p) ==> p.scheme@.len() > 0,
        !s@.contains(':') ==> r is None,
{
    match url::Url::parse(s) {
        Ok(u) => Some(
            UrlParts {
                text: u.as_str().to_string(),
                scheme: u.scheme().to_string(),
                host: u.host_str().map(|h| h.to_string()),
            },
        ),
        Err(_) => None,
    }
}

/// The caller's text was not an absolute address with a host.
#[derive(Debug, Clone, Copy, PartialEq, Eq)]
pub struct InvalidUrl;

/// An address that passed validation: the text as the caller gave it, and its host.
pub struct TargetUrl {
    pub address: String,
    pub host: String,
}

/// Whether a parse result is an absolute address with a non-empty host.
pub open spec fn parsed_is_valid(p: Option<(Seq<char>, Seq<char>, Option<Seq<char>>)>) -> bool {
    match p {
        Some((_, _, Some(h))) => h.len() > 0,
        _ => false,
    }
}

/// The host of a valid parse result.
pub open spec fn parsed_host(p: Option<(Seq<char>, Seq<char>, Option<Seq<char>>)>) -> Seq<char> {
    match p {
        Some((_, _, Some(h))) => h,
        _ => seq![],
    }
}

/// Decides on the parse result of `s`: valid exactly when the parser gave an
/// address whose host is present and non-empty.
pub fn classify_url(s: &str, parsed: Option<UrlParts>) -> (r: Result<TargetUrl, InvalidUrl>)
    ensures
        r is Ok <==> parsed_is_valid(opt_parts_view(parsed)),
        r matches Ok(t) ==> t.address@ == s@ && t.host@ == parsed_host(opt_parts_view(parsed)),
{
    match parsed {
        Some(p) => match p.host {
            Some(h) => {
                if h.unicode_len() > 0 {
                    Ok(TargetUrl { address: String::from_str(s), host: h })
                } else {
                    Err(InvalidUrl)
                }
            },
            None => Err(InvalidUrl),
        },
        None => Err(InvalidUrl),
    }
}

/// The view of an optional parse result.
pub open spec fn opt_parts_view(o: Option<UrlParts>) -> Option<(Seq<char>, Seq<char>, Option<Seq<char>>)> {
    match o {
        Some(p) => Some(p@),
        None => None,
    }
}

/// Checks that `s` is an absolute address with a scheme and a host; no
/// network access takes place.
pub fn validate_url(s: &str) -> (r: Result<TargetUrl, InvalidUrl>)
    ensures
        r is Ok <==> parsed_is_valid(url_parse_of(s@)),
        r matches Ok(t) ==> t.address@ == s@ && t.host@ == parsed_host(url_parse_of(s@)),
        !s@.contains(':') ==> r is Err,
{
    let parsed = parse_url(s);
    classify_url(s, parsed)
}

} // verus!
