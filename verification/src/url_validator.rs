//! Validation and normalisation of the URLs that users ask to shorten.
//!
//! A URL is accepted when, once trimmed, it is at most `MAX_URL_LENGTH` bytes,
//! parses as an absolute URL, has the scheme `http` or `https`, has a host, and
//! that host is not on the blocklist. The accepted URL is the parser's own
//! serialisation (scheme and host lower-cased, default port dropped) with one
//! trailing `/` removed; the path and query are kept as they are, and `http` is
//! not turned into `https`.

use vstd::prelude::*;
use vstd::utf8::{encode_utf8, is_ascii_chars};
use crate::error::{AppError, ErrorView, outcome_view};
use crate::text::{spec_trim, strip_trailing_slash, strip_trailing_slash_spec, trim};

verus! {

/// Longest accepted URL, in UTF-8 bytes after trimming.
pub const MAX_URL_LENGTH: usize = 2048;

/// What the URL parser reports of an absolute URL that it accepted.
#[derive(Debug)]
pub struct ParsedUrl {
    /// The scheme, without the `:`.
    pub scheme: String,
    /// The host, where the URL has one.
    pub host: Option<String>,
    /// The whole URL as the parser serialises it.
    pub serialization: String,
}

/// A parsed URL, its texts seen as sequences of chars.
pub struct ParsedUrlView {
    pub scheme: Seq<char>,
    pub host: Option<Seq<char>>,
    pub serialization: Seq<char>,
}

impl View for ParsedUrl {
    type V = ParsedUrlView;

    open spec fn view(&self) -> ParsedUrlView {
        ParsedUrlView {
            scheme: self.scheme@,
            host: match self.host {
                Some(h) => Some(h@),
                None => None,
            },
            serialization: self.serialization@,
        }
    }
}

/// An optional parsed URL, seen through its view.
pub open spec fn parsed_view(p: Option<ParsedUrl>) -> Option<ParsedUrlView> {
    match p {
        Some(u) => Some(u@),
        None => None,
    }
}

/// What the `url` crate makes of `input`: `None` where `Url::parse` rejects
/// it, else the scheme, host and serialisation of the parsed URL.
pub uninterp spec fn url_parse(input: Seq<char>) -> Option<ParsedUrlView>;

/// `scheme` followed by `://`.
pub open spec fn with_authority_marker(scheme: Seq<char>) -> Seq<char> {
    scheme.push(':').push('/').push('/')
}

/// Parses `input` with `url::Url::parse` and reads back `Url::scheme`,
/// `Url::host_str` and `Url::as_str`. The result is what `url_parse` names for
/// the input. Beyond that only what the invariants of `Url` (checked by
/// `Url::check_invariants` in the crate's source) keep is claimed:
/// - the serialisation starts with the scheme followed by `:`;
/// - a URL with a host has an authority: the serialisation starts with the
///   scheme and `://`, and is long enough to hold the host after that;
/// - the host of an `http` or `https` URL is not empty;
/// - parsing the serialisation of a URL with a host gives back the same
///   scheme, host and serialisation.
#[verifier::external_body]
fn parse_url(input: &str) -> (r: Option<ParsedUrl>)
    ensures
        parsed_view(r) == url_parse(input@),
        r matches Some(p) ==> p.serialization@.len() > p.scheme@.len() && p.serialization@.subrange(
            0,
            p.scheme@.len() as int + 1,
        ) == p.scheme@.push(':'),
        r matches Some(p) ==> (p.host matches Some(h) ==> p.serialization@.len() >= p.scheme@.len()
            + 3 + h@.len() && p.serialization@.subrange(0, p.scheme@.len() as int + 3)
            == with_authority_marker(p.scheme@)),
        r matches Some(p) ==> ((p.scheme@ == "http"@ || p.scheme@ == "https"@) ==> (p.host matches Some(
            h) ==> h@.len() > 0)),
        r matches Some(p) ==> (p.host is Some ==> url_parse(p.serialization@) == Some(p@)),
{
    match url::Url::parse(input) {
        Ok(u) => Some(
            ParsedUrl {
                scheme: u.scheme().to_string(),
                host: match u.host_str() {
                    Some(h) => Some(h.to_string()),
                    None => None,
                },
                serialization: u.as_str().to_string(),
            },
        ),
        Err(_) => None,
    }
}

/// What `str::to_lowercase` returns for `s`: the Unicode lowercase mapping of
/// every char of `s`.
pub uninterp spec fn unicode_lowercase(s: Seq<char>) -> Seq<char>;

/// `c` with `A`..`Z` mapped to `a`..`z`.
pub open spec fn ascii_lower_char(c: char) -> char {
    if 'A' <= c && c <= 'Z' {
        ((c as u32) + 32) as char
    } else {
        c
    }
}

/// `s` with its ASCII capitals made small.
pub open spec fn ascii_lowercase(s: Seq<char>) -> Seq<char> {
    s.map_values(|c: char| ascii_lower_char(c))
}

/// The lowercase form of `s`, through `str::to_lowercase`; the result is what
/// `unicode_lowercase` names for `s`. For an ASCII string the Unicode
/// lowercase mapping is the ASCII one (capitals to small letters, all else
/// kept), and that much is claimed; nothing is claimed of other chars.
#[verifier::external_body]
fn to_lowercase(s: &str) -> (r: String)
    ensures
        r@ == unicode_lowercase(s@),
        is_ascii_chars(s@) ==> r@ == ascii_lowercase(s@),
{
    s.to_lowercase()
}

/// The domains that short links may not point to.
pub open spec fn is_blocked_spec(host: Seq<char>) -> bool {
    ||| host == "evil.com"@
    ||| host == "malware.example.com"@
    ||| host == "phishing.example.com"@
}

/// Whether `host`, already lower-cased, is on the blocklist.
pub fn is_blocked_lowercase(host: &str) -> (b: bool)
    ensures
        b == is_blocked_spec(host@),
{
    let h = String::from_str(host);
    h == String::from_str("evil.com") || h == String::from_str("malware.example.com") || h
        == String::from_str("phishing.example.com")
}

/// `host`, lower-cased, is on the blocklist. For an ASCII host the Unicode
/// lowercase form is the ASCII one.
pub open spec fn host_blocked(host: Seq<char>) -> bool {
    if is_ascii_chars(host) {
        is_blocked_spec(ascii_lowercase(host))
    } else {
        is_blocked_spec(unicode_lowercase(host))
    }
}

/// Whether `host`, lower-cased, is on the blocklist.
pub fn is_blocked_domain(host: &str) -> (b: bool)
    ensures
        b == host_blocked(host@),
        b == is_blocked_spec(unicode_lowercase(host@)),
{
    let lower = to_lowercase(host);
    is_blocked_lowercase(lower.as_str())
}

/// The verdict on a parse result: the error, or the normalised URL.
pub open spec fn spec_check_parsed(p: Option<ParsedUrlView>) -> Result<Seq<char>, ErrorView> {
    match p {
        None => Err(ErrorView::BadRequest("Invalid URL format"@)),
        Some(u) => if !(u.scheme == "http"@ || u.scheme == "https"@) {
            Err(ErrorView::BadRequest("Invalid scheme: "@ + u.scheme))
        } else {
            match u.host {
                None => Err(ErrorView::BadRequest("URL has no host"@)),
                Some(h) => if host_blocked(h) {
                    Err(ErrorView::BadRequest("URL is on the blocklist"@))
                } else {
                    Ok(strip_trailing_slash_spec(u.serialization))
                },
            }
        },
    }
}

/// The verdict on a user-supplied URL: the error, or the normalised URL.
pub open spec fn spec_validate_url(input: Seq<char>) -> Result<Seq<char>, ErrorView> {
    let t = spec_trim(input);
    // the byte length as `str::len` reports it, a `usize`
    if encode_utf8(t).len() as usize > MAX_URL_LENGTH {
        Err(ErrorView::BadRequest("URL exceeds max length"@))
    } else {
        spec_check_parsed(url_parse(t))
    }
}

/// Checks what the parser made of a URL: scheme, host and blocklist, and
/// normalises an accepted URL by dropping one trailing `/`.
pub fn check_parsed_url(parsed: Option<ParsedUrl>) -> (r: Result<String, AppError>)
    ensures
        outcome_view(r) == spec_check_parsed(parsed_view(parsed)),
{
    match parsed {
        None => Err(AppError::BadRequest(String::from_str("Invalid URL format"))),
        Some(u) => {
            let http = String::from_str("http");
            let https = String::from_str("https");
            if !(u.scheme == http || u.scheme == https) {
                let mut msg = String::from_str("Invalid scheme: ");
                msg.append(u.scheme.as_str());
                return Err(AppError::BadRequest(msg));
            }
            match &u.host {
                None => Err(AppError::BadRequest(String::from_str("URL has no host"))),
                Some(h) => {
                    if is_blocked_domain(h.as_str()) {
                        Err(AppError::BadRequest(String::from_str("URL is on the blocklist")))
                    } else {
                        Ok(strip_trailing_slash(u.serialization.as_str()))
                    }
                },
            }
        },
    }
}

/// Validates and normalises a user-supplied URL.
///
/// An accepted URL begins with its own scheme, `http` or `https`, followed by
/// `://` (`http` is never turned into `https`). Validating an accepted URL
/// from which no `/` was dropped, and which has no white space round it and
/// fits the length limit, gives it back unchanged.
pub fn validate_url(input: &str) -> (r: Result<String, AppError>)
    ensures
        outcome_view(r) == spec_validate_url(input@),
        r matches Ok(n) ==> url_parse(spec_trim(input@)) matches Some(u) && (u.scheme == "http"@
            || u.scheme == "https"@) && n@.len() >= u.scheme.len() + 3 && n@.subrange(
            0,
            u.scheme.len() as int + 3,
        ) == with_authority_marker(u.scheme),
        r matches Ok(n) ==> (url_parse(spec_trim(input@)) matches Some(u) && u.serialization == n@
            && spec_trim(n@) == n@ && encode_utf8(n@).len() as usize <= MAX_URL_LENGTH
            ==> spec_validate_url(n@) == Ok::<Seq<char>, ErrorView>(n@)),
{
    let t = trim(input);
    if t.len() > MAX_URL_LENGTH {
        return Err(AppError::BadRequest(String::from_str("URL exceeds max length")));
    }
    let parsed = parse_url(t);
    let ghost pv = parsed_view(parsed);
    let r = check_parsed_url(parsed);
    proof {
        if r is Ok {
            let u = pv.unwrap();
            let n = strip_trailing_slash_spec(u.serialization);
            assert(n.subrange(0, u.scheme.len() as int + 3) =~= u.serialization.subrange(
                0,
                u.scheme.len() as int + 3,
            ));
            if u.serialization == n && spec_trim(n) == n && encode_utf8(n).len() as usize
                <= MAX_URL_LENGTH {
                assert(url_parse(n) == Some(u));
                assert(strip_trailing_slash_spec(n) == n);
            }
        }
    }
    r
}

/// An accepted URL is the parser's serialisation of the trimmed input, less
/// at most one trailing `/`: the input fits the length limit, and the parsed
/// URL is `http` or `https` with a host off the blocklist.
pub proof fn law_accepted_urls(input: Seq<char>)
    requires
        spec_validate_url(input) is Ok,
    ensures
        encode_utf8(spec_trim(input)).len() as usize <= MAX_URL_LENGTH,
        url_parse(spec_trim(input)) matches Some(u) && {
            &&& u.scheme == "http"@ || u.scheme == "https"@
            &&& u.host matches Some(h) && !host_blocked(h)
            &&& spec_validate_url(input) == Ok::<Seq<char>, ErrorView>(
                strip_trailing_slash_spec(u.serialization),
            )
        },
{
}

/// Every rejection of a URL is a 400 with a message.
pub proof fn law_rejections_are_bad_requests(input: Seq<char>)
    ensures
        spec_validate_url(input) matches Err(e) ==> e is BadRequest,
{
}

/// The lowercase form of a host: the ASCII one for an ASCII host, else what
/// `str::to_lowercase` gives.
pub open spec fn lowercase_host(h: Seq<char>) -> Seq<char> {
    if is_ascii_chars(h) {
        ascii_lowercase(h)
    } else {
        unicode_lowercase(h)
    }
}

/// The only hosts refused are `evil.com`, `malware.example.com` and
/// `phishing.example.com`, in any letter case. A trimmed input within the
/// length limit that parses as an `http` or `https` URL with any other host
/// is accepted, as its serialisation less one trailing `/`; one with one of
/// those three hosts is refused as on the blocklist.
pub proof fn law_blocklist_is_exactly_three_hosts(input: Seq<char>)
    requires
        encode_utf8(spec_trim(input)).len() as usize <= MAX_URL_LENGTH,
        url_parse(spec_trim(input)) matches Some(u) && (u.scheme == "http"@ || u.scheme
            == "https"@) && u.host is Some,
    ensures
        ({
            let u = url_parse(spec_trim(input)).unwrap();
            let lower = lowercase_host(u.host.unwrap());
            let s = u.serialization;
            &&& (lower != "evil.com"@ && lower != "malware.example.com"@ && lower
                != "phishing.example.com"@) ==> spec_validate_url(input) == Ok::<
                Seq<char>,
                ErrorView,
            >(if s.len() > 0 && s.last() == '/' { s.drop_last() } else { s })
            &&& (lower == "evil.com"@ || lower == "malware.example.com"@ || lower
                == "phishing.example.com"@) ==> spec_validate_url(input) == Err::<
                Seq<char>,
                ErrorView,
            >(ErrorView::BadRequest("URL is on the blocklist"@))
        }),
{
}

} // verus!
