//! The endpoint that batches are posted to: an absolute URL, validated once
//! when a handler is configured.
use vstd::prelude::*;
use vstd::string::StrSliceExecFns;

verus! {

#[verifier::external_type_specification]
#[verifier::external_body]
pub struct ExUri(hyper::Uri);

#[verifier::external_type_specification]
#[verifier::external_body]
pub struct ExUriError(hyper::error::UriError);

/// Whether hyper accepts the text as a request URI.
pub uninterp spec fn uri_parses(s: Seq<char>) -> bool;

/// Relies on hyper's `FromStr` for `Uri`: whether it succeeds depends on the
/// text alone, and the empty text is refused.
#[verifier::external_body]
fn parse_uri(s: &str) -> (r: Result<hyper::Uri, hyper::error::UriError>)
    ensures
        r is Ok <==> uri_parses(s@),
        s@.len() == 0 ==> r is Err,
{
    s.parse::<hyper::Uri>()
}

/// Relies on `Uri`'s `Clone`: an independent handle to the same URI.
#[verifier::external_body]
fn clone_uri(u: &hyper::Uri) -> (r: hyper::Uri)
{
    u.clone()
}

/// A character that may stand in a URL's scheme.
pub open spec fn is_scheme_char(c: char) -> bool {
    ('a' <= c && c <= 'z') || ('A' <= c && c <= 'Z') || ('0' <= c && c <= '9') || c == '+'
        || c == '-' || c == '.'
}

/// A character that may begin the host part after `://`.
pub open spec fn starts_host(c: char) -> bool {
    !(c == '/' || c == '?' || c == '#' || c == ':' || c == '@')
}

/// `s` has a non-empty scheme ending at `i`, then `://`, then a host.
pub open spec fn scheme_ends_at(s: Seq<char>, i: int) -> bool {
    &&& 0 < i
    &&& i + 3 < s.len()
    &&& forall|j: int| 0 <= j < i ==> is_scheme_char(#[trigger] s[j])
    &&& s[i] == ':'
    &&& s[i + 1] == '/'
    &&& s[i + 2] == '/'
    &&& starts_host(s[i + 3])
}

/// `s` is an absolute URL: a scheme, `://` and a host.
pub open spec fn has_scheme_and_host_spec(s: Seq<char>) -> bool {
    exists|i: int| scheme_ends_at(s, i)
}

/// Why an endpoint was refused.
#[derive(Debug, Clone, Copy, PartialEq, Eq, Structural)]
pub enum ConfigError {
    /// The text does not start with a scheme, `://` and a host.
    NotAbsolute,
    /// The text has that shape, but is not a URI.
    Malformed,
}

fn scheme_char(c: char) -> (r: bool)
    ensures
        r == is_scheme_char(c),
{
    ('a' <= c && c <= 'z') || ('A' <= c && c <= 'Z') || ('0' <= c && c <= '9') || c == '+'
        || c == '-' || c == '.'
}

/// Whether `s` starts with a scheme, `://` and a host.
pub fn has_scheme_and_host(s: &str) -> (r: bool)
    ensures
        r == has_scheme_and_host_spec(s@),
{
    let n = s.unicode_len();
    let mut i: usize = 0;
    while i < n && scheme_char(s.get_char(i))
        invariant
            n == s@.len(),
            i <= n,
            forall|j: int| 0 <= j < i ==> is_scheme_char(#[trigger] s@[j]),
        decreases n - i,
    {
        i = i + 1;
    }
    let r = i > 0 && n > 3 && i < n - 3 && s.get_char(i) == ':' && s.get_char(i + 1) == '/'
        && s.get_char(i + 2) == '/' && !(s.get_char(i + 3) == '/' || s.get_char(i + 3) == '?'
        || s.get_char(i + 3) == '#' || s.get_char(i + 3) == ':' || s.get_char(i + 3) == '@');
    if r {
        assert(scheme_ends_at(s@, i as int));
    } else {
        assert forall|k: int| !scheme_ends_at(s@, k) by {
            if scheme_ends_at(s@, k) {
                if k < i {
                    assert(is_scheme_char(s@[k]));
                } else if k > i {
                    assert(is_scheme_char(s@[i as int]));
                }
            }
        }
    }
    r
}

/// A validated destination for batches.
pub struct Endpoint {
    uri: hyper::Uri,
    text: String,
}

impl View for Endpoint {
    type V = Seq<char>;

    closed spec fn view(&self) -> Seq<char> {
        self.text@
    }
}

impl Endpoint {
    /// Accepts `url` when it is an absolute URL that hyper parses; says which
    /// of the two it is not, otherwise.
    pub fn parse(url: &str) -> (r: Result<Endpoint, ConfigError>)
        ensures
            !has_scheme_and_host_spec(url@) <==> r == Err::<Endpoint, _>(ConfigError::NotAbsolute),
            (has_scheme_and_host_spec(url@) && !uri_parses(url@)) <==> r == Err::<Endpoint, _>(
                ConfigError::Malformed,
            ),
            r is Ok <==> (has_scheme_and_host_spec(url@) && uri_parses(url@)),
            r matches Ok(e) ==> e@ == url@,
    {
        if !has_scheme_and_host(url) {
            return Err(ConfigError::NotAbsolute);
        }
        match parse_uri(url) {
            Ok(uri) => Ok(Endpoint { uri, text: url.to_owned() }),
            Err(_) => Err(ConfigError::Malformed),
        }
    }

    /// The URL's text.
    pub fn as_str(&self) -> (r: &str)
        ensures
            r@ == self@,
    {
        self.text.as_str()
    }

    /// Another endpoint with the same URL, for the worker to own.
    pub fn duplicate(&self) -> (r: Endpoint)
        ensures
            r@ == self@,
    {
        Endpoint { uri: clone_uri(&self.uri), text: self.text.clone() }
    }

    /// The parsed URI, for building requests.
    pub fn uri(&self) -> &hyper::Uri {
        &self.uri
    }
}

} // verus!
