//! Connections: the links between a SimpleFIN server and the institutions
//! whose accounts it reports.

use vstd::prelude::*;
use vstd::string::StringExecFns;

verus! {

/// The serialization that the `url` crate gives a text it parses as an
/// absolute URL, or `None` where it does not parse one.
pub uninterp spec fn url_serialization(text: Seq<char>) -> Option<Seq<char>>;

/// An ASCII letter.
pub open spec fn is_ascii_letter(c: char) -> bool {
    ('a' <= c && c <= 'z') || ('A' <= c && c <= 'Z')
}

/// An ASCII letter or decimal digit.
pub open spec fn is_ascii_alphanumeric(c: char) -> bool {
    is_ascii_letter(c) || ('0' <= c && c <= '9')
}

/// A character with ASCII upper case letters turned into lower case.
pub open spec fn ascii_lower(c: char) -> char {
    if 'A' <= c && c <= 'Z' {
        ((c as int) + 32) as char
    } else {
        c
    }
}

/// A text with its ASCII upper case letters turned into lower case.
pub open spec fn ascii_lowercase(text: Seq<char>) -> Seq<char> {
    text.map_values(|c: char| ascii_lower(c))
}

/// `http` or `https`, in any mix of cases.
pub open spec fn is_web_scheme(scheme: Seq<char>) -> bool {
    ascii_lowercase(scheme) == seq!['h', 't', 't', 'p'] || ascii_lowercase(scheme) == seq![
        'h',
        't',
        't',
        'p',
        's',
    ]
}

/// Whether a label of `host` starts at `i`.
pub open spec fn starts_label(host: Seq<char>, i: int) -> bool {
    i == 0 || host[i - 1] == '.'
}

/// Whether a label of `host` ends at `i`.
pub open spec fn ends_label(host: Seq<char>, i: int) -> bool {
    i == host.len() - 1 || host[i + 1] == '.'
}

/// A plain domain name: labels of ASCII letters, digits and `-`, separated by
/// single dots, each starting and ending with a letter or digit, none with
/// `-` in both its third and fourth place (as an IDNA `xn--` label has), and the
/// last one starting with a letter (so that the host is not an IPv4 address).
pub open spec fn is_plain_domain_name(host: Seq<char>) -> bool {
    &&& host.len() > 0
    &&& forall|i: int|
        0 <= i < host.len() ==> is_ascii_alphanumeric(#[trigger] host[i]) || host[i] == '-'
            || host[i] == '.'
    &&& forall|i: int|
        0 <= i < host.len() && #[trigger] starts_label(host, i) ==> is_ascii_alphanumeric(host[i])
    &&& forall|i: int|
        0 <= i < host.len() && #[trigger] ends_label(host, i) ==> is_ascii_alphanumeric(host[i])
    &&& forall|i: int|
        0 <= i && i + 3 < host.len() && #[trigger] starts_label(host, i) ==> !(host[i + 2] == '-'
            && host[i + 3] == '-')
    &&& forall|i: int|
        0 <= i < host.len() && #[trigger] starts_label(host, i) && (forall|j: int|
            i <= j < host.len() ==> #[trigger] host[j] != '.') ==> is_ascii_letter(host[i])
}

/// The text `scheme://host`.
pub open spec fn web_url_text(scheme: Seq<char>, host: Seq<char>) -> Seq<char> {
    scheme + seq![':', '/', '/'] + host
}

/// What the URL standard serializes `scheme://host` as, for a web scheme and
/// a plain domain name: scheme and host in lower case, and the empty path `/`.
pub open spec fn web_url_serialization(scheme: Seq<char>, host: Seq<char>) -> Seq<char> {
    ascii_lowercase(scheme) + seq![':', '/', '/'] + ascii_lowercase(host) + seq!['/']
}

/// Whether `parsed`, what parsing `text` gave, is the URL standard's
/// serialization wherever `text` is an `http` or `https` URL made of a scheme
/// and a plain domain name.
pub open spec fn web_urls_parse_as_standard(text: Seq<char>, parsed: Option<String>) -> bool {
    forall|scheme: Seq<char>, host: Seq<char>|
        is_web_scheme(scheme) && is_plain_domain_name(host) && text == #[trigger] web_url_text(scheme, host)
            ==> (parsed matches Some(serialized) && serialized@ == web_url_serialization(
            scheme,
            host,
        ))
}

/// Calls `url::Url::parse(text)` and, where it parses an absolute URL, gives
/// back that URL's serialization (`Url::as_str`). The url crate returns an
/// error rather than panicking on any input; which kind of error it returns is
/// dropped here. What the serialization is in general takes the WHATWG URL
/// standard to state and is left to the name `url_serialization`; the contract
/// states it for `http` and `https` URLs made of a scheme and a plain domain
/// name. For those the url crate (2.5.8, `src/parser.rs` and `src/host.rs`)
/// lower-cases the scheme, maps the host through IDNA's `domain_to_ascii`
/// (with hyphens allowed and DNS lengths ignored), which for ASCII letters,
/// digits and hyphens only lower-cases, keeps the host as a domain because its
/// last label does not end in a number, and gives the empty path of a special
/// scheme as `/`.
#[verifier::external_body]
fn parse_url(text: &str) -> (parsed: Option<String>)
    ensures
        match parsed {
            Some(serialized) => url_serialization(text@) == Some(serialized@),
            None => url_serialization(text@) is None,
        },
        web_urls_parse_as_standard(text@, parsed),
{
    match url::Url::parse(text) {
        Ok(url) => Some(String::from(url.as_str())),
        Err(_) => None,
    }
}

/// An `http` or `https` URL made of a plain domain name is held as the text
/// it was given in lower case, with `/` after it: no character of the host is
/// dropped or changed but for its case.
pub proof fn lemma_web_url_is_given_text_lowercased(scheme: Seq<char>, host: Seq<char>)
    requires
        is_web_scheme(scheme),
        is_plain_domain_name(host),
    ensures
        web_url_serialization(scheme, host) == ascii_lowercase(web_url_text(scheme, host)).push(
            '/',
        ),
        web_url_serialization(scheme, host).len() == web_url_text(scheme, host).len() + 1,
        forall|i: int|
            0 <= i < web_url_text(scheme, host).len() ==> web_url_serialization(
                scheme,
                host,
            )[i] == ascii_lower(web_url_text(scheme, host)[i]),
        forall|i: int|
            0 <= i < host.len() ==> web_url_serialization(scheme, host)[scheme.len() + 3 + i]
                == ascii_lower(#[trigger] host[i]),
{
    let text = web_url_text(scheme, host);
    let ser = web_url_serialization(scheme, host);
    assert(ascii_lowercase(text) =~= ascii_lowercase(scheme) + seq![':', '/', '/']
        + ascii_lowercase(host));
    assert(ser =~= ascii_lowercase(text).push('/'));
}

/// A plain domain name stays one with a `www.` label in front, and the URL made
/// of it keeps that label: `scheme://www.host` is held as the lower-cased
/// scheme, `://www.`, the lower-cased host and `/`.
pub proof fn lemma_www_host_is_kept(scheme: Seq<char>, host: Seq<char>)
    requires
        is_web_scheme(scheme),
        is_plain_domain_name(host),
    ensures
        is_plain_domain_name(seq!['w', 'w', 'w', '.'] + host),
        web_url_serialization(scheme, seq!['w', 'w', 'w', '.'] + host) == ascii_lowercase(scheme)
            + seq![':', '/', '/', 'w', 'w', 'w', '.'] + ascii_lowercase(host) + seq!['/'],
{
    let www = seq!['w', 'w', 'w', '.'];
    let h = www + host;
    assert forall|i: int| 0 <= i < h.len() implies is_ascii_alphanumeric(#[trigger] h[i])
        || h[i] == '-' || h[i] == '.' by {
        if i >= 4 {
            assert(h[i] == host[i - 4]);
        }
    }
    assert forall|i: int| 0 <= i < h.len() && #[trigger] starts_label(h, i) implies is_ascii_alphanumeric(h[i]) by {
        if i >= 4 {
            assert(h[i] == host[i - 4]);
            if i > 4 {
                assert(h[i - 1] == host[i - 5]);
            }
            assert(starts_label(host, i - 4));
        }
    }
    assert forall|i: int| 0 <= i < h.len() && #[trigger] ends_label(h, i) implies is_ascii_alphanumeric(h[i]) by {
        if i >= 4 {
            assert(h[i] == host[i - 4]);
            if i < h.len() - 1 {
                assert(h[i + 1] == host[i - 3]);
            }
            assert(ends_label(host, i - 4));
        } else if i == 3 {
            assert(h[3] == '.');
            assert(h[4] == host[0]);
            assert(starts_label(host, 0));
        }
    }
    assert forall|i: int| 0 <= i && i + 3 < h.len() && #[trigger] starts_label(h, i) implies !(h[i
        + 2] == '-' && h[i + 3] == '-') by {
        if i >= 4 {
            assert(h[i + 2] == host[i - 2]);
            assert(h[i + 3] == host[i - 1]);
            if i > 4 {
                assert(h[i - 1] == host[i - 5]);
            }
            assert(starts_label(host, i - 4));
        } else if i > 0 {
            assert(h[i - 1] != '.');
        }
    }
    assert forall|i: int| 0 <= i < h.len() && #[trigger] starts_label(h, i) && (forall|j: int|
        i <= j < h.len() ==> #[trigger] h[j] != '.') implies is_ascii_letter(h[i]) by {
        if i >= 4 {
            assert(h[i] == host[i - 4]);
            if i > 4 {
                assert(h[i - 1] == host[i - 5]);
            }
            assert(starts_label(host, i - 4));
            assert forall|j: int| i - 4 <= j < host.len() implies #[trigger] host[j] != '.' by {
                assert(h[j + 4] == host[j]);
            }
        } else {
            assert(h[3] == '.');
        }
    }
    assert(ascii_lowercase(www) =~= www);
    assert(ascii_lowercase(h) =~= www + ascii_lowercase(host));
    assert(web_url_serialization(scheme, h) =~= ascii_lowercase(scheme) + seq![
        ':',
        '/',
        '/',
        'w',
        'w',
        'w',
        '.',
    ] + ascii_lowercase(host) + seq!['/']);
}

/// The scheme of an `http` or `https` URL is kept: `http` stays `http` and
/// `https` stays `https`.
pub proof fn lemma_web_url_keeps_scheme(scheme: Seq<char>, host: Seq<char>)
    requires
        is_web_scheme(scheme),
        is_plain_domain_name(host),
    ensures
        web_url_serialization(scheme, host).take(scheme.len() as int) == ascii_lowercase(scheme),
        web_url_serialization(scheme, host)[scheme.len() as int] == ':',
{
    let ser = web_url_serialization(scheme, host);
    assert(ser.take(scheme.len() as int) =~= ascii_lowercase(scheme));
}

/// Why a text was refused as a URL.
#[derive(Debug, Clone, Copy, PartialEq, Eq, Structural)]
pub enum UrlError {
    /// The text does not parse as an absolute URL.
    NotAnAbsoluteUrl,
}

/// The identifier of a connection.
#[derive(Debug, Clone, PartialEq, Eq, Hash)]
pub struct ConnectionId(String);

impl View for ConnectionId {
    type V = Seq<char>;

    closed spec fn view(&self) -> Seq<char> {
        self.0@
    }
}

impl ConnectionId {
    /// A connection identifier with the text `id`.
    pub fn new(id: &str) -> (r: Self)
        ensures
            r@ == id@,
    {
        ConnectionId(String::from_str(id))
    }

    /// The text of this identifier.
    pub fn as_str(&self) -> (text: &str)
        ensures
            text@ == self@,
    {
        self.0.as_str()
    }
}

/// The display name of a connection.
#[derive(Debug, Clone, PartialEq, Eq, Hash)]
pub struct ConnectionName(String);

impl View for ConnectionName {
    type V = Seq<char>;

    closed spec fn view(&self) -> Seq<char> {
        self.0@
    }
}

impl ConnectionName {
    /// A connection name with the text `name`.
    pub fn new(name: &str) -> (r: Self)
        ensures
            r@ == name@,
    {
        ConnectionName(String::from_str(name))
    }

    /// The text of this name.
    pub fn as_str(&self) -> (text: &str)
        ensures
            text@ == self@,
    {
        self.0.as_str()
    }
}

/// The identifier of the institution behind a connection.
#[derive(Debug, Clone, PartialEq, Eq, Hash)]
pub struct OrganizationId(String);

impl View for OrganizationId {
    type V = Seq<char>;

    closed spec fn view(&self) -> Seq<char> {
        self.0@
    }
}

impl OrganizationId {
    /// An organization identifier with the text `id`.
    pub fn new(id: &str) -> (r: Self)
        ensures
            r@ == id@,
    {
        OrganizationId(String::from_str(id))
    }

    /// The text of this identifier.
    pub fn as_str(&self) -> (text: &str)
        ensures
            text@ == self@,
    {
        self.0.as_str()
    }
}

/// The web address of the institution behind a connection.
#[derive(Debug, Clone, PartialEq, Eq, Hash)]
pub struct OrganizationUrl(String);

impl View for OrganizationUrl {
    type V = Seq<char>;

    closed spec fn view(&self) -> Seq<char> {
        self.0@
    }
}

impl OrganizationUrl {
    /// An organization address parsed from `url`, held in the url crate's serialization of it;
    /// fails with `UrlError::NotAnAbsoluteUrl` where `url` does not parse as an
    /// absolute URL.
    pub fn new(url: &str) -> (r: Result<Self, UrlError>)
        ensures
            match url_serialization(url@) {
                Some(serialized) => r matches Ok(u) && u@ == serialized,
                None => r == Err::<Self, UrlError>(UrlError::NotAnAbsoluteUrl),
            },
            forall|scheme: Seq<char>, host: Seq<char>|
                is_web_scheme(scheme) && is_plain_domain_name(host) && url@ == #[trigger] web_url_text(
                    scheme,
                    host,
                ) ==> (r matches Ok(u) && u@ == web_url_serialization(scheme, host)),
    {
        let parsed = parse_url(url);
        let ghost given = parsed;
        let r = Self::from_parsed(parsed);
        assert forall|scheme: Seq<char>, host: Seq<char>|
            is_web_scheme(scheme) && is_plain_domain_name(host) && url@ == #[trigger] web_url_text(
                scheme,
                host,
            ) implies (r matches Ok(u) && u@ == web_url_serialization(scheme, host)) by {
            assert(given matches Some(serialized) && serialized@ == web_url_serialization(
                scheme,
                host,
            ));
        }
        r
    }

    /// An organization address from what parsing a text as a URL gave: the URL's serialization,
    /// or `None` where the text did not parse.
    pub fn from_parsed(parsed: Option<String>) -> (r: Result<Self, UrlError>)
        ensures
            match parsed {
                Some(serialized) => r matches Ok(u) && u@ == serialized@,
                None => r == Err::<Self, UrlError>(UrlError::NotAnAbsoluteUrl),
            },
    {
        match parsed {
            Some(serialized) => Ok(OrganizationUrl(serialized)),
            None => Err(UrlError::NotAnAbsoluteUrl),
        }
    }

    /// The text of this address.
    pub fn as_str(&self) -> (text: &str)
        ensures
            text@ == self@,
    {
        self.0.as_str()
    }
}

/// The address of the SimpleFIN server of a connection.
#[derive(Debug, Clone, PartialEq, Eq, Hash)]
pub struct SimplefinUrl(String);

impl View for SimplefinUrl {
    type V = Seq<char>;

    closed spec fn view(&self) -> Seq<char> {
        self.0@
    }
}

impl SimplefinUrl {
    /// A SimpleFIN server address parsed from `url`, held in the url crate's serialization of it;
    /// fails with `UrlError::NotAnAbsoluteUrl` where `url` does not parse as an
    /// absolute URL.
    pub fn new(url: &str) -> (r: Result<Self, UrlError>)
        ensures
            match url_serialization(url@) {
                Some(serialized) => r matches Ok(u) && u@ == serialized,
                None => r == Err::<Self, UrlError>(UrlError::NotAnAbsoluteUrl),
            },
            forall|scheme: Seq<char>, host: Seq<char>|
                is_web_scheme(scheme) && is_plain_domain_name(host) && url@ == #[trigger] web_url_text(
                    scheme,
                    host,
                ) ==> (r matches Ok(u) && u@ == web_url_serialization(scheme, host)),
    {
        let parsed = parse_url(url);
        let ghost given = parsed;
        let r = Self::from_parsed(parsed);
        assert forall|scheme: Seq<char>, host: Seq<char>|
            is_web_scheme(scheme) && is_plain_domain_name(host) && url@ == #[trigger] web_url_text(
                scheme,
                host,
            ) implies (r matches Ok(u) && u@ == web_url_serialization(scheme, host)) by {
            assert(given matches Some(serialized) && serialized@ == web_url_serialization(
                scheme,
                host,
            ));
        }
        r
    }

    /// A SimpleFIN server address from what parsing a text as a URL gave: the URL's serialization,
    /// or `None` where the text did not parse.
    pub fn from_parsed(parsed: Option<String>) -> (r: Result<Self, UrlError>)
        ensures
            match parsed {
                Some(serialized) => r matches Ok(u) && u@ == serialized@,
                None => r == Err::<Self, UrlError>(UrlError::NotAnAbsoluteUrl),
            },
    {
        match parsed {
            Some(serialized) => Ok(SimplefinUrl(serialized)),
            None => Err(UrlError::NotAnAbsoluteUrl),
        }
    }

    /// The text of this address.
    pub fn as_str(&self) -> (text: &str)
        ensures
            text@ == self@,
    {
        self.0.as_str()
    }
}

/// A connection between a SimpleFIN server and an institution.
#[derive(Debug, Clone, PartialEq, Eq)]
pub struct Connection {
    pub connection_id: ConnectionId,
    pub name: ConnectionName,
    pub organization_id: OrganizationId,
    pub organization_url: Option<OrganizationUrl>,
    pub simplefin_url: SimplefinUrl,
}

} // verus!
