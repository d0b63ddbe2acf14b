//! Where an MQTT client connects, derived from a broker URL.

use vstd::prelude::*;
use url::Url;

verus! {

#[verifier::external_type_specification]
#[verifier::external_body]
pub struct ExUrl(url::Url);

/// What `Url::parse` gives for a text: the URL, or the text of its error.
pub uninterp spec fn url_parse_outcome(text: Seq<char>) -> Result<Url, Seq<char>>;

/// What `Url::host_str` gives for a URL.
pub uninterp spec fn url_host(url: Url) -> Option<Seq<char>>;

/// What `Url::port_or_known_default` gives for a URL.
pub uninterp spec fn url_port(url: Url) -> Option<u16>;

/// What `Url::username` gives for a URL.
pub uninterp spec fn url_username(url: Url) -> Seq<char>;

/// What `Url::password` gives for a URL.
pub uninterp spec fn url_password(url: Url) -> Option<Seq<char>>;

/// Calls `url::Url::parse`. Claimed: the result is the one that
/// `url_parse_outcome` names for the text, the error being taken by its
/// `Display` text; which texts parse is not stated.
#[verifier::external_body]
fn parse_url(text: &str) -> (r: Result<Url, String>)
    ensures
        match r {
            Ok(u) => url_parse_outcome(text@) == Ok::<Url, Seq<char>>(u),
            Err(m) => url_parse_outcome(text@) == Err::<Url, Seq<char>>(m@),
        },
{
    match Url::parse(text) {
        Ok(u) => Ok(u),
        Err(e) => Err(e.to_string()),
    }
}

/// Calls `url::Url::host_str`. Claimed: the result is the one that `url_host`
/// names for the URL.
#[verifier::external_body]
fn host_of(url: &Url) -> (r: Option<String>)
    ensures
        match r {
            Some(h) => url_host(*url) == Some(h@),
            None => url_host(*url) is None,
        },
{
    url.host_str().map(|h| h.to_string())
}

/// Calls `url::Url::port_or_known_default`. Claimed: the result is the one
/// that `url_port` names for the URL.
#[verifier::external_body]
fn port_of(url: &Url) -> (r: Option<u16>)
    ensures
        r == url_port(*url),
{
    url.port_or_known_default()
}

/// Calls `url::Url::username`. Claimed: the result is the one that
/// `url_username` names for the URL.
#[verifier::external_body]
fn username_of(url: &Url) -> (r: String)
    ensures
        r@ == url_username(*url),
{
    url.username().to_string()
}

/// Calls `url::Url::password`. Claimed: the result is the one that
/// `url_password` names for the URL.
#[verifier::external_body]
fn password_of(url: &Url) -> (r: Option<String>)
    ensures
        match r {
            Some(p) => url_password(*url) == Some(p@),
            None => url_password(*url) is None,
        },
{
    url.password().map(|p| p.to_string())
}

/// The user name and password to log in with.
pub struct Credentials {
    pub username: String,
    pub password: String,
}

/// Where to connect and how to log in.
pub struct BrokerEndpoint {
    pub host: String,
    pub port: u16,
    /// Present when the URL names a user; the password is empty when the URL gives none.
    pub credentials: Option<Credentials>,
}

/// The endpoint that a parsed URL describes, by the views of its parts.
pub open spec fn endpoint_matches(e: BrokerEndpoint, url: Url) -> bool {
    &&& url_host(url) == Some(e.host@)
    &&& url_port(url) == Some(e.port)
    &&& if url_username(url).len() == 0 {
        e.credentials is None
    } else {
        &&& e.credentials matches Some(c)
        &&& c.username@ == url_username(url)
        &&& c.password@ == match url_password(url) {
            Some(p) => p,
            None => Seq::<char>::empty(),
        }
    }
}

/// The endpoint that a parsed broker URL names: its host, its port (or the
/// scheme's known default) and, when it names a user, the credentials. Fails
/// with a message when the URL has no host or no port.
pub fn endpoint_from_url(url: &Url) -> (r: Result<BrokerEndpoint, String>)
    ensures
        url_host(*url) is None ==> (r matches Err(m) && m@ == "missing host in broker url"@),
        url_host(*url) is Some && url_port(*url) is None ==> (r matches Err(m) && m@
            == "missing port in broker url"@),
        url_host(*url) is Some && url_port(*url) is Some ==> (r matches Ok(e) && endpoint_matches(
            e,
            *url,
        )),
{
    let host = match host_of(url) {
        Some(h) => h,
        None => {
            return Err("missing host in broker url".to_owned());
        },
    };
    let port: u16 = match port_of(url) {
        Some(p) => p,
        None => {
            return Err("missing port in broker url".to_owned());
        },
    };
    let username = username_of(url);
    let credentials = if username.as_str().is_empty() {
        None
    } else {
        let password = match password_of(url) {
            Some(p) => p,
            None => String::new(),
        };
        Some(Credentials { username, password })
    };
    Ok(BrokerEndpoint { host, port, credentials })
}

/// The endpoint that the broker URL `broker` names; fails with the parser's
/// message when it is no URL, and as `endpoint_from_url` otherwise.
pub fn broker_endpoint(broker: &str) -> (r: Result<BrokerEndpoint, String>)
    ensures
        url_parse_outcome(broker@) matches Err(m) ==> (r matches Err(e) && e@ == m),
        url_parse_outcome(broker@) matches Ok(u) ==> {
            &&& url_host(u) is None ==> (r matches Err(m) && m@ == "missing host in broker url"@)
            &&& url_host(u) is Some && url_port(u) is None ==> (r matches Err(m) && m@
                == "missing port in broker url"@)
            &&& url_host(u) is Some && url_port(u) is Some ==> (r matches Ok(e) && endpoint_matches(
                e,
                u,
            ))
        },
{
    let url = parse_url(broker)?;
    endpoint_from_url(&url)
}

} // verus!
