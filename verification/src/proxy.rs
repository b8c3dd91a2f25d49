//! Proxies handed through to the solver.

use crate::text;
use vstd::prelude::*;

verus! {

/// HTTP/SOCKS proxy passed through to the underlying solver.
#[derive(Debug)]
pub struct ProxyConfig {
    pub url: String,
    pub username: Option<String>,
    pub password: Option<String>,
}

/// What a [`ProxyConfig`] says.
pub struct ProxyView {
    pub url: Seq<char>,
    pub username: Option<Seq<char>>,
    pub password: Option<Seq<char>>,
}

impl View for ProxyConfig {
    type V = ProxyView;

    open spec fn view(&self) -> ProxyView {
        ProxyView {
            url: self.url@,
            username: text::opt_text(self.username),
            password: text::opt_text(self.password),
        }
    }
}

impl Clone for ProxyConfig {
    fn clone(&self) -> (r: Self)
        ensures
            r@ == self@,
    {
        ProxyConfig {
            url: self.url.clone(),
            username: self.username.clone(),
            password: self.password.clone(),
        }
    }
}

/// What an optional proxy says.
pub open spec fn opt_proxy(p: Option<ProxyConfig>) -> Option<ProxyView> {
    match p {
        Some(p) => Some(p@),
        None => None,
    }
}

/// A proxy known by its URL alone.
pub open spec fn bare_proxy(url: Seq<char>) -> ProxyView {
    ProxyView { url, username: None, password: None }
}

impl ProxyConfig {
    /// Create a proxy with a full URL (may already include credentials).
    pub fn new(url: &str) -> (p: Self)
        ensures
            p@ == bare_proxy(url@),
    {
        ProxyConfig { url: url.to_string(), username: None, password: None }
    }

    /// Convenience for HTTP proxies.
    pub fn http(url: &str) -> (p: Self)
        ensures
            p@ == bare_proxy(url@),
    {
        Self::new(url)
    }

    /// Attach credentials (preferred over embedding them in the URL).
    pub fn with_auth(self, user: &str, pass: &str) -> (p: Self)
        ensures
            p@ == (ProxyView { username: Some(user@), password: Some(pass@), ..self@ }),
    {
        ProxyConfig {
            url: self.url,
            username: Some(user.to_string()),
            password: Some(pass.to_string()),
        }
    }
}

/// A proxy says what it holds, and one made of a URL has that URL and no credentials.
pub proof fn proxies_say_what_they_hold(p: ProxyConfig, url: Seq<char>)
    ensures
        p@.url == p.url@,
        p@.username is Some <==> p.username is Some,
        p.username is Some ==> p@.username->0 == p.username->0@,
        p@.password is Some <==> p.password is Some,
        p.password is Some ==> p@.password->0 == p.password->0@,
        opt_proxy(Some(p)) == Some(p@),
        opt_proxy(None) is None,
        bare_proxy(url).url == url,
        bare_proxy(url).username is None,
        bare_proxy(url).password is None,
{
}

} // verus!
