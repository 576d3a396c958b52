//! The configuration of a running proxy.

use vstd::prelude::*;

verus! {

/// What a [`State`] holds, as mathematical values.
pub struct StateView {
    /// The scheme under which clients reach the proxy.
    pub scheme: Seq<char>,
    /// The host the listener binds to.
    pub host: Seq<char>,
    /// The port the listener binds to.
    pub port: Seq<char>,
    /// The authority under which clients reach the proxy; it is written into
    /// every rewritten URI.
    pub domain: Seq<char>,
    /// The forwarding proxy for upstream requests, if one is configured.
    pub proxy: Option<Seq<char>>,
    /// The shared secret a request has to present.
    pub key: Seq<char>,
}

/// The configuration of the proxy. It is built once, before any request is
/// served, and only read afterwards.
pub struct State {
    scheme: String,
    host: String,
    port: String,
    domain: String,
    proxy: Option<String>,
    key: String,
}

impl View for State {
    type V = StateView;

    closed spec fn view(&self) -> StateView {
        StateView {
            scheme: self.scheme@,
            host: self.host@,
            port: self.port@,
            domain: self.domain@,
            proxy: match self.proxy {
                Some(p) => Some(p@),
                None => None,
            },
            key: self.key@,
        }
    }
}

impl State {
    pub fn new(
        scheme: String,
        host: String,
        port: String,
        domain: String,
        proxy: Option<String>,
        key: String,
    ) -> (state: Self)
        ensures
            state@.scheme == scheme@,
            state@.host == host@,
            state@.port == port@,
            state@.domain == domain@,
            state@.key == key@,
            match proxy {
                Some(p) => state@.proxy == Some(p@),
                None => state@.proxy is None,
            },
    {
        Self { scheme, host, port, domain, proxy, key }
    }

    pub fn scheme(&self) -> (r: &str)
        ensures
            r@ == self@.scheme,
    {
        self.scheme.as_str()
    }

    pub fn host(&self) -> (r: &str)
        ensures
            r@ == self@.host,
    {
        self.host.as_str()
    }

    pub fn port(&self) -> (r: &str)
        ensures
            r@ == self@.port,
    {
        self.port.as_str()
    }

    pub fn domain(&self) -> (r: &str)
        ensures
            r@ == self@.domain,
    {
        self.domain.as_str()
    }

    pub fn proxy(&self) -> (r: Option<&str>)
        ensures
            match r {
                Some(p) => self@.proxy == Some(p@),
                None => self@.proxy is None,
            },
    {
        match &self.proxy {
            Some(p) => Some(p.as_str()),
            None => None,
        }
    }

    pub fn key(&self) -> (r: &str)
        ensures
            r@ == self@.key,
    {
        self.key.as_str()
    }

    /// Whether `key` is the configured secret.
    pub fn accepts_key(&self, key: &String) -> (r: bool)
        ensures
            r == (key@ == self@.key),
    {
        *key == self.key
    }
}

} // verus!
