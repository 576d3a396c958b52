//! The target of a request: the URL that the client asks the proxy to fetch.

use crate::response::Failure;
use vstd::prelude::*;
use vstd::string::StringExecFns;

verus! {

/// What `http::Uri` makes of a text: `None` where it does not parse as a URI,
/// else the scheme and the host that the parsed URI reports, each `None`
/// where the URI has none.
pub uninterp spec fn parsed_uri(text: Seq<char>) -> Option<(Option<Seq<char>>, Option<Seq<char>>)>;

/// Parses a text as a URI and reads its scheme and host.
///
/// Calls `<http::Uri as FromStr>::from_str`, then `Uri::scheme_str` and
/// `Uri::host` on the result. The contract names the outcome: `parsed_uri` of
/// the text is `None` exactly when parsing fails, and else holds the two parts
/// as the URI reports them.
#[verifier::external_body]
fn parse_uri(text: &str) -> (r: Option<(Option<String>, Option<String>)>)
    ensures
        match r {
            Some((scheme, host)) => parsed_uri(text@) == Some(
                (
                    match scheme {
                        Some(s) => Some(s@),
                        None => None,
                    },
                    match host {
                        Some(h) => Some(h@),
                        None => None,
                    },
                ),
            ),
            None => parsed_uri(text@) is None,
        },
{
    match <http::Uri as std::str::FromStr>::from_str(text) {
        Ok(uri) => Some((uri.scheme_str().map(String::from), uri.host().map(String::from))),
        Err(_) => None,
    }
}

/// The schemes the proxy fetches from.
#[derive(Clone, Copy, Debug, PartialEq, Eq, Structural)]
pub enum Scheme {
    Http,
    Https,
}

impl Scheme {
    /// The port that the scheme implies: 80 for `http`, 443 for `https`.
    pub open spec fn spec_port(self) -> u16 {
        match self {
            Scheme::Http => 80,
            Scheme::Https => 443,
        }
    }

    #[verifier::when_used_as_spec(spec_port)]
    pub fn port(self) -> (r: u16)
        ensures
            r == self.spec_port(),
    {
        match self {
            Scheme::Http => 80,
            Scheme::Https => 443,
        }
    }
}

/// The scheme that a scheme name stands for, if the proxy fetches from it.
/// The name is compared as the URI reports it, in lower case.
pub open spec fn scheme_named(name: Seq<char>) -> Option<Scheme> {
    if name == "http"@ {
        Some(Scheme::Http)
    } else if name == "https"@ {
        Some(Scheme::Https)
    } else {
        None
    }
}

/// A validated target, as mathematical values.
pub struct TargetView {
    pub scheme: Scheme,
    pub host: Seq<char>,
    pub port: u16,
}

/// A validated target: an `http` or `https` URL with a host, and the port
/// that its scheme implies.
#[derive(Clone, Debug, PartialEq, Eq)]
pub struct Target {
    pub scheme: Scheme,
    pub host: String,
    pub port: u16,
}

impl View for Target {
    type V = TargetView;

    open spec fn view(&self) -> TargetView {
        TargetView { scheme: self.scheme, host: self.host@, port: self.port }
    }
}

/// The character of a decimal digit.
pub open spec fn digit_char(digit: nat) -> char {
    (48 + digit) as u8 as char
}

/// The decimal notation of a number, without leading zeros.
pub open spec fn decimal_text(n: nat) -> Seq<char>
    decreases n,
{
    if n < 10 {
        seq![digit_char(n)]
    } else {
        decimal_text(n / 10) + seq![digit_char(n % 10)]
    }
}

fn digit_text(digit: u16) -> (r: &'static str)
    requires
        digit < 10,
    ensures
        r@ == seq![digit_char(digit as nat)],
{
    proof {
        reveal_strlit("0");
        reveal_strlit("1");
        reveal_strlit("2");
        reveal_strlit("3");
        reveal_strlit("4");
        reveal_strlit("5");
        reveal_strlit("6");
        reveal_strlit("7");
        reveal_strlit("8");
        reveal_strlit("9");
    }
    let r = match digit {
        0 => "0",
        1 => "1",
        2 => "2",
        3 => "3",
        4 => "4",
        5 => "5",
        6 => "6",
        7 => "7",
        8 => "8",
        _ => "9",
    };
    assert(r@ =~= seq![digit_char(digit as nat)]);
    r
}

/// Writes a port number in decimal.
pub fn decimal(n: u16) -> (r: String)
    ensures
        r@ == decimal_text(n as nat),
    decreases n,
{
    if n < 10 {
        String::from_str(digit_text(n))
    } else {
        let mut text = decimal(n / 10);
        text.append(digit_text(n % 10));
        text
    }
}

/// The address under which a target is looked up: its host, a colon and its
/// port.
pub open spec fn lookup_text(target: TargetView) -> Seq<char> {
    target.host + seq![':'] + decimal_text(target.port as nat)
}

impl Target {
    /// The address to resolve for this target, in the form `host:port`.
    pub fn lookup_address(&self) -> (r: String)
        ensures
            r@ == lookup_text(self@),
    {
        let mut address = self.host.clone();
        proof {
            reveal_strlit(":");
        }
        address.append(":");
        address.append(decimal(self.port).as_str());
        assert(":"@ =~= seq![':']);
        address
    }
}

/// What validation makes of a target URL: the target, or the reason for which
/// it is refused. A text that is no URI or has no host is an invalid target;
/// a URI without a scheme, or with one other than `http` and `https`, has an
/// unsupported scheme.
pub open spec fn validated_target(url: Seq<char>) -> Result<TargetView, Failure> {
    match parsed_uri(url) {
        None => Err(Failure::InvalidTarget),
        Some((_, None)) => Err(Failure::InvalidTarget),
        Some((None, Some(_))) => Err(Failure::UnsupportedScheme),
        Some((Some(name), Some(host))) => match scheme_named(name) {
            Some(scheme) => Ok(TargetView { scheme, host, port: scheme.spec_port() }),
            None => Err(Failure::UnsupportedScheme),
        },
    }
}

/// Validates a target URL.
pub fn validate_target(url: &str) -> (r: Result<Target, Failure>)
    ensures
        match r {
            Ok(target) => validated_target(url@) == Ok::<TargetView, Failure>(target@),
            Err(failure) => validated_target(url@) == Err::<TargetView, Failure>(failure),
        },
{
    match parse_uri(url) {
        None => Err(Failure::InvalidTarget),
        Some((scheme, host)) => match host {
            None => Err(Failure::InvalidTarget),
            Some(host) => match scheme {
                None => Err(Failure::UnsupportedScheme),
                Some(name) => {
                    if name == String::from_str("http") {
                        Ok(Target { scheme: Scheme::Http, host, port: Scheme::Http.port() })
                    } else if name == String::from_str("https") {
                        Ok(Target { scheme: Scheme::Https, host, port: Scheme::Https.port() })
                    } else {
                        Err(Failure::UnsupportedScheme)
                    }
                },
            },
        },
    }
}

} // verus!
