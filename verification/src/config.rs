//! The configuration surface as plain data: the inbound bind
//! addresses, the producer's endpoint, the logging style, and the
//! documented defaults for all three. Reading flags, environment
//! variables and dotenv files is the collaborator's job outside the
//! library; it hands validated values in and takes them back as text.

use vstd::prelude::*;
use crate::numerals::{dec_text, fmt_u64, lemma_dec_text_val, lemma_numeral_prefix_unique};

verus! {

broadcast use vstd::string::group_string_axioms;

/// How log lines are formatted.
#[derive(Clone, Copy, Debug, PartialEq, Eq, Structural)]
pub enum LoggingStyle {
    /// Uses compact logging.
    Compact,
    /// Uses JSON formatted logging
    Json,
}

/// A rejected configuration value.
#[derive(Clone, Copy, Debug, PartialEq, Eq, Structural)]
pub enum ConfigError {
    /// The logging style was neither simple nor json.
    UnknownLoggingStyle,
}

impl ConfigError {
    /// The message shown for this error.
    pub fn message(&self) -> (m: String)
        ensures
            m@ == "Either simple or json must be specified"@,
    {
        String::from_str("Either simple or json must be specified")
    }
}

/// Reads a logging style name: `simple` and `compat` select compact
/// logging, `json` selects JSON logging, and every other name is
/// rejected.
pub fn parse_logging_style(s: &str) -> (r: Result<LoggingStyle, ConfigError>)
    ensures
        r == Ok::<LoggingStyle, ConfigError>(LoggingStyle::Compact) <==> (s@ == "simple"@ || s@
            == "compat"@),
        r == Ok::<LoggingStyle, ConfigError>(LoggingStyle::Json) <==> s@ == "json"@,
        r is Err <==> (s@ != "simple"@ && s@ != "compat"@ && s@ != "json"@),
{
    proof {
        reveal_strlit("simple");
        reveal_strlit("compat");
        reveal_strlit("json");
        assert("simple"@.len() == 6 && "compat"@.len() == 6 && "json"@.len() == 4);
        assert("simple"@[0] == 's' && "compat"@[0] == 'c');
    }
    let t = s.to_owned();
    if t.eq(&String::from_str("simple")) {
        Ok(LoggingStyle::Compact)
    } else if t.eq(&String::from_str("compat")) {
        Ok(LoggingStyle::Compact)
    } else if t.eq(&String::from_str("json")) {
        Ok(LoggingStyle::Json)
    } else {
        Err(ConfigError::UnknownLoggingStyle)
    }
}

/// An inbound listen address: four IPv4 octets and a port.
#[derive(Clone, Copy, Debug, PartialEq, Eq, Structural)]
pub struct BindAddr {
    pub o1: u8,
    pub o2: u8,
    pub o3: u8,
    pub o4: u8,
    pub port: u16,
}

/// The canonical dotted-quad text of a bind address.
pub open spec fn bind_addr_text(a: BindAddr) -> Seq<char> {
    dec_text(a.o1 as nat) + seq!['.'] + (dec_text(a.o2 as nat) + seq!['.'] + (dec_text(
        a.o3 as nat,
    ) + seq!['.'] + (dec_text(a.o4 as nat) + seq![':'] + dec_text(a.port as nat))))
}

impl BindAddr {
    /// Renders the address in its canonical dotted-quad form.
    pub fn text(&self) -> (s: String)
        ensures
            s@ == bind_addr_text(*self),
    {
        proof {
            reveal_strlit(".");
            reveal_strlit(":");
        }
        let mut s = fmt_u64(self.o1 as u64);
        s.append(".");
        s.append(fmt_u64(self.o2 as u64).as_str());
        s.append(".");
        s.append(fmt_u64(self.o3 as u64).as_str());
        s.append(".");
        s.append(fmt_u64(self.o4 as u64).as_str());
        s.append(":");
        s.append(fmt_u64(self.port as u64).as_str());
        proof {
            assert(s@ =~= bind_addr_text(*self));
        }
        s
    }
}

/// The wire form of a bind address is lossless: two addresses with
/// the same canonical text are the same address, so the text can
/// stand for the address wherever the collaborator needs it.
pub proof fn lemma_bind_addr_text_injective(a: BindAddr, b: BindAddr)
    requires
        bind_addr_text(a) == bind_addr_text(b),
    ensures
        a == b,
{
    let ra3 = dec_text(a.o4 as nat) + seq![':'] + dec_text(a.port as nat);
    let ra2 = dec_text(a.o3 as nat) + seq!['.'] + ra3;
    let ra1 = dec_text(a.o2 as nat) + seq!['.'] + ra2;
    let rb3 = dec_text(b.o4 as nat) + seq![':'] + dec_text(b.port as nat);
    let rb2 = dec_text(b.o3 as nat) + seq!['.'] + rb3;
    let rb1 = dec_text(b.o2 as nat) + seq!['.'] + rb2;
    assert(bind_addr_text(a) == dec_text(a.o1 as nat) + seq!['.'] + ra1);
    assert(bind_addr_text(b) == dec_text(b.o1 as nat) + seq!['.'] + rb1);
    lemma_numeral_prefix_unique(a.o1 as nat, ra1, b.o1 as nat, rb1, '.');
    lemma_numeral_prefix_unique(a.o2 as nat, ra2, b.o2 as nat, rb2, '.');
    lemma_numeral_prefix_unique(a.o3 as nat, ra3, b.o3 as nat, rb3, '.');
    lemma_numeral_prefix_unique(
        a.o4 as nat,
        dec_text(a.port as nat),
        b.o4 as nat,
        dec_text(b.port as nat),
        ':',
    );
    lemma_dec_text_val(a.port as nat);
    lemma_dec_text_val(b.port as nat);
}

/// The scheme of the producer's endpoint.
#[derive(Clone, Copy, Debug, PartialEq, Eq, Structural)]
pub enum Scheme {
    Http,
    Https,
}

/// The text of a scheme.
pub open spec fn scheme_text(s: Scheme) -> Seq<char> {
    match s {
        Scheme::Http => "http"@,
        Scheme::Https => "https"@,
    }
}

/// The producer's RPC endpoint: scheme, host and port.
#[derive(Debug, PartialEq, Eq)]
pub struct Endpoint {
    pub scheme: Scheme,
    pub host: String,
    pub port: u16,
}

/// The canonical text of an endpoint.
pub open spec fn endpoint_text(e: Endpoint) -> Seq<char> {
    scheme_text(e.scheme) + "://"@ + e.host@ + seq![':'] + dec_text(e.port as nat)
}

impl Endpoint {
    /// Renders the endpoint in its canonical form.
    pub fn text(&self) -> (s: String)
        ensures
            s@ == endpoint_text(*self),
    {
        proof {
            reveal_strlit(":");
        }
        let mut s = match self.scheme {
            Scheme::Http => String::from_str("http"),
            Scheme::Https => String::from_str("https"),
        };
        s.append("://");
        s.append(self.host.as_str());
        s.append(":");
        s.append(fmt_u64(self.port as u64).as_str());
        proof {
            assert(s@ =~= endpoint_text(*self));
        }
        s
    }
}

/// The whole configuration: where to listen, where the producer is,
/// and how to log.
pub struct Config {
    /// The inbound addresses, bound in order; every one must bind for
    /// the gateway to start serving.
    pub bind: Vec<BindAddr>,
    /// The producer endpoint the single channel is opened toward.
    pub target: Endpoint,
    /// The logging style.
    pub logging: LoggingStyle,
}

/// The documented defaults: listen on 127.0.0.1 port 8080, reach the
/// producer at http on 127.0.0.1 port 50051, log compactly.
pub fn default_config() -> (c: Config)
    ensures
        c.bind@.len() == 1,
        c.bind@[0] == (BindAddr { o1: 127, o2: 0, o3: 0, o4: 1, port: 8080 }),
        c.target.scheme == Scheme::Http,
        c.target.host@ == "127.0.0.1"@,
        c.target.port == 50051,
        c.logging == LoggingStyle::Compact,
{
    let mut bind: Vec<BindAddr> = Vec::new();
    bind.push(BindAddr { o1: 127, o2: 0, o3: 0, o4: 1, port: 8080 });
    Config {
        bind,
        target: Endpoint {
            scheme: Scheme::Http,
            host: String::from_str("127.0.0.1"),
            port: 50051,
        },
        logging: LoggingStyle::Compact,
    }
}

} // verus!
