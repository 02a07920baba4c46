//! Configuration sections the services share, and what is derived from them:
//! listen addresses, log levels, MQTT client settings and the database URL.

use vstd::prelude::*;
use vstd::string::*;

use crate::util::text::{decimal_string, decimal_text, same_text};

verus! {

/// Where a server listens.
#[derive(Clone, Debug)]
pub struct ServerConfig {
    pub port: u16,
    pub listen_address: String,
}

impl ServerConfig {
    /// The text `<listen_address>:<port>` that the server binds to.
    pub fn bind_address(&self) -> (r: String)
        ensures
            r@ == self.listen_address@ + ":"@ + decimal_text(self.port as nat),
    {
        let mut r = self.listen_address.clone();
        r.append(":");
        let port = decimal_string(self.port as u128);
        r.append(port.as_str());
        r
    }
}

/// The prefix of a service's metrics.
#[derive(Clone, Debug)]
pub struct MetricsConfig {
    pub prefix: String,
}

/// How much the services log.
#[allow(non_camel_case_types)]
#[derive(Clone, Copy, Debug, PartialEq, Eq, Structural)]
pub enum LevelFilter {
    OFF,
    ERROR,
    WARN,
    INFO,
    DEBUG,
    TRACE,
}

/// The level a configuration names, if it names one.
pub open spec fn level_named(value: Seq<char>) -> Option<LevelFilter> {
    if value == "OFF"@ {
        Some(LevelFilter::OFF)
    } else if value == "ERROR"@ {
        Some(LevelFilter::ERROR)
    } else if value == "WARN"@ {
        Some(LevelFilter::WARN)
    } else if value == "INFO"@ {
        Some(LevelFilter::INFO)
    } else if value == "DEBUG"@ {
        Some(LevelFilter::DEBUG)
    } else if value == "TRACE"@ {
        Some(LevelFilter::TRACE)
    } else {
        None
    }
}

/// Law: each log level is read from exactly one name, and every level can
/// be named.
pub proof fn lemma_level_names(a: Seq<char>, b: Seq<char>, l: LevelFilter)
    ensures
        level_named(a) is Some && level_named(a) == level_named(b) ==> a == b,
        exists|name: Seq<char>| #[trigger] level_named(name) == Some(l),
{
    reveal_strlit("OFF");
    reveal_strlit("ERROR");
    reveal_strlit("WARN");
    reveal_strlit("INFO");
    reveal_strlit("DEBUG");
    reveal_strlit("TRACE");
    assert("OFF"@[0] == 'O' && "ERROR"@[0] == 'E' && "WARN"@[0] == 'W' && "INFO"@[0] == 'I'
        && "DEBUG"@[0] == 'D' && "TRACE"@[0] == 'T');
    match l {
        LevelFilter::OFF => assert(level_named("OFF"@) == Some(l)),
        LevelFilter::ERROR => assert(level_named("ERROR"@) == Some(l)),
        LevelFilter::WARN => assert(level_named("WARN"@) == Some(l)),
        LevelFilter::INFO => assert(level_named("INFO"@) == Some(l)),
        LevelFilter::DEBUG => assert(level_named("DEBUG"@) == Some(l)),
        LevelFilter::TRACE => assert(level_named("TRACE"@) == Some(l)),
    }
}

/// Reads a configured log level; anything else is refused with the message
/// `unknown log level: <value>`.
pub fn parse_level_filter(value: &str) -> (r: Result<LevelFilter, String>)
    ensures
        level_named(value@) matches Some(l) ==> r == Ok::<LevelFilter, String>(l),
        level_named(value@) is None ==> (r matches Err(m) && m@ == "unknown log level: "@ + value@),
{
    if same_text(value, "OFF") {
        Ok(LevelFilter::OFF)
    } else if same_text(value, "ERROR") {
        Ok(LevelFilter::ERROR)
    } else if same_text(value, "WARN") {
        Ok(LevelFilter::WARN)
    } else if same_text(value, "INFO") {
        Ok(LevelFilter::INFO)
    } else if same_text(value, "DEBUG") {
        Ok(LevelFilter::DEBUG)
    } else if same_text(value, "TRACE") {
        Ok(LevelFilter::TRACE)
    } else {
        let mut m = String::from_str("unknown log level: ");
        m.append(value);
        Err(m)
    }
}

/// Where traces go and how much is traced.
#[derive(Clone, Debug)]
pub struct TracingConfig {
    pub level: LevelFilter,
    pub tempo_url: String,
    pub tempo_port: u32,
    pub service_name: String,
}

impl TracingConfig {
    /// The text `<tempo_url>:<tempo_port>` of the endpoint traces are exported to.
    pub fn endpoint(&self) -> (r: String)
        ensures
            r@ == self.tempo_url@ + ":"@ + decimal_text(self.tempo_port as nat),
    {
        let mut r = self.tempo_url.clone();
        r.append(":");
        let port = decimal_string(self.tempo_port as u128);
        r.append(port.as_str());
        r
    }
}

} // verus!
