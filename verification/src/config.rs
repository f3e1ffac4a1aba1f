//! The configuration of the server, from the values of its environment.

use vstd::prelude::*;
use crate::decimal::{decimal_text, parse_u16, render_u64, u16_of_text};

verus! {

pub const DEFAULT_PORT: u16 = 3000;

/// Where the server finds its store and where it listens.
#[derive(Debug, PartialEq, Eq)]
pub struct Config {
    pub database_url: String,
    pub server_port: u16,
    pub server_host: String,
}

/// What an optional text holds, or `default` where there is none.
pub open spec fn text_or(value: Option<String>, default: Seq<char>) -> Seq<char> {
    match value {
        Some(text) => text@,
        None => default,
    }
}

/// The port that a setting stands for: the number written in it, or the
/// default where there is no setting or it is no port number.
pub open spec fn port_of(value: Option<String>) -> u16 {
    match value {
        Some(text) => match u16_of_text(text@) {
            Some(port) => port,
            None => DEFAULT_PORT,
        },
        None => DEFAULT_PORT,
    }
}

/// The address `host:port`.
pub open spec fn address_text(host: Seq<char>, port: u16) -> Seq<char> {
    host + seq![':'] + decimal_text(port as nat)
}

impl Config {
    /// Builds the configuration from the settings `DATABASE_URL`, `PORT` and
    /// `HOST`, each as it was found or not. A missing setting takes its
    /// default: the store `backend.db`, port 3000, host `127.0.0.1`. A port
    /// that is no decimal number of 16 bits takes the default too.
    pub fn from_values(database_url: Option<String>, port: Option<String>, host: Option<String>)
        -> (r: Config)
        ensures
            r.database_url@ == text_or(database_url, "backend.db"@),
            r.server_port == port_of(port),
            r.server_host@ == text_or(host, "127.0.0.1"@),
    {
        let server_port = match &port {
            Some(text) => match parse_u16(text.as_str()) {
                Some(number) => number,
                None => DEFAULT_PORT,
            },
            None => DEFAULT_PORT,
        };
        Config {
            database_url: match database_url {
                Some(text) => text,
                None => String::from_str("backend.db"),
            },
            server_port,
            server_host: match host {
                Some(text) => text,
                None => String::from_str("127.0.0.1"),
            },
        }
    }

    /// The address on which the server listens: host, colon, port.
    pub fn server_address(&self) -> (r: String)
        ensures
            r@ == address_text(self.server_host@, self.server_port),
    {
        let mut out = self.server_host.clone();
        proof {
            reveal_strlit(":");
            assert(":"@ =~= seq![':']);
        }
        out.append(":");
        let port = render_u64(self.server_port as u64);
        out.append(port.as_str());
        out
    }
}

} // verus!
