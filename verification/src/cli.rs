//! Values of the command-line options: the network and the backend
//! implementation, matched without regard to case.

use vstd::prelude::*;
use crate::backend::types::Network;
use crate::text::{lowercase, push_str_chars, string_from_chars, str_eq, to_lowercase};

verus! {

/// Which backend implementation to run.
#[derive(Debug, Clone, Copy, PartialEq, Eq, Structural)]
pub enum BackendChoice {
    Native,
    Ffi,
}

/// The name of a backend choice, as written on the command line.
pub open spec fn backend_name(b: BackendChoice) -> Seq<char> {
    match b {
        BackendChoice::Native => "native"@,
        BackendChoice::Ffi => "ffi"@,
    }
}

/// The backend that the lowercased option value `l` names, or the message
/// refusing it.
pub open spec fn backend_from_lowered(l: Seq<char>) -> Result<BackendChoice, Seq<char>> {
    if l == "native"@ {
        Ok(BackendChoice::Native)
    } else if l == "ffi"@ {
        Ok(BackendChoice::Ffi)
    } else {
        Err("unknown backend: "@ + l + " (expected `native` or `ffi`)"@)
    }
}

/// The network that the lowercased option value `l` names, or the message
/// refusing it.
pub open spec fn network_from_lowered(l: Seq<char>) -> Result<Network, Seq<char>> {
    if l == "mainnet"@ {
        Ok(Network::Mainnet)
    } else if l == "testnet"@ {
        Ok(Network::Testnet)
    } else if l == "regtest"@ {
        Ok(Network::Regtest)
    } else {
        Err("unknown network: "@ + l + " (expected `mainnet`, `testnet`, or `regtest`)"@)
    }
}

/// The model of a parse result whose error is a message.
pub open spec fn parsed<T>(r: Result<T, String>) -> Result<T, Seq<char>> {
    match r {
        Ok(v) => Ok(v),
        Err(m) => Err(m@),
    }
}

/// `prefix`, then `middle`, then `suffix`, as a new string.
fn concat3(prefix: &str, middle: &str, suffix: &str) -> (r: String)
    ensures
        r@ == prefix@ + middle@ + suffix@,
{
    let mut v: Vec<char> = Vec::new();
    push_str_chars(&mut v, prefix);
    push_str_chars(&mut v, middle);
    push_str_chars(&mut v, suffix);
    string_from_chars(&v)
}

impl BackendChoice {
    /// The name of this choice (its display text).
    pub fn name(&self) -> (r: &'static str)
        ensures
            r@ == backend_name(*self),
    {
        proof {
            reveal_strlit("native");
            reveal_strlit("ffi");
        }
        match self {
            BackendChoice::Native => "native",
            BackendChoice::Ffi => "ffi",
        }
    }

    /// Parses a backend name, ignoring case.
    pub fn from_str(s: &str) -> (r: Result<BackendChoice, String>)
        ensures
            parsed(r) == backend_from_lowered(lowercase(s@)),
    {
        let l = to_lowercase(s);
        Self::from_lowered(l.as_str())
    }

    /// The backend named by an already lowercased option value.
    pub fn from_lowered(l: &str) -> (r: Result<BackendChoice, String>)
        ensures
            parsed(r) == backend_from_lowered(l@),
    {
        proof {
            reveal_strlit("native");
            reveal_strlit("ffi");
            reveal_strlit("unknown backend: ");
            reveal_strlit(" (expected `native` or `ffi`)");
        }
        if str_eq(l, "native") {
            Ok(BackendChoice::Native)
        } else if str_eq(l, "ffi") {
            Ok(BackendChoice::Ffi)
        } else {
            Err(concat3("unknown backend: ", l, " (expected `native` or `ffi`)"))
        }
    }
}

/// Parses a network name, ignoring case.
pub fn parse_network(s: &str) -> (r: Result<Network, String>)
    ensures
        parsed(r) == network_from_lowered(lowercase(s@)),
{
    let l = to_lowercase(s);
    network_from_lowercase(l.as_str())
}

/// The network named by an already lowercased option value.
pub fn network_from_lowercase(l: &str) -> (r: Result<Network, String>)
    ensures
        parsed(r) == network_from_lowered(l@),
{
    proof {
        reveal_strlit("mainnet");
        reveal_strlit("testnet");
        reveal_strlit("regtest");
        reveal_strlit("unknown network: ");
        reveal_strlit(" (expected `mainnet`, `testnet`, or `regtest`)");
    }
    if str_eq(l, "mainnet") {
        Ok(Network::Mainnet)
    } else if str_eq(l, "testnet") {
        Ok(Network::Testnet)
    } else if str_eq(l, "regtest") {
        Ok(Network::Regtest)
    } else {
        Err(concat3("unknown network: ", l, " (expected `mainnet`, `testnet`, or `regtest`)"))
    }
}

} // verus!
