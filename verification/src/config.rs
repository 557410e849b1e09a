//! Gateway configuration: merging command-line arguments with environment
//! values, defaulting, and validating the RPC URL.
//!
//! Reading the environment and any dotenv file happens outside the crate;
//! the resolution below takes those readings as plain values.

use vstd::prelude::*;

verus! {

/// Command-line arguments, already parsed.
#[derive(Debug, Clone)]
pub struct CliArgs {
    pub rpc_url: Option<String>,
    pub port: u16,
    pub config: Option<String>,
}

/// The resolved gateway configuration.
#[derive(Debug, Clone)]
pub struct Config {
    pub rpc_url: String,
    pub port: u16,
    pub cors_allowed_origins: Vec<String>,
}

/// Configuration errors.
#[derive(Debug, Clone)]
pub enum ConfigError {
    InvalidRpcUrl(String),
}

impl ConfigError {
    /// The rendered message: the fixed prefix, then the offending URL.
    pub open spec fn spec_message(&self) -> Seq<char> {
        match self {
            ConfigError::InvalidRpcUrl(u) => "Invalid RPC URL: "@ + u@,
        }
    }

    pub fn message(&self) -> (s: String)
        ensures
            s@ == self.spec_message(),
    {
        match self {
            ConfigError::InvalidRpcUrl(u) => String::from_str("Invalid RPC URL: ").concat(
                u.as_str(),
            ),
        }
    }
}

/// `prefix` is the beginning of `s`.
pub open spec fn spec_starts_with(s: Seq<char>, prefix: Seq<char>) -> bool {
    s.len() >= prefix.len() && s.subrange(0, prefix.len() as int) == prefix
}

fn str_starts_with(s: &str, prefix: &str) -> (r: bool)
    ensures
        r == spec_starts_with(s@, prefix@),
{
    let np = prefix.unicode_len();
    let ns = s.unicode_len();
    if ns < np {
        return false;
    }
    let mut i: usize = 0;
    while i < np
        invariant
            i <= np,
            np == prefix@.len(),
            ns == s@.len(),
            ns >= np,
            forall|j: int| 0 <= j < i ==> s@[j] == prefix@[j],
        decreases np - i,
    {
        if s.get_char(i) != prefix.get_char(i) {
            proof {
                assert(s@.subrange(0, np as int)[i as int] == s@[i as int]);
            }
            return false;
        }
        i += 1;
    }
    proof {
        assert(s@.subrange(0, np as int) =~= prefix@);
    }
    true
}

/// The URL names one of the two supported schemes.
pub open spec fn spec_is_valid_url(s: Seq<char>) -> bool {
    spec_starts_with(s, "http://"@) || spec_starts_with(s, "https://"@)
}

/// Accepts a URL exactly when it starts with `http://` or `https://`.
pub fn is_valid_url(url: &str) -> (r: bool)
    ensures
        r == spec_is_valid_url(url@),
{
    str_starts_with(url, "http://") || str_starts_with(url, "https://")
}

/// The RPC URL a configuration settles on: the command-line one when given,
/// else the environment one, else the local default.
pub open spec fn spec_chosen_rpc_url(
    args_rpc_url: Option<Seq<char>>,
    env_rpc_url: Option<Seq<char>>,
) -> Seq<char> {
    match args_rpc_url {
        Some(u) => u,
        None => match env_rpc_url {
            Some(u) => u,
            None => "http://localhost:26657"@,
        },
    }
}

/// The port a configuration settles on: the command-line one when not 0,
/// else the environment one, else 3000.
pub open spec fn spec_chosen_port(args_port: u16, env_port: Option<u16>) -> u16 {
    if args_port != 0 {
        args_port
    } else {
        match env_port {
            Some(p) => p,
            None => 3000,
        }
    }
}

impl Config {
    /// Resolves the configuration from the parsed command-line arguments and
    /// the environment readings, in that order of precedence, and validates
    /// the settled RPC URL. The allowed CORS origins are fixed to the one
    /// wildcard entry.
    pub fn resolve(args: CliArgs, env_rpc_url: Option<String>, env_port: Option<u16>) -> (r: Result<
        Config,
        ConfigError,
    >)
        ensures
            ({
                let url = spec_chosen_rpc_url(args.rpc_url.deep_view(), env_rpc_url.deep_view());
                &&& r is Ok <==> spec_is_valid_url(url)
                &&& (r matches Ok(c) ==> {
                    &&& c.rpc_url@ == url
                    &&& c.port == spec_chosen_port(args.port, env_port)
                    &&& c.cors_allowed_origins@.len() == 1
                    &&& c.cors_allowed_origins@[0]@ == "*"@
                })
                &&& (r matches Err(e) ==> e matches ConfigError::InvalidRpcUrl(u) && u@ == url)
            }),
    {
        let rpc_url = match args.rpc_url {
            Some(u) => u,
            None => match env_rpc_url {
                Some(u) => u,
                None => String::from_str("http://localhost:26657"),
            },
        };
        let port = if args.port != 0 {
            args.port
        } else {
            match env_port {
                Some(p) => p,
                None => 3000,
            }
        };
        if !is_valid_url(rpc_url.as_str()) {
            return Err(ConfigError::InvalidRpcUrl(rpc_url));
        }
        let mut cors_allowed_origins: Vec<String> = Vec::new();
        cors_allowed_origins.push(String::from_str("*"));
        Ok(Config { rpc_url, port, cors_allowed_origins })
    }
}

} // verus!
