use namada_gateway::config::{is_valid_url, CliArgs, Config, ConfigError};
use namada_gateway::error::ApiError;
use namada_gateway::pos::delegations_response;
use namada_gateway::text::dec_of_u64;
use namada_gateway::token::TokenBalanceQuery;

fn args(rpc_url: Option<&str>, port: u16) -> CliArgs {
    CliArgs { rpc_url: rpc_url.map(|s| s.to_string()), port, config: None }
}

#[test]
fn test_is_valid_url() {
    assert!(is_valid_url("http://localhost:26657"));
    assert!(is_valid_url("https://rpc.example.com"));
    assert!(is_valid_url("http://"));
    assert!(!is_valid_url("ftp://rpc.example.com"));
    assert!(!is_valid_url("localhost:26657"));
    assert!(!is_valid_url(""));
    assert!(!is_valid_url("http:/half"));
}

#[test]
fn test_config_resolve_precedence() {
    // Command line beats environment.
    let c = Config::resolve(
        args(Some("http://cli.example.com"), 8080),
        Some("http://env.example.com".to_string()),
        Some(4000),
    )
    .expect("valid URL");
    assert_eq!(c.rpc_url, "http://cli.example.com");
    assert_eq!(c.port, 8080);

    // Environment where the command line is silent; port 0 means unset.
    let c = Config::resolve(
        args(None, 0),
        Some("http://env.example.com".to_string()),
        Some(4000),
    )
    .expect("valid URL");
    assert_eq!(c.rpc_url, "http://env.example.com");
    assert_eq!(c.port, 4000);

    // Defaults where both are silent.
    let c = Config::resolve(args(None, 0), None, None).expect("default URL is valid");
    assert_eq!(c.rpc_url, "http://localhost:26657");
    assert_eq!(c.port, 3000);
    assert_eq!(c.cors_allowed_origins, vec!["*".to_string()]);
}

#[test]
fn test_config_rejects_invalid_url() {
    match Config::resolve(args(Some("ftp://x"), 0), None, None) {
        Err(ConfigError::InvalidRpcUrl(u)) => {
            assert_eq!(u, "ftp://x");
            assert_eq!(ConfigError::InvalidRpcUrl(u).message(), "Invalid RPC URL: ftp://x");
        }
        Ok(_) => panic!("an URL without a supported scheme must be rejected"),
    }
}

#[test]
fn test_token_query_validate() {
    let q = TokenBalanceQuery {
        token: "tnam1token".to_string(),
        owner: "tnam1owner".to_string(),
        height: Some(12),
    };
    assert!(q.validate(Ok(()), Ok(())).is_ok());
    match q.validate(Err("bad checksum".to_string()), Ok(())) {
        Err(ApiError::InvalidAddress(m)) => {
            assert_eq!(m, "Invalid token address format: bad checksum");
        }
        other => panic!("expected InvalidAddress, got {:?}", other),
    }
    match q.validate(Ok(()), Err("bad prefix".to_string())) {
        Err(ApiError::InvalidAddress(m)) => {
            assert_eq!(m, "Invalid owner address format: bad prefix");
        }
        other => panic!("expected InvalidAddress, got {:?}", other),
    }
}

#[test]
fn test_token_balance_response_echoes_query() {
    let q = TokenBalanceQuery {
        token: "tnam1token".to_string(),
        owner: "tnam1owner".to_string(),
        height: Some(42),
    };
    let resp = q.balance_response("123456".to_string());
    assert_eq!(resp.token, "tnam1token");
    assert_eq!(resp.owner, "tnam1owner");
    assert_eq!(resp.balance, "123456");
    assert_eq!(resp.height, Some(42));
}

#[test]
fn test_dec_of_u64() {
    assert_eq!(dec_of_u64(0), "0");
    assert_eq!(dec_of_u64(7), "7");
    assert_eq!(dec_of_u64(10), "10");
    assert_eq!(dec_of_u64(12345), "12345");
    assert_eq!(dec_of_u64(u64::MAX), "18446744073709551615");
}

#[test]
fn test_delegations_response_amounts() {
    let r = delegations_response(vec!["tnam1a".to_string(), "tnam1b".to_string()]);
    assert_eq!(r.delegations.len(), 2);
    assert_eq!(r.delegations[0].validator, "tnam1a");
    assert_eq!(r.delegations[0].amount, "0");
    assert_eq!(r.delegations[1].validator, "tnam1b");
    assert_eq!(r.delegations[1].amount, "0");
}
