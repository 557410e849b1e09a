//! Token view models and the validation of a balance query.

use vstd::prelude::*;
use crate::error::ApiError;

verus! {

/// Response for a token balance query; token, owner and height echo the
/// query, the balance is the exact decimal rendered as text.
#[derive(Debug, Clone)]
pub struct TokenBalanceResponse {
    pub token: String,
    pub owner: String,
    pub balance: String,
    pub height: Option<u64>,
}

/// Request parameters of a token balance query.
#[derive(Debug, Clone)]
pub struct TokenBalanceQuery {
    pub token: String,
    pub owner: String,
    pub height: Option<u64>,
}

impl TokenBalanceQuery {
    /// Judges the canonical-decoding outcomes of the two addresses, which the
    /// boundary obtains before any chain query: a token address that does not
    /// decode is rejected first, then the owner address, each with the
    /// decoder's message attached.
    pub fn validate(
        &self,
        token_parse: Result<(), String>,
        owner_parse: Result<(), String>,
    ) -> (r: Result<(), ApiError>)
        ensures
            token_parse matches Err(e) ==> (r matches Err(err)
                && err matches ApiError::InvalidAddress(m) && m@
                == "Invalid token address format: "@ + e@),
            token_parse is Ok ==> match owner_parse {
                Err(e) => r matches Err(err) && err matches ApiError::InvalidAddress(m) && m@
                    == "Invalid owner address format: "@ + e@,
                Ok(_) => r is Ok,
            },
            r is Ok <==> token_parse is Ok && owner_parse is Ok,
    {
        if let Err(e) = token_parse {
            return Err(
                ApiError::InvalidAddress(
                    String::from_str("Invalid token address format: ").concat(e.as_str()),
                ),
            );
        }
        if let Err(e) = owner_parse {
            return Err(
                ApiError::InvalidAddress(
                    String::from_str("Invalid owner address format: ").concat(e.as_str()),
                ),
            );
        }
        Ok(())
    }

    /// Assembles the balance response: the queried token, owner and height
    /// echoed unchanged beside the fetched balance.
    pub fn balance_response(&self, balance: String) -> (resp: TokenBalanceResponse)
        ensures
            resp.token@ == self.token@,
            resp.owner@ == self.owner@,
            resp.balance@ == balance@,
            resp.height == self.height,
    {
        TokenBalanceResponse {
            token: self.token.clone(),
            owner: self.owner.clone(),
            balance,
            height: self.height,
        }
    }
}

/// Response for a token total supply query.
#[derive(Debug, Clone)]
pub struct TokenTotalSupplyResponse {
    pub token: String,
    pub total_supply: String,
}

/// Response naming the chain's native token address.
#[derive(Debug, Clone)]
pub struct NativeTokenResponse {
    pub address: String,
}

} // verus!
