//! Error taxonomy of the gateway and its mapping to client-facing
//! status codes, headline messages and details.

use vstd::prelude::*;

verus! {

/// Errors surfaced to gateway clients.
///
/// Input-validation errors (`InvalidAddress`, `InvalidPagination`,
/// `InvalidTendermintAddress`, `BadRequest`) are detected before any chain
/// query is issued. `NotFound` means a well-formed input absent from chain
/// state. `QueryError` and `RpcConnectionError` carry the upstream message of
/// a failed chain query. `InternalError` marks an aggregation invariant
/// violation, such as fields that answer for two different epochs.
#[derive(Debug, Clone)]
pub enum ApiError {
    BadRequest(String),
    NotFound(String),
    QueryError(String),
    InvalidAddress(String),
    InvalidPagination(String),
    InvalidTendermintAddress(String),
    RpcConnectionError(String),
    InternalError(String),
}

impl ApiError {
    /// The HTTP status code the gateway answers with for this error.
    pub open spec fn spec_status_code(&self) -> u16 {
        match self {
            ApiError::BadRequest(_) => 400,
            ApiError::NotFound(_) => 404,
            ApiError::QueryError(_) => 500,
            ApiError::InvalidAddress(_) => 400,
            ApiError::InvalidPagination(_) => 400,
            ApiError::InvalidTendermintAddress(_) => 400,
            ApiError::RpcConnectionError(_) => 503,
            ApiError::InternalError(_) => 500,
        }
    }

    /// The headline of the error body: the carried message itself for
    /// `BadRequest` and `NotFound`, a fixed phrase otherwise.
    pub open spec fn spec_summary(&self) -> Seq<char> {
        match self {
            ApiError::BadRequest(m) => m@,
            ApiError::NotFound(m) => m@,
            ApiError::QueryError(_) => "Query error occurred"@,
            ApiError::InvalidAddress(_) => "Invalid address format"@,
            ApiError::InvalidPagination(_) => "Invalid pagination parameters"@,
            ApiError::InvalidTendermintAddress(_) => "Invalid Tendermint address"@,
            ApiError::RpcConnectionError(_) => "RPC connection error"@,
            ApiError::InternalError(_) => "Internal server error"@,
        }
    }

    /// The detail of the error body: the carried message where the headline
    /// is a fixed phrase, nothing where the headline already carries it.
    pub open spec fn spec_detail(&self) -> Option<Seq<char>> {
        match self {
            ApiError::BadRequest(_) => None,
            ApiError::NotFound(_) => None,
            ApiError::QueryError(m) => Some(m@),
            ApiError::InvalidAddress(m) => Some(m@),
            ApiError::InvalidPagination(m) => Some(m@),
            ApiError::InvalidTendermintAddress(m) => Some(m@),
            ApiError::RpcConnectionError(m) => Some(m@),
            ApiError::InternalError(m) => Some(m@),
        }
    }

    /// The carried message, whichever variant holds it.
    pub open spec fn spec_message(&self) -> Seq<char> {
        match self {
            ApiError::BadRequest(m) => m@,
            ApiError::NotFound(m) => m@,
            ApiError::QueryError(m) => m@,
            ApiError::InvalidAddress(m) => m@,
            ApiError::InvalidPagination(m) => m@,
            ApiError::InvalidTendermintAddress(m) => m@,
            ApiError::RpcConnectionError(m) => m@,
            ApiError::InternalError(m) => m@,
        }
    }

    pub fn status_code(&self) -> (c: u16)
        ensures
            c == self.spec_status_code(),
    {
        match self {
            ApiError::BadRequest(_) => 400,
            ApiError::NotFound(_) => 404,
            ApiError::QueryError(_) => 500,
            ApiError::InvalidAddress(_) => 400,
            ApiError::InvalidPagination(_) => 400,
            ApiError::InvalidTendermintAddress(_) => 400,
            ApiError::RpcConnectionError(_) => 503,
            ApiError::InternalError(_) => 500,
        }
    }

    pub fn summary(&self) -> (s: String)
        ensures
            s@ == self.spec_summary(),
    {
        match self {
            ApiError::BadRequest(m) => m.clone(),
            ApiError::NotFound(m) => m.clone(),
            ApiError::QueryError(_) => String::from_str("Query error occurred"),
            ApiError::InvalidAddress(_) => String::from_str("Invalid address format"),
            ApiError::InvalidPagination(_) => String::from_str("Invalid pagination parameters"),
            ApiError::InvalidTendermintAddress(_) => String::from_str("Invalid Tendermint address"),
            ApiError::RpcConnectionError(_) => String::from_str("RPC connection error"),
            ApiError::InternalError(_) => String::from_str("Internal server error"),
        }
    }

    pub fn detail(&self) -> (d: Option<String>)
        ensures
            match d {
                Some(s) => self.spec_detail() == Some(s@),
                None => self.spec_detail() is None,
            },
    {
        match self {
            ApiError::BadRequest(_) => None,
            ApiError::NotFound(_) => None,
            ApiError::QueryError(m) => Some(m.clone()),
            ApiError::InvalidAddress(m) => Some(m.clone()),
            ApiError::InvalidPagination(m) => Some(m.clone()),
            ApiError::InvalidTendermintAddress(m) => Some(m.clone()),
            ApiError::RpcConnectionError(m) => Some(m.clone()),
            ApiError::InternalError(m) => Some(m.clone()),
        }
    }

    pub fn message(&self) -> (s: String)
        ensures
            s@ == self.spec_message(),
    {
        match self {
            ApiError::BadRequest(m) => m.clone(),
            ApiError::NotFound(m) => m.clone(),
            ApiError::QueryError(m) => m.clone(),
            ApiError::InvalidAddress(m) => m.clone(),
            ApiError::InvalidPagination(m) => m.clone(),
            ApiError::InvalidTendermintAddress(m) => m.clone(),
            ApiError::RpcConnectionError(m) => m.clone(),
            ApiError::InternalError(m) => m.clone(),
        }
    }
}

/// Errors of the chain query client.
#[derive(Debug, Clone)]
pub enum ClientError {
    ConnectionError(String),
    QueryError(String),
    InvalidUrl(String),
}

impl ClientError {
    /// The rendered message: a fixed prefix naming the failure, then the
    /// upstream message.
    pub open spec fn spec_message(&self) -> Seq<char> {
        match self {
            ClientError::ConnectionError(m) => "RPC connection error: "@ + m@,
            ClientError::QueryError(m) => "RPC query error: "@ + m@,
            ClientError::InvalidUrl(m) => "Invalid RPC URL: "@ + m@,
        }
    }

    pub fn message(&self) -> (s: String)
        ensures
            s@ == self.spec_message(),
    {
        match self {
            ClientError::ConnectionError(m) => String::from_str("RPC connection error: ").concat(
                m.as_str(),
            ),
            ClientError::QueryError(m) => String::from_str("RPC query error: ").concat(m.as_str()),
            ClientError::InvalidUrl(m) => String::from_str("Invalid RPC URL: ").concat(m.as_str()),
        }
    }
}

} // verus!
