//! The errors of the DHT, and how the database's failures map onto them.
use vstd::prelude::*;
use vstd::std_specs::convert::FromSpecImpl;

verus! {

/// What can go wrong in a DHT operation.
#[derive(Debug, PartialEq, Eq, Clone)]
pub enum BbDhtError {
    InternalServerError(String),
    ProvisionedThroughputExceeded(String),
    RequestLimitExceeded(String),
    ResourceNotFound(String),
    HttpDispatch(String),
    Credentials(String),
    Validation(String),
    ParseError(String),
    Unknown(String),
    ResourceInUse(String),
    ConditionalCheckFailed(String),
    ItemCollectionSizeLimitExceeded(String),
    TransactionConflict(String),
    LimitExceeded(String),
    MissingData(String),
}

/// The result of a DHT operation.
pub type BbDhtResult<T> = Result<T, BbDhtError>;

/// An error that the database service itself reports for a request.
#[derive(Debug, PartialEq, Eq, Clone)]
pub enum ServiceError {
    InternalServerError(String),
    ProvisionedThroughputExceeded(String),
    RequestLimitExceeded(String),
    ResourceNotFound(String),
    ResourceInUse(String),
    ConditionalCheckFailed(String),
    ItemCollectionSizeLimitExceeded(String),
    TransactionConflict(String),
    LimitExceeded(String),
}

/// A failed request to the database, as the client reports it: an error of the
/// service, or a failure to reach it, to sign the request or to read the reply.
#[derive(Debug, PartialEq, Eq, Clone)]
pub enum DbError {
    Service(ServiceError),
    HttpDispatch(String),
    Credentials(String),
    Validation(String),
    ParseError(String),
    Unknown(String),
}

/// The DHT error that a database error stands for: each service error and each
/// client failure keeps its kind and its message.
pub open spec fn error_of(e: DbError) -> BbDhtError {
    match e {
        DbError::Service(s) => match s {
            ServiceError::InternalServerError(m) => BbDhtError::InternalServerError(m),
            ServiceError::ProvisionedThroughputExceeded(m) => BbDhtError::ProvisionedThroughputExceeded(m),
            ServiceError::RequestLimitExceeded(m) => BbDhtError::RequestLimitExceeded(m),
            ServiceError::ResourceNotFound(m) => BbDhtError::ResourceNotFound(m),
            ServiceError::ResourceInUse(m) => BbDhtError::ResourceInUse(m),
            ServiceError::ConditionalCheckFailed(m) => BbDhtError::ConditionalCheckFailed(m),
            ServiceError::ItemCollectionSizeLimitExceeded(m) => BbDhtError::ItemCollectionSizeLimitExceeded(m),
            ServiceError::TransactionConflict(m) => BbDhtError::TransactionConflict(m),
            ServiceError::LimitExceeded(m) => BbDhtError::LimitExceeded(m),
        },
        DbError::HttpDispatch(m) => BbDhtError::HttpDispatch(m),
        DbError::Credentials(m) => BbDhtError::Credentials(m),
        DbError::Validation(m) => BbDhtError::Validation(m),
        DbError::ParseError(m) => BbDhtError::ParseError(m),
        DbError::Unknown(m) => BbDhtError::Unknown(m),
    }
}

impl From<DbError> for BbDhtError {
    fn from(e: DbError) -> (r: BbDhtError) {
        match e {
            DbError::Service(s) => match s {
                ServiceError::InternalServerError(m) => BbDhtError::InternalServerError(m),
                ServiceError::ProvisionedThroughputExceeded(m) => BbDhtError::ProvisionedThroughputExceeded(m),
                ServiceError::RequestLimitExceeded(m) => BbDhtError::RequestLimitExceeded(m),
                ServiceError::ResourceNotFound(m) => BbDhtError::ResourceNotFound(m),
                ServiceError::ResourceInUse(m) => BbDhtError::ResourceInUse(m),
                ServiceError::ConditionalCheckFailed(m) => BbDhtError::ConditionalCheckFailed(m),
                ServiceError::ItemCollectionSizeLimitExceeded(m) => BbDhtError::ItemCollectionSizeLimitExceeded(m),
                ServiceError::TransactionConflict(m) => BbDhtError::TransactionConflict(m),
                ServiceError::LimitExceeded(m) => BbDhtError::LimitExceeded(m),
            },
            DbError::HttpDispatch(m) => BbDhtError::HttpDispatch(m),
            DbError::Credentials(m) => BbDhtError::Credentials(m),
            DbError::Validation(m) => BbDhtError::Validation(m),
            DbError::ParseError(m) => BbDhtError::ParseError(m),
            DbError::Unknown(m) => BbDhtError::Unknown(m),
        }
    }
}

impl FromSpecImpl<DbError> for BbDhtError {
    open spec fn obeys_from_spec() -> bool {
        true
    }

    open spec fn from_spec(v: DbError) -> BbDhtError {
        error_of(v)
    }
}

/// The DHT result of a database reply: the value, or the DHT error that the
/// database error stands for.
pub fn db_result<T>(r: Result<T, DbError>) -> (out: BbDhtResult<T>)
    ensures
        match r {
            Ok(v) => out == Ok::<T, BbDhtError>(v),
            Err(e) => out == Err::<T, BbDhtError>(error_of(e)),
        },
{
    match r {
        Ok(v) => Ok(v),
        Err(e) => Err(BbDhtError::from(e)),
    }
}

/// Whether a write that failed with `e` may succeed when sent again: the
/// service was busy, throttled or in conflict with another transaction.
pub open spec fn is_transient(e: DbError) -> bool {
    match e {
        DbError::Service(s) => match s {
            ServiceError::InternalServerError(_) => true,
            ServiceError::ProvisionedThroughputExceeded(_) => true,
            ServiceError::RequestLimitExceeded(_) => true,
            ServiceError::TransactionConflict(_) => true,
            _ => false,
        },
        _ => false,
    }
}

} // verus!
