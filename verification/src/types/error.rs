//! Error types shared by the venues and the risk gate.

use vstd::prelude::*;

verus! {

#[derive(Clone, Debug)]
pub enum ConnectorError {
    ConnectionFailed(String),
    OrderRejected(String),
    RateLimited,
    AuthFailed(String),
    NonceError(String),
    /// Any other failure, with its message.
    Other(String),
}

#[derive(Clone, Debug)]
pub enum RiskRejection {
    PositionLimitExceeded(String),
    MaxNotionalExceeded(String),
    MaxDrawdownExceeded,
    MaxOpenOrdersExceeded,
}

} // verus!
