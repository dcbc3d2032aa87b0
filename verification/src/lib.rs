//! Client-side coordination layer for a sharded embedding parameter store:
//! a registry of per-shard connection handles, partitioning and result
//! aggregation for fan-out writes, the status reducer for long-running
//! load/dump operations, the step logic of the polling loops, a two-phase
//! cluster shutdown protocol, and the metadata side of the tensor exchange
//! boundary.

use vstd::prelude::*;

pub mod fanout;
pub mod poller;
pub mod rpc;
pub mod shutdown;
pub mod status;
pub mod tensor;
pub mod text;

verus! {

/// Errors surfaced by the coordination layer.
#[derive(Debug, Clone, PartialEq, Eq)]
pub enum PersiaError {
    /// A polled shard reported a failed long-running operation, or an
    /// inconsistent combination of shard statuses.
    ServerStatusError(String),
    /// A failure in either phase of the cluster shutdown sequence.
    ShutdownError(String),
    /// A call to a shard failed, at the transport or at the application
    /// level; fan-out operations report the first such failure.
    RpcError(String),
}

impl PersiaError {
    /// The message carried by the error.
    pub open spec fn spec_message(&self) -> Seq<char> {
        match self {
            PersiaError::ServerStatusError(m) => m@,
            PersiaError::ShutdownError(m) => m@,
            PersiaError::RpcError(m) => m@,
        }
    }

    /// Returns the message carried by the error.
    pub fn message(&self) -> (m: String)
        ensures
            m@ == self.spec_message(),
    {
        match self {
            PersiaError::ServerStatusError(m) => m.clone(),
            PersiaError::ShutdownError(m) => m.clone(),
            PersiaError::RpcError(m) => m.clone(),
        }
    }
}

/// Flattens one two-level call outcome — transport outside, the shard's own
/// response inside — into the call's result: the response's value, or the
/// originating transport or application error message as an RPC error.
pub fn single_call_result<T>(r: Result<Result<T, String>, String>) -> (out: Result<T, PersiaError>)
    ensures
        match r {
            Result::Ok(inner) => match inner {
                Result::Ok(v) => out == Result::<T, PersiaError>::Ok(v),
                Result::Err(m) => out matches Result::Err(e) && (e matches PersiaError::RpcError(
                    em,
                ) && em@ == m@),
            },
            Result::Err(m) => out matches Result::Err(e) && (e matches PersiaError::RpcError(em)
                && em@ == m@),
        },
{
    match r {
        Ok(inner) => match inner {
            Ok(v) => Ok(v),
            Err(m) => Err(PersiaError::RpcError(m)),
        },
        Err(m) => Err(PersiaError::RpcError(m)),
    }
}

} // verus!
