//! What can go wrong in verification, retargeting and mining.

use vstd::prelude::*;
use crate::helpers::codes;
use crate::helpers::errors::{
    cannot_submit_work, exceptional, invalid_params, no_work, unimplemented, ErrorCode, RpcError,
};

verus! {

/// The failures of this library. None of them is a fault of the system: each
/// says why a request or a candidate was turned down.
#[derive(Clone, Copy, Debug, PartialEq, Eq, Structural)]
pub enum Error {
    /// No candidate block has been built yet.
    NoWork,
    /// A solution arrived with no candidate to attach it to.
    NoMetaData,
    /// A field of the seal differs from the recomputed one.
    MismatchedSealElement,
    /// The work does not reach the required difficulty.
    InvalidProofOfWork,
    /// The nonce or the block number of the seal is outside what the hashing
    /// oracle takes.
    SealOutOfRange,
    /// The seal bytes are malformed.
    DecodeFailure,
    /// The chain has no header for the block.
    HeaderNotFound,
    /// A block other than genesis carries no seal.
    HeaderUnsealed,
    /// The request is not supported.
    Unsupported,
}

impl Error {
    /// The failure in words.
    pub open spec fn description(self) -> Seq<char> {
        match self {
            Error::NoWork => "no candidate block has been built yet"@,
            Error::NoMetaData => "no candidate block to attach the seal to"@,
            Error::MismatchedSealElement => "a field of the seal differs from the recomputed one"@,
            Error::InvalidProofOfWork => "the work does not reach the required difficulty"@,
            Error::SealOutOfRange => "the nonce or the block number of the seal is out of range"@,
            Error::DecodeFailure => "the seal bytes are malformed"@,
            Error::HeaderNotFound => "the chain has no header for the block"@,
            Error::HeaderUnsealed => "the block carries no seal"@,
            Error::Unsupported => "the request is not supported"@,
        }
    }

    /// The code under which the failure is reported to an RPC caller. The
    /// codes tell apart what may succeed later (no work yet, nothing to
    /// attach a seal to), a proof that is invalid, and what is not
    /// implemented.
    pub open spec fn rpc_code(self) -> ErrorCode {
        match self {
            Error::NoWork => ErrorCode::ServerError(codes::NO_WORK),
            Error::NoMetaData => ErrorCode::ServerError(codes::CANNOT_SUBMIT_WORK),
            Error::MismatchedSealElement => ErrorCode::InvalidParams,
            Error::InvalidProofOfWork => ErrorCode::InvalidParams,
            Error::SealOutOfRange => ErrorCode::InvalidParams,
            Error::DecodeFailure => ErrorCode::InvalidParams,
            Error::HeaderNotFound => ErrorCode::ServerError(codes::EXCEPTION_ERROR),
            Error::HeaderUnsealed => ErrorCode::ServerError(codes::EXCEPTION_ERROR),
            Error::Unsupported => ErrorCode::ServerError(codes::UNSUPPORTED_REQUEST),
        }
    }

    /// Whether the failure says that the proof itself is invalid.
    pub open spec fn is_invalid_proof(self) -> bool {
        self == Error::MismatchedSealElement || self == Error::InvalidProofOfWork || self
            == Error::SealOutOfRange || self == Error::DecodeFailure
    }

    /// Whether a later attempt may succeed.
    pub open spec fn is_transient(self) -> bool {
        self == Error::NoWork || self == Error::NoMetaData
    }

    /// Whether the failure lies in what the chain holds.
    pub open spec fn is_chain_fault(self) -> bool {
        self == Error::HeaderNotFound || self == Error::HeaderUnsealed
    }

    /// The message with which the failure is reported to an RPC caller.
    pub open spec fn rpc_message(self) -> Seq<char> {
        if self == Error::NoWork {
            "Still syncing."@
        } else if self == Error::NoMetaData {
            "Cannot submit work."@
        } else if self.is_invalid_proof() {
            "Couldn't parse parameters: "@ + "seal"@
        } else if self.is_chain_fault() {
            "The execution failed due to an exception."@
        } else {
            "This request is not implemented yet. Please create an issue on Github repo."@
        }
    }

    /// The details with which the failure is reported to an RPC caller: its
    /// description, where the proof or the chain is at fault.
    pub open spec fn rpc_details(self) -> Option<Seq<char>> {
        if self.is_invalid_proof() || self.is_chain_fault() {
            Some(self.description())
        } else {
            None
        }
    }

    /// The failure in words.
    pub fn describe(&self) -> (r: String)
        ensures
            r@ == self.description(),
    {
        match self {
            Error::NoWork => String::from_str("no candidate block has been built yet"),
            Error::NoMetaData => String::from_str("no candidate block to attach the seal to"),
            Error::MismatchedSealElement => String::from_str(
                "a field of the seal differs from the recomputed one",
            ),
            Error::InvalidProofOfWork => String::from_str(
                "the work does not reach the required difficulty",
            ),
            Error::SealOutOfRange => String::from_str(
                "the nonce or the block number of the seal is out of range",
            ),
            Error::DecodeFailure => String::from_str("the seal bytes are malformed"),
            Error::HeaderNotFound => String::from_str("the chain has no header for the block"),
            Error::HeaderUnsealed => String::from_str("the block carries no seal"),
            Error::Unsupported => String::from_str("the request is not supported"),
        }
    }

    /// The error object that an RPC caller receives for the failure.
    pub fn to_rpc(&self) -> (r: RpcError)
        ensures
            r.code == self.rpc_code(),
            r.message@ == self.rpc_message(),
            match self.rpc_details() {
                Some(details) => r.data is Some && r.data->0@ == details,
                None => r.data is None,
            },
    {
        match self {
            Error::NoWork => no_work(),
            Error::NoMetaData => cannot_submit_work(),
            Error::MismatchedSealElement
            | Error::InvalidProofOfWork
            | Error::SealOutOfRange
            | Error::DecodeFailure => invalid_params("seal", self.describe()),
            Error::HeaderNotFound | Error::HeaderUnsealed => exceptional(self.describe()),
            Error::Unsupported => unimplemented(None),
        }
    }
}

/// A failure that may pass, an invalid proof and a missing feature are
/// reported under three different numbers.
pub proof fn lemma_codes_tell_classes_apart(a: Error, b: Error, c: Error)
    requires
        a.is_transient(),
        b.is_invalid_proof(),
        c == Error::Unsupported,
    ensures
        a.rpc_code().number() != b.rpc_code().number(),
        a.rpc_code().number() != c.rpc_code().number(),
        b.rpc_code().number() != c.rpc_code().number(),
{
}

} // verus!
