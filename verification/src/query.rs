//! The query protocol around the operating-system call: the status codes,
//! the decision taken after each reply, and the single
//! reallocate-and-retry step allowed when the first buffer was too small.

use vstd::prelude::*;

use crate::params::Error;
use crate::params::FixedInfo;
use crate::params::NetworkParams;
use crate::params::params_from_info;
use crate::params::params_match;

verus! {

/// Status code of a successful operating-system call.
pub const NO_ERROR: u32 = 0;

/// Status code the operating system returns when the buffer handed to the
/// configuration query is too small to hold the record.
pub const ERROR_BUFFER_OVERFLOW: u32 = 111;

/// Status code of an operation the system does not implement.
pub const ERROR_CALL_NOT_IMPLEMENTED: u32 = 120;

/// What to do after the first reply of the configuration query.
#[derive(Debug, PartialEq, Eq, Structural, Clone, Copy)]
pub enum QueryAction {
    /// Parse the record from the buffer of the first call.
    Parse,
    /// Allocate a buffer of exactly `buflen` bytes and query once more.
    Retry {
        /// The required length the operating system reported.
        buflen: u32,
    },
}

/// The decision after the first reply: retry with the reported required
/// length exactly when the reply was "buffer too small", else parse.
pub open spec fn spec_first_step(status: u32, required_len: u32) -> QueryAction {
    if status == ERROR_BUFFER_OVERFLOW {
        QueryAction::Retry { buflen: required_len }
    } else {
        QueryAction::Parse
    }
}

/// Decide what follows the first reply of the configuration query, given its
/// status and the (possibly updated) required buffer length.
pub fn after_first_call(status: u32, required_len: u32) -> (a: QueryAction)
    ensures
        a == spec_first_step(status, required_len),
{
    if status == ERROR_BUFFER_OVERFLOW {
        QueryAction::Retry { buflen: required_len }
    } else {
        QueryAction::Parse
    }
}

/// Finish the query after the follow-up call of the retry path: parse the
/// record on success, otherwise fail with the raw status kept verbatim.
pub fn after_retry_call(status: u32, info: &FixedInfo) -> (r: Result<NetworkParams, Error>)
    ensures
        status == NO_ERROR ==> (r matches Ok(p) && params_match(p, *info)),
        status != NO_ERROR ==> (r matches Err(e) && e.code == status && e.reason@
            == "operating system API error"@),
{
    if status == NO_ERROR {
        Ok(params_from_info(info))
    } else {
        Err(Error { reason: String::from_str("operating system API error"), code: status })
    }
}

/// One reply of the configuration query, as the platform layer hands it in:
/// the raw status, the required buffer length as the call left it, and the
/// record read out of the buffer.
#[derive(Debug, Clone)]
pub struct QueryReply {
    /// Raw status code of the call.
    pub status: u32,
    /// The required buffer length, as the call left it.
    pub required_len: u32,
    /// The record read out of the buffer the call filled.
    pub info: FixedInfo,
}

/// Read the network parameters from the two replies a query session can
/// produce.  The second reply is consulted only when the first reports
/// "buffer too small"; any other first status parses the first buffer as the
/// operating system left it.
pub fn network_params(first: &QueryReply, retry: &QueryReply) -> (r: Result<
    NetworkParams,
    Error,
>)
    ensures
        first.status != ERROR_BUFFER_OVERFLOW ==> (r matches Ok(p) && params_match(
            p,
            first.info,
        )),
        first.status == ERROR_BUFFER_OVERFLOW && retry.status == NO_ERROR ==> (r matches Ok(p)
            && params_match(p, retry.info)),
        first.status == ERROR_BUFFER_OVERFLOW && retry.status != NO_ERROR ==> (r matches Err(e)
            && e.code == retry.status && e.reason@ == "operating system API error"@),
{
    match after_first_call(first.status, first.required_len) {
        QueryAction::Parse => Ok(params_from_info(&first.info)),
        QueryAction::Retry { buflen: _ } => after_retry_call(retry.status, &retry.info),
    }
}

/// Adapter enumeration is intentionally not provided: every call reports a
/// "not implemented" failure, never a default or empty record.
pub fn adapters_info() -> (r: Result<(), Error>)
    ensures
        r matches Err(e) && e.reason@ == "not implemented"@ && e.code
            == ERROR_CALL_NOT_IMPLEMENTED,
{
    Err(
        Error {
            reason: String::from_str("not implemented"),
            code: ERROR_CALL_NOT_IMPLEMENTED,
        },
    )
}

/// A "buffer too small" first reply leads to a retry with a buffer of
/// exactly the reported required length, and only such a reply leads to a
/// retry at all; the protocol offers no action after the follow-up call, so
/// at most one follow-up call is ever issued.
pub proof fn lemma_overflow_single_retry(status: u32, required_len: u32)
    ensures
        status == ERROR_BUFFER_OVERFLOW ==> spec_first_step(status, required_len) == (
        QueryAction::Retry { buflen: required_len }),
        status != ERROR_BUFFER_OVERFLOW ==> spec_first_step(status, required_len)
            == QueryAction::Parse,
        forall|l: u32|
            spec_first_step(status, required_len) == (QueryAction::Retry { buflen: l })
                ==> status == ERROR_BUFFER_OVERFLOW && l == required_len,
{
}

} // verus!
