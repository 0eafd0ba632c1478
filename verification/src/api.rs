//! The registry's interface: where each request goes, how long it may take,
//! and which answers count as success.

use crate::error::{Failure, FailureView};
use crate::model::API_URL;
use vstd::prelude::*;
use vstd::string::StringExecFns;

verus! {

/// Seconds after which a request is given up.
pub const REQUEST_TIMEOUT_SECS: u64 = 5;

/// Where the list of game versions is fetched from at startup.
pub const VERSION_MANIFEST_URL: &'static str =
    "https://piston-meta.mojang.com/mc/game/version_manifest_v2.json";

/// The address of the project `id`.
pub open spec fn project_endpoint(id: Seq<char>) -> Seq<char> {
    API_URL@ + "/project/"@ + id
}

/// The address of the dependencies of the project `id`.
pub open spec fn dependencies_endpoint(id: Seq<char>) -> Seq<char> {
    API_URL@ + "/project/"@ + id + "/dependencies"@
}

/// The address of the releases of the project `id`.
pub open spec fn versions_endpoint(id: Seq<char>) -> Seq<char> {
    API_URL@ + "/project/"@ + id + "/version"@
}

/// The address of the project `id`.
pub fn project_url(id: &str) -> (url: String)
    ensures
        url@ == project_endpoint(id@),
{
    String::from_str(API_URL).concat("/project/").concat(id)
}

/// The address of the dependencies of the project `id`.
pub fn dependencies_url(id: &str) -> (url: String)
    ensures
        url@ == dependencies_endpoint(id@),
{
    String::from_str(API_URL).concat("/project/").concat(id).concat("/dependencies")
}

/// The address of the releases of the project `id`.
pub fn versions_url(id: &str) -> (url: String)
    ensures
        url@ == versions_endpoint(id@),
{
    String::from_str(API_URL).concat("/project/").concat(id).concat("/version")
}

/// A status code of the 2xx class.
pub open spec fn success_status(status: int) -> bool {
    200 <= status < 300
}

/// What a request for `target` came to, from the status of its answer, or
/// from `None` where no answer came: success for a 2xx status, and a failed
/// query for `target` otherwise.
pub open spec fn query_outcome(target: Seq<char>, status: Option<u16>) -> Result<(), FailureView> {
    match status {
        Some(code) if success_status(code as int) => Ok(()),
        _ => Err(FailureView::QueryFailed { target }),
    }
}

/// Whether `status` is of the 2xx class.
pub fn is_success(status: u16) -> (success: bool)
    ensures
        success == success_status(status as int),
{
    200 <= status && status < 300
}

/// Classifies the answer to a request for `target`: `status` is the status
/// code of the answer, or `None` where the request failed in transport or
/// ran out of time.
pub fn check_answer(target: &str, status: Option<u16>) -> (outcome: Result<(), Failure>)
    ensures
        match outcome {
            Ok(_) => query_outcome(target@, status) == Ok::<(), FailureView>(()),
            Err(failure) => query_outcome(target@, status) == Err::<(), FailureView>(failure@),
        },
{
    match status {
        Some(code) => {
            if is_success(code) {
                Ok(())
            } else {
                Err(Failure::QueryFailed { target: String::from_str(target) })
            }
        },
        None => Err(Failure::QueryFailed { target: String::from_str(target) }),
    }
}

} // verus!
