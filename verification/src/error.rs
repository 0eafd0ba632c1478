//! The failures that the pipeline reports.

use vstd::prelude::*;
use vstd::string::StringExecFns;

verus! {

/// A failure of one step. None of them ends the run but
/// `ConnectivityFailure`: the others end the work on one item, or drop one
/// candidate, and the rest goes on.
#[derive(Debug, Clone, PartialEq, Eq)]
pub enum Failure {
    /// The version manifest could not be reached at startup.
    ConnectivityFailure,
    /// The stored configuration could not be read as a record.
    ConfigParseFailure,
    /// A request for `target` was not answered with success.
    QueryFailed { target: String },
    /// The project or release `id` does not list the game version `target`.
    IncompatibleVersion { id: String, target: String },
    /// The release `id` does not list the loader `target`.
    IncompatibleLoader { id: String, target: String },
    /// None of a project's releases lists both the game version and the loader.
    NoEligibleVersion,
    /// The content fetched for `filename` does not have the declared digest.
    IntegrityMismatch { filename: String },
}

/// What a [`Failure`] holds.
pub ghost enum FailureView {
    ConnectivityFailure,
    ConfigParseFailure,
    QueryFailed { target: Seq<char> },
    IncompatibleVersion { id: Seq<char>, target: Seq<char> },
    IncompatibleLoader { id: Seq<char>, target: Seq<char> },
    NoEligibleVersion,
    IntegrityMismatch { filename: Seq<char> },
}

impl View for Failure {
    type V = FailureView;

    open spec fn view(&self) -> FailureView {
        match self {
            Failure::ConnectivityFailure => FailureView::ConnectivityFailure,
            Failure::ConfigParseFailure => FailureView::ConfigParseFailure,
            Failure::QueryFailed { target } => FailureView::QueryFailed { target: target@ },
            Failure::IncompatibleVersion { id, target } => FailureView::IncompatibleVersion {
                id: id@,
                target: target@,
            },
            Failure::IncompatibleLoader { id, target } => FailureView::IncompatibleLoader {
                id: id@,
                target: target@,
            },
            Failure::NoEligibleVersion => FailureView::NoEligibleVersion,
            Failure::IntegrityMismatch { filename } => FailureView::IntegrityMismatch {
                filename: filename@,
            },
        }
    }
}

/// The views of a list of failures, in order.
pub open spec fn failure_views(failures: Seq<Failure>) -> Seq<FailureView> {
    failures.map_values(|f: Failure| f@)
}

/// The sentence that tells the user of a failure.
pub open spec fn failure_message(failure: FailureView) -> Seq<char> {
    match failure {
        FailureView::ConnectivityFailure =>
            "Failed to connect to the internet! Make sure you're connected :("@,
        FailureView::ConfigParseFailure => "Failed to parse config file!"@,
        FailureView::QueryFailed { target } => "Failed to query mod "@ + target + "!"@,
        FailureView::IncompatibleVersion { id, target } => "Mod "@ + id
            + " doesn't support version "@ + target + "!"@,
        FailureView::IncompatibleLoader { id, target } => "Mod "@ + id
            + " doesn't support loader "@ + target + "!"@,
        FailureView::NoEligibleVersion =>
            "No release supports the configured version and loader!"@,
        FailureView::IntegrityMismatch { filename } => "Failed to verify file "@ + filename
            + "!"@,
    }
}

impl Failure {
    /// The sentence that tells the user of this failure.
    pub fn message(&self) -> (text: String)
        ensures
            text@ == failure_message(self@),
    {
        match self {
            Failure::ConnectivityFailure => String::from_str(
                "Failed to connect to the internet! Make sure you're connected :(",
            ),
            Failure::ConfigParseFailure => String::from_str("Failed to parse config file!"),
            Failure::QueryFailed { target } => String::from_str("Failed to query mod ").concat(
                target.as_str(),
            ).concat("!"),
            Failure::IncompatibleVersion { id, target } => String::from_str("Mod ").concat(
                id.as_str(),
            ).concat(" doesn't support version ").concat(target.as_str()).concat("!"),
            Failure::IncompatibleLoader { id, target } => String::from_str("Mod ").concat(
                id.as_str(),
            ).concat(" doesn't support loader ").concat(target.as_str()).concat("!"),
            Failure::NoEligibleVersion => String::from_str(
                "No release supports the configured version and loader!",
            ),
            Failure::IntegrityMismatch { filename } => String::from_str(
                "Failed to verify file ",
            ).concat(filename.as_str()).concat("!"),
        }
    }
}

} // verus!
