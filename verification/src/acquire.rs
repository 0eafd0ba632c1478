//! The verifier of downloaded content: a file is handed on for writing only
//! when its SHA-512 digest is the one that the registry declared.

use crate::digest::{digest_declared, digest_matches, sha512, sha512_digest};
use crate::error::{Failure, FailureView};
use crate::model::{File, FileView};
use vstd::prelude::*;

verus! {

/// Verified content, ready to be written under `filename`.
#[derive(Debug, Clone, PartialEq, Eq)]
pub struct Artifact {
    pub filename: String,
    pub bytes: Vec<u8>,
}

/// What an [`Artifact`] holds.
pub ghost struct ArtifactView {
    pub filename: Seq<char>,
    pub bytes: Seq<u8>,
}

impl View for Artifact {
    type V = ArtifactView;

    open spec fn view(&self) -> ArtifactView {
        ArtifactView { filename: self.filename@, bytes: self.bytes@ }
    }
}

/// What becomes of content `bytes` fetched for `file`, given its digest: the
/// artifact to write when `digest` is the declared one, and an integrity
/// failure, with nothing to write, when it is not.
pub open spec fn settled(file: FileView, bytes: Seq<u8>, digest: Seq<u8>) -> Result<
    ArtifactView,
    FailureView,
> {
    if digest_declared(digest, file.hashes.sha512) {
        Ok(ArtifactView { filename: file.filename, bytes })
    } else {
        Err(FailureView::IntegrityMismatch { filename: file.filename })
    }
}

/// What becomes of content `bytes` fetched for `file`.
pub open spec fn acquired(file: FileView, bytes: Seq<u8>) -> Result<ArtifactView, FailureView> {
    settled(file, bytes, sha512_digest(bytes))
}

/// The view of an outcome.
pub open spec fn outcome_view(outcome: Result<Artifact, Failure>) -> Result<
    ArtifactView,
    FailureView,
> {
    match outcome {
        Ok(artifact) => Ok(artifact@),
        Err(failure) => Err(failure@),
    }
}

/// Nothing is written when the digest of the content is not the declared
/// one, whatever the case of the declared letters.
pub proof fn lemma_mismatch_writes_nothing(file: FileView, bytes: Seq<u8>)
    requires
        !digest_declared(sha512_digest(bytes), file.hashes.sha512),
    ensures
        acquired(file, bytes) is Err,
        acquired(file, bytes) == Err::<ArtifactView, FailureView>(
            FailureView::IntegrityMismatch { filename: file.filename },
        ),
{
}

/// What is written has the declared digest: an artifact comes out exactly
/// when the digest of the content is the declared one, it holds that
/// content unchanged, and it goes under the declared file name.
pub proof fn lemma_written_content_has_declared_digest(file: FileView, bytes: Seq<u8>)
    ensures
        acquired(file, bytes) is Ok <==> digest_declared(sha512_digest(bytes), file.hashes.sha512),
        acquired(file, bytes) matches Ok(artifact) ==> {
            &&& artifact.bytes == bytes
            &&& artifact.filename == file.filename
            &&& digest_declared(sha512_digest(artifact.bytes), file.hashes.sha512)
        },
{
}

/// Decides on content `bytes` fetched for `file`, whose digest is `digest`.
pub fn settle(file: &File, bytes: Vec<u8>, digest: &[u8]) -> (outcome: Result<Artifact, Failure>)
    ensures
        outcome_view(outcome) == settled(file@, bytes@, digest@),
{
    if digest_matches(digest, file.hashes.sha512.as_str()) {
        Ok(Artifact { filename: file.filename.clone(), bytes })
    } else {
        Err(Failure::IntegrityMismatch { filename: file.filename.clone() })
    }
}

/// Verifies content `bytes` fetched for `file`: computes its SHA-512 digest
/// and hands the content on for writing if that is the declared digest.
pub fn acquire(file: &File, bytes: Vec<u8>) -> (outcome: Result<Artifact, Failure>)
    ensures
        outcome_view(outcome) == acquired(file@, bytes@),
{
    let digest = sha512(bytes.as_slice());
    settle(file, bytes, digest.as_slice())
}

} // verus!
