use vstd::prelude::*;
use crate::package::PackageHash;
use crate::digest::{
    digests_equal, expected_digest, matches_reported, reference_digest, registry_vouches_for, sha512_of,
};

verus! {

/// What the cache resolver asks its caller to do next, as a model.
pub enum Step {
    /// Fetch the registry's digest report for the package.
    FetchMetadata,
    /// Read the cached archive and check it against this digest.
    ReadLocal(Seq<u8>),
    /// Reuse the cached archive as it is; nothing is fetched.
    OpenExisting,
    /// Fetch the archive and write it over the cached path.
    DownloadAndOverwrite,
}

/// What the cache resolver asks its caller to do next.
#[derive(Debug, Clone, PartialEq, Eq)]
pub enum CacheAction {
    FetchMetadata,
    ReadLocal(Vec<u8>),
    OpenExisting,
    DownloadAndOverwrite,
}

impl View for CacheAction {
    type V = Step;

    open spec fn view(&self) -> Step {
        match self {
            CacheAction::FetchMetadata => Step::FetchMetadata,
            CacheAction::ReadLocal(d) => Step::ReadLocal(d@),
            CacheAction::OpenExisting => Step::OpenExisting,
            CacheAction::DownloadAndOverwrite => Step::DownloadAndOverwrite,
        }
    }
}

/// First decision: only an existing file is worth checking.
pub open spec fn step_on_presence(present: bool) -> Step {
    if present {
        Step::FetchMetadata
    } else {
        Step::DownloadAndOverwrite
    }
}

/// Second decision, on the registry's report (`None`: it could not be had).
/// Without a digest that can be recomputed the file is fetched again unread.
pub open spec fn step_on_metadata(metadata: Option<PackageHash>) -> Step {
    match metadata {
        None => Step::DownloadAndOverwrite,
        Some(h) => match expected_digest(h) {
            Some(d) => Step::ReadLocal(d),
            None => Step::DownloadAndOverwrite,
        },
    }
}

/// Last decision, on the cached bytes (`None`: they could not be read).
pub open spec fn step_on_contents(reference: Seq<u8>, contents: Option<Seq<u8>>) -> Step {
    match contents {
        Some(c) => if sha512_of(c) == reference {
            Step::OpenExisting
        } else {
            Step::DownloadAndOverwrite
        },
        None => Step::DownloadAndOverwrite,
    }
}

/// Where one resolution ends, given whether a file was cached, the registry's
/// report and the cached bytes.
pub open spec fn resolution(present: bool, metadata: Option<PackageHash>, contents: Option<Seq<u8>>) -> Step {
    match step_on_presence(present) {
        Step::FetchMetadata => match step_on_metadata(metadata) {
            Step::ReadLocal(d) => step_on_contents(d, contents),
            s => s,
        },
        s => s,
    }
}

/// Decides from whether a file exists at the package's cached path.
pub fn on_presence(present: bool) -> (r: CacheAction)
    ensures
        r@ == step_on_presence(present),
{
    if present {
        CacheAction::FetchMetadata
    } else {
        CacheAction::DownloadAndOverwrite
    }
}

/// Decides from the registry's digest report, or from its absence.
pub fn on_metadata(metadata: Option<PackageHash>) -> (r: CacheAction)
    ensures
        r@ == step_on_metadata(metadata),
{
    match metadata {
        None => CacheAction::DownloadAndOverwrite,
        Some(h) => match reference_digest(&h) {
            Some(d) => CacheAction::ReadLocal(d),
            None => CacheAction::DownloadAndOverwrite,
        },
    }
}

/// Decides from the cached bytes, or from a failure to read them.
pub fn on_local_contents(reference: &Vec<u8>, contents: Option<Vec<u8>>) -> (r: CacheAction)
    ensures
        r@ == step_on_contents(
            reference@,
            match contents {
                Some(c) => Some(c@),
                None => None,
            },
        ),
{
    match contents {
        None => CacheAction::DownloadAndOverwrite,
        Some(c) => {
            let actual = crate::digest::sha512_digest(&c);
            if digests_equal(reference, &actual) {
                CacheAction::OpenExisting
            } else {
                CacheAction::DownloadAndOverwrite
            }
        },
    }
}

/// A cached copy is reused exactly when it exists, can be read, and its
/// recomputed digest equals the registry's report; nothing else (its presence,
/// a failed report) ever makes it count as valid.
pub proof fn lemma_reuse_iff_digest_matches(present: bool, metadata: Option<PackageHash>, contents: Option<Seq<u8>>)
    ensures
        (resolution(present, metadata, contents) == Step::OpenExisting) <==> (present && metadata is Some
            && contents is Some && matches_reported(metadata->Some_0, contents->Some_0)),
        resolution(present, metadata, contents) == Step::OpenExisting || resolution(
            present,
            metadata,
            contents,
        ) == Step::DownloadAndOverwrite,
{
}

/// A first resolution on an empty cache fetches the archive; once the fetched
/// content is one that the registry's stable report vouches for, the next
/// resolution reuses it and fetches nothing.
pub proof fn lemma_second_resolution_reuses(hash: PackageHash, contents: Seq<u8>)
    requires
        registry_vouches_for(hash, contents),
    ensures
        resolution(false, Some(hash), Some(contents)) == Step::DownloadAndOverwrite,
        resolution(true, Some(hash), Some(contents)) == Step::OpenExisting,
{
}

/// A cached copy whose bytes were altered so that its digest changed is fetched
/// again, and the fetched content then passes the check.
pub proof fn lemma_corrupted_copy_is_replaced(hash: PackageHash, contents: Seq<u8>, corrupted: Seq<u8>)
    requires
        registry_vouches_for(hash, contents),
        sha512_of(corrupted) != sha512_of(contents),
    ensures
        resolution(true, Some(hash), Some(corrupted)) == Step::DownloadAndOverwrite,
        resolution(true, Some(hash), Some(contents)) == Step::OpenExisting,
{
}

/// An algorithm the library cannot recompute never lets a cached copy be
/// reused, whatever is on disk, and the copy is not even read.
pub proof fn lemma_unknown_algorithm_refetches(hash: PackageHash, present: bool, contents: Option<Seq<u8>>)
    requires
        hash.algorithm is Unknown,
    ensures
        step_on_metadata(Some(hash)) == Step::DownloadAndOverwrite,
        resolution(present, Some(hash), contents) == Step::DownloadAndOverwrite,
{
}

/// A reference digest one byte shorter than the recomputed one is a mismatch.
pub proof fn lemma_truncated_reference_refetches(contents: Seq<u8>)
    requires
        sha512_of(contents).len() > 0,
    ensures
        step_on_contents(sha512_of(contents).drop_last(), Some(contents)) == Step::DownloadAndOverwrite,
{
    crate::digest::lemma_truncated_digest_differs(sha512_of(contents));
}

/// A reference digest that differs from the recomputed one in a single byte is a mismatch.
pub proof fn lemma_altered_reference_refetches(contents: Seq<u8>, i: int, x: u8)
    requires
        0 <= i < sha512_of(contents).len(),
        x != sha512_of(contents)[i],
    ensures
        step_on_contents(sha512_of(contents).update(i, x), Some(contents)) == Step::DownloadAndOverwrite,
{
    crate::digest::lemma_altered_digest_differs(sha512_of(contents), i, x);
}

} // verus!
