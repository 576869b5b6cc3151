//! What relaying an artifact needs before any byte moves: which artifact, the
//! provider route of its ZIP archive, and the versioned file name offered to
//! the client.

use vstd::prelude::*;
use crate::builds::{Build, BuildError};
use crate::config::Builds;
use crate::text::{push_decimal, decimal, replace_all, replace_every};

verus! {

/// `artifact_name` with every occurrence of `prefix` replaced by
/// `{prefix}preview_{version}_`, followed by `.zip`.
pub open spec fn download_filename_spec(
    prefix: Seq<char>,
    artifact_name: Seq<char>,
    version: Seq<char>,
) -> Seq<char> {
    replace_all(artifact_name, prefix, prefix + "preview_"@ + version + "_"@) + ".zip"@
}

/// `/repos/{owner}/{repo}/actions/artifacts/{artifact_id}/zip`.
pub open spec fn archive_route_spec(owner: Seq<char>, repo: Seq<char>, artifact_id: nat) -> Seq<
    char,
> {
    "/repos/"@ + owner + "/"@ + repo + "/actions/artifacts/"@ + decimal(artifact_id) + "/zip"@
}

/// The name under which an artifact is offered for download.
pub fn download_filename(prefix: &str, artifact_name: &str, version: &str) -> (r: String)
    ensures
        r@ == download_filename_spec(prefix@, artifact_name@, version@),
{
    let mut replacement = String::from_str(prefix);
    replacement.append("preview_");
    replacement.append(version);
    replacement.append("_");
    let mut r = replace_every(artifact_name, prefix, replacement.as_str());
    r.append(".zip");
    r
}

/// The provider route of an artifact's ZIP archive.
pub fn artifact_archive_route(config: &Builds, artifact_id: u64) -> (r: String)
    ensures
        r@ == archive_route_spec(config.owner@, config.repo@, artifact_id as nat),
{
    let mut r = String::from_str("/repos/");
    r.append(config.owner.as_str());
    r.append("/");
    r.append(config.repo.as_str());
    r.append("/actions/artifacts/");
    push_decimal(&mut r, artifact_id);
    r.append("/zip");
    r
}

/// The `Content-Disposition` value that offers a download as `filename`.
pub fn content_disposition(filename: &str) -> (r: String)
    ensures
        r@ == "attachment; filename=\""@ + filename@ + "\""@,
{
    let mut r = String::from_str("attachment; filename=\"");
    r.append(filename);
    r.append("\"");
    r
}

/// The artifact to relay and the file name to offer it under.
#[derive(Debug)]
pub struct ArtifactDownload {
    pub artifact_id: u64,
    pub filename: String,
}

/// `build` has an artifact named `name` at index `i`, and none before it.
pub open spec fn first_named(build: &Build, name: Seq<char>, i: int) -> bool {
    &&& 0 <= i < build.artifacts@.len()
    &&& build.artifacts@[i].name@ == name
    &&& forall|j: int| 0 <= j < i ==> build.artifacts@[j].name@ != name
}

pub open spec fn has_artifact_named(build: &Build, name: Seq<char>) -> bool {
    exists|i: int| 0 <= i < build.artifacts@.len() && build.artifacts@[i].name@ == name
}

/// Picks the artifact of `build` named `artifact_name` and the name to offer
/// it under. Fails with `ArtifactNotFound` where the build has no such
/// artifact, and otherwise with `InvalidCommit` where the build has no version
/// name.
pub fn plan_artifact_download(config: &Builds, build: &Build, artifact_name: &str) -> (r: Result<
    ArtifactDownload,
    BuildError,
>)
    ensures
        !has_artifact_named(build, artifact_name@) <==> (r is Err && r->Err_0 is ArtifactNotFound),
        (has_artifact_named(build, artifact_name@) && build.commit@.len() < 7) <==> (r is Err
            && r->Err_0 is InvalidCommit),
        r is Err ==> (r->Err_0 is ArtifactNotFound || r->Err_0 is InvalidCommit),
        r is Ok ==> exists|i: int|
            first_named(build, artifact_name@, i) && r->Ok_0.artifact_id
                == build.artifacts@[i].artifact_id,
        r is Ok ==> r->Ok_0.filename@ == download_filename_spec(
            config.artifact_prefix@,
            artifact_name@,
            build.version_spec(),
        ),
{
    let wanted = String::from_str(artifact_name);
    let mut i: usize = 0;
    let n = build.artifacts.len();
    while i < n
        invariant
            n == build.artifacts@.len(),
            i <= n,
            wanted@ == artifact_name@,
            forall|j: int| 0 <= j < i ==> build.artifacts@[j].name@ != artifact_name@,
        ensures
            i <= n,
            forall|j: int| 0 <= j < i ==> build.artifacts@[j].name@ != artifact_name@,
            i < n ==> build.artifacts@[i as int].name@ == artifact_name@,
        decreases n - i,
    {
        if build.artifacts[i].name == wanted {
            break;
        }
        i = i + 1;
    }
    if i == n {
        return Err(BuildError::ArtifactNotFound);
    }
    assert(first_named(build, artifact_name@, i as int));
    let version = match build.generate_version_name() {
        Ok(v) => v,
        Err(e) => return Err(e),
    };
    let filename = download_filename(config.artifact_prefix.as_str(), artifact_name, version.as_str());
    Ok(ArtifactDownload { artifact_id: build.artifacts[i].artifact_id, filename })
}

} // verus!
