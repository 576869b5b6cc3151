//! Builds: successful CI runs with the artifacts that carry the configured
//! name prefix, and the version name derived from each.

use vstd::prelude::*;
use crate::config::Builds;
use crate::datetime::{CivilTime, UtcDateTime, compact_timestamp, lemma_compact_timestamp_digits};
use crate::text::{has_prefix, is_digit, push_signed_decimal, signed_decimal, starts_with};

verus! {

/// Why a build, an artifact or a version name could not be produced.
#[derive(Debug)]
pub enum BuildError {
    /// The provider has no run with the requested identifier.
    NotFound,
    /// The branch has no successful run.
    NoSuccessfulRuns,
    /// The build has no artifact of the requested name.
    ArtifactNotFound,
    /// The provider could not be reached or answered with something unusable;
    /// the text says what was being done and what went wrong.
    UpstreamError(String),
    /// The commit hash is shorter than seven characters.
    InvalidCommit,
}

/// The outcome of looking a run up by identifier: an answer with HTTP status
/// 404 means that no such run exists; any other failure is the provider's.
pub fn run_lookup_error(status: Option<u16>, detail: String) -> (r: BuildError)
    ensures
        status == Some(404u16) ==> r is NotFound,
        status != Some(404u16) ==> r is UpstreamError && r->UpstreamError_0@ == detail@,
{
    match status {
        Some(code) if code == 404 => BuildError::NotFound,
        _ => BuildError::UpstreamError(detail),
    }
}

/// An artifact attached to a run, as the provider lists it.
#[derive(Debug)]
pub struct BuildArtifact {
    pub name: String,
    pub size: u64,
    pub artifact_id: u64,
}

pub struct ArtifactView {
    pub name: Seq<char>,
    pub size: u64,
    pub artifact_id: u64,
}

impl View for BuildArtifact {
    type V = ArtifactView;

    open spec fn view(&self) -> ArtifactView {
        ArtifactView { name: self.name@, size: self.size, artifact_id: self.artifact_id }
    }
}

impl BuildArtifact {
    pub fn duplicate(&self) -> (r: BuildArtifact)
        ensures
            r@ == self@,
    {
        BuildArtifact { name: self.name.clone(), size: self.size, artifact_id: self.artifact_id }
    }
}

/// A completed run as the provider reports it, before its artifacts are
/// resolved.
#[derive(Debug)]
pub struct WorkflowRun {
    pub run_id: u64,
    pub run_number: i64,
    pub commit: String,
    pub date: UtcDateTime,
}

pub struct RunView {
    pub run_id: u64,
    pub run_number: i64,
    pub commit: Seq<char>,
    pub date: CivilTime,
}

impl View for WorkflowRun {
    type V = RunView;

    open spec fn view(&self) -> RunView {
        RunView {
            run_id: self.run_id,
            run_number: self.run_number,
            commit: self.commit@,
            date: self.date@,
        }
    }
}

impl WorkflowRun {
    pub fn duplicate(&self) -> (r: WorkflowRun)
        ensures
            r@ == self@,
    {
        WorkflowRun {
            run_id: self.run_id,
            run_number: self.run_number,
            commit: self.commit.clone(),
            date: self.date,
        }
    }
}

/// One successful run with its distributable artifacts.
#[derive(Debug)]
pub struct Build {
    pub run_id: u64,
    pub run_number: i64,
    pub commit: String,
    pub date: UtcDateTime,
    pub artifacts: Vec<BuildArtifact>,
}

pub struct BuildView {
    pub run_id: u64,
    pub run_number: i64,
    pub commit: Seq<char>,
    pub date: CivilTime,
    pub artifacts: Seq<ArtifactView>,
}

impl View for Build {
    type V = BuildView;

    open spec fn view(&self) -> BuildView {
        BuildView {
            run_id: self.run_id,
            run_number: self.run_number,
            commit: self.commit@,
            date: self.date@,
            artifacts: artifact_views(self.artifacts@),
        }
    }
}

pub open spec fn artifact_views(s: Seq<BuildArtifact>) -> Seq<ArtifactView> {
    s.map_values(|a: BuildArtifact| a@)
}

/// The artifacts of a listing whose names start with `prefix`, in listing
/// order.
pub open spec fn kept_artifacts(prefix: Seq<char>, listing: Seq<ArtifactView>) -> Seq<
    ArtifactView,
> {
    listing.filter(|a: ArtifactView| has_prefix(a.name, prefix))
}

/// The build made of `run` and the part of its artifact listing that carries
/// `prefix`.
pub open spec fn assembled(prefix: Seq<char>, run: RunView, listing: Seq<ArtifactView>) -> BuildView {
    BuildView {
        run_id: run.run_id,
        run_number: run.run_number,
        commit: run.commit,
        date: run.date,
        artifacts: kept_artifacts(prefix, listing),
    }
}

/// `r{run_number}-{first seven characters of commit}-{YYYYMMDDHHMMSS}`.
pub open spec fn version_text(run_number: i64, commit: Seq<char>, date: CivilTime) -> Seq<char> {
    seq!['r'] + signed_decimal(run_number as int) + seq!['-'] + commit.subrange(0, 7) + seq!['-']
        + compact_timestamp(date)
}

impl Build {
    /// The version name of this build, where its commit is long enough.
    pub open spec fn version_spec(&self) -> Seq<char> {
        version_text(self.run_number, self.commit@, self.date@)
    }

    /// The build's version name, or `InvalidCommit` where the commit hash
    /// has fewer than seven characters.
    pub fn generate_version_name(&self) -> (r: Result<String, BuildError>)
        ensures
            self.commit@.len() < 7 <==> r is Err,
            r is Err ==> r->Err_0 is InvalidCommit,
            r is Ok ==> r->Ok_0@ == self.version_spec(),
    {
        let commit = self.commit.as_str();
        if commit.unicode_len() < 7 {
            return Err(BuildError::InvalidCommit);
        }
        let mut out = String::new();
        proof {
            reveal_strlit("r");
            reveal_strlit("-");
        }
        out.append("r");
        push_signed_decimal(&mut out, self.run_number);
        out.append("-");
        out.append(commit.substring_char(0, 7));
        out.append("-");
        self.date.push_compact(&mut out);
        assert(out@ =~= self.version_spec());
        Ok(out)
    }
}

/// Equal run numbers, commits and dates give equal version names.
pub proof fn lemma_version_name_deterministic(a: &Build, b: &Build)
    requires
        a.run_number == b.run_number,
        a.commit@ == b.commit@,
        a.date@ == b.date@,
    ensures
        a.version_spec() == b.version_spec(),
{
}

/// A version name is `r`, the run number in decimal, `-`, the first seven
/// characters of the commit, `-`, and fourteen digits.
pub proof fn lemma_version_name_shape(run_number: i64, commit: Seq<char>, date: CivilTime)
    requires
        commit.len() >= 7,
    ensures
        ({
            let v = version_text(run_number, commit, date);
            let k = signed_decimal(run_number as int).len() as int;
            &&& v.len() == k + 24
            &&& v[0] == 'r'
            &&& v.subrange(1, k + 1) == signed_decimal(run_number as int)
            &&& v[k + 1] == '-'
            &&& v.subrange(k + 2, k + 9) == commit.subrange(0, 7)
            &&& v[k + 9] == '-'
            &&& forall|i: int| k + 10 <= i < k + 24 ==> is_digit(#[trigger] v[i])
        }),
{
    lemma_compact_timestamp_digits(date);
    let v = version_text(run_number, commit, date);
    let k = signed_decimal(run_number as int).len() as int;
    let ts = compact_timestamp(date);
    assert(v.len() == k + 24);
    assert(v[0] == 'r');
    assert(v[k + 1] == '-');
    assert(v[k + 9] == '-');
    assert(v.subrange(1, k + 1) =~= signed_decimal(run_number as int));
    assert(v.subrange(k + 2, k + 9) =~= commit.subrange(0, 7));
    assert forall|i: int| k + 10 <= i < k + 24 implies is_digit(#[trigger] v[i]) by {
        assert(v[i] == ts[i - k - 10]);
    }
}

} // verus!
