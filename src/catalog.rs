//! Turning provider runs and their artifact listings into builds. Fetching
//! happens outside; every decision on what a build holds is made here.

use vstd::prelude::*;
use crate::builds::{
    Build, BuildArtifact, BuildError, WorkflowRun, artifact_views, assembled, kept_artifacts,
    RunView, ArtifactView,
};
use crate::config::Builds;
use crate::text::{has_prefix, starts_with};

verus! {

/// Every artifact of an assembled build carries the prefix it was filtered by.
pub proof fn lemma_assembled_artifacts_have_prefix(
    prefix: Seq<char>,
    run: RunView,
    listing: Seq<ArtifactView>,
)
    ensures
        forall|i: int|
            0 <= i < assembled(prefix, run, listing).artifacts.len() ==> has_prefix(
                #[trigger] assembled(prefix, run, listing).artifacts[i].name,
                prefix,
            ),
{
    let pred = |a: ArtifactView| has_prefix(a.name, prefix);
    assert forall|i: int| 0 <= i < listing.filter(pred).len() implies has_prefix(
        #[trigger] listing.filter(pred)[i].name,
        prefix,
    ) by {
        listing.lemma_filter_pred(pred, i);
    }
}

/// The build of `run`, keeping of `listing` the artifacts whose names start
/// with the configured prefix, in listing order.
pub fn assemble_build(config: &Builds, run: WorkflowRun, listing: &Vec<BuildArtifact>) -> (r:
    Build)
    ensures
        r@ == assembled(config.artifact_prefix@, run@, artifact_views(listing@)),
        forall|i: int|
            0 <= i < r.artifacts@.len() ==> has_prefix(
                #[trigger] r.artifacts@[i].name@,
                config.artifact_prefix@,
            ),
{
    let ghost prefix = config.artifact_prefix@;
    let ghost pred = |a: ArtifactView| has_prefix(a.name, prefix);
    let mut kept: Vec<BuildArtifact> = Vec::new();
    let mut i: usize = 0;
    assert(artifact_views(listing@.subrange(0, 0)) =~= Seq::empty());
    proof {
        reveal(Seq::filter);
    }
    while i < listing.len()
        invariant
            i <= listing@.len(),
            prefix == config.artifact_prefix@,
            pred == (|a: ArtifactView| has_prefix(a.name, prefix)),
            artifact_views(kept@) == artifact_views(listing@.subrange(0, i as int)).filter(pred),
        decreases listing@.len() - i,
    {
        let ghost before = artifact_views(listing@.subrange(0, i as int));
        let ghost after = artifact_views(listing@.subrange(0, i + 1));
        assert(after.drop_last() =~= before);
        assert(after.last() == listing@[i as int]@);
        proof {
            reveal(Seq::filter);
        }
        let a = &listing[i];
        if starts_with(a.name.as_str(), config.artifact_prefix.as_str()) {
            kept.push(a.duplicate());
            assert(artifact_views(kept@) =~= after.filter(pred));
        } else {
            assert(artifact_views(kept@) =~= after.filter(pred));
        }
        i = i + 1;
    }
    assert(listing@.subrange(0, listing@.len() as int) =~= listing@);
    let r = Build {
        run_id: run.run_id,
        run_number: run.run_number,
        commit: run.commit,
        date: run.date,
        artifacts: kept,
    };
    proof {
        lemma_assembled_artifacts_have_prefix(prefix, run@, artifact_views(listing@));
        assert forall|i: int| 0 <= i < r.artifacts@.len() implies has_prefix(
            #[trigger] r.artifacts@[i].name@,
            prefix,
        ) by {
            assert(r@.artifacts[i] == r.artifacts@[i]@);
        }
    }
    r
}

/// The builds of all `runs`, each paired with its artifact listing, in the
/// order given.
pub fn assemble_builds(config: &Builds, runs: &Vec<(WorkflowRun, Vec<BuildArtifact>)>) -> (r: Vec<
    Build,
>)
    ensures
        r@.len() == runs@.len(),
        forall|i: int|
            0 <= i < runs@.len() ==> (#[trigger] r@[i])@ == assembled(
                config.artifact_prefix@,
                runs@[i].0@,
                artifact_views(runs@[i].1@),
            ),
        forall|i: int, j: int|
            0 <= i < r@.len() && 0 <= j < r@[i].artifacts@.len() ==> has_prefix(
                #[trigger] r@[i].artifacts@[j].name@,
                config.artifact_prefix@,
            ),
{
    let mut out: Vec<Build> = Vec::new();
    let mut i: usize = 0;
    while i < runs.len()
        invariant
            i <= runs@.len(),
            out@.len() == i,
            forall|k: int|
                0 <= k < i ==> (#[trigger] out@[k])@ == assembled(
                    config.artifact_prefix@,
                    runs@[k].0@,
                    artifact_views(runs@[k].1@),
                ),
            forall|k: int, j: int|
                0 <= k < i && 0 <= j < out@[k].artifacts@.len() ==> has_prefix(
                    #[trigger] out@[k].artifacts@[j].name@,
                    config.artifact_prefix@,
                ),
        decreases runs@.len() - i,
    {
        let entry = &runs[i];
        let b = assemble_build(config, entry.0.duplicate(), &entry.1);
        out.push(b);
        i = i + 1;
    }
    out
}

/// The newest run of a listing that the provider orders newest first, or
/// `NoSuccessfulRuns` where the listing is empty.
pub fn latest_run(runs: Vec<WorkflowRun>) -> (r: Result<WorkflowRun, BuildError>)
    ensures
        runs@.len() == 0 <==> r is Err,
        r is Err ==> r->Err_0 is NoSuccessfulRuns,
        r is Ok ==> r->Ok_0@ == runs@[0]@,
{
    let mut runs = runs;
    if runs.len() == 0 {
        Err(BuildError::NoSuccessfulRuns)
    } else {
        Ok(runs.remove(0))
    }
}

} // verus!
