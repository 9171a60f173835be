//! The order of the build: which stage runs next, and what a failure of a
//! stage does to the stages after it.

use crate::error::BuildError;
use vstd::prelude::*;

verus! {

/// One stage of the build.
#[derive(Clone, Copy, Debug, PartialEq, Eq, Structural)]
pub enum Stage {
    /// Find out which chip the build is for.
    ResolveTarget,
    /// Build the vendored stack into a static archive.
    BuildArchive,
    /// Turn the stack's header into declarations.
    GenerateBindings,
    /// Store the declarations.
    WriteBindings,
    /// Bring the stored declarations into canonical style.
    FormatBindings,
}

/// Where a build stands.
#[derive(Clone, Copy, Debug, PartialEq, Eq, Structural)]
pub enum Pipeline {
    /// The stage is to be run next.
    Pending(Stage),
    /// Archive and declarations are there. The flag tells whether the
    /// declarations are in canonical style.
    Finished(bool),
    /// A stage failed and nothing may run after it.
    Aborted(BuildError),
}

impl Stage {
    /// The failure that this stage ends in when it does not succeed.
    pub open spec fn failure_of(self) -> BuildError {
        match self {
            Stage::ResolveTarget => BuildError::UnresolvedTarget,
            Stage::BuildArchive => BuildError::NativeBuildFailed,
            Stage::GenerateBindings => BuildError::BindingGenerationFailed,
            Stage::WriteBindings => BuildError::BindingWriteFailed,
            Stage::FormatBindings => BuildError::PostFormatFailed,
        }
    }

    /// The stage that runs after this one, if there is one.
    pub open spec fn following(self) -> Option<Stage> {
        match self {
            Stage::ResolveTarget => Some(Stage::BuildArchive),
            Stage::BuildArchive => Some(Stage::GenerateBindings),
            Stage::GenerateBindings => Some(Stage::WriteBindings),
            Stage::WriteBindings => Some(Stage::FormatBindings),
            Stage::FormatBindings => None,
        }
    }

    /// Gives the failure that this stage ends in when it does not succeed.
    pub fn failure(&self) -> (e: BuildError)
        ensures
            e == self.failure_of(),
    {
        match self {
            Stage::ResolveTarget => BuildError::UnresolvedTarget,
            Stage::BuildArchive => BuildError::NativeBuildFailed,
            Stage::GenerateBindings => BuildError::BindingGenerationFailed,
            Stage::WriteBindings => BuildError::BindingWriteFailed,
            Stage::FormatBindings => BuildError::PostFormatFailed,
        }
    }

    /// Gives the stage that runs after this one, if there is one.
    pub fn next(&self) -> (r: Option<Stage>)
        ensures
            r == self.following(),
    {
        match self {
            Stage::ResolveTarget => Some(Stage::BuildArchive),
            Stage::BuildArchive => Some(Stage::GenerateBindings),
            Stage::GenerateBindings => Some(Stage::WriteBindings),
            Stage::WriteBindings => Some(Stage::FormatBindings),
            Stage::FormatBindings => None,
        }
    }
}

impl Pipeline {
    /// The build before anything has run.
    pub open spec fn initial() -> Pipeline {
        Pipeline::Pending(Stage::ResolveTarget)
    }

    /// Where the build stands once the pending stage has ended. A stage that
    /// succeeds hands over to the one after it, and the last one finishes
    /// the build. A stage that fails aborts the build, except that a failed
    /// formatting finishes it with the declarations left as written. A
    /// build that has finished or aborted stays as it is.
    pub open spec fn advanced(self, succeeded: bool) -> Pipeline {
        match self {
            Pipeline::Pending(stage) => {
                if succeeded {
                    match stage.following() {
                        Some(next) => Pipeline::Pending(next),
                        None => Pipeline::Finished(true),
                    }
                } else if stage.failure_of().fatal() {
                    Pipeline::Aborted(stage.failure_of())
                } else {
                    Pipeline::Finished(false)
                }
            },
            _ => self,
        }
    }

    /// Where the build stands after the stages have ended as `outcomes`
    /// says, one after the other.
    pub open spec fn after(self, outcomes: Seq<bool>) -> Pipeline
        decreases outcomes.len(),
    {
        if outcomes.len() == 0 {
            self
        } else {
            self.after(outcomes.drop_last()).advanced(outcomes.last())
        }
    }

    /// The stage to run next, if the build goes on.
    pub open spec fn pending_stage(self) -> Option<Stage> {
        match self {
            Pipeline::Pending(stage) => Some(stage),
            _ => None,
        }
    }

    /// The failure to report, if there is one: the one that aborted the
    /// build, or the failed formatting of a finished build.
    pub open spec fn reported(self) -> Option<BuildError> {
        match self {
            Pipeline::Pending(_) => None,
            Pipeline::Finished(formatted) => if formatted {
                None
            } else {
                Some(BuildError::PostFormatFailed)
            },
            Pipeline::Aborted(e) => Some(e),
        }
    }

    /// Starts a build.
    pub fn start() -> (p: Pipeline)
        ensures
            p == Pipeline::initial(),
    {
        Pipeline::Pending(Stage::ResolveTarget)
    }

    /// Records how the pending stage has ended.
    pub fn advance(self, succeeded: bool) -> (p: Pipeline)
        ensures
            p == self.advanced(succeeded),
    {
        match self {
            Pipeline::Pending(stage) => {
                if succeeded {
                    match stage.next() {
                        Some(next) => Pipeline::Pending(next),
                        None => Pipeline::Finished(true),
                    }
                } else {
                    let e: BuildError = stage.failure();
                    if e.is_fatal() {
                        Pipeline::Aborted(e)
                    } else {
                        Pipeline::Finished(false)
                    }
                }
            },
            Pipeline::Finished(formatted) => Pipeline::Finished(formatted),
            Pipeline::Aborted(e) => Pipeline::Aborted(e),
        }
    }

    /// Gives the stage to run next, if the build goes on.
    pub fn pending(&self) -> (r: Option<Stage>)
        ensures
            r == self.pending_stage(),
    {
        match self {
            Pipeline::Pending(stage) => Some(*stage),
            _ => None,
        }
    }

    /// Gives the failure to report, if there is one.
    pub fn error(&self) -> (r: Option<BuildError>)
        ensures
            r == self.reported(),
    {
        match self {
            Pipeline::Pending(_) => None,
            Pipeline::Finished(formatted) => {
                if *formatted {
                    None
                } else {
                    Some(BuildError::PostFormatFailed)
                }
            },
            Pipeline::Aborted(e) => Some(*e),
        }
    }

    /// Runs a whole build against stages that end as `outcomes` says.
    pub fn replay(outcomes: &Vec<bool>) -> (p: Pipeline)
        ensures
            p == Pipeline::initial().after(outcomes@),
    {
        let mut p: Pipeline = Pipeline::start();
        let mut i: usize = 0;
        proof {
            assert(outcomes@.take(0) =~= Seq::<bool>::empty());
        }
        while i < outcomes.len()
            invariant
                i <= outcomes.len(),
                p == Pipeline::initial().after(outcomes@.take(i as int)),
            decreases outcomes.len() - i,
        {
            proof {
                assert(outcomes@.take(i + 1).drop_last() =~= outcomes@.take(i as int));
            }
            p = p.advance(outcomes[i]);
            i += 1;
        }
        proof {
            assert(outcomes@.take(outcomes.len() as int) =~= outcomes@);
        }
        p
    }
}

/// Where a build stands, read off the outcomes directly: the first stage
/// that failed decides, and where none failed, the number of stages that
/// have run.
pub open spec fn standing(outcomes: Seq<bool>) -> Pipeline {
    if outcomes.len() == 0 {
        Pipeline::Pending(Stage::ResolveTarget)
    } else if !outcomes[0] {
        Pipeline::Aborted(BuildError::UnresolvedTarget)
    } else if outcomes.len() == 1 {
        Pipeline::Pending(Stage::BuildArchive)
    } else if !outcomes[1] {
        Pipeline::Aborted(BuildError::NativeBuildFailed)
    } else if outcomes.len() == 2 {
        Pipeline::Pending(Stage::GenerateBindings)
    } else if !outcomes[2] {
        Pipeline::Aborted(BuildError::BindingGenerationFailed)
    } else if outcomes.len() == 3 {
        Pipeline::Pending(Stage::WriteBindings)
    } else if !outcomes[3] {
        Pipeline::Aborted(BuildError::BindingWriteFailed)
    } else if outcomes.len() == 4 {
        Pipeline::Pending(Stage::FormatBindings)
    } else {
        Pipeline::Finished(outcomes[4])
    }
}

/// A build stands where its first failure, or else the number of its
/// stages that have run, puts it.
pub proof fn lemma_after_is_standing(outcomes: Seq<bool>)
    ensures
        Pipeline::initial().after(outcomes) == standing(outcomes),
    decreases outcomes.len(),
{
    if outcomes.len() > 0 {
        lemma_after_is_standing(outcomes.drop_last());
    }
}

/// A build that has finished or aborted runs no further stage, whatever is
/// reported to it.
pub proof fn lemma_stopped_build_stays(p: Pipeline, outcomes: Seq<bool>)
    requires
        p.pending_stage() is None,
    ensures
        p.after(outcomes) == p,
    decreases outcomes.len(),
{
    if outcomes.len() > 0 {
        lemma_stopped_build_stays(p, outcomes.drop_last());
    }
}

/// When the external build fails, the build aborts with that failure and
/// stays aborted: the generator is never the pending stage afterwards.
pub proof fn lemma_failed_archive_stops_build(outcomes: Seq<bool>)
    requires
        outcomes.len() >= 2,
        outcomes[0],
        !outcomes[1],
    ensures
        Pipeline::initial().after(outcomes) == Pipeline::Aborted(BuildError::NativeBuildFailed),
{
    lemma_after_is_standing(outcomes);
}

/// The generator is pending only directly after the target was resolved
/// and the archive was built.
pub proof fn lemma_bindings_need_archive(outcomes: Seq<bool>)
    requires
        Pipeline::initial().after(outcomes) == Pipeline::Pending(Stage::GenerateBindings),
    ensures
        outcomes =~= seq![true, true],
{
    lemma_after_is_standing(outcomes);
}

/// A build finishes only when the target was resolved, the archive built,
/// and the declarations generated and written; a build aborts only on a
/// fatal failure.
pub proof fn lemma_finished_build_is_whole(outcomes: Seq<bool>)
    ensures
        Pipeline::initial().after(outcomes) is Finished ==> outcomes.len() >= 5 && outcomes[0]
            && outcomes[1] && outcomes[2] && outcomes[3],
        Pipeline::initial().after(outcomes) matches Pipeline::Aborted(e) ==> e.fatal(),
{
    lemma_after_is_standing(outcomes);
}

} // verus!
