//! What a run decides before any container is touched: whether the two
//! roots are usable, and where to look for containers.
//!
//! The caller asks the file system; this module says what to ask next and
//! what follows from each answer.

use vstd::prelude::*;
use vstd::string::*;

verus! {

/// Why a run ends before any container is processed.
#[derive(Clone, Copy, Debug, PartialEq, Eq, Structural)]
pub enum FatalSetupError {
    /// The source root does not exist or is no directory.
    InvalidSourceDirectory,
    /// The target root is no directory and could not be created.
    InvalidTargetDirectory,
}

/// The next thing to do while the roots are validated.
#[derive(Clone, Copy, Debug, PartialEq, Eq, Structural)]
pub enum SetupStep {
    /// Ask whether the source root is a directory.
    ProbeSource,
    /// Ask whether the target root is a directory.
    ProbeTarget,
    /// Create the target root with its missing ancestors, and say whether
    /// that worked.
    CreateTarget,
    /// Both roots are usable: go on to discover the containers.
    Discover,
    /// Give up with this error.
    Abort(FatalSetupError),
}

impl SetupStep {
    /// Whether the validation is over, one way or the other.
    pub open spec fn is_final(self) -> bool {
        self is Discover || self is Abort
    }

    /// The step that follows `self` once the caller has done what `self`
    /// asks and reports `answer`. A final step stays as it is.
    pub open spec fn after(self, answer: bool) -> SetupStep {
        match self {
            SetupStep::ProbeSource => if answer {
                SetupStep::ProbeTarget
            } else {
                SetupStep::Abort(FatalSetupError::InvalidSourceDirectory)
            },
            SetupStep::ProbeTarget => if answer {
                SetupStep::Discover
            } else {
                SetupStep::CreateTarget
            },
            SetupStep::CreateTarget => if answer {
                SetupStep::Discover
            } else {
                SetupStep::Abort(FatalSetupError::InvalidTargetDirectory)
            },
            SetupStep::Discover => self,
            SetupStep::Abort(_) => self,
        }
    }

    /// The first step of every run.
    pub fn start() -> (step: SetupStep)
        ensures
            step == SetupStep::ProbeSource,
    {
        SetupStep::ProbeSource
    }

    /// Whether the validation is over, one way or the other.
    pub fn finished(self) -> (done: bool)
        ensures
            done == self.is_final(),
    {
        match self {
            SetupStep::Discover => true,
            SetupStep::Abort(_) => true,
            _ => false,
        }
    }

    /// The step that follows `self` once the caller has done what `self`
    /// asks and reports `answer`.
    pub fn advance(self, answer: bool) -> (next: SetupStep)
        ensures
            next == self.after(answer),
    {
        match self {
            SetupStep::ProbeSource => if answer {
                SetupStep::ProbeTarget
            } else {
                SetupStep::Abort(FatalSetupError::InvalidSourceDirectory)
            },
            SetupStep::ProbeTarget => if answer {
                SetupStep::Discover
            } else {
                SetupStep::CreateTarget
            },
            SetupStep::CreateTarget => if answer {
                SetupStep::Discover
            } else {
                SetupStep::Abort(FatalSetupError::InvalidTargetDirectory)
            },
            SetupStep::Discover => self,
            SetupStep::Abort(_) => self,
        }
    }
}

/// The step reached from `step` after the answers `answers`, in order.
pub open spec fn run(step: SetupStep, answers: Seq<bool>) -> SetupStep
    decreases answers.len(),
{
    if answers.len() == 0 {
        step
    } else {
        run(step, answers.drop_last()).after(answers.last())
    }
}

/// How the validation ends for a source root that is a directory or not, a
/// target root that is one or not, and a creation of the target root that
/// works or not.
pub open spec fn setup_result(source_is_dir: bool, target_is_dir: bool, target_created: bool) -> Result<
    (),
    FatalSetupError,
> {
    if !source_is_dir {
        Err(FatalSetupError::InvalidSourceDirectory)
    } else if target_is_dir || target_created {
        Ok(())
    } else {
        Err(FatalSetupError::InvalidTargetDirectory)
    }
}

/// A run whose source root is no directory is over after the first answer,
/// with `InvalidSourceDirectory`, whatever is answered afterwards: it never
/// asks for the target root to be created, and never goes on to discovery.
pub proof fn lemma_invalid_source_fails_fast(answers: Seq<bool>)
    requires
        answers.len() >= 1,
        !answers[0],
    ensures
        run(SetupStep::ProbeSource, answers) == SetupStep::Abort(
            FatalSetupError::InvalidSourceDirectory,
        ),
    decreases answers.len(),
{
    if answers.len() == 1 {
        assert(answers.drop_last().len() == 0);
        assert(run(SetupStep::ProbeSource, answers.drop_last()) == SetupStep::ProbeSource);
    } else {
        lemma_invalid_source_fails_fast(answers.drop_last());
    }
}

/// A run is over after at most three answers, and ends as `setup_result`
/// says: it goes on to discovery exactly when the source root is a
/// directory and the target root is one or could be created. The target
/// root is created only where the source root is a directory and the
/// target root is none.
pub proof fn lemma_setup_ends(source_is_dir: bool, target_is_dir: bool, target_created: bool)
    ensures
        ({
            let first = SetupStep::ProbeSource.after(source_is_dir);
            let second = first.after(target_is_dir);
            let third = second.after(target_created);
            &&& third.is_final()
            &&& match setup_result(source_is_dir, target_is_dir, target_created) {
                Ok(_) => third == SetupStep::Discover,
                Err(e) => third == SetupStep::Abort(e),
            }
            &&& first != SetupStep::CreateTarget
            &&& second == SetupStep::CreateTarget <==> source_is_dir && !target_is_dir
            &&& first.is_final() <==> !source_is_dir
            &&& second.is_final() <==> !source_is_dir || target_is_dir
        }),
{
}

/// The glob pattern that finds the containers under `source_dir`: every
/// path under it, at any depth, whose name ends in `.dat`.
pub fn discovery_pattern(source_dir: &str) -> (pattern: String)
    ensures
        pattern@ == source_dir@ + "/**/*.dat"@,
{
    String::from_str(source_dir).concat("/**/*.dat")
}

} // verus!
