use vstd::prelude::*;

verus! {

/// One step of the native build, each run by an external tool.
#[derive(Clone, Copy, Debug, PartialEq, Eq, Structural)]
pub enum BuildStep {
    /// The probe-definition compiler writes the provider header from the schema.
    GenerateHeader,
    /// The native compiler turns the wrapper source into an object.
    CompileWrapper,
    /// The probe-definition compiler links the provider definitions into an object.
    LinkProviderObject,
    /// The native compiler links every object into one shared, position-independent library.
    LinkShared,
}

/// The steps in order. Where the platform folds the provider link into the others,
/// that step is left out.
pub open spec fn steps_for(folds_provider_link: bool) -> Seq<BuildStep> {
    if folds_provider_link {
        seq![BuildStep::GenerateHeader, BuildStep::CompileWrapper, BuildStep::LinkShared]
    } else {
        seq![
            BuildStep::GenerateHeader,
            BuildStep::CompileWrapper,
            BuildStep::LinkProviderObject,
            BuildStep::LinkShared,
        ]
    }
}

/// What the driver does next.
#[derive(Clone, Copy, Debug, PartialEq, Eq, Structural)]
pub enum PipelineAction {
    Run(BuildStep),
    Finished,
    Abort(BuildStep),
}

/// The progress of one build: the steps and how many of them have succeeded.
pub struct Pipeline {
    steps: Vec<BuildStep>,
    done: usize,
    aborted: bool,
}

impl Pipeline {
    pub closed spec fn steps(&self) -> Seq<BuildStep> {
        self.steps@
    }

    pub closed spec fn done(&self) -> nat {
        self.done as nat
    }

    pub closed spec fn aborted(&self) -> bool {
        self.aborted
    }

    /// The count of finished steps stays within the steps, and a failed step is one of them.
    pub open spec fn wf(&self) -> bool {
        &&& self.done() <= self.steps().len()
        &&& self.aborted() ==> self.done() < self.steps().len()
    }

    /// A build that has run nothing yet.
    pub fn new(folds_provider_link: bool) -> (r: Pipeline)
        ensures
            r.wf(),
            r.steps() == steps_for(folds_provider_link),
            r.done() == 0,
            !r.aborted(),
    {
        let steps = if folds_provider_link {
            vec![BuildStep::GenerateHeader, BuildStep::CompileWrapper, BuildStep::LinkShared]
        } else {
            vec![
                BuildStep::GenerateHeader,
                BuildStep::CompileWrapper,
                BuildStep::LinkProviderObject,
                BuildStep::LinkShared,
            ]
        };
        Pipeline { steps, done: 0, aborted: false }
    }

    /// The steps of this build, in order.
    pub fn planned_steps(&self) -> (r: Vec<BuildStep>)
        ensures
            r@ == self.steps(),
    {
        let mut out: Vec<BuildStep> = Vec::new();
        let mut i: usize = 0;
        while i < self.steps.len()
            invariant
                i <= self.steps@.len(),
                out@ == self.steps@.subrange(0, i as int),
            decreases self.steps@.len() - i,
        {
            out.push(self.steps[i]);
            i = i + 1;
            assert(out@ =~= self.steps@.subrange(0, i as int));
        }
        assert(self.steps@.subrange(0, i as int) =~= self.steps@);
        out
    }

    /// The action that the state calls for: the next step, the end, or the abort at
    /// the step that failed.
    pub fn action(&self) -> (r: PipelineAction)
        requires
            self.wf(),
        ensures
            self.aborted() ==> r == PipelineAction::Abort(self.steps()[self.done() as int]),
            !self.aborted() && self.done() < self.steps().len() ==> r == PipelineAction::Run(
                self.steps()[self.done() as int],
            ),
            !self.aborted() && self.done() == self.steps().len() ==> r == PipelineAction::Finished,
    {
        if self.aborted {
            PipelineAction::Abort(self.steps[self.done])
        } else if self.done < self.steps.len() {
            PipelineAction::Run(self.steps[self.done])
        } else {
            PipelineAction::Finished
        }
    }

    /// Takes the outcome of the step that `action` asked for. A step succeeds only when
    /// its tool exits with success and its declared output exists; a failure is final.
    pub fn report(&mut self, exit_ok: bool, output_exists: bool) -> (r: PipelineAction)
        requires
            old(self).wf(),
            !old(self).aborted(),
            old(self).done() < old(self).steps().len(),
        ensures
            final(self).wf(),
            final(self).steps() == old(self).steps(),
            exit_ok && output_exists ==> final(self).done() == old(self).done() + 1,
            exit_ok && output_exists ==> !final(self).aborted(),
            !(exit_ok && output_exists) ==> final(self).done() == old(self).done(),
            !(exit_ok && output_exists) ==> final(self).aborted(),
            r == (if exit_ok && output_exists {
                if old(self).done() + 1 < old(self).steps().len() {
                    PipelineAction::Run(old(self).steps()[old(self).done() + 1 as int])
                } else {
                    PipelineAction::Finished
                }
            } else {
                PipelineAction::Abort(old(self).steps()[old(self).done() as int])
            }),
    {
        let n = self.steps.len();
        if exit_ok && output_exists {
            self.done = self.done + 1;
        } else {
            self.aborted = true;
        }
        assert(n == self.steps@.len());
        self.action()
    }
}

/// The file that a step must leave behind.
pub fn output_name(step: BuildStep) -> (r: &'static str)
    ensures
        step == BuildStep::GenerateHeader ==> r@ == "provider.h"@,
        step == BuildStep::CompileWrapper ==> r@ == "rustracing.o"@,
        step == BuildStep::LinkProviderObject ==> r@ == "provider.o"@,
        step == BuildStep::LinkShared ==> r@ == "librustracing.so"@,
{
    match step {
        BuildStep::GenerateHeader => "provider.h",
        BuildStep::CompileWrapper => "rustracing.o",
        BuildStep::LinkProviderObject => "provider.o",
        BuildStep::LinkShared => "librustracing.so",
    }
}

} // verus!
