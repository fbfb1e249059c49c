//! The gated mutation sequence of a release and the state machine that runs it.
use vstd::prelude::*;

verus! {

/// Which mutations a release is allowed to perform.
#[derive(Clone, Copy, Debug, PartialEq, Eq, Structural)]
pub struct RepoConfig {
    pub enable_branch: bool,
    pub enable_commit: bool,
    pub enable_tag: bool,
    pub enable_push: bool,
}

/// One repository mutation.
#[derive(Clone, Copy, Debug, PartialEq, Eq, Structural)]
pub enum Step {
    CreateBranch,
    CheckoutBranch,
    Commit,
    CreateTag,
    PushBranch,
    PushTag,
}

/// `s` when `b` holds, nothing otherwise.
pub open spec fn when(b: bool, s: Seq<Step>) -> Seq<Step> {
    if b {
        s
    } else {
        Seq::empty()
    }
}

/// The mutations a release runs under `cfg`, in the order they run:
/// branch (create, then check out), commit, tag, then the pushes of what
/// this run created.
pub open spec fn plan_spec(cfg: RepoConfig) -> Seq<Step> {
    when(cfg.enable_branch, seq![Step::CreateBranch, Step::CheckoutBranch])
        + when(cfg.enable_commit, seq![Step::Commit])
        + when(cfg.enable_tag, seq![Step::CreateTag])
        + when(cfg.enable_push && cfg.enable_branch, seq![Step::PushBranch])
        + when(cfg.enable_push && cfg.enable_tag, seq![Step::PushTag])
}

/// Builds the mutation sequence of `cfg`.
pub fn plan(cfg: &RepoConfig) -> (r: Vec<Step>)
    ensures
        r@ == plan_spec(*cfg),
{
    let mut r: Vec<Step> = Vec::new();
    if cfg.enable_branch {
        r.push(Step::CreateBranch);
        r.push(Step::CheckoutBranch);
    }
    if cfg.enable_commit {
        r.push(Step::Commit);
    }
    if cfg.enable_tag {
        r.push(Step::CreateTag);
    }
    if cfg.enable_push && cfg.enable_branch {
        r.push(Step::PushBranch);
    }
    if cfg.enable_push && cfg.enable_tag {
        r.push(Step::PushTag);
    }
    assert(r@ =~= plan_spec(*cfg));
    r
}

/// Progress of one release through its mutation sequence. Steps run one at a
/// time in order; the first failure ends the run and nothing after it runs.
pub struct UpdateRun {
    pub steps: Vec<Step>,
    /// How many steps have succeeded.
    pub done: usize,
    /// Whether the step at index `done` was attempted and failed.
    pub failed: bool,
}

impl UpdateRun {
    pub open spec fn wf(&self) -> bool {
        &&& self.done <= self.steps.len()
        &&& self.failed ==> self.done < self.steps.len()
    }

    /// The run has issued every step it will issue.
    pub open spec fn is_over(&self) -> bool {
        self.failed || self.done == self.steps.len()
    }

    /// The step the run issues next, if any.
    pub open spec fn next_spec(&self) -> Option<Step> {
        if self.is_over() {
            None
        } else {
            Some(self.steps@[self.done as int])
        }
    }

    /// The steps that were attempted so far, in order.
    pub open spec fn attempted(&self) -> Seq<Step> {
        if self.failed {
            self.steps@.take(self.done + 1)
        } else {
            self.steps@.take(self.done as int)
        }
    }

    /// Starts a run of the mutation sequence of `cfg`.
    pub fn new(cfg: &RepoConfig) -> (r: UpdateRun)
        ensures
            r.wf(),
            r.steps@ == plan_spec(*cfg),
            r.done == 0,
            !r.failed,
    {
        UpdateRun { steps: plan(cfg), done: 0, failed: false }
    }

    /// The step to perform next; `None` once every step succeeded or one failed.
    pub fn next_step(&self) -> (r: Option<Step>)
        requires
            self.wf(),
        ensures
            r == self.next_spec(),
    {
        if self.failed || self.done == self.steps.len() {
            None
        } else {
            Some(self.steps[self.done])
        }
    }

    /// Records the outcome of the step that `next_step` handed out.
    pub fn record(&mut self, ok: bool)
        requires
            old(self).wf(),
            !old(self).is_over(),
        ensures
            final(self).wf(),
            final(self).steps == old(self).steps,
            ok ==> final(self).done == old(self).done + 1 && !final(self).failed,
            !ok ==> final(self).done == old(self).done && final(self).failed,
    {
        if ok {
            self.done = self.done + 1;
        } else {
            self.failed = true;
        }
    }

    /// Whether every step of the run succeeded.
    pub fn succeeded(&self) -> (r: bool)
        ensures
            r == (!self.failed && self.done == self.steps.len()),
    {
        !self.failed && self.done == self.steps.len()
    }
}

/// With every mutation disabled, the sequence is empty.
pub proof fn lemma_all_disabled_no_mutation(cfg: RepoConfig)
    requires
        !cfg.enable_branch,
        !cfg.enable_commit,
        !cfg.enable_tag,
        !cfg.enable_push,
    ensures
        plan_spec(cfg).len() == 0,
{
}

/// The branch is pushed exactly when pushing and branching are both enabled,
/// and the tag exactly when pushing and tagging are.
pub proof fn lemma_push_only_what_was_created(cfg: RepoConfig)
    ensures
        plan_spec(cfg).contains(Step::PushBranch) <==> (cfg.enable_push && cfg.enable_branch),
        plan_spec(cfg).contains(Step::PushTag) <==> (cfg.enable_push && cfg.enable_tag),
{
    let p = plan_spec(cfg);
    if cfg.enable_push && cfg.enable_branch {
        assert(p[p.len() - 1 - (if cfg.enable_tag { 1int } else { 0 })] == Step::PushBranch);
    }
    if cfg.enable_push && cfg.enable_tag {
        assert(p[p.len() - 1] == Step::PushTag);
    }
    if !(cfg.enable_push && cfg.enable_branch) {
        assert forall|i: int| 0 <= i < p.len() implies p[i] != Step::PushBranch by {}
    }
    if !(cfg.enable_push && cfg.enable_tag) {
        assert forall|i: int| 0 <= i < p.len() implies p[i] != Step::PushTag by {}
    }
}

/// A checkout is only ever issued right after a branch creation that
/// succeeded in the same run, and a run issues nothing after a failure.
pub proof fn lemma_checkout_after_created_branch(cfg: RepoConfig, run: UpdateRun)
    requires
        run.wf(),
        run.steps@ == plan_spec(cfg),
    ensures
        run.failed ==> run.next_spec() is None,
        run.next_spec() == Some(Step::CheckoutBranch) ==> {
            &&& run.done >= 1
            &&& run.steps@[run.done - 1] == Step::CreateBranch
            &&& run.attempted().contains(Step::CreateBranch)
        },
{
    if run.next_spec() == Some(Step::CheckoutBranch) {
        assert(cfg.enable_branch);
        assert(run.done == 1);
        assert(run.attempted()[0] == Step::CreateBranch);
    }
}

} // verus!
