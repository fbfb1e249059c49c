//! The mutations of a release together with the identifiers each one hands
//! to git: what a step does once the release's identifiers are known.
use vstd::prelude::*;
use crate::sequence::{plan_spec, Step};
use crate::strings::{Config, ProjectStrings};
use crate::version::{version_text, VersionUpdate};

verus! {

/// One repository mutation with its arguments.
pub enum Action {
    /// Create branch `name` at HEAD.
    CreateBranch { name: String },
    /// Check out the branch stored under `refname`.
    CheckoutBranch { refname: String },
    /// Commit what the index holds with `message`; no paths are staged.
    Commit { message: String },
    /// Tag HEAD as `name`.
    CreateTag { name: String },
    /// Push the branch reference `refspec` to `remote`.
    PushBranch { remote: String, refspec: String },
    /// Push the tag reference `refspec` to `remote`.
    PushTag { remote: String, refspec: String },
}

/// An action as text.
pub enum ActionView {
    CreateBranch { name: Seq<char> },
    CheckoutBranch { refname: Seq<char> },
    Commit { message: Seq<char> },
    CreateTag { name: Seq<char> },
    PushBranch { remote: Seq<char>, refspec: Seq<char> },
    PushTag { remote: Seq<char>, refspec: Seq<char> },
}

impl View for Action {
    type V = ActionView;

    open spec fn view(&self) -> ActionView {
        match self {
            Action::CreateBranch { name } => ActionView::CreateBranch { name: name@ },
            Action::CheckoutBranch { refname } => ActionView::CheckoutBranch { refname: refname@ },
            Action::Commit { message } => ActionView::Commit { message: message@ },
            Action::CreateTag { name } => ActionView::CreateTag { name: name@ },
            Action::PushBranch { remote, refspec } => ActionView::PushBranch {
                remote: remote@,
                refspec: refspec@,
            },
            Action::PushTag { remote, refspec } => ActionView::PushTag {
                remote: remote@,
                refspec: refspec@,
            },
        }
    }
}

/// The reference under which branch `name` is stored.
pub open spec fn branch_ref(name: Seq<char>) -> Seq<char> {
    seq!['r', 'e', 'f', 's', '/', 'h', 'e', 'a', 'd', 's', '/'] + name
}

/// The reference under which tag `name` is stored.
pub open spec fn tag_ref(name: Seq<char>) -> Seq<char> {
    seq!['r', 'e', 'f', 's', '/', 't', 'a', 'g', 's', '/'] + name
}

/// What `step` does for a release with these identifiers: branch steps use
/// the branch, the commit the message, the tag step the tag, and each push
/// the reference that its creation step made, to `remote`.
pub open spec fn action_spec(
    step: Step,
    branch: Seq<char>,
    message: Seq<char>,
    tag: Seq<char>,
    remote: Seq<char>,
) -> ActionView {
    match step {
        Step::CreateBranch => ActionView::CreateBranch { name: branch },
        Step::CheckoutBranch => ActionView::CheckoutBranch { refname: branch_ref(branch) },
        Step::Commit => ActionView::Commit { message },
        Step::CreateTag => ActionView::CreateTag { name: tag },
        Step::PushBranch => ActionView::PushBranch { remote, refspec: branch_ref(branch) },
        Step::PushTag => ActionView::PushTag { remote, refspec: tag_ref(tag) },
    }
}

/// What `step` does with the identifiers `s`.
pub open spec fn step_action(s: &ProjectStrings, step: Step) -> ActionView {
    action_spec(step, s.branch_name@, s.commit_message@, s.tag_name@, s.remote_name@)
}

/// The actions of `steps` with the identifiers `s`, in order.
pub open spec fn step_actions(s: &ProjectStrings, steps: Seq<Step>) -> Seq<ActionView> {
    steps.map_values(|step: Step| step_action(s, step))
}

pub open spec fn action_views(a: Seq<Action>) -> Seq<ActionView> {
    a.map_values(|x: Action| x@)
}

/// Every action of the release `u` under `cfg`, in the order they run.
pub open spec fn release_actions(cfg: &Config, u: VersionUpdate) -> Seq<ActionView> {
    plan_spec(cfg.repository).map_values(
        |step: Step|
            action_spec(
                step,
                cfg.branch_prefix@ + version_text(u.new),
                cfg.commit_prefix@ + version_text(u.new),
                cfg.tag_prefix@ + version_text(u.new),
                cfg.remote_name@,
            ),
    )
}

pub fn branch_refname(name: &String) -> (r: String)
    ensures
        r@ == branch_ref(name@),
{
    proof {
        reveal_strlit("refs/heads/");
    }
    let mut r = String::from_str("refs/heads/");
    r.append(name.as_str());
    assert(r@ =~= branch_ref(name@));
    r
}

pub fn tag_refname(name: &String) -> (r: String)
    ensures
        r@ == tag_ref(name@),
{
    proof {
        reveal_strlit("refs/tags/");
    }
    let mut r = String::from_str("refs/tags/");
    r.append(name.as_str());
    assert(r@ =~= tag_ref(name@));
    r
}

/// The action `step` performs with the identifiers `strings`.
pub fn action_of(step: Step, strings: &ProjectStrings) -> (r: Action)
    ensures
        r@ == step_action(strings, step),
{
    match step {
        Step::CreateBranch => Action::CreateBranch { name: strings.branch_name.clone() },
        Step::CheckoutBranch => Action::CheckoutBranch {
            refname: branch_refname(&strings.branch_name),
        },
        Step::Commit => Action::Commit { message: strings.commit_message.clone() },
        Step::CreateTag => Action::CreateTag { name: strings.tag_name.clone() },
        Step::PushBranch => Action::PushBranch {
            remote: strings.remote_name.clone(),
            refspec: branch_refname(&strings.branch_name),
        },
        Step::PushTag => Action::PushTag {
            remote: strings.remote_name.clone(),
            refspec: tag_refname(&strings.tag_name),
        },
    }
}

} // verus!
