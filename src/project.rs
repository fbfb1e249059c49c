//! A project: a repository plus the configuration of its releases.
use vstd::prelude::*;
use crate::action::{
    action_of, action_views, release_actions, step_action, step_actions, Action,
};
use crate::error::SheepError;
use crate::git::{
    branch, checkout_tree, clone_repository, commit, find_remote, find_tree, head, index,
    open_repository, peel_to_commit, push, remote_url, repository_path, revparse_single, set_head,
    signature, tag_lightweight, tag_names, write_tree,
};
use crate::sequence::{plan_spec, Step, UpdateRun};
use crate::strings::{is_default, Config, ProjectStrings};
use crate::version::{
    applicable, latest_spec, latest_version, update_spec, version_text, Operation, VersionUpdate,
};

verus! {

/// The remote a dry run clones.
pub open spec fn origin() -> Seq<char> {
    seq!['o', 'r', 'i', 'g', 'i', 'n']
}

/// A repository whose releases are cut with `config`. A dry-run project
/// works on a clone of another repository's `origin`.
pub struct Project {
    pub config: Config,
    pub repo: git2::Repository,
    pub is_dry_run_project: bool,
}

/// What a successful release reports.
pub struct ProjectUpdateInfo {
    /// Where the git directory of the repository that was changed lies.
    pub repo_path: String,
    /// The version transition that was released.
    pub release: VersionUpdate,
    /// The mutations that were performed, in order.
    pub actions: Vec<Action>,
}

impl ProjectUpdateInfo {
    pub fn new(repo_path: &str, release: VersionUpdate, actions: Vec<Action>) -> (r:
        ProjectUpdateInfo)
        ensures
            r.repo_path@ == repo_path@,
            r.release == release,
            r.actions@ == actions@,
    {
        ProjectUpdateInfo { repo_path: repo_path.to_owned(), release, actions }
    }
}

/// Resolves the release of `operation` on a project tagged `tags`: the
/// transition from the latest version tag (`0.0.0` without one) and the
/// identifiers rendered from `config` for the new version.
pub fn release_identifiers(config: &Config, tags: &Vec<Vec<u8>>, operation: Operation) -> (r:
    Result<(VersionUpdate, ProjectStrings), SheepError>)
    ensures
        ({
            let current = latest_spec(tags@.map_values(|t: Vec<u8>| t@));
            &&& r is Ok <==> applicable(operation, current)
            &&& r matches Err(e) ==> e == (SheepError::VersionOverflow { current, operation })
            &&& r matches Ok((u, s)) ==> {
                &&& update_spec(operation, current) == Some(u)
                &&& s.branch_name@ == config.branch_prefix@ + version_text(u.new)
                &&& s.commit_message@ == config.commit_prefix@ + version_text(u.new)
                &&& s.tag_name@ == config.tag_prefix@ + version_text(u.new)
                &&& s.remote_name@ == config.remote_name@
            }
        }),
{
    let current = latest_version(tags);
    match operation.version_update(current) {
        Some(update) => {
            let strings = ProjectStrings::new(config, &update);
            Ok((update, strings))
        },
        None => Err(SheepError::VersionOverflow { current, operation }),
    }
}

/// Creates branch `name` at the commit HEAD points to; fails if it exists.
fn create_branch(repo: &git2::Repository, name: &str) -> (r: Result<(), git2::Error>) {
    let head_ref = head(repo)?;
    let target = peel_to_commit(&head_ref)?;
    branch(repo, name, &target, false)
}

/// Checks out the branch stored under `refname`: its tree, then HEAD;
/// fails if it does not exist.
fn checkout_branch(repo: &git2::Repository, refname: &str) -> (r: Result<(), git2::Error>) {
    let target = revparse_single(repo, refname)?;
    checkout_tree(repo, &target)?;
    set_head(repo, refname)
}

/// Commits what the index holds on top of HEAD. No paths are staged here:
/// whatever was staged before the release goes into the commit.
fn commit_staged(repo: &git2::Repository, message: &str) -> (r: Result<(), git2::Error>) {
    let author = signature(repo)?;
    let mut staged = index(repo)?;
    let tree_id = write_tree(&mut staged)?;
    let tree = find_tree(repo, tree_id)?;
    let head_ref = head(repo)?;
    let parent = peel_to_commit(&head_ref)?;
    commit(repo, "HEAD", &author, message, &tree, &parent)
}

/// Tags the commit HEAD points to as `name`; fails if the tag exists.
fn create_tag(repo: &git2::Repository, name: &str) -> (r: Result<(), git2::Error>) {
    let target = revparse_single(repo, "HEAD")?;
    tag_lightweight(repo, name, &target, false)
}

/// Pushes `refspec` to the remote called `remote_name`.
fn push_refspec(repo: &git2::Repository, remote_name: &str, refspec: &str) -> (r: Result<
    (),
    git2::Error,
>) {
    let mut remote = find_remote(repo, remote_name)?;
    push(&mut remote, refspec)
}

/// The fetch URL of the remote called `name`.
fn fetch_url(repo: &git2::Repository, name: &str) -> (r: Result<String, git2::Error>) {
    let remote = find_remote(repo, name)?;
    remote_url(&remote)
}

/// Performs `action` on `repo`.
fn perform(repo: &git2::Repository, action: &Action) -> (r: Result<(), git2::Error>) {
    match action {
        Action::CreateBranch { name } => create_branch(repo, name.as_str()),
        Action::CheckoutBranch { refname } => checkout_branch(repo, refname.as_str()),
        Action::Commit { message } => commit_staged(repo, message.as_str()),
        Action::CreateTag { name } => create_tag(repo, name.as_str()),
        Action::PushBranch { remote, refspec } => push_refspec(
            repo,
            remote.as_str(),
            refspec.as_str(),
        ),
        Action::PushTag { remote, refspec } => push_refspec(repo, remote.as_str(), refspec.as_str()),
    }
}

impl Project {
    /// Opens the repository at `path` as a project with the default configuration.
    pub fn new_local_project(path: &str) -> (r: Result<Project, SheepError>)
        ensures
            r matches Ok(p) ==> is_default(&p.config) && !p.is_dry_run_project,
            r is Err ==> r matches Err(SheepError::Open(_)),
    {
        match open_repository(path) {
            Ok(repo) => Ok(Project { config: Config::default(), repo, is_dry_run_project: false }),
            Err(e) => Err(SheepError::Open(e)),
        }
    }

    /// Clones `url` into `directory` as a project with the default configuration.
    pub fn new_remote_project(url: &str, directory: &str) -> (r: Result<Project, SheepError>)
        ensures
            r matches Ok(p) ==> is_default(&p.config) && !p.is_dry_run_project,
            r is Err ==> r matches Err(SheepError::Clone(_)),
    {
        match clone_repository(url, directory) {
            Ok(repo) => Ok(Project { config: Config::default(), repo, is_dry_run_project: false }),
            Err(e) => Err(SheepError::Clone(e)),
        }
    }

    /// A project that previews releases of the repository at `path`: the
    /// configuration of that repository's project, on a clone of its
    /// `origin` remote made in `directory`. `directory` and `path` are
    /// compared as strings: a dry run refuses a directory spelled like `path`.
    pub fn new_dry_run_project(path: &str, directory: &str) -> (r: Result<Project, SheepError>)
        ensures
            r matches Ok(p) ==> {
                &&& p.is_dry_run_project
                &&& is_default(&p.config)
                &&& directory@ != path@
            },
            directory@ == path@ ==> r is Err,
            r matches Err(SheepError::DryRunTarget) ==> directory@ == path@,
            r matches Err(SheepError::RemoteNotFound { name, .. }) ==> name@ == origin(),
            r is Err ==> ({
                ||| r matches Err(SheepError::Open(_))
                ||| r matches Err(SheepError::RemoteNotFound { .. })
                ||| r matches Err(SheepError::DryRunTarget)
                ||| r matches Err(SheepError::Clone(_))
            }),
    {
        let local_project = match Project::new_local_project(path) {
            Ok(p) => p,
            Err(e) => return Err(e),
        };
        proof {
            reveal_strlit("origin");
        }
        let name = String::from_str("origin");
        assert(name@ =~= origin());
        let url = match fetch_url(&local_project.repo, name.as_str()) {
            Ok(u) => u,
            Err(e) => return Err(SheepError::RemoteNotFound { name, source: e }),
        };
        if path.to_owned() == directory.to_owned() {
            return Err(SheepError::DryRunTarget);
        }
        let remote_project = match Project::new_remote_project(url.as_str(), directory) {
            Ok(p) => p,
            Err(e) => return Err(e),
        };
        Ok(Project { config: local_project.config, repo: remote_project.repo, is_dry_run_project: true })
    }

    /// Cuts a release of `operation`: resolves the next version from the
    /// repository's tags, renders the identifiers, then runs the enabled
    /// mutations in order, stopping at the first that fails.
    pub fn update(&self, operation: Operation) -> (r: Result<ProjectUpdateInfo, SheepError>)
        ensures
            r matches Ok(info) ==> {
                &&& update_spec(operation, info.release.old) == Some(info.release)
                &&& action_views(info.actions@) == release_actions(&self.config, info.release)
            },
            r matches Err(SheepError::VersionOverflow { current, operation: op }) ==> op
                == operation && !applicable(op, current),
            r matches Err(SheepError::Mutation { step, release, completed, failed, .. }) ==> {
                let all = release_actions(&self.config, release);
                let k = completed@.len() as int;
                &&& update_spec(operation, release.old) == Some(release)
                &&& k < plan_spec(self.config.repository).len()
                &&& step == plan_spec(self.config.repository)[k]
                &&& action_views(completed@) == all.take(k)
                &&& failed@ == all[k]
            },
            plan_spec(self.config.repository).len() == 0 ==> !(r matches Err(
                SheepError::Mutation { .. },
            )),
            r is Err ==> ({
                ||| r matches Err(SheepError::TagList(_))
                ||| r matches Err(SheepError::VersionOverflow { .. })
                ||| r matches Err(SheepError::Mutation { .. })
            }),
    {
        let tags = match tag_names(&self.repo) {
            Ok(t) => t,
            Err(e) => return Err(SheepError::TagList(e)),
        };
        let (release, strings) = match release_identifiers(&self.config, &tags, operation) {
            Ok(found) => found,
            Err(e) => return Err(e),
        };
        let ghost all = release_actions(&self.config, release);
        let mut run = UpdateRun::new(&self.config.repository);
        let mut completed: Vec<Action> = Vec::new();
        let outcome = Self::update_repo(&self.repo, &strings, &mut run, &mut completed);
        proof {
            assert(step_actions(&strings, run.steps@) =~= all);
        }
        match outcome {
            Ok(()) => {
                assert(run.steps@.take(run.steps@.len() as int) =~= run.steps@);
                let repo_path = repository_path(&self.repo);
                Ok(ProjectUpdateInfo::new(repo_path.as_str(), release, completed))
            },
            Err((failed, source)) => {
                proof {
                    assert(step_actions(&strings, run.steps@.take(run.done as int)) =~= all.take(
                        run.done as int,
                    ));
                }
                Err(
                    SheepError::Mutation {
                        step: run.steps[run.done],
                        release,
                        completed,
                        failed,
                        source,
                    },
                )
            },
        }
    }

    /// Runs the mutations of `run` on `repo` until all succeeded or one
    /// failed, keeping in `completed` those that succeeded.
    fn update_repo(
        repo: &git2::Repository,
        strings: &ProjectStrings,
        run: &mut UpdateRun,
        completed: &mut Vec<Action>,
    ) -> (r: Result<(), (Action, git2::Error)>)
        requires
            old(run).wf(),
            old(run).done == 0,
            !old(run).failed,
            old(completed)@.len() == 0,
        ensures
            final(run).wf(),
            final(run).steps@ == old(run).steps@,
            final(run).is_over(),
            r is Ok <==> !final(run).failed,
            action_views(final(completed)@) == step_actions(
                strings,
                final(run).steps@.take(final(run).done as int),
            ),
            r matches Err((a, _)) ==> a@ == step_action(
                strings,
                final(run).steps@[final(run).done as int],
            ),
    {
        loop
            invariant
                run.wf(),
                run.steps@ == old(run).steps@,
                !run.failed,
                action_views(completed@) == step_actions(strings, run.steps@.take(run.done as int)),
            decreases run.steps.len() - run.done,
        {
            match run.next_step() {
                None => return Ok(()),
                Some(step) => {
                    let action = action_of(step, strings);
                    match perform(repo, &action) {
                        Ok(()) => {
                            proof {
                                assert(run.steps@.take(run.done + 1) =~= run.steps@.take(
                                    run.done as int,
                                ).push(step));
                                assert(action_views(completed@.push(action)) =~= action_views(
                                    completed@,
                                ).push(action@));
                                assert(step_actions(strings, run.steps@.take(run.done + 1))
                                    =~= step_actions(strings, run.steps@.take(run.done as int)).push(
                                    step_action(strings, step),
                                ));
                            }
                            completed.push(action);
                            run.record(true);
                        },
                        Err(e) => {
                            run.record(false);
                            return Err((action, e));
                        },
                    }
                },
            }
        }
    }
}

} // verus!
