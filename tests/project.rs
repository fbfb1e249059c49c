use git2::{BranchType, Repository};
use sheep::error::SheepError;
use sheep::action::Action;
use sheep::project::{Project, ProjectUpdateInfo};
use sheep::sequence::Step;
use sheep::version::{Operation, Version, VersionUpdate};
use std::time::{SystemTime, UNIX_EPOCH};

fn scratch(name: &str) -> String {
    let nanos = SystemTime::now().duration_since(UNIX_EPOCH).unwrap().as_nanos();
    format!("/tmp/sheep-test-{}-{}", name, nanos)
}

/// A repository with one commit, tagged `1.2.3`.
fn tagged_repository(dir: &str) {
    let repo = Repository::init(dir).unwrap();
    let mut config = repo.config().unwrap();
    config.set_str("user.name", "Release Bot").unwrap();
    config.set_str("user.email", "bot@example.com").unwrap();
    let signature = repo.signature().unwrap();
    let tree_id = repo.index().unwrap().write_tree().unwrap();
    let tree = repo.find_tree(tree_id).unwrap();
    repo.commit(Some("HEAD"), &signature, &signature, "initial", &tree, &[]).unwrap();
    let head = repo.revparse_single("HEAD").unwrap();
    repo.tag_lightweight("1.2.3", &head, false).unwrap();
}

fn describe(actions: &[Action]) -> Vec<String> {
    actions
        .iter()
        .map(|a| match a {
            Action::CreateBranch { name } => format!("create-branch {}", name),
            Action::CheckoutBranch { refname } => format!("checkout {}", refname),
            Action::Commit { message } => format!("commit {}", message),
            Action::CreateTag { name } => format!("create-tag {}", name),
            Action::PushBranch { remote, refspec } => format!("push-branch {} {}", remote, refspec),
            Action::PushTag { remote, refspec } => format!("push-tag {} {}", remote, refspec),
        })
        .collect()
}

fn has_branch(repo: &Repository, name: &str) -> bool {
    repo.find_branch(name, BranchType::Local).is_ok()
}

fn has_tag(repo: &Repository, name: &str) -> bool {
    repo.revparse_single(&format!("refs/tags/{}", name)).is_ok()
}

#[test]
fn update_info_keeps_path() {
    let v = |patch| Version { major: 1, minor: 2, patch };
    let release = VersionUpdate { old: v(3), new: v(4) };
    let actions = vec![Action::CreateTag { name: "1.2.4".to_string() }];
    let info = ProjectUpdateInfo::new("/srv/repo/.git/", release, actions);
    assert_eq!(info.repo_path, "/srv/repo/.git/");
    assert_eq!(info.release, release);
    assert_eq!(info.actions.len(), 1);
}

#[test]
fn opening_a_missing_repository_fails() {
    let dir = scratch("missing");
    assert!(matches!(Project::new_local_project(&dir), Err(SheepError::Open(_))));
}

#[test]
fn dry_run_of_a_missing_repository_fails() {
    let dir = scratch("missing-dry");
    let target = scratch("missing-dry-target");
    assert!(matches!(Project::new_dry_run_project(&dir, &target), Err(SheepError::Open(_))));
}

#[test]
fn local_release_branch_commit_tag() {
    let dir = scratch("local");
    tagged_repository(&dir);
    let project = Project::new_local_project(&dir).ok().unwrap();
    assert!(!project.is_dry_run_project);
    let info = project.update(Operation::Patch).ok().unwrap();
    assert_eq!(info.repo_path, format!("{}/.git/", dir));
    assert_eq!(info.release.new, Version { major: 1, minor: 2, patch: 4 });
    assert_eq!(describe(&info.actions), vec![
        "create-branch release/1.2.4",
        "checkout refs/heads/release/1.2.4",
        "commit Release 1.2.4",
        "create-tag 1.2.4",
    ]);

    let repo = Repository::open(&dir).unwrap();
    assert!(has_branch(&repo, "release/1.2.4"));
    assert_eq!(repo.head().unwrap().shorthand().unwrap(), "release/1.2.4");
    let head = repo.head().unwrap().peel_to_commit().unwrap();
    assert_eq!(head.message().unwrap(), "Release 1.2.4");
    assert!(has_tag(&repo, "1.2.4"));
}

#[test]
fn local_release_without_branch() {
    let dir = scratch("nobranch");
    tagged_repository(&dir);
    let mut project = Project::new_local_project(&dir).ok().unwrap();
    project.config.repository.enable_branch = false;
    let info = project.update(Operation::Minor).ok().unwrap();
    assert_eq!(describe(&info.actions), vec!["commit Release 1.3.0", "create-tag 1.3.0"]);

    let repo = Repository::open(&dir).unwrap();
    assert!(!has_branch(&repo, "release/1.3.0"));
    let head = repo.head().unwrap().peel_to_commit().unwrap();
    assert_eq!(head.message().unwrap(), "Release 1.3.0");
    assert!(has_tag(&repo, "1.3.0"));
}

#[test]
fn all_disabled_release_changes_nothing() {
    let dir = scratch("disabled");
    tagged_repository(&dir);
    let mut project = Project::new_local_project(&dir).ok().unwrap();
    project.config.repository.enable_branch = false;
    project.config.repository.enable_commit = false;
    project.config.repository.enable_tag = false;
    project.config.repository.enable_push = false;
    let before = Repository::open(&dir).unwrap().head().unwrap().target().unwrap();
    let info = project.update(Operation::Major).ok().unwrap();
    assert_eq!(info.repo_path, format!("{}/.git/", dir));
    assert_eq!(info.release.new, Version { major: 2, minor: 0, patch: 0 });
    assert!(info.actions.is_empty());

    let repo = Repository::open(&dir).unwrap();
    assert_eq!(repo.head().unwrap().target().unwrap(), before);
    assert!(!has_tag(&repo, "2.0.0"));
    assert!(!has_branch(&repo, "release/2.0.0"));
}

#[test]
fn existing_branch_stops_release() {
    let dir = scratch("exists");
    tagged_repository(&dir);
    {
        let repo = Repository::open(&dir).unwrap();
        let head = repo.head().unwrap().peel_to_commit().unwrap();
        repo.branch("release/1.2.4", &head, false).unwrap();
    }
    let before = Repository::open(&dir).unwrap().head().unwrap().target().unwrap();
    let project = Project::new_local_project(&dir).ok().unwrap();
    match project.update(Operation::Patch) {
        Err(SheepError::Mutation { step, completed, failed, source, .. }) => {
            assert_eq!(step, Step::CreateBranch);
            assert!(completed.is_empty());
            assert_eq!(describe(&[failed]), vec!["create-branch release/1.2.4"]);
            assert_eq!(source.code(), git2::ErrorCode::Exists);
        }
        _ => panic!("expected the branch creation to fail"),
    }
    let repo = Repository::open(&dir).unwrap();
    assert_eq!(repo.head().unwrap().target().unwrap(), before);
    assert!(!has_tag(&repo, "1.2.4"));
}

#[test]
fn tag_and_push_to_origin() {
    let upstream = scratch("push-upstream");
    Repository::init_bare(&upstream).unwrap();
    let dir = scratch("push-local");
    tagged_repository(&dir);
    Repository::open(&dir).unwrap().remote("origin", &upstream).unwrap();

    let mut project = Project::new_local_project(&dir).ok().unwrap();
    project.config.repository.enable_branch = false;
    project.config.repository.enable_commit = false;
    project.config.repository.enable_push = true;
    let info = project.update(Operation::Patch).ok().unwrap();
    assert_eq!(describe(&info.actions), vec!["create-tag 1.2.4", "push-tag origin refs/tags/1.2.4"]);

    let remote = Repository::open(&upstream).unwrap();
    assert!(has_tag(&remote, "1.2.4"));
    assert!(remote.branches(None).unwrap().next().is_none());
}

#[test]
fn dry_run_needs_origin() {
    let dir = scratch("dry-noorigin");
    tagged_repository(&dir);
    let target = scratch("dry-noorigin-target");
    match Project::new_dry_run_project(&dir, &target) {
        Err(SheepError::RemoteNotFound { name, .. }) => assert_eq!(name, "origin"),
        _ => panic!("expected a missing remote"),
    }
}

#[test]
fn dry_run_refuses_its_own_source() {
    let upstream = scratch("dry-self-upstream");
    tagged_repository(&upstream);
    let dir = scratch("dry-self-local");
    Repository::clone(&upstream, &dir).unwrap();
    assert!(matches!(Project::new_dry_run_project(&dir, &dir), Err(SheepError::DryRunTarget)));
}

#[test]
fn dry_run_leaves_source_untouched() {
    let upstream = scratch("dry-upstream");
    tagged_repository(&upstream);
    let dir = scratch("dry-local");
    Repository::clone(&upstream, &dir).unwrap();
    let target = scratch("dry-target");

    let project = Project::new_dry_run_project(&dir, &target).ok().unwrap();
    assert!(project.is_dry_run_project);
    let mut config = project.repo.config().unwrap();
    config.set_str("user.name", "Release Bot").unwrap();
    config.set_str("user.email", "bot@example.com").unwrap();
    let info = project.update(Operation::Patch).ok().unwrap();
    assert_eq!(info.repo_path, format!("{}/.git/", target));

    let clone = Repository::open(&target).unwrap();
    assert!(has_tag(&clone, "1.2.4"));
    let local = Repository::open(&dir).unwrap();
    assert!(!has_tag(&local, "1.2.4"));
    assert!(!has_branch(&local, "release/1.2.4"));
}
