use sheep::sequence::{plan, RepoConfig, Step, UpdateRun};

fn config(branch: bool, commit: bool, tag: bool, push: bool) -> RepoConfig {
    RepoConfig { enable_branch: branch, enable_commit: commit, enable_tag: tag, enable_push: push }
}

fn run_all(cfg: &RepoConfig, fail_at: Option<usize>) -> (Vec<Step>, bool) {
    let mut run = UpdateRun::new(cfg);
    let mut issued = Vec::new();
    while let Some(step) = run.next_step() {
        let ok = fail_at != Some(issued.len());
        issued.push(step);
        run.record(ok);
    }
    (issued, run.succeeded())
}

#[test]
fn all_disabled_runs_nothing() {
    let cfg = config(false, false, false, false);
    assert!(plan(&cfg).is_empty());
    let (issued, ok) = run_all(&cfg, None);
    assert!(issued.is_empty());
    assert!(ok);
}

#[test]
fn push_only_for_created_refs() {
    for bits in 0..16u8 {
        let cfg = config(bits & 1 != 0, bits & 2 != 0, bits & 4 != 0, bits & 8 != 0);
        let steps = plan(&cfg);
        assert_eq!(steps.contains(&Step::PushBranch), cfg.enable_push && cfg.enable_branch);
        assert_eq!(steps.contains(&Step::PushTag), cfg.enable_push && cfg.enable_tag);
    }
}

#[test]
fn checkout_right_after_create() {
    for bits in 0..16u8 {
        let cfg = config(bits & 1 != 0, bits & 2 != 0, bits & 4 != 0, bits & 8 != 0);
        let steps = plan(&cfg);
        for (i, s) in steps.iter().enumerate() {
            if *s == Step::CheckoutBranch {
                assert!(i > 0 && steps[i - 1] == Step::CreateBranch);
            }
        }
    }
}

#[test]
fn failed_branch_creation_skips_checkout() {
    let cfg = config(true, true, true, true);
    let (issued, ok) = run_all(&cfg, Some(0));
    assert_eq!(issued, vec![Step::CreateBranch]);
    assert!(!ok);
}

#[test]
fn scenario_branch_commit_tag() {
    let cfg = config(true, true, true, false);
    let (issued, ok) = run_all(&cfg, None);
    assert_eq!(issued, vec![Step::CreateBranch, Step::CheckoutBranch, Step::Commit, Step::CreateTag]);
    assert!(ok);
}

#[test]
fn scenario_commit_tag_without_branch() {
    let cfg = config(false, true, true, false);
    let (issued, ok) = run_all(&cfg, None);
    assert_eq!(issued, vec![Step::Commit, Step::CreateTag]);
    assert!(ok);
}

#[test]
fn scenario_tag_and_push() {
    let cfg = config(false, false, true, true);
    let (issued, ok) = run_all(&cfg, None);
    assert_eq!(issued, vec![Step::CreateTag, Step::PushTag]);
    assert!(ok);
}

#[test]
fn full_sequence_order() {
    let cfg = config(true, true, true, true);
    assert_eq!(
        plan(&cfg),
        vec![
            Step::CreateBranch,
            Step::CheckoutBranch,
            Step::Commit,
            Step::CreateTag,
            Step::PushBranch,
            Step::PushTag
        ]
    );
}

#[test]
fn failure_in_middle_stops_run() {
    let cfg = config(true, true, true, true);
    let (issued, ok) = run_all(&cfg, Some(2));
    assert_eq!(issued, vec![Step::CreateBranch, Step::CheckoutBranch, Step::Commit]);
    assert!(!ok);
}
