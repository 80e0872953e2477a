use tag_sync::model::{Identity, PatchSpec};
use tag_sync::error::ErrorKind;
use tag_sync::workflow::{Outcome, Phase, StepFailure, SyncAction, SyncWorkflow};

fn strings(items: &[&str]) -> Vec<String> {
    items.iter().map(|item| item.to_string()).collect()
}

fn patch() -> PatchSpec {
    PatchSpec {
        author: Identity { name: "Ann Author".to_string(), email: "ann@example.com".to_string() },
        committer: Identity { name: "Carl".to_string(), email: "carl@example.com".to_string() },
        message: "Apply local changes".to_string(),
        diff: b"--- a/x\n+++ b/x\n".to_vec(),
    }
}

fn failed(cause: &str) -> Outcome {
    Outcome::Failed { cause: cause.to_string() }
}

/// A short name for an action, with the one value that tells tags apart.
fn brief(action: &SyncAction) -> String {
    match action {
        SyncAction::Fetch { remote, refspecs } => format!("fetch {remote} {}", refspecs.join(" ")),
        SyncAction::Checkout { tag_ref, branch, branch_ref } => {
            format!("checkout {tag_ref} {branch} {branch_ref}")
        }
        SyncAction::ApplyPatch { patch } => format!("patch {}", patch.message),
        SyncAction::Push { remote, branch_ref } => format!("push {remote} {branch_ref}"),
        SyncAction::RunHook { command } => format!("hook {command}"),
        SyncAction::DiscardBranch { branch } => format!("discard {branch}"),
        SyncAction::Finish { branches } => format!("finish {}", branches.join(" ")),
        SyncAction::Abort { failure } => format!("abort {}", failure.message()),
    }
}

/// Runs the workflow, answering the action number `fail_at` with a
/// failure and every other one with success, and lists the actions.
fn run(mut workflow: SyncWorkflow, fail_at: Option<usize>) -> Vec<String> {
    let mut seen = vec![brief(&workflow.action())];
    let mut step = 0;
    while !workflow.is_over() {
        let outcome = if fail_at == Some(step) { failed("rejected") } else { Outcome::Succeeded };
        seen.push(brief(&workflow.advance(outcome)));
        step += 1;
        assert!(step < 1000);
    }
    seen
}

#[test]
fn checkout_names_the_branch_after_the_tag() {
    let mut workflow = SyncWorkflow::new(strings(&["v1.0"]), None, None);
    match workflow.advance(Outcome::Succeeded) {
        SyncAction::Checkout { tag_ref, branch, branch_ref } => {
            assert_eq!(tag_ref, "refs/tags/sync-v1.0");
            assert_eq!(branch, "sync-v1.0");
            assert_eq!(branch_ref, "refs/heads/sync-v1.0");
        }
        other => panic!("{other:?}"),
    }
}

#[test]
fn one_tag_without_patch_and_hook() {
    let seen = run(SyncWorkflow::new(strings(&["5.2.0"]), None, None), None);
    assert_eq!(
        seen,
        strings(&[
            "fetch upstream +refs/tags/5.2.0:refs/tags/sync-5.2.0",
            "checkout refs/tags/sync-5.2.0 sync-5.2.0 refs/heads/sync-5.2.0",
            "push origin refs/heads/sync-5.2.0",
            "finish sync-5.2.0",
        ]),
    );
}

#[test]
fn patch_and_hook_have_their_place() {
    let workflow = SyncWorkflow::new(strings(&["a", "b"]), Some(patch()), Some("make".to_string()));
    let seen = run(workflow, None);
    assert_eq!(
        seen,
        strings(&[
            "fetch upstream +refs/tags/a:refs/tags/sync-a",
            "checkout refs/tags/sync-a sync-a refs/heads/sync-a",
            "patch Apply local changes",
            "push origin refs/heads/sync-a",
            "hook make",
            "fetch upstream +refs/tags/b:refs/tags/sync-b",
            "checkout refs/tags/sync-b sync-b refs/heads/sync-b",
            "patch Apply local changes",
            "push origin refs/heads/sync-b",
            "hook make",
            "finish sync-a sync-b",
        ]),
    );
}

#[test]
fn the_patch_step_carries_the_configured_patch() {
    let mut workflow = SyncWorkflow::new(strings(&["v1"]), Some(patch()), None);
    workflow.advance(Outcome::Succeeded);
    match workflow.advance(Outcome::Succeeded) {
        SyncAction::ApplyPatch { patch: asked } => {
            let configured = patch();
            assert_eq!(asked.author.name, configured.author.name);
            assert_eq!(asked.author.email, configured.author.email);
            assert_eq!(asked.committer.name, configured.committer.name);
            assert_eq!(asked.committer.email, configured.committer.email);
            assert_eq!(asked.message, configured.message);
            assert_eq!(asked.diff, configured.diff);
        }
        other => panic!("{other:?}"),
    }
}

#[test]
fn no_tags_finishes_at_once() {
    let workflow = SyncWorkflow::new(strings(&[]), Some(patch()), Some("make".to_string()));
    assert!(workflow.is_over());
    assert_eq!(workflow.pushed(), 0);
    assert!(matches!(workflow.action(), SyncAction::Finish { branches } if branches.is_empty()));
}

#[test]
fn failed_push_of_the_second_tag_stops_the_run() {
    let mut workflow = SyncWorkflow::new(strings(&["t1", "t2", "t3"]), None, None);
    let mut seen = vec![brief(&workflow.action())];
    // The first tag goes through: fetch, checkout, push.
    for _ in 0..3 {
        seen.push(brief(&workflow.advance(Outcome::Succeeded)));
    }
    assert_eq!(workflow.pushed(), 1);
    // The second tag is fetched and checked out; its push is rejected.
    for _ in 0..2 {
        seen.push(brief(&workflow.advance(Outcome::Succeeded)));
    }
    seen.push(brief(&workflow.advance(failed("authentication rejected"))));
    // The branch that could not be pushed is discarded, then the run ends.
    assert!(!workflow.is_over());
    seen.push(brief(&workflow.advance(Outcome::Succeeded)));
    assert!(workflow.is_over());
    assert_eq!(workflow.pushed(), 1);
    assert_eq!(
        seen,
        strings(&[
            "fetch upstream +refs/tags/t1:refs/tags/sync-t1",
            "checkout refs/tags/sync-t1 sync-t1 refs/heads/sync-t1",
            "push origin refs/heads/sync-t1",
            "fetch upstream +refs/tags/t2:refs/tags/sync-t2",
            "checkout refs/tags/sync-t2 sync-t2 refs/heads/sync-t2",
            "push origin refs/heads/sync-t2",
            "discard sync-t2",
            "abort Failed to push branch: sync-t2: authentication rejected",
        ]),
    );
    // Whatever is reported from here on, the third tag is never touched.
    for outcome in [Outcome::Succeeded, failed("again"), Outcome::Succeeded] {
        let action = brief(&workflow.advance(outcome));
        assert_eq!(action, "abort Failed to push branch: sync-t2: authentication rejected");
        assert!(!action.contains("t3"));
    }
    assert_eq!(workflow.pushed(), 1);
}

#[test]
fn every_step_can_fail() {
    let expected = [
        (0, Phase::Fetch, ErrorKind::GitOperation, "Failed to fetch tag: v1: rejected"),
        (1, Phase::Branch, ErrorKind::GitOperation, "Failed to checkout tag: v1: rejected"),
        (2, Phase::Patch, ErrorKind::GitOperation, "Failed to apply patch to sync-v1: rejected"),
        (3, Phase::Push, ErrorKind::GitOperation, "Failed to push branch: sync-v1: rejected"),
        (
            4,
            Phase::PostHook,
            ErrorKind::Subprocess,
            "Failed to run post-sync command for sync-v1: rejected",
        ),
    ];
    for (fail_at, phase, kind, message) in expected {
        let mut workflow =
            SyncWorkflow::new(strings(&["v1", "v2"]), Some(patch()), Some("true".to_string()));
        for _ in 0..fail_at {
            workflow.advance(Outcome::Succeeded);
        }
        let mut action = workflow.advance(failed("rejected"));
        let discards = matches!(phase, Phase::Patch | Phase::Push);
        assert_eq!(brief(&action) == "discard sync-v1", discards);
        if discards {
            // Whether discarding works does not change how the run ends.
            action = workflow.advance(failed("could not discard"));
        }
        match action {
            SyncAction::Abort { failure } => {
                assert_eq!(failure.phase, phase);
                assert_eq!(failure.tag, "v1");
                assert_eq!(failure.cause, "rejected");
                assert_eq!(failure.kind(), kind);
                assert_eq!(failure.message(), message);
            }
            other => panic!("{other:?}"),
        }
        assert_eq!(workflow.pushed(), if phase == Phase::PostHook { 1 } else { 0 });
    }
}

#[test]
fn pushed_counts_successful_pushes() {
    let mut workflow = SyncWorkflow::new(strings(&["a", "b"]), None, Some("true".to_string()));
    let mut counts = vec![workflow.pushed()];
    while !workflow.is_over() {
        workflow.advance(Outcome::Succeeded);
        counts.push(workflow.pushed());
    }
    // fetch, checkout, push, hook for each tag.
    assert_eq!(counts, vec![0, 0, 0, 1, 1, 1, 1, 2, 2]);
}

#[test]
fn a_run_without_failure_takes_as_many_steps_as_its_tags_have() {
    for (tags, with_patch, with_hook, steps) in
        [(0, true, true, 0), (1, false, false, 3), (3, true, false, 12), (2, true, true, 10)]
    {
        let names: Vec<String> = (0..tags).map(|i| format!("v{i}")).collect();
        let workflow = SyncWorkflow::new(
            names,
            if with_patch { Some(patch()) } else { None },
            if with_hook { Some("true".to_string()) } else { None },
        );
        let seen = run(workflow, None);
        assert_eq!(seen.len(), steps + 1);
        assert!(seen.last().unwrap().starts_with("finish"));
    }
}

#[test]
fn a_failure_is_the_last_action() {
    for fail_at in 0..8 {
        let workflow = SyncWorkflow::new(strings(&["a", "b"]), Some(patch()), None);
        let seen = run(workflow, Some(fail_at));
        // Fetch, checkout, patch and push for each tag: a failed patch or
        // push is followed by the discarding of the branch.
        let discards = fail_at % 4 >= 2;
        assert_eq!(seen.len(), fail_at + 2 + if discards { 1 } else { 0 });
        assert!(seen.last().unwrap().starts_with("abort"));
        assert_eq!(seen.iter().filter(|action| action.starts_with("discard")).count(),
            if discards { 1 } else { 0 });
    }
}

#[test]
fn failure_message_of_a_fetch() {
    let failure =
        StepFailure { phase: Phase::Fetch, tag: "v9".to_string(), cause: "no route".to_string() };
    assert_eq!(failure.message(), "Failed to fetch tag: v9: no route");
    assert_eq!(failure.kind(), ErrorKind::GitOperation);
}

#[test]
fn a_failed_patch_discards_the_branch_of_its_tag_only() {
    let mut workflow = SyncWorkflow::new(strings(&["a", "b"]), Some(patch()), None);
    for _ in 0..6 {
        workflow.advance(Outcome::Succeeded);
    }
    // The first tag is pushed; the patch of the second one fails.
    assert_eq!(workflow.pushed(), 1);
    match workflow.advance(failed("does not apply")) {
        SyncAction::DiscardBranch { branch } => assert_eq!(branch, "sync-b"),
        other => panic!("{other:?}"),
    }
    assert_eq!(workflow.pushed(), 1);
    match workflow.advance(Outcome::Succeeded) {
        SyncAction::Abort { failure } => {
            assert_eq!(failure.message(), "Failed to apply patch to sync-b: does not apply");
        }
        other => panic!("{other:?}"),
    }
}
