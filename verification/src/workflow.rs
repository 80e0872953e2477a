//! The synchronisation workflow: what to do next, given how the last step
//! went.
//!
//! The tags are worked through one at a time, in the order given. Each is
//! fetched, checked out as its branch, patched if a patch is configured,
//! pushed, and handed to the post-sync command if one is configured. The
//! first step that fails aborts the whole run: no later step of that tag
//! and no later tag is attempted. Where the failing step leaves behind a
//! local branch that was not pushed, the branch is discarded first, so
//! that a later run finds the clone as this one found it.
//!
//! The workflow itself touches nothing. It names the next step as a
//! [`SyncAction`]; whoever runs it performs the step and reports the
//! [`Outcome`].

use crate::error::ErrorKind;
use crate::model::{texts, PatchSpec, PatchSpecView};
use crate::naming::{
    branch_name_of, branch_ref_of, fetch_refspec, refspec_of, sync_branch_name, sync_branch_ref,
    sync_tag_ref, synced_branches, tag_ref_of, ORIGIN, UPSTREAM,
};
use vstd::prelude::*;
use vstd::string::StringExecFns;

verus! {

/// The steps that one tag goes through, in order.
#[derive(Clone, Copy, Debug, PartialEq, Eq, Structural)]
pub enum Phase {
    Fetch,
    Branch,
    Patch,
    Push,
    PostHook,
}

/// How the step that was last asked for went.
#[derive(Debug)]
pub enum Outcome {
    Succeeded,
    Failed { cause: String },
}

/// What an [`Outcome`] stands for.
pub enum OutcomeView {
    Succeeded,
    Failed { cause: Seq<char> },
}

impl View for Outcome {
    type V = OutcomeView;

    open spec fn view(&self) -> OutcomeView {
        match self {
            Outcome::Succeeded => OutcomeView::Succeeded,
            Outcome::Failed { cause } => OutcomeView::Failed { cause: cause@ },
        }
    }
}

/// The step that failed, the tag it was working on, and why.
#[derive(Debug)]
pub struct StepFailure {
    pub phase: Phase,
    pub tag: String,
    pub cause: String,
}

/// What a [`StepFailure`] stands for.
pub struct StepFailureView {
    pub phase: Phase,
    pub tag: Seq<char>,
    pub cause: Seq<char>,
}

impl View for StepFailure {
    type V = StepFailureView;

    open spec fn view(&self) -> StepFailureView {
        StepFailureView { phase: self.phase, tag: self.tag@, cause: self.cause@ }
    }
}

/// The kind of failure that a failing `phase` is: the post-sync command
/// is a subprocess, every other step is a git operation.
pub open spec fn kind_of(phase: Phase) -> ErrorKind {
    if phase == Phase::PostHook {
        ErrorKind::Subprocess
    } else {
        ErrorKind::GitOperation
    }
}

/// What went wrong, without the cause: the operation, and the tag or the
/// branch it worked on.
pub open spec fn context_of(phase: Phase, tag: Seq<char>) -> Seq<char> {
    match phase {
        Phase::Fetch => "Failed to fetch tag: "@ + tag,
        Phase::Branch => "Failed to checkout tag: "@ + tag,
        Phase::Patch => "Failed to apply patch to "@ + branch_name_of(tag),
        Phase::Push => "Failed to push branch: "@ + branch_name_of(tag),
        Phase::PostHook => "Failed to run post-sync command for "@ + branch_name_of(tag),
    }
}

impl StepFailure {
    /// The kind of this failure.
    pub fn kind(&self) -> (kind: ErrorKind)
        ensures
            kind == kind_of(self.phase),
    {
        match self.phase {
            Phase::PostHook => ErrorKind::Subprocess,
            _ => ErrorKind::GitOperation,
        }
    }

    /// Says which operation failed on which tag or branch, then a colon, a
    /// space and the cause.
    pub fn message(&self) -> (text: String)
        ensures
            text@ == context_of(self.phase, self.tag@) + ": "@ + self.cause@,
    {
        let mut text = match self.phase {
            Phase::Fetch => String::from_str("Failed to fetch tag: ").concat(self.tag.as_str()),
            Phase::Branch => String::from_str("Failed to checkout tag: ").concat(
                self.tag.as_str(),
            ),
            Phase::Patch => String::from_str("Failed to apply patch to ").concat(
                sync_branch_name(self.tag.as_str()).as_str(),
            ),
            Phase::Push => String::from_str("Failed to push branch: ").concat(
                sync_branch_name(self.tag.as_str()).as_str(),
            ),
            Phase::PostHook => String::from_str("Failed to run post-sync command for ").concat(
                sync_branch_name(self.tag.as_str()).as_str(),
            ),
        };
        text.append(": ");
        text.append(self.cause.as_str());
        text
    }
}

/// The next thing to do.
#[derive(Debug)]
pub enum SyncAction {
    /// Fetch exactly `refspecs` from `remote`, following no other tag.
    Fetch { remote: String, refspecs: Vec<String> },
    /// Create the branch `branch` at the commit of `tag_ref`, failing if it
    /// exists; make `branch_ref` the head and check it out.
    Checkout { tag_ref: String, branch: String, branch_ref: String },
    /// Apply the diff to index and working tree, and commit it on top of
    /// the head with the identities and the message of `patch`.
    ApplyPatch { patch: PatchSpec },
    /// Push `branch_ref` to `remote`.
    Push { remote: String, branch_ref: String },
    /// Run `command` and wait for it.
    RunHook { command: String },
    /// Take the head off `branch`, drop what the working tree holds beyond
    /// it, and delete `branch`.
    DiscardBranch { branch: String },
    /// Every tag is mirrored, as `branches`.
    Finish { branches: Vec<String> },
    /// Stop: `failure` says what went wrong.
    Abort { failure: StepFailure },
}

/// What a [`SyncAction`] stands for.
pub enum SyncActionView {
    Fetch { remote: Seq<char>, refspecs: Seq<Seq<char>> },
    Checkout { tag_ref: Seq<char>, branch: Seq<char>, branch_ref: Seq<char> },
    ApplyPatch { patch: PatchSpecView },
    Push { remote: Seq<char>, branch_ref: Seq<char> },
    RunHook { command: Seq<char> },
    DiscardBranch { branch: Seq<char> },
    Finish { branches: Seq<Seq<char>> },
    Abort { failure: StepFailureView },
}

impl View for SyncAction {
    type V = SyncActionView;

    open spec fn view(&self) -> SyncActionView {
        match self {
            SyncAction::Fetch { remote, refspecs } => SyncActionView::Fetch {
                remote: remote@,
                refspecs: texts(refspecs@),
            },
            SyncAction::Checkout { tag_ref, branch, branch_ref } => SyncActionView::Checkout {
                tag_ref: tag_ref@,
                branch: branch@,
                branch_ref: branch_ref@,
            },
            SyncAction::ApplyPatch { patch } => SyncActionView::ApplyPatch { patch: patch@ },
            SyncAction::Push { remote, branch_ref } => SyncActionView::Push {
                remote: remote@,
                branch_ref: branch_ref@,
            },
            SyncAction::RunHook { command } => SyncActionView::RunHook { command: command@ },
            SyncAction::DiscardBranch { branch } => SyncActionView::DiscardBranch {
                branch: branch@,
            },
            SyncAction::Finish { branches } => SyncActionView::Finish {
                branches: texts(branches@),
            },
            SyncAction::Abort { failure } => SyncActionView::Abort { failure: failure@ },
        }
    }
}

/// What a run was asked to do: the tags to mirror, in order, the patch to
/// commit on each branch, and the command to run after each push.
pub struct Plan {
    pub tags: Seq<Seq<char>>,
    pub patch: Option<PatchSpecView>,
    pub hook: Option<Seq<char>>,
}

/// How far a run has come.
pub enum Position {
    /// The step `phase` of the tag number `index` was asked for; its
    /// outcome is awaited.
    Awaiting { index: nat, phase: Phase },
    /// The step `phase` of the tag number `index` failed; the branch that
    /// it leaves behind is being discarded.
    CleaningUp { index: nat, phase: Phase, cause: Seq<char> },
    /// Every tag went through all its steps.
    Finished,
    /// The step `phase` of the tag number `index` failed.
    Aborted { index: nat, phase: Phase, cause: Seq<char> },
}

/// Whether a failure of `phase` leaves behind a local branch that was not
/// pushed: the branch exists once it was checked out, and is pushed once
/// the push went through.
pub open spec fn leaves_branch(phase: Phase) -> bool {
    phase == Phase::Patch || phase == Phase::Push
}

/// Where a run starts: at the fetch of the first tag, or at the end if
/// there is no tag.
pub open spec fn first_position(plan: Plan) -> Position {
    if plan.tags.len() == 0 {
        Position::Finished
    } else {
        Position::Awaiting { index: 0, phase: Phase::Fetch }
    }
}

/// The step that follows `phase` for the same tag, if there is one.
pub open spec fn phase_after(plan: Plan, phase: Phase) -> Option<Phase> {
    match phase {
        Phase::Fetch => Some(Phase::Branch),
        Phase::Branch => if plan.patch is Some {
            Some(Phase::Patch)
        } else {
            Some(Phase::Push)
        },
        Phase::Patch => Some(Phase::Push),
        Phase::Push => if plan.hook is Some {
            Some(Phase::PostHook)
        } else {
            None
        },
        Phase::PostHook => None,
    }
}

/// Where a run stands once `outcome` is known. A failure aborts it where
/// it stands, after the branch that it leaves behind was discarded;
/// whether discarding worked does not matter. A success leads to the next
/// step of the same tag, then to the fetch of the next tag, then to the
/// end. A run that has ended stays as it is.
pub open spec fn position_after(plan: Plan, position: Position, outcome: OutcomeView) -> Position {
    match position {
        Position::Awaiting { index, phase } => match outcome {
            OutcomeView::Failed { cause } => if leaves_branch(phase) {
                Position::CleaningUp { index, phase, cause }
            } else {
                Position::Aborted { index, phase, cause }
            },
            OutcomeView::Succeeded => match phase_after(plan, phase) {
                Some(next) => Position::Awaiting { index, phase: next },
                None => if index + 1 < plan.tags.len() {
                    Position::Awaiting { index: index + 1, phase: Phase::Fetch }
                } else {
                    Position::Finished
                },
            },
        },
        Position::CleaningUp { index, phase, cause } => Position::Aborted { index, phase, cause },
        _ => position,
    }
}

/// Whether `position` can arise in a run of `plan`.
pub open spec fn position_fits(plan: Plan, position: Position) -> bool {
    match position {
        Position::Awaiting { index, phase } => phase_fits(plan, index, phase),
        Position::CleaningUp { index, phase, cause } => phase_fits(plan, index, phase)
            && leaves_branch(phase),
        Position::Finished => true,
        Position::Aborted { index, phase, cause } => phase_fits(plan, index, phase),
    }
}

/// Whether the tag number `index` exists and goes through `phase`.
pub open spec fn phase_fits(plan: Plan, index: nat, phase: Phase) -> bool {
    &&& index < plan.tags.len()
    &&& phase == Phase::Patch ==> plan.patch is Some
    &&& phase == Phase::PostHook ==> plan.hook is Some
}

/// The action that `position` calls for.
pub open spec fn action_at(plan: Plan, position: Position) -> SyncActionView {
    match position {
        Position::Awaiting { index, phase } => {
            let tag = plan.tags[index as int];
            match phase {
                Phase::Fetch => SyncActionView::Fetch {
                    remote: "upstream"@,
                    refspecs: seq![refspec_of(tag)],
                },
                Phase::Branch => SyncActionView::Checkout {
                    tag_ref: tag_ref_of(tag),
                    branch: branch_name_of(tag),
                    branch_ref: branch_ref_of(tag),
                },
                Phase::Patch => SyncActionView::ApplyPatch { patch: plan.patch->0 },
                Phase::Push => SyncActionView::Push {
                    remote: "origin"@,
                    branch_ref: branch_ref_of(tag),
                },
                Phase::PostHook => SyncActionView::RunHook { command: plan.hook->0 },
            }
        },
        Position::CleaningUp { index, phase, cause } => SyncActionView::DiscardBranch {
            branch: branch_name_of(plan.tags[index as int]),
        },
        Position::Finished => SyncActionView::Finish {
            branches: plan.tags.map_values(|tag: Seq<char>| branch_name_of(tag)),
        },
        Position::Aborted { index, phase, cause } => SyncActionView::Abort {
            failure: StepFailureView { phase, tag: plan.tags[index as int], cause },
        },
    }
}

/// The number of tags whose branch has been pushed when a run stands at
/// `position`.
pub open spec fn pushed_at(plan: Plan, position: Position) -> nat {
    match position {
        Position::Awaiting { index, phase } => if phase == Phase::PostHook {
            index + 1
        } else {
            index
        },
        Position::CleaningUp { index, phase, cause } => index,
        Position::Finished => plan.tags.len(),
        Position::Aborted { index, phase, cause } => if phase == Phase::PostHook {
            index + 1
        } else {
            index
        },
    }
}

/// Whether a run is under way, and how it ended if it is not.
#[derive(Clone, Copy, Debug, PartialEq, Eq, Structural)]
enum Status {
    Running,
    CleaningUp,
    Finished,
    Aborted,
}

/// One run of the workflow over a list of new tags.
#[derive(Debug)]
pub struct SyncWorkflow {
    tags: Vec<String>,
    patch: Option<PatchSpec>,
    hook: Option<String>,
    status: Status,
    index: usize,
    phase: Phase,
    cause: String,
}

impl SyncWorkflow {
    /// What the run was asked to do.
    pub closed spec fn plan(&self) -> Plan {
        Plan {
            tags: texts(self.tags@),
            patch: match self.patch {
                Some(patch) => Some(patch@),
                None => None,
            },
            hook: match self.hook {
                Some(command) => Some(command@),
                None => None,
            },
        }
    }

    /// How far the run has come.
    pub closed spec fn position(&self) -> Position {
        match self.status {
            Status::Running => Position::Awaiting { index: self.index as nat, phase: self.phase },
            Status::CleaningUp => Position::CleaningUp {
                index: self.index as nat,
                phase: self.phase,
                cause: self.cause@,
            },
            Status::Finished => Position::Finished,
            Status::Aborted => Position::Aborted {
                index: self.index as nat,
                phase: self.phase,
                cause: self.cause@,
            },
        }
    }

    /// A run stands where a run of its plan can stand.
    #[verifier::type_invariant]
    spec fn fits(&self) -> bool {
        position_fits(self.plan(), self.position())
    }

    /// Sets up a run over `tags`, in their order. The run waits for the
    /// outcome of its first action, which [`SyncWorkflow::action`] gives.
    pub fn new(tags: Vec<String>, patch: Option<PatchSpec>, hook: Option<String>) -> (workflow:
        SyncWorkflow)
        ensures
            workflow.plan() == (Plan {
                tags: texts(tags@),
                patch: match patch {
                    Some(patch) => Some(patch@),
                    None => None,
                },
                hook: match hook {
                    Some(command) => Some(command@),
                    None => None,
                },
            }),
            workflow.position() == first_position(workflow.plan()),
    {
        let status = if tags.len() == 0 {
            Status::Finished
        } else {
            Status::Running
        };
        SyncWorkflow {
            tags,
            patch,
            hook,
            status,
            index: 0,
            phase: Phase::Fetch,
            cause: String::new(),
        }
    }

    /// Whether the run has ended, well or badly.
    pub fn is_over(&self) -> (over: bool)
        ensures
            over == (self.position() is Finished || self.position() is Aborted),
    {
        match self.status {
            Status::Finished => true,
            Status::Aborted => true,
            _ => false,
        }
    }

    /// The number of tags whose branch has been pushed so far.
    pub fn pushed(&self) -> (count: usize)
        ensures
            count == pushed_at(self.plan(), self.position()),
    {
        proof {
            use_type_invariant(self);
        }
        assert(self.plan().tags.len() == self.tags.len());
        match self.status {
            Status::Finished => self.tags.len(),
            _ => match self.phase {
                Phase::PostHook => self.index + 1,
                _ => self.index,
            },
        }
    }

    /// The action that the run calls for where it stands.
    pub fn action(&self) -> (action: SyncAction)
        ensures
            position_fits(self.plan(), self.position()),
            action@ == action_at(self.plan(), self.position()),
    {
        proof {
            use_type_invariant(self);
        }
        match self.status {
            Status::Finished => SyncAction::Finish { branches: synced_branches(&self.tags) },
            Status::CleaningUp => SyncAction::DiscardBranch {
                branch: sync_branch_name(self.tags[self.index].as_str()),
            },
            Status::Aborted => SyncAction::Abort {
                failure: StepFailure {
                    phase: self.phase,
                    tag: self.tags[self.index].clone(),
                    cause: self.cause.clone(),
                },
            },
            Status::Running => {
                let tag = self.tags[self.index].as_str();
                match self.phase {
                    Phase::Fetch => {
                        let mut refspecs: Vec<String> = Vec::new();
                        refspecs.push(fetch_refspec(tag));
                        assert(texts(refspecs@) =~= seq![refspec_of(tag@)]);
                        SyncAction::Fetch { remote: String::from_str(UPSTREAM), refspecs }
                    },
                    Phase::Branch => SyncAction::Checkout {
                        tag_ref: sync_tag_ref(tag),
                        branch: sync_branch_name(tag),
                        branch_ref: sync_branch_ref(tag),
                    },
                    Phase::Patch => SyncAction::ApplyPatch {
                        patch: self.patch.as_ref().unwrap().clone(),
                    },
                    Phase::Push => SyncAction::Push {
                        remote: String::from_str(ORIGIN),
                        branch_ref: sync_branch_ref(tag),
                    },
                    Phase::PostHook => SyncAction::RunHook {
                        command: self.hook.as_ref().unwrap().clone(),
                    },
                }
            },
        }
    }

    /// Takes the outcome of the action that was last asked for, moves the
    /// run on, and gives the next action.
    pub fn advance(&mut self, outcome: Outcome) -> (action: SyncAction)
        ensures
            position_fits(final(self).plan(), final(self).position()),
            final(self).plan() == old(self).plan(),
            final(self).position() == position_after(
                old(self).plan(),
                old(self).position(),
                outcome@,
            ),
            action@ == action_at(final(self).plan(), final(self).position()),
    {
        proof {
            use_type_invariant(&*self);
        }
        assert(self.plan().tags.len() == self.tags.len());
        match self.status {
            Status::Running => match outcome {
                Outcome::Failed { cause } => {
                    self.cause = cause;
                    self.status = match self.phase {
                        Phase::Patch => Status::CleaningUp,
                        Phase::Push => Status::CleaningUp,
                        _ => Status::Aborted,
                    };
                },
                Outcome::Succeeded => {
                    let next = match self.phase {
                        Phase::Fetch => Some(Phase::Branch),
                        Phase::Branch => if self.patch.is_some() {
                            Some(Phase::Patch)
                        } else {
                            Some(Phase::Push)
                        },
                        Phase::Patch => Some(Phase::Push),
                        Phase::Push => if self.hook.is_some() {
                            Some(Phase::PostHook)
                        } else {
                            None
                        },
                        Phase::PostHook => None,
                    };
                    match next {
                        Some(phase) => {
                            self.phase = phase;
                        },
                        None => if self.index + 1 < self.tags.len() {
                            self.index = self.index + 1;
                            self.phase = Phase::Fetch;
                        } else {
                            self.status = Status::Finished;
                        },
                    }
                },
            },
            Status::CleaningUp => {
                self.status = Status::Aborted;
            },
            _ => {},
        }
        self.action()
    }
}

/// Where a run that stands at `position` stands after the outcomes
/// `outcomes` have come in, one after the other.
pub open spec fn position_after_all(
    plan: Plan,
    position: Position,
    outcomes: Seq<OutcomeView>,
) -> Position
    decreases outcomes.len(),
{
    if outcomes.len() == 0 {
        position
    } else {
        position_after_all(
            plan,
            position_after(plan, position, outcomes.first()),
            outcomes.drop_first(),
        )
    }
}

/// The number of steps that one tag goes through.
pub open spec fn steps_per_tag(plan: Plan) -> nat {
    3 + if plan.patch is Some {
        1nat
    } else {
        0
    } + if plan.hook is Some {
        1nat
    } else {
        0
    }
}

/// The number of steps that a tag at `phase` still goes through, `phase`
/// included.
pub open spec fn steps_from(plan: Plan, phase: Phase) -> nat {
    let hook: nat = if plan.hook is Some {
        1
    } else {
        0
    };
    match phase {
        Phase::Fetch => steps_per_tag(plan),
        Phase::Branch => (steps_per_tag(plan) - 1) as nat,
        Phase::Patch => 2 + hook,
        Phase::Push => 1 + hook,
        Phase::PostHook => 1,
    }
}

/// The number of steps that must still succeed for a run at `position` to
/// finish.
pub open spec fn steps_left(plan: Plan, position: Position) -> nat {
    match position {
        Position::Awaiting { index, phase } => steps_from(plan, phase) + (plan.tags.len() - 1
            - index) as nat * steps_per_tag(plan),
        _ => 0,
    }
}

/// A run stays within its plan: whatever the outcome, a position that fits
/// the plan is followed by one that fits it.
pub proof fn lemma_position_stays_fit(plan: Plan, position: Position, outcome: OutcomeView)
    requires
        position_fits(plan, position),
    ensures
        position_fits(plan, position_after(plan, position, outcome)),
{
}

/// The first failure aborts the run where it stands, and the run never
/// moves on from there: whatever is reported afterwards, no later step of
/// the failing tag and no later tag is ever asked for. All that may still
/// happen is that the branch which the failing step leaves behind is
/// discarded.
pub proof fn lemma_failure_is_final(
    plan: Plan,
    index: nat,
    phase: Phase,
    cause: Seq<char>,
    later: Seq<OutcomeView>,
)
    ensures
        position_after_all(
            plan,
            Position::Awaiting { index, phase },
            seq![OutcomeView::Failed { cause }] + later,
        ) == if leaves_branch(phase) && later.len() == 0 {
            Position::CleaningUp { index, phase, cause }
        } else {
            Position::Aborted { index, phase, cause }
        },
{
    let aborted = Position::Aborted { index, phase, cause };
    let outcomes = seq![OutcomeView::Failed { cause }] + later;
    assert(outcomes.first() == OutcomeView::Failed { cause });
    assert(outcomes.drop_first() =~= later);
    let start = Position::Awaiting { index, phase };
    let next = position_after(plan, start, OutcomeView::Failed { cause });
    assert(position_after_all(plan, start, outcomes) == position_after_all(plan, next, later));
    if !leaves_branch(phase) {
        lemma_ended_run_stays(plan, aborted, later);
    } else if later.len() > 0 {
        assert(position_after(plan, next, later.first()) == aborted);
        lemma_ended_run_stays(plan, aborted, later.drop_first());
    }
}

/// A run that has finished or was aborted stays where it is, whatever is
/// reported to it.
pub proof fn lemma_ended_run_stays(plan: Plan, position: Position, outcomes: Seq<OutcomeView>)
    requires
        position is Finished || position is Aborted,
    ensures
        position_after_all(plan, position, outcomes) == position,
    decreases outcomes.len(),
{
    if outcomes.len() > 0 {
        lemma_ended_run_stays(plan, position, outcomes.drop_first());
    }
}

/// Only what was left behind is discarded: a branch is discarded right
/// after the patch or the push of its tag failed, and at no other time.
/// The branch of a tag that was pushed is never discarded.
pub proof fn lemma_discard_follows_failure(plan: Plan, position: Position, outcome: OutcomeView)
    requires
        position_fits(plan, position),
        !(position is CleaningUp),
        position_after(plan, position, outcome) is CleaningUp,
    ensures
        position matches Position::Awaiting { index, phase } && leaves_branch(phase) && outcome
            is Failed && action_at(plan, position_after(plan, position, outcome)) == (
        SyncActionView::DiscardBranch { branch: branch_name_of(plan.tags[index as int]) })
            && pushed_at(plan, position_after(plan, position, outcome)) == index,
{
}

/// Tags are worked on in order: one step later the run is still at the
/// same tag or at the one right after it, and it reaches a tag only at
/// that tag's fetch, after every step of the tag before has succeeded.
pub proof fn lemma_tags_in_order(plan: Plan, index: nat, phase: Phase, outcome: OutcomeView)
    requires
        phase_fits(plan, index, phase),
    ensures
        match position_after(plan, Position::Awaiting { index, phase }, outcome) {
            Position::Awaiting { index: next, phase: then } => next == index || (next == index + 1
                && then == Phase::Fetch && outcome is Succeeded && phase_after(plan, phase)
                is None),
            Position::Finished => index + 1 == plan.tags.len() && outcome is Succeeded,
            Position::CleaningUp { index: at, phase: failed, cause } => at == index && failed
                == phase && outcome == (OutcomeView::Failed { cause }),
            Position::Aborted { index: at, phase: failed, cause } => at == index && failed == phase
                && outcome == (OutcomeView::Failed { cause }),
        },
{
}

/// The count of pushed branches never falls, and it rises, by one, exactly
/// when a push succeeds. A failure therefore leaves the branches of all
/// earlier tags pushed.
pub proof fn lemma_pushed_counts_pushes(plan: Plan, position: Position, outcome: OutcomeView)
    requires
        position_fits(plan, position),
    ensures
        pushed_at(plan, position_after(plan, position, outcome)) == pushed_at(plan, position) + (if position
            matches Position::Awaiting { index, phase } && phase == Phase::Push && outcome
            is Succeeded {
            1nat
        } else {
            0
        }),
{
}

/// Each success brings a run one step closer to its end.
pub proof fn lemma_success_is_progress(plan: Plan, index: nat, phase: Phase)
    requires
        phase_fits(plan, index, phase),
    ensures
        steps_left(plan, Position::Awaiting { index, phase }) == 1 + steps_left(
            plan,
            position_after(plan, Position::Awaiting { index, phase }, OutcomeView::Succeeded),
        ),
{
    let per_tag = steps_per_tag(plan) as int;
    let rest = plan.tags.len() - 1 - index;
    if phase_after(plan, phase) is None && index + 1 < plan.tags.len() {
        assert(rest * per_tag == per_tag + (rest - 1) * per_tag) by (nonlinear_arith);
    } else if phase_after(plan, phase) is None {
        assert(rest * per_tag == 0) by (nonlinear_arith)
            requires
                rest == 0,
        ;
    }
}

/// A run in which no step fails finishes, after exactly as many steps as
/// were left, with the branch of every tag pushed.
pub proof fn lemma_successes_finish(plan: Plan, position: Position, outcomes: Seq<OutcomeView>)
    requires
        position_fits(plan, position),
        outcomes.len() == steps_left(plan, position),
        forall|i: int| 0 <= i < outcomes.len() ==> outcomes[i] is Succeeded,
        position is Awaiting || position is Finished,
    ensures
        position_after_all(plan, position, outcomes) == Position::Finished,
        pushed_at(plan, position_after_all(plan, position, outcomes)) == plan.tags.len(),
    decreases outcomes.len(),
{
    match position {
        Position::Awaiting { index, phase } => {
            lemma_success_is_progress(plan, index, phase);
            assert(outcomes.first() == OutcomeView::Succeeded);
            let next = position_after(plan, position, OutcomeView::Succeeded);
            lemma_successes_finish(plan, next, outcomes.drop_first());
        },
        _ => {},
    }
}

} // verus!
