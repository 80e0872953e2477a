//! The local clone of the head repository, kept between runs.
//!
//! A directory at the clone path is the sign that an earlier run left its
//! clone there: it is opened as it is, with every remote it has. Only where
//! the path is free are the clone URLs asked for, the head repository
//! cloned, and the base repository added as the remote `upstream`. Either
//! way the URL of `origin` then gets the current credential.
//!
//! Like the workflow, the cache touches nothing itself: it names the next
//! step as an [`AcquireAction`] and takes what came of it as a [`Report`].

use crate::credentials::{embed_credentials, with_credentials};
use crate::error::ErrorKind;
use crate::naming::{ORIGIN, UPSTREAM};
use vstd::prelude::*;
use vstd::string::StringExecFns;

verus! {

/// The two repositories of a run.
#[derive(Clone, Copy, Debug, PartialEq, Eq, Structural)]
pub enum RepoRole {
    /// The repository that receives the branches.
    Head,
    /// The repository whose tags are mirrored.
    Base,
}

/// What came of the action that was last asked for.
#[derive(Debug)]
pub enum Report {
    /// Answers `CheckPath`.
    PathChecked { exists: bool },
    /// Answers `ResolveCloneUrl`: the clone URL, if the repository has one.
    CloneUrl { clone_url: Option<String> },
    /// Answers `ReadRemoteUrl`.
    RemoteUrl { url: String },
    /// The action was carried out; it has nothing to say.
    Done,
    /// The action failed.
    Failed { cause: String },
}

/// What a [`Report`] stands for.
pub enum ReportView {
    PathChecked { exists: bool },
    CloneUrl { clone_url: Option<Seq<char>> },
    RemoteUrl { url: Seq<char> },
    Done,
    Failed { cause: Seq<char> },
}

impl View for Report {
    type V = ReportView;

    open spec fn view(&self) -> ReportView {
        match self {
            Report::PathChecked { exists } => ReportView::PathChecked { exists: *exists },
            Report::CloneUrl { clone_url } => ReportView::CloneUrl {
                clone_url: match clone_url {
                    Some(url) => Some(url@),
                    None => None,
                },
            },
            Report::RemoteUrl { url } => ReportView::RemoteUrl { url: url@ },
            Report::Done => ReportView::Done,
            Report::Failed { cause } => ReportView::Failed { cause: cause@ },
        }
    }
}

/// Why the clone could not be had.
#[derive(Debug)]
pub enum AcquireError {
    /// The repository has no clone URL.
    MissingCloneUrl { role: RepoRole },
    /// The URL of `origin` cannot carry a credential.
    UnsupportedRemoteUrl { url: String },
    /// A step failed, or was answered by a report that is no answer to it.
    StepFailed { kind: ErrorKind, context: String, cause: String },
}

/// What an [`AcquireError`] stands for.
pub enum AcquireErrorView {
    MissingCloneUrl { role: RepoRole },
    UnsupportedRemoteUrl { url: Seq<char> },
    StepFailed { kind: ErrorKind, context: Seq<char>, cause: Seq<char> },
}

impl View for AcquireError {
    type V = AcquireErrorView;

    open spec fn view(&self) -> AcquireErrorView {
        match self {
            AcquireError::MissingCloneUrl { role } => AcquireErrorView::MissingCloneUrl {
                role: *role,
            },
            AcquireError::UnsupportedRemoteUrl { url } => AcquireErrorView::UnsupportedRemoteUrl {
                url: url@,
            },
            AcquireError::StepFailed { kind, context, cause } => AcquireErrorView::StepFailed {
                kind: *kind,
                context: context@,
                cause: cause@,
            },
        }
    }
}

impl Clone for AcquireError {
    fn clone(&self) -> (copy: AcquireError)
        ensures
            copy@ == self@,
    {
        match self {
            AcquireError::MissingCloneUrl { role } => AcquireError::MissingCloneUrl { role: *role },
            AcquireError::UnsupportedRemoteUrl { url } => AcquireError::UnsupportedRemoteUrl {
                url: url.clone(),
            },
            AcquireError::StepFailed { kind, context, cause } => AcquireError::StepFailed {
                kind: *kind,
                context: context.clone(),
                cause: cause.clone(),
            },
        }
    }
}

/// The word for `role` in messages.
pub open spec fn role_word(role: RepoRole) -> Seq<char> {
    match role {
        RepoRole::Head => "head"@,
        RepoRole::Base => "base"@,
    }
}

/// What `error` says to a reader.
pub open spec fn error_text(error: AcquireErrorView) -> Seq<char> {
    match error {
        AcquireErrorView::MissingCloneUrl { role } => "Failed to get clone URL for "@ + role_word(
            role,
        ) + " repository."@,
        AcquireErrorView::UnsupportedRemoteUrl { url } => "Cannot put credentials into remote URL: '"@
            + url + "'"@,
        AcquireErrorView::StepFailed { kind, context, cause } => context + ": "@ + cause,
    }
}

/// The kind of failure that `error` is. A repository without a clone URL
/// is a failure of the remote side; a URL that cannot carry a credential
/// is one of the clone.
pub open spec fn error_kind(error: AcquireErrorView) -> ErrorKind {
    match error {
        AcquireErrorView::MissingCloneUrl { role } => ErrorKind::RemoteAccess,
        AcquireErrorView::UnsupportedRemoteUrl { url } => ErrorKind::GitOperation,
        AcquireErrorView::StepFailed { kind, context, cause } => kind,
    }
}

impl AcquireError {
    /// The kind of this failure.
    pub fn kind(&self) -> (kind: ErrorKind)
        ensures
            kind == error_kind(self@),
    {
        match self {
            AcquireError::MissingCloneUrl { .. } => ErrorKind::RemoteAccess,
            AcquireError::UnsupportedRemoteUrl { .. } => ErrorKind::GitOperation,
            AcquireError::StepFailed { kind, .. } => *kind,
        }
    }

    /// Describes the failure.
    pub fn message(&self) -> (text: String)
        ensures
            text@ == error_text(self@),
    {
        match self {
            AcquireError::MissingCloneUrl { role } => {
                let mut text = String::from_str("Failed to get clone URL for ");
                match role {
                    RepoRole::Head => text.append("head"),
                    RepoRole::Base => text.append("base"),
                }
                text.append(" repository.");
                text
            },
            AcquireError::UnsupportedRemoteUrl { url } => {
                let mut text = String::from_str("Cannot put credentials into remote URL: '");
                text.append(url.as_str());
                text.append("'");
                text
            },
            AcquireError::StepFailed { context, cause, .. } => {
                let mut text = context.clone();
                text.append(": ");
                text.append(cause.as_str());
                text
            },
        }
    }
}

/// The next thing to do to the clone.
#[derive(Debug)]
pub enum AcquireAction {
    /// Find out whether anything exists at `path`.
    CheckPath { path: String },
    /// Ask the hosting service for the clone URL of the repository.
    ResolveCloneUrl { role: RepoRole },
    /// Clone `url` into `path`.
    Clone { url: String, path: String },
    /// Add the remote `name` with `url`.
    AddRemote { name: String, url: String },
    /// Open the repository at `path`.
    Open { path: String },
    /// Read the URL of the remote `name`.
    ReadRemoteUrl { name: String },
    /// Set the URL of the remote `name` to `url`.
    SetRemoteUrl { name: String, url: String },
    /// The repository at `path` is ready for use.
    Ready { path: String },
    /// Stop: `error` says what went wrong.
    Abort { error: AcquireError },
}

/// What an [`AcquireAction`] stands for.
pub enum AcquireActionView {
    CheckPath { path: Seq<char> },
    ResolveCloneUrl { role: RepoRole },
    Clone { url: Seq<char>, path: Seq<char> },
    AddRemote { name: Seq<char>, url: Seq<char> },
    Open { path: Seq<char> },
    ReadRemoteUrl { name: Seq<char> },
    SetRemoteUrl { name: Seq<char>, url: Seq<char> },
    Ready { path: Seq<char> },
    Abort { error: AcquireErrorView },
}

impl View for AcquireAction {
    type V = AcquireActionView;

    open spec fn view(&self) -> AcquireActionView {
        match self {
            AcquireAction::CheckPath { path } => AcquireActionView::CheckPath { path: path@ },
            AcquireAction::ResolveCloneUrl { role } => AcquireActionView::ResolveCloneUrl {
                role: *role,
            },
            AcquireAction::Clone { url, path } => AcquireActionView::Clone {
                url: url@,
                path: path@,
            },
            AcquireAction::AddRemote { name, url } => AcquireActionView::AddRemote {
                name: name@,
                url: url@,
            },
            AcquireAction::Open { path } => AcquireActionView::Open { path: path@ },
            AcquireAction::ReadRemoteUrl { name } => AcquireActionView::ReadRemoteUrl {
                name: name@,
            },
            AcquireAction::SetRemoteUrl { name, url } => AcquireActionView::SetRemoteUrl {
                name: name@,
                url: url@,
            },
            AcquireAction::Ready { path } => AcquireActionView::Ready { path: path@ },
            AcquireAction::Abort { error } => AcquireActionView::Abort { error: error@ },
        }
    }
}

/// What an acquisition works with: where the clone lives, and the
/// credential of this run.
pub struct Access {
    pub path: Seq<char>,
    pub actor: Seq<char>,
    pub token: Seq<char>,
}

/// How far an acquisition has come: the step whose report is awaited, or
/// how it ended.
pub enum Step {
    CheckingPath,
    ResolvingHead,
    ResolvingBase { head_url: Seq<char> },
    Cloning { head_url: Seq<char>, base_url: Seq<char> },
    AddingUpstream { base_url: Seq<char> },
    Opening,
    ReadingOrigin,
    SettingOrigin { url: Seq<char> },
    Ready,
    Aborted { error: AcquireErrorView },
}

/// Whether an acquisition at `step` has ended.
pub open spec fn is_end(step: Step) -> bool {
    step is Ready || step is Aborted
}

/// The kind of failure that a failure of `step` is: asking the hosting
/// service is remote access, everything else works on the clone.
pub open spec fn step_kind(step: Step) -> ErrorKind {
    if step is ResolvingHead || step is ResolvingBase {
        ErrorKind::RemoteAccess
    } else {
        ErrorKind::GitOperation
    }
}

/// What a failure of `step` is introduced with.
pub open spec fn step_context(access: Access, step: Step) -> Seq<char> {
    match step {
        Step::CheckingPath => "Failed to check path: '"@ + access.path + "'"@,
        Step::ResolvingHead => "Failed to look up head repository"@,
        Step::ResolvingBase { head_url } => "Failed to look up base repository"@,
        Step::Cloning { head_url, base_url } => "Failed to clone: '"@ + head_url + "'"@,
        Step::AddingUpstream { base_url } => "Failed to add remote: upstream"@,
        Step::Opening => "Failed to open: '"@ + access.path + "'"@,
        Step::ReadingOrigin => "Failed to read remote: origin"@,
        Step::SettingOrigin { url } => "Failed to update remote: origin"@,
        Step::Ready => Seq::empty(),
        Step::Aborted { error } => Seq::empty(),
    }
}

/// The step that a failure of `step` with `cause` leads to.
pub open spec fn failed(access: Access, step: Step, cause: Seq<char>) -> Step {
    Step::Aborted {
        error: AcquireErrorView::StepFailed {
            kind: step_kind(step),
            context: step_context(access, step),
            cause,
        },
    }
}

/// The step that follows `step` when `report` answers it. A step that is
/// answered by a report of another kind counts as failed, with
/// `unexpected report` as the cause. An acquisition that has ended stays
/// as it is.
pub open spec fn step_after(access: Access, step: Step, report: ReportView) -> Step {
    if is_end(step) {
        step
    } else if report is Failed {
        failed(access, step, report->cause)
    } else {
        match (step, report) {
            (Step::CheckingPath, ReportView::PathChecked { exists }) => if exists {
                Step::Opening
            } else {
                Step::ResolvingHead
            },
            (Step::ResolvingHead, ReportView::CloneUrl { clone_url }) => match clone_url {
                Some(head_url) => Step::ResolvingBase { head_url },
                None => Step::Aborted {
                    error: AcquireErrorView::MissingCloneUrl { role: RepoRole::Head },
                },
            },
            (Step::ResolvingBase { head_url }, ReportView::CloneUrl { clone_url }) => match clone_url {
                Some(base_url) => Step::Cloning { head_url, base_url },
                None => Step::Aborted {
                    error: AcquireErrorView::MissingCloneUrl { role: RepoRole::Base },
                },
            },
            (Step::Cloning { head_url, base_url }, ReportView::Done) => Step::AddingUpstream {
                base_url,
            },
            (Step::AddingUpstream { base_url }, ReportView::Done) => Step::ReadingOrigin,
            (Step::Opening, ReportView::Done) => Step::ReadingOrigin,
            (Step::ReadingOrigin, ReportView::RemoteUrl { url }) => match with_credentials(
                url,
                access.actor,
                access.token,
            ) {
                Some(rewritten) => Step::SettingOrigin { url: rewritten },
                None => Step::Aborted { error: AcquireErrorView::UnsupportedRemoteUrl { url } },
            },
            (Step::SettingOrigin { url }, ReportView::Done) => Step::Ready,
            _ => failed(access, step, "unexpected report"@),
        }
    }
}

/// The action that `step` calls for.
pub open spec fn action_for(access: Access, step: Step) -> AcquireActionView {
    match step {
        Step::CheckingPath => AcquireActionView::CheckPath { path: access.path },
        Step::ResolvingHead => AcquireActionView::ResolveCloneUrl { role: RepoRole::Head },
        Step::ResolvingBase { head_url } => AcquireActionView::ResolveCloneUrl {
            role: RepoRole::Base,
        },
        Step::Cloning { head_url, base_url } => AcquireActionView::Clone {
            url: head_url,
            path: access.path,
        },
        Step::AddingUpstream { base_url } => AcquireActionView::AddRemote {
            name: "upstream"@,
            url: base_url,
        },
        Step::Opening => AcquireActionView::Open { path: access.path },
        Step::ReadingOrigin => AcquireActionView::ReadRemoteUrl { name: "origin"@ },
        Step::SettingOrigin { url } => AcquireActionView::SetRemoteUrl {
            name: "origin"@,
            url,
        },
        Step::Ready => AcquireActionView::Ready { path: access.path },
        Step::Aborted { error } => AcquireActionView::Abort { error },
    }
}

/// The step of an acquisition, as it is held while it runs.
enum Progress {
    CheckingPath,
    ResolvingHead,
    ResolvingBase { head_url: String },
    Cloning { head_url: String, base_url: String },
    AddingUpstream { base_url: String },
    Opening,
    ReadingOrigin,
    SettingOrigin { url: String },
    Ready,
    Aborted { error: AcquireError },
}

impl View for Progress {
    type V = Step;

    closed spec fn view(&self) -> Step {
        match self {
            Progress::CheckingPath => Step::CheckingPath,
            Progress::ResolvingHead => Step::ResolvingHead,
            Progress::ResolvingBase { head_url } => Step::ResolvingBase { head_url: head_url@ },
            Progress::Cloning { head_url, base_url } => Step::Cloning {
                head_url: head_url@,
                base_url: base_url@,
            },
            Progress::AddingUpstream { base_url } => Step::AddingUpstream { base_url: base_url@ },
            Progress::Opening => Step::Opening,
            Progress::ReadingOrigin => Step::ReadingOrigin,
            Progress::SettingOrigin { url } => Step::SettingOrigin { url: url@ },
            Progress::Ready => Step::Ready,
            Progress::Aborted { error } => Step::Aborted { error: error@ },
        }
    }
}

/// `prefix`, then `text`, then a closing quote.
fn quoted(prefix: &str, text: &str) -> (whole: String)
    ensures
        whole@ == prefix@ + text@ + "'"@,
{
    let mut whole = String::from_str(prefix);
    whole.append(text);
    whole.append("'");
    whole
}

/// One acquisition of the local clone.
pub struct RepositoryCache {
    path: String,
    actor: String,
    token: String,
    progress: Progress,
}

impl RepositoryCache {
    /// What the acquisition works with.
    pub closed spec fn access(&self) -> Access {
        Access { path: self.path@, actor: self.actor@, token: self.token@ }
    }

    /// How far the acquisition has come.
    pub closed spec fn step(&self) -> Step {
        self.progress@
    }

    /// Sets up the acquisition of the clone at `path`, for the credential
    /// `actor:token`. It begins by asking whether the path exists.
    pub fn new(path: String, actor: String, token: String) -> (cache: RepositoryCache)
        ensures
            cache.access() == (Access { path: path@, actor: actor@, token: token@ }),
            cache.step() == Step::CheckingPath,
    {
        RepositoryCache { path, actor, token, progress: Progress::CheckingPath }
    }

    /// Whether the acquisition has ended, well or badly.
    pub fn is_over(&self) -> (over: bool)
        ensures
            over == is_end(self.step()),
    {
        match &self.progress {
            Progress::Ready => true,
            Progress::Aborted { .. } => true,
            _ => false,
        }
    }

    /// What a failure of the step under way is introduced with.
    fn context(&self) -> (text: String)
        requires
            !is_end(self.step()),
        ensures
            text@ == step_context(self.access(), self.step()),
    {
        match &self.progress {
            Progress::CheckingPath => quoted("Failed to check path: '", self.path.as_str()),
            Progress::ResolvingHead => String::from_str("Failed to look up head repository"),
            Progress::ResolvingBase { .. } => String::from_str("Failed to look up base repository"),
            Progress::Cloning { head_url, .. } => quoted("Failed to clone: '", head_url.as_str()),
            Progress::AddingUpstream { .. } => String::from_str("Failed to add remote: upstream"),
            Progress::Opening => quoted("Failed to open: '", self.path.as_str()),
            Progress::ReadingOrigin => String::from_str("Failed to read remote: origin"),
            _ => String::from_str("Failed to update remote: origin"),
        }
    }

    /// The failure that the step under way would end in, were it to fail
    /// with `cause`.
    fn failure(&self, cause: String) -> (next: Progress)
        requires
            !is_end(self.step()),
        ensures
            next@ == failed(self.access(), self.step(), cause@),
    {
        let kind = match &self.progress {
            Progress::ResolvingHead => ErrorKind::RemoteAccess,
            Progress::ResolvingBase { .. } => ErrorKind::RemoteAccess,
            _ => ErrorKind::GitOperation,
        };
        Progress::Aborted { error: AcquireError::StepFailed { kind, context: self.context(), cause } }
    }

    /// The action that the acquisition calls for where it stands.
    pub fn action(&self) -> (action: AcquireAction)
        ensures
            action@ == action_for(self.access(), self.step()),
    {
        match &self.progress {
            Progress::CheckingPath => AcquireAction::CheckPath { path: self.path.clone() },
            Progress::ResolvingHead => AcquireAction::ResolveCloneUrl { role: RepoRole::Head },
            Progress::ResolvingBase { .. } => AcquireAction::ResolveCloneUrl {
                role: RepoRole::Base,
            },
            Progress::Cloning { head_url, .. } => AcquireAction::Clone {
                url: head_url.clone(),
                path: self.path.clone(),
            },
            Progress::AddingUpstream { base_url } => AcquireAction::AddRemote {
                name: String::from_str(UPSTREAM),
                url: base_url.clone(),
            },
            Progress::Opening => AcquireAction::Open { path: self.path.clone() },
            Progress::ReadingOrigin => AcquireAction::ReadRemoteUrl {
                name: String::from_str(ORIGIN),
            },
            Progress::SettingOrigin { url } => AcquireAction::SetRemoteUrl {
                name: String::from_str(ORIGIN),
                url: url.clone(),
            },
            Progress::Ready => AcquireAction::Ready { path: self.path.clone() },
            Progress::Aborted { error } => AcquireAction::Abort { error: error.clone() },
        }
    }

    /// Takes the report on the action that was last asked for, moves the
    /// acquisition on, and gives the next action.
    pub fn advance(&mut self, report: Report) -> (action: AcquireAction)
        ensures
            final(self).access() == old(self).access(),
            final(self).step() == step_after(old(self).access(), old(self).step(), report@),
            action@ == action_for(final(self).access(), final(self).step()),
    {
        if !self.is_over() {
            let next = match report {
                Report::Failed { cause } => self.failure(cause),
                Report::PathChecked { exists } => match &self.progress {
                    Progress::CheckingPath => if exists {
                        Progress::Opening
                    } else {
                        Progress::ResolvingHead
                    },
                    _ => self.failure(String::from_str("unexpected report")),
                },
                Report::CloneUrl { clone_url } => match &self.progress {
                    Progress::ResolvingHead => match clone_url {
                        Some(head_url) => Progress::ResolvingBase { head_url },
                        None => Progress::Aborted {
                            error: AcquireError::MissingCloneUrl { role: RepoRole::Head },
                        },
                    },
                    Progress::ResolvingBase { head_url } => match clone_url {
                        Some(base_url) => Progress::Cloning {
                            head_url: head_url.clone(),
                            base_url,
                        },
                        None => Progress::Aborted {
                            error: AcquireError::MissingCloneUrl { role: RepoRole::Base },
                        },
                    },
                    _ => self.failure(String::from_str("unexpected report")),
                },
                Report::RemoteUrl { url } => match &self.progress {
                    Progress::ReadingOrigin => match embed_credentials(
                        url.as_str(),
                        self.actor.as_str(),
                        self.token.as_str(),
                    ) {
                        Some(rewritten) => Progress::SettingOrigin { url: rewritten },
                        None => Progress::Aborted {
                            error: AcquireError::UnsupportedRemoteUrl { url },
                        },
                    },
                    _ => self.failure(String::from_str("unexpected report")),
                },
                Report::Done => match &self.progress {
                    Progress::Cloning { base_url, .. } => Progress::AddingUpstream {
                        base_url: base_url.clone(),
                    },
                    Progress::AddingUpstream { .. } => Progress::ReadingOrigin,
                    Progress::Opening => Progress::ReadingOrigin,
                    Progress::SettingOrigin { .. } => Progress::Ready,
                    _ => self.failure(String::from_str("unexpected report")),
                },
            };
            self.progress = next;
        }
        self.action()
    }
}

/// Whether `step` belongs to the reuse of a clone that was found at the
/// path: opening it, refreshing the credential of `origin`, or an end.
pub open spec fn reuses_clone(step: Step) -> bool {
    step is Opening || step is ReadingOrigin || step is SettingOrigin || is_end(step)
}

/// Where an acquisition that stands at `step` stands after the reports
/// `reports` have come in, one after the other.
pub open spec fn step_after_all(access: Access, step: Step, reports: Seq<ReportView>) -> Step
    decreases reports.len(),
{
    if reports.len() == 0 {
        step
    } else {
        step_after_all(access, step_after(access, step, reports.first()), reports.drop_first())
    }
}

/// A clone that is found at the path is reused: whatever is reported after
/// the path was found to exist, the acquisition never asks for a clone URL,
/// never clones and never adds a remote. The one thing it changes is the
/// URL of `origin`, so the remotes that the clone had are all still there.
pub proof fn lemma_existing_clone_is_reused(access: Access, reports: Seq<ReportView>)
    ensures
        ({
            let step = step_after_all(
                access,
                Step::CheckingPath,
                seq![ReportView::PathChecked { exists: true }] + reports,
            );
            let action = action_for(access, step);
            &&& reuses_clone(step)
            &&& !(action is ResolveCloneUrl) && !(action is Clone) && !(action is AddRemote)
            &&& action matches AcquireActionView::SetRemoteUrl { name, url } ==> name == "origin"@
        }),
{
    let all = seq![ReportView::PathChecked { exists: true }] + reports;
    assert(all.first() == ReportView::PathChecked { exists: true });
    assert(all.drop_first() =~= reports);
    lemma_reuse_goes_on(access, Step::Opening, reports);
}

/// Reuse, once begun, goes on: no report leads from the reuse of a clone
/// back to cloning.
pub proof fn lemma_reuse_goes_on(access: Access, step: Step, reports: Seq<ReportView>)
    requires
        reuses_clone(step),
    ensures
        reuses_clone(step_after_all(access, step, reports)),
    decreases reports.len(),
{
    if reports.len() > 0 {
        lemma_reuse_goes_on(
            access,
            step_after(access, step, reports.first()),
            reports.drop_first(),
        );
    }
}

/// The credential is refreshed on every acquisition that gets that far:
/// a clone is handed out as ready only right after the URL of `origin`
/// was set, and that URL is the one that was read, with the credential of
/// this run in it.
pub proof fn lemma_ready_after_credentials(access: Access, step: Step, report: ReportView)
    requires
        !(step is Ready),
        step_after(access, step, report) is Ready,
    ensures
        step is SettingOrigin,
        report is Done,
{
}

/// What the URL of `origin` is set to: the URL that was read from the
/// clone, with the credential of this run in place of any it carried.
pub proof fn lemma_origin_gets_credentials(access: Access, url: Seq<char>)
    ensures
        match with_credentials(url, access.actor, access.token) {
            Some(rewritten) => action_for(
                access,
                step_after(access, Step::ReadingOrigin, ReportView::RemoteUrl { url }),
            ) == (AcquireActionView::SetRemoteUrl { name: "origin"@, url: rewritten }),
            None => step_after(access, Step::ReadingOrigin, ReportView::RemoteUrl { url })
                is Aborted,
        },
{
}

/// A free path is cloned into: where nothing exists at the path and every
/// step works, the head repository is cloned from its clone URL, the base
/// repository becomes the remote `upstream`, and the URL of `origin` gets
/// the credential. The clone that is handed out has these two remotes.
pub proof fn lemma_free_path_is_cloned(
    access: Access,
    head_url: Seq<char>,
    base_url: Seq<char>,
    origin_url: Seq<char>,
)
    requires
        with_credentials(origin_url, access.actor, access.token) is Some,
    ensures
        ({
            let asked_head = step_after(
                access,
                Step::CheckingPath,
                ReportView::PathChecked { exists: false },
            );
            let asked_base = step_after(
                access,
                asked_head,
                ReportView::CloneUrl { clone_url: Some(head_url) },
            );
            let cloning = step_after(
                access,
                asked_base,
                ReportView::CloneUrl { clone_url: Some(base_url) },
            );
            let adding = step_after(access, cloning, ReportView::Done);
            let reading = step_after(access, adding, ReportView::Done);
            let setting = step_after(access, reading, ReportView::RemoteUrl { url: origin_url });
            &&& action_for(access, asked_head) == (AcquireActionView::ResolveCloneUrl {
                role: RepoRole::Head,
            })
            &&& action_for(access, asked_base) == (AcquireActionView::ResolveCloneUrl {
                role: RepoRole::Base,
            })
            &&& action_for(access, cloning) == (AcquireActionView::Clone {
                url: head_url,
                path: access.path,
            })
            &&& action_for(access, adding) == (AcquireActionView::AddRemote {
                name: "upstream"@,
                url: base_url,
            })
            &&& action_for(access, reading) == (AcquireActionView::ReadRemoteUrl {
                name: "origin"@,
            })
            &&& action_for(access, setting) == (AcquireActionView::SetRemoteUrl {
                name: "origin"@,
                url: with_credentials(origin_url, access.actor, access.token)->0,
            })
            &&& step_after(access, setting, ReportView::Done) == Step::Ready
        }),
{
}

} // verus!
