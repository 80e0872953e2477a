//! The checked configuration of a run, and what each stage starts from.

use crate::cache::{Access, RepoRole, RepositoryCache, Step};
use crate::config::{
    github_token, join_path, parent_path, parse_repo, parse_url, path_join, path_parent,
    repo_parts, required, text_of, url_parse, ConfigError, ConfigErrorView,
};
use crate::diff::{compute_new_tags, new_tag_names};
use crate::filter::{regex_compiles, TagFilter};
use crate::model::{
    branch_names, tag_names, texts, Branch, Identity, IdentityView, PatchSpec, PatchSpecView, Tag,
};
use crate::workflow::{first_position, SyncWorkflow};
use vstd::prelude::*;
use vstd::string::StringExecFns;

verus! {

/// The configuration values as they were found. A value that was not set
/// is `None`.
pub struct Settings {
    /// `GITHUB_WORKSPACE`: the directory that the run works in.
    pub github_workspace: Option<String>,
    /// `BASE_REPO`: the repository whose tags are mirrored, as `owner/repo`.
    pub base_repo: Option<String>,
    /// `HEAD_REPO`: the repository that receives the branches, as
    /// `owner/repo`.
    pub head_repo: Option<String>,
    /// `GITHUB_TOKEN`: the access token.
    pub github_token: Option<String>,
    /// `GITHUB_ACTOR`: who the token belongs to.
    pub github_actor: Option<String>,
    /// `FILTER_TAGS`: the regular expression that a tag's name must match.
    pub filter_tags: Option<String>,
    /// `PATCH_URL`: where the patch is fetched from.
    pub patch_url: Option<String>,
    /// `CLONED_PATH`: where the clone lives, from the workspace.
    pub cloned_path: Option<String>,
    /// `PATCH_AUTHOR` and `PATCH_AUTHOR_EMAIL`.
    pub patch_author: Option<String>,
    pub patch_author_email: Option<String>,
    /// `PATCH_COMMITTER` and `PATCH_COMMITTER_EMAIL`.
    pub patch_committer: Option<String>,
    pub patch_committer_email: Option<String>,
    /// `PATCH_MESSAGE`: the message of the commit that holds the patch.
    pub patch_message: Option<String>,
    /// `SCRIPTS_AFTER_SYNC`: the command to run after each push.
    pub scripts_after_sync: Option<String>,
}

/// What a [`Settings`] stands for.
pub struct SettingsView {
    pub github_workspace: Option<Seq<char>>,
    pub base_repo: Option<Seq<char>>,
    pub head_repo: Option<Seq<char>>,
    pub github_token: Option<Seq<char>>,
    pub github_actor: Option<Seq<char>>,
    pub filter_tags: Option<Seq<char>>,
    pub patch_url: Option<Seq<char>>,
    pub cloned_path: Option<Seq<char>>,
    pub patch_author: Option<Seq<char>>,
    pub patch_author_email: Option<Seq<char>>,
    pub patch_committer: Option<Seq<char>>,
    pub patch_committer_email: Option<Seq<char>>,
    pub patch_message: Option<Seq<char>>,
    pub scripts_after_sync: Option<Seq<char>>,
}

impl View for Settings {
    type V = SettingsView;

    open spec fn view(&self) -> SettingsView {
        SettingsView {
            github_workspace: text_of(self.github_workspace),
            base_repo: text_of(self.base_repo),
            head_repo: text_of(self.head_repo),
            github_token: text_of(self.github_token),
            github_actor: text_of(self.github_actor),
            filter_tags: text_of(self.filter_tags),
            patch_url: text_of(self.patch_url),
            cloned_path: text_of(self.cloned_path),
            patch_author: text_of(self.patch_author),
            patch_author_email: text_of(self.patch_author_email),
            patch_committer: text_of(self.patch_committer),
            patch_committer_email: text_of(self.patch_committer_email),
            patch_message: text_of(self.patch_message),
            scripts_after_sync: text_of(self.scripts_after_sync),
        }
    }
}

impl Settings {
    /// Settings in which nothing is set.
    pub fn new() -> (settings: Settings)
        ensures
            settings@ == (SettingsView {
                github_workspace: None,
                base_repo: None,
                head_repo: None,
                github_token: None,
                github_actor: None,
                filter_tags: None,
                patch_url: None,
                cloned_path: None,
                patch_author: None,
                patch_author_email: None,
                patch_committer: None,
                patch_committer_email: None,
                patch_message: None,
                scripts_after_sync: None,
            }),
    {
        Settings {
            github_workspace: None,
            base_repo: None,
            head_repo: None,
            github_token: None,
            github_actor: None,
            filter_tags: None,
            patch_url: None,
            cloned_path: None,
            patch_author: None,
            patch_author_email: None,
            patch_committer: None,
            patch_committer_email: None,
            patch_message: None,
            scripts_after_sync: None,
        }
    }
}

/// What a [`Context`] stands for.
pub struct ContextView {
    pub base_repo: (Seq<char>, Seq<char>),
    pub head_repo: (Seq<char>, Seq<char>),
    pub clone_path: Seq<char>,
    pub workspace: Seq<char>,
    pub filter: Seq<char>,
    pub patch_url: Option<Seq<char>>,
    pub token: Seq<char>,
    pub actor: Seq<char>,
    pub hook: Option<Seq<char>>,
    pub patch_author: Option<Seq<char>>,
    pub patch_author_email: Option<Seq<char>>,
    pub patch_committer: Option<Seq<char>>,
    pub patch_committer_email: Option<Seq<char>>,
    pub patch_message: Option<Seq<char>>,
}

/// The name that a missing value is reported under.
pub open spec fn missing(name: Seq<char>) -> Result<ContextView, ConfigErrorView> {
    Err(ConfigErrorView::MissingVariable { name })
}

/// The URL of the patch: what the configured text parses to. A text that
/// is no URL configures no patch, as no text does.
pub open spec fn patch_url_of(settings: SettingsView) -> Option<Seq<char>> {
    match settings.patch_url {
        Some(text) => url_parse(text),
        None => None,
    }
}

/// The command to run after each push: the configured one, unless it is
/// empty.
pub open spec fn hook_of(settings: SettingsView) -> Option<Seq<char>> {
    match settings.scripts_after_sync {
        Some(command) => if command.len() == 0 {
            None
        } else {
            Some(command)
        },
        None => None,
    }
}

/// What checking `settings` comes to: the context of the run, or the first
/// fault found. The values are looked at in a fixed order: workspace,
/// base repository, head repository, token, actor, filter, clone path.
pub open spec fn checked(settings: SettingsView) -> Result<ContextView, ConfigErrorView> {
    if settings.github_workspace is None {
        missing("GITHUB_WORKSPACE"@)
    } else if settings.base_repo is None {
        missing("BASE_REPO"@)
    } else if repo_parts(settings.base_repo->0) is None {
        Err(ConfigErrorView::InvalidRepository { value: settings.base_repo->0 })
    } else if settings.head_repo is None {
        missing("HEAD_REPO"@)
    } else if repo_parts(settings.head_repo->0) is None {
        Err(ConfigErrorView::InvalidRepository { value: settings.head_repo->0 })
    } else if settings.github_token is None {
        missing("GITHUB_TOKEN"@)
    } else if settings.github_actor is None {
        missing("GITHUB_ACTOR"@)
    } else if settings.filter_tags is None {
        missing("FILTER_TAGS"@)
    } else if !regex_compiles(settings.filter_tags->0) {
        Err(ConfigErrorView::InvalidFilter { pattern: settings.filter_tags->0 })
    } else if settings.cloned_path is None {
        missing("CLONED_PATH"@)
    } else {
        let clone_path = path_join(settings.github_workspace->0, settings.cloned_path->0);
        match path_parent(clone_path) {
            None => Err(ConfigErrorView::InvalidClonePath { path: clone_path }),
            Some(workspace) => Ok(
                ContextView {
                    base_repo: repo_parts(settings.base_repo->0)->0,
                    head_repo: repo_parts(settings.head_repo->0)->0,
                    clone_path,
                    workspace,
                    filter: settings.filter_tags->0,
                    patch_url: patch_url_of(settings),
                    token: settings.github_token->0,
                    actor: settings.github_actor->0,
                    hook: hook_of(settings),
                    patch_author: settings.patch_author,
                    patch_author_email: settings.patch_author_email,
                    patch_committer: settings.patch_committer,
                    patch_committer_email: settings.patch_committer_email,
                    patch_message: settings.patch_message,
                },
            ),
        }
    }
}

/// The message of the commit that holds the patch: the configured one,
/// or, where none or an empty one is configured, one that names the
/// place that the patch came from.
pub open spec fn patch_message_of(context: ContextView, patch_url: Seq<char>) -> Seq<char> {
    match context.patch_message {
        Some(message) => if message.len() == 0 {
            "Apply patch from "@ + patch_url
        } else {
            message
        },
        None => "Apply patch from "@ + patch_url,
    }
}

/// What the commit of `diff` says, or what is missing to say it. The four
/// parts of the two identities are asked for in order, then the place
/// that the patch came from.
pub open spec fn patch_of(context: ContextView, diff: Seq<u8>) -> Result<
    PatchSpecView,
    ConfigErrorView,
> {
    if context.patch_author is None {
        Err(ConfigErrorView::MissingVariable { name: "PATCH_AUTHOR"@ })
    } else if context.patch_author_email is None {
        Err(ConfigErrorView::MissingVariable { name: "PATCH_AUTHOR_EMAIL"@ })
    } else if context.patch_committer is None {
        Err(ConfigErrorView::MissingVariable { name: "PATCH_COMMITTER"@ })
    } else if context.patch_committer_email is None {
        Err(ConfigErrorView::MissingVariable { name: "PATCH_COMMITTER_EMAIL"@ })
    } else if context.patch_url is None {
        Err(ConfigErrorView::MissingVariable { name: "PATCH_URL"@ })
    } else {
        Ok(
            PatchSpecView {
                author: IdentityView {
                    name: context.patch_author->0,
                    email: context.patch_author_email->0,
                },
                committer: IdentityView {
                    name: context.patch_committer->0,
                    email: context.patch_committer_email->0,
                },
                message: patch_message_of(context, context.patch_url->0),
                diff,
            },
        )
    }
}

/// A copy of `value`.
fn copied(value: &Option<String>) -> (copy: Option<String>)
    ensures
        copy == *value,
{
    match value {
        Some(text) => Some(text.clone()),
        None => None,
    }
}

/// The checked configuration of a run.
pub struct Context {
    /// Owner and name of the base repository.
    base_repo_owner: String,
    base_repo_name: String,
    /// Owner and name of the head repository.
    head_repo_owner: String,
    head_repo_name: String,
    /// Where the clone of the head repository lives, and the directory
    /// that holds it.
    clone_path: String,
    workspace: String,
    /// The filter that a tag's name must pass.
    filter_tags: TagFilter,
    /// Where the patch is fetched from, if a patch is configured.
    patch_file_url: Option<String>,
    /// The credential of this run.
    token: String,
    actor: String,
    /// The command to run after each push.
    post_sync: Option<String>,
    /// What the commit of the patch is to say.
    patch_author: Option<String>,
    patch_author_email: Option<String>,
    patch_committer: Option<String>,
    patch_committer_email: Option<String>,
    patch_message: Option<String>,
}

impl View for Context {
    type V = ContextView;

    closed spec fn view(&self) -> ContextView {
        ContextView {
            base_repo: (self.base_repo_owner@, self.base_repo_name@),
            head_repo: (self.head_repo_owner@, self.head_repo_name@),
            clone_path: self.clone_path@,
            workspace: self.workspace@,
            filter: self.filter_tags@,
            patch_url: text_of(self.patch_file_url),
            token: self.token@,
            actor: self.actor@,
            hook: text_of(self.post_sync),
            patch_author: text_of(self.patch_author),
            patch_author_email: text_of(self.patch_author_email),
            patch_committer: text_of(self.patch_committer),
            patch_committer_email: text_of(self.patch_committer_email),
            patch_message: text_of(self.patch_message),
        }
    }
}

impl Context {
    /// Checks `settings` and sets up the run. Gives the context exactly
    /// when nothing is missing or malformed, and else the first fault, in
    /// the order of [`checked`].
    pub fn new(settings: &Settings) -> (made: Result<Context, ConfigError>)
        ensures
            match made {
                Ok(context) => checked(settings@) == Ok::<ContextView, ConfigErrorView>(context@),
                Err(error) => checked(settings@) == Err::<ContextView, ConfigErrorView>(error@),
            },
    {
        let github_workspace = match required("GITHUB_WORKSPACE", &settings.github_workspace) {
            Ok(text) => text,
            Err(error) => return Err(error),
        };
        let base_repo = match required("BASE_REPO", &settings.base_repo) {
            Ok(text) => text,
            Err(error) => return Err(error),
        };
        let (base_repo_owner, base_repo_name) = match parse_repo(base_repo.as_str()) {
            Ok(parts) => parts,
            Err(error) => return Err(error),
        };
        let head_repo = match required("HEAD_REPO", &settings.head_repo) {
            Ok(text) => text,
            Err(error) => return Err(error),
        };
        let (head_repo_owner, head_repo_name) = match parse_repo(head_repo.as_str()) {
            Ok(parts) => parts,
            Err(error) => return Err(error),
        };
        let token = match github_token(copied(&settings.github_token)) {
            Ok(text) => text,
            Err(error) => return Err(error),
        };
        let actor = match required("GITHUB_ACTOR", &settings.github_actor) {
            Ok(text) => text,
            Err(error) => return Err(error),
        };
        let pattern = match required("FILTER_TAGS", &settings.filter_tags) {
            Ok(text) => text,
            Err(error) => return Err(error),
        };
        let filter_tags = match TagFilter::new(pattern.as_str()) {
            Ok(filter) => filter,
            Err(invalid) => return Err(
                ConfigError::InvalidFilter { pattern: invalid.pattern, reason: invalid.reason },
            ),
        };
        let cloned_path = match required("CLONED_PATH", &settings.cloned_path) {
            Ok(text) => text,
            Err(error) => return Err(error),
        };
        let clone_path = join_path(github_workspace.as_str(), cloned_path.as_str());
        let workspace = match parent_path(clone_path.as_str()) {
            Some(parent) => parent,
            None => return Err(ConfigError::InvalidClonePath { path: clone_path }),
        };
        let patch_file_url = match &settings.patch_url {
            Some(text) => parse_url(text.as_str()),
            None => None,
        };
        let post_sync = match &settings.scripts_after_sync {
            Some(command) => if command.as_str().is_empty() {
                None
            } else {
                Some(command.clone())
            },
            None => None,
        };
        Ok(
            Context {
                base_repo_owner,
                base_repo_name,
                head_repo_owner,
                head_repo_name,
                clone_path,
                workspace,
                filter_tags,
                patch_file_url,
                token,
                actor,
                post_sync,
                patch_author: copied(&settings.patch_author),
                patch_author_email: copied(&settings.patch_author_email),
                patch_committer: copied(&settings.patch_committer),
                patch_committer_email: copied(&settings.patch_committer_email),
                patch_message: copied(&settings.patch_message),
            },
        )
    }

    /// The directory that holds the clone: the run keeps its files there.
    pub fn github_workspace(&self) -> (path: &str)
        ensures
            path@ == self@.workspace,
    {
        self.workspace.as_str()
    }

    /// Where the clone of the head repository lives.
    pub fn clone_path(&self) -> (path: &str)
        ensures
            path@ == self@.clone_path,
    {
        self.clone_path.as_str()
    }

    /// The access token of this run.
    pub fn token(&self) -> (token: &str)
        ensures
            token@ == self@.token,
    {
        self.token.as_str()
    }

    /// The filter that a tag's name must pass.
    pub fn filter_tags(&self) -> (filter: &TagFilter)
        ensures
            filter@ == self@.filter,
    {
        &self.filter_tags
    }

    /// Where the patch is fetched from, if a patch is configured.
    pub fn patch_file_url(&self) -> (url: Option<&str>)
        ensures
            match url {
                Some(text) => self@.patch_url == Some(text@),
                None => self@.patch_url is None,
            },
    {
        match &self.patch_file_url {
            Some(url) => Some(url.as_str()),
            None => None,
        }
    }

    /// Owner and name of the repository in the role `role`.
    pub fn repo(&self, role: RepoRole) -> (repo: (&str, &str))
        ensures
            (repo.0@, repo.1@) == match role {
                RepoRole::Head => self@.head_repo,
                RepoRole::Base => self@.base_repo,
            },
    {
        match role {
            RepoRole::Head => (self.head_repo_owner.as_str(), self.head_repo_name.as_str()),
            RepoRole::Base => (self.base_repo_owner.as_str(), self.base_repo_name.as_str()),
        }
    }

    /// The new tags: the names of those of `base_tags`, in their order,
    /// that pass the filter and have no `sync-` branch among
    /// `head_branches`.
    pub fn new_tags(&self, base_tags: &Vec<Tag>, head_branches: &Vec<Branch>) -> (new_tags: Vec<
        String,
    >)
        ensures
            texts(new_tags@) == new_tag_names(
                tag_names(base_tags@),
                branch_names(head_branches@),
                self@.filter,
            ),
    {
        compute_new_tags(base_tags, head_branches, &self.filter_tags)
    }

    /// What the commit of `diff` is to say. Fails on the first of the four
    /// identity values that is not set, and where no patch is configured.
    pub fn commit_info(&self, diff: Vec<u8>) -> (info: Result<PatchSpec, ConfigError>)
        ensures
            match info {
                Ok(patch) => patch_of(self@, diff@) == Ok::<PatchSpecView, ConfigErrorView>(
                    patch@,
                ),
                Err(error) => patch_of(self@, diff@) == Err::<PatchSpecView, ConfigErrorView>(
                    error@,
                ),
            },
    {
        let author = match required("PATCH_AUTHOR", &self.patch_author) {
            Ok(text) => text,
            Err(error) => return Err(error),
        };
        let author_email = match required("PATCH_AUTHOR_EMAIL", &self.patch_author_email) {
            Ok(text) => text,
            Err(error) => return Err(error),
        };
        let committer = match required("PATCH_COMMITTER", &self.patch_committer) {
            Ok(text) => text,
            Err(error) => return Err(error),
        };
        let committer_email = match required("PATCH_COMMITTER_EMAIL", &self.patch_committer_email) {
            Ok(text) => text,
            Err(error) => return Err(error),
        };
        let patch_url = match required("PATCH_URL", &self.patch_file_url) {
            Ok(text) => text,
            Err(error) => return Err(error),
        };
        let configured = match &self.patch_message {
            Some(message) => !message.as_str().is_empty(),
            None => false,
        };
        let message = if configured {
            self.patch_message.as_ref().unwrap().clone()
        } else {
            String::from_str("Apply patch from ").concat(patch_url.as_str())
        };
        Ok(
            PatchSpec {
                author: Identity { name: author, email: author_email },
                committer: Identity { name: committer, email: committer_email },
                message,
                diff,
            },
        )
    }

    /// Sets up the synchronisation of `new_tags`, in their order. With a
    /// `diff`, every branch gets the commit that [`Context::commit_info`]
    /// describes, and the set-up fails where that fails; without one, no
    /// branch is patched.
    pub fn sync_tags(&self, new_tags: Vec<String>, diff: Option<Vec<u8>>) -> (run: Result<
        SyncWorkflow,
        ConfigError,
    >)
        ensures
            match run {
                Ok(workflow) => {
                    &&& workflow.position() == first_position(workflow.plan())
                    &&& workflow.plan().tags == texts(new_tags@)
                    &&& workflow.plan().hook == self@.hook
                    &&& match diff {
                        Some(bytes) => patch_of(self@, bytes@) == Ok::<
                            PatchSpecView,
                            ConfigErrorView,
                        >(workflow.plan().patch->0) && workflow.plan().patch is Some,
                        None => workflow.plan().patch is None,
                    }
                },
                Err(error) => diff is Some && patch_of(self@, diff->0@) == Err::<
                    PatchSpecView,
                    ConfigErrorView,
                >(error@),
            },
    {
        let patch = match diff {
            Some(bytes) => match self.commit_info(bytes) {
                Ok(patch) => Some(patch),
                Err(error) => return Err(error),
            },
            None => None,
        };
        Ok(SyncWorkflow::new(new_tags, patch, copied(&self.post_sync)))
    }

    /// Sets up the acquisition of the clone, with the credential of this
    /// run.
    pub fn clone_repo(&self) -> (cache: RepositoryCache)
        ensures
            cache.access() == (Access {
                path: self@.clone_path,
                actor: self@.actor,
                token: self@.token,
            }),
            cache.step() == Step::CheckingPath,
    {
        RepositoryCache::new(self.clone_path.clone(), self.actor.clone(), self.token.clone())
    }
}

} // verus!
