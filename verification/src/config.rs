//! The configuration of a run, as it is found and as it is checked.
//!
//! Every value is looked up once, by whoever starts the run, and handed
//! over in a [`Settings`]: a value that was not set is `None`. Nothing
//! here reads the environment.

use crate::error::ErrorKind;
use crate::text::{chars_of, find_from, index_from};
use reqwest::Url;
use std::path::Path;
use vstd::prelude::*;
use vstd::string::{StrSliceExecFns, StringExecFns};

verus! {

/// Why a configuration was turned down.
#[derive(Debug)]
pub enum ConfigError {
    /// A value that the run cannot do without was not set.
    MissingVariable { name: String },
    /// A repository was not given as `owner/repo`.
    InvalidRepository { value: String },
    /// The tag filter is no regular expression; `reason` is what the
    /// compiler said of it.
    InvalidFilter { pattern: String, reason: String },
    /// The clone path has no parent directory to keep the run's files in.
    InvalidClonePath { path: String },
    /// The stage asked for is none that exists.
    InvalidStage { value: String },
}

/// What a [`ConfigError`] stands for. The reason that came with a filter
/// is free text and is left out.
pub enum ConfigErrorView {
    MissingVariable { name: Seq<char> },
    InvalidRepository { value: Seq<char> },
    InvalidFilter { pattern: Seq<char> },
    InvalidClonePath { path: Seq<char> },
    InvalidStage { value: Seq<char> },
}

impl View for ConfigError {
    type V = ConfigErrorView;

    open spec fn view(&self) -> ConfigErrorView {
        match self {
            ConfigError::MissingVariable { name } => ConfigErrorView::MissingVariable {
                name: name@,
            },
            ConfigError::InvalidRepository { value } => ConfigErrorView::InvalidRepository {
                value: value@,
            },
            ConfigError::InvalidFilter { pattern, reason } => ConfigErrorView::InvalidFilter {
                pattern: pattern@,
            },
            ConfigError::InvalidClonePath { path } => ConfigErrorView::InvalidClonePath {
                path: path@,
            },
            ConfigError::InvalidStage { value } => ConfigErrorView::InvalidStage { value: value@ },
        }
    }
}

impl ConfigError {
    /// The kind of this failure: a fault of the configuration, always.
    pub fn kind(&self) -> (kind: ErrorKind)
        ensures
            kind == ErrorKind::Configuration,
    {
        ErrorKind::Configuration
    }

    /// Describes the error. The text for a filter ends in the reason that
    /// came with it.
    pub fn message(&self) -> (text: String)
        ensures
            match self {
                ConfigError::MissingVariable { name } => text@ == "Environment variable "@ + name@
                    + " is not set."@,
                ConfigError::InvalidRepository { value } => text@ == "'"@ + value@
                    + "' must be in format 'owner/repo'."@,
                ConfigError::InvalidFilter { pattern, reason } => text@ == "Invalid tag filter '"@
                    + pattern@ + "': "@ + reason@,
                ConfigError::InvalidClonePath { path } => text@ == "Clone path '"@ + path@
                    + "' has no parent directory."@,
                ConfigError::InvalidStage { value } => text@ == "Invalid stage: "@ + value@,
            },
    {
        match self {
            ConfigError::MissingVariable { name } => {
                let mut text = String::from_str("Environment variable ");
                text.append(name.as_str());
                text.append(" is not set.");
                text
            },
            ConfigError::InvalidRepository { value } => {
                let mut text = String::from_str("'");
                text.append(value.as_str());
                text.append("' must be in format 'owner/repo'.");
                text
            },
            ConfigError::InvalidFilter { pattern, reason } => {
                let mut text = String::from_str("Invalid tag filter '");
                text.append(pattern.as_str());
                text.append("': ");
                text.append(reason.as_str());
                text
            },
            ConfigError::InvalidClonePath { path } => {
                let mut text = String::from_str("Clone path '");
                text.append(path.as_str());
                text.append("' has no parent directory.");
                text
            },
            ConfigError::InvalidStage { value } => {
                let mut text = String::from_str("Invalid stage: ");
                text.append(value.as_str());
                text
            },
        }
    }
}

/// The text that `value` holds, if it holds one.
pub open spec fn text_of(value: Option<String>) -> Option<Seq<char>> {
    match value {
        Some(text) => Some(text@),
        None => None,
    }
}

/// Insists on a value: gives the value that was set under `name`, or says
/// that `name` is not set.
pub fn required(name: &str, value: &Option<String>) -> (found: Result<String, ConfigError>)
    ensures
        match found {
            Ok(text) => text_of(*value) == Some(text@),
            Err(error) => *value is None && error@ == (ConfigErrorView::MissingVariable {
                name: name@,
            }),
        },
{
    match value {
        Some(text) => Ok(text.clone()),
        None => Err(ConfigError::MissingVariable { name: name.to_owned() }),
    }
}

/// The access token, given what was found under `GITHUB_TOKEN`.
pub fn github_token(value: Option<String>) -> (token: Result<String, ConfigError>)
    ensures
        match token {
            Ok(text) => text_of(value) == Some(text@),
            Err(error) => value is None && error@ == (ConfigErrorView::MissingVariable {
                name: "GITHUB_TOKEN"@,
            }),
        },
{
    required("GITHUB_TOKEN", &value)
}

/// The owner and the name in `value`, if `value` is `owner/repo`: a text
/// with exactly one `/`. Either part may be empty.
pub open spec fn repo_parts(value: Seq<char>) -> Option<(Seq<char>, Seq<char>)> {
    let slash = index_from(value, 0, '/');
    if slash < value.len() && index_from(value, slash + 1, '/') == value.len() {
        Some((value.take(slash), value.skip(slash + 1)))
    } else {
        None
    }
}

/// Takes a repository given as `owner/repo` apart.
pub fn parse_repo(value: &str) -> (parsed: Result<(String, String), ConfigError>)
    ensures
        match parsed {
            Ok((owner, name)) => repo_parts(value@) == Some((owner@, name@)),
            Err(error) => repo_parts(value@) is None && error@ == (
            ConfigErrorView::InvalidRepository { value: value@ }),
        },
{
    let chars = chars_of(value);
    let slash = find_from(&chars, 0, '/');
    if slash < chars.len() && find_from(&chars, slash + 1, '/') == chars.len() {
        let owner = value.substring_char(0, slash).to_owned();
        let name = value.substring_char(slash + 1, chars.len()).to_owned();
        proof {
            assert(value@.subrange(0, slash as int) =~= value@.take(slash as int));
            assert(value@.subrange(slash + 1, chars.len() as int) =~= value@.skip(slash + 1));
        }
        Ok((owner, name))
    } else {
        Err(ConfigError::InvalidRepository { value: value.to_owned() })
    }
}

/// The serialisation of the URL that `url::Url::parse` reads from `text`,
/// if it reads one.
pub uninterp spec fn url_parse(text: Seq<char>) -> Option<Seq<char>>;

/// What `std::path::Path::join` makes of `base` and `rest`.
pub uninterp spec fn path_join(base: Seq<char>, rest: Seq<char>) -> Seq<char>;

/// What `std::path::Path::parent` gives for `path`.
pub uninterp spec fn path_parent(path: Seq<char>) -> Option<Seq<char>>;

/// Calls `url::Url::parse`, which `reqwest` hands on as `reqwest::Url`,
/// and turns the URL into its serialisation. The contract gives the
/// outcome a name; a text that is no absolute URL gives nothing.
#[verifier::external_body]
pub(crate) fn parse_url(text: &str) -> (url: Option<String>)
    ensures
        text_of(url) == url_parse(text@),
{
    Url::parse(text).ok().map(String::from)
}

/// Calls `std::path::Path::join`. The contract gives the result a name.
#[verifier::external_body]
pub(crate) fn join_path(base: &str, rest: &str) -> (path: String)
    ensures
        path@ == path_join(base@, rest@),
{
    Path::new(base).join(rest).to_string_lossy().into_owned()
}

/// Calls `std::path::Path::parent`. The contract gives the result a name.
#[verifier::external_body]
pub(crate) fn parent_path(path: &str) -> (parent: Option<String>)
    ensures
        text_of(parent) == path_parent(path@),
{
    Path::new(path).parent().map(|parent| parent.to_string_lossy().into_owned())
}

} // verus!
