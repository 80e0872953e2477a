//! The two stages of a run, as the host pipeline asks for them.

use crate::config::{ConfigError, ConfigErrorView};
use vstd::prelude::*;
use vstd::string::StringExecFns;

verus! {

/// The stage that a run carries out.
#[derive(Clone, Copy, Debug, PartialEq, Eq, Structural)]
pub enum Stage {
    /// Find the tags of the base repository that the head repository does
    /// not mirror yet.
    Detect,
    /// Mirror the tags that detection found, as branches of the head
    /// repository.
    Sync,
}

/// The stage that `value` names, if it names one. The names are
/// `Detect` and `Sync`, written exactly so.
pub open spec fn stage_named(value: Seq<char>) -> Option<Stage> {
    if value == "Detect"@ {
        Some(Stage::Detect)
    } else if value == "Sync"@ {
        Some(Stage::Sync)
    } else {
        None
    }
}

impl Stage {
    /// Reads the stage from its name. Any other text is turned down.
    pub fn from_str(value: &str) -> (stage: Result<Stage, ConfigError>)
        ensures
            match stage {
                Ok(stage) => stage_named(value@) == Some(stage),
                Err(error) => stage_named(value@) is None && error@ == (
                ConfigErrorView::InvalidStage { value: value@ }),
            },
    {
        let text = value.to_owned();
        if text == String::from_str("Detect") {
            Ok(Stage::Detect)
        } else if text == String::from_str("Sync") {
            Ok(Stage::Sync)
        } else {
            Err(ConfigError::InvalidStage { value: text })
        }
    }

    /// The name of the stage.
    pub fn name(&self) -> (name: &'static str)
        ensures
            stage_named(name@) == Some(*self),
    {
        proof {
            reveal_strlit("Detect");
            reveal_strlit("Sync");
            assert("Detect"@.len() != "Sync"@.len());
        }
        match self {
            Stage::Detect => "Detect",
            Stage::Sync => "Sync",
        }
    }
}

} // verus!
