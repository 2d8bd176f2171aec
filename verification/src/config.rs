//! The configuration a run is driven by, as plain values.

use vstd::prelude::*;
use vstd::string::StringExecFns;
use crate::error::SetupError;
use crate::text::same_text;

verus! {

/// The whole configuration document.
#[derive(Debug, Clone)]
pub struct Config {
    pub system: SystemConfig,
    pub homebrew: HomebrewConfig,
    pub user: UserConfig,
}

/// A loaded configuration together with where it was loaded from.
#[derive(Debug, Clone)]
pub struct ConfigBundle {
    pub config: Config,
    /// The path of the configuration file.
    pub path: String,
    /// The directory that holds the configuration file; relative paths in
    /// the configuration are resolved against it.
    pub root: String,
}

/// System identity and preferences.
#[derive(Debug, Clone)]
pub struct SystemConfig {
    pub home_directory: String,
    pub primary_user: String,
    pub timezone: Option<String>,
    pub touch_id_sudo: bool,
    pub trackpad: TrackpadConfig,
}

/// Trackpad preferences; an absent value leaves the preference alone.
#[derive(Debug, Clone, Copy)]
pub struct TrackpadConfig {
    pub clicking: Option<bool>,
    pub three_finger_drag: Option<bool>,
}

/// The package-manager block.
#[derive(Debug, Clone)]
pub struct HomebrewConfig {
    pub enable: bool,
    pub brews: Vec<String>,
    pub casks: Vec<String>,
}

/// Per-user settings.
#[derive(Debug, Clone)]
pub struct UserConfig {
    pub ssh: Option<SshConfig>,
    /// The dotfile mappings, each under its name. No name occurs twice in a
    /// well-formed configuration.
    pub dotfiles: Vec<(String, DotfileEntry)>,
    pub git: Option<GitConfig>,
}

/// The raw text of the SSH client configuration.
#[derive(Debug, Clone)]
pub struct SshConfig {
    pub config: String,
}

/// One dotfile mapping: where it comes from and where it goes.
#[derive(Debug, Clone)]
pub struct DotfileEntry {
    pub source: String,
    pub target: String,
}

/// Global git preferences.
#[derive(Debug, Clone)]
pub struct GitConfig {
    pub enable: bool,
    pub user_email: Option<String>,
    pub user_name: Option<String>,
    pub credential_helper: Option<String>,
    pub ignores: Vec<String>,
    pub init: Option<GitInit>,
    pub merge: Option<GitMerge>,
    pub pull: Option<GitPull>,
    pub push: Option<GitPush>,
}

#[derive(Debug, Clone)]
pub struct GitInit {
    pub default_branch: Option<String>,
}

#[derive(Debug, Clone)]
pub struct GitMerge {
    pub conflictstyle: Option<String>,
}

#[derive(Debug, Clone, Copy)]
pub struct GitPull {
    pub rebase: Option<bool>,
}

#[derive(Debug, Clone, Copy)]
pub struct GitPush {
    pub auto_setup_remote: Option<bool>,
}

impl Default for TrackpadConfig {
    fn default() -> (out: TrackpadConfig)
        ensures
            out.clicking is None,
            out.three_finger_drag is None,
    {
        TrackpadConfig { clicking: None, three_finger_drag: None }
    }
}

impl Default for HomebrewConfig {
    fn default() -> (out: HomebrewConfig)
        ensures
            !out.enable,
            out.brews@.len() == 0,
            out.casks@.len() == 0,
    {
        HomebrewConfig { enable: false, brews: Vec::new(), casks: Vec::new() }
    }
}

impl UserConfig {
    /// Whether no dotfile name occurs twice, as it is where the mappings
    /// come from a table keyed by name.
    pub open spec fn names_distinct(self) -> bool {
        forall|i: int, j: int|
            0 <= i < j < self.dotfiles@.len() ==> self.dotfiles@[i].0@ != self.dotfiles@[j].0@
    }

    /// Whether no dotfile name occurs twice.
    pub fn has_distinct_names(&self) -> (distinct: bool)
        ensures
            distinct == self.names_distinct(),
    {
        let mut j: usize = 0;
        while j < self.dotfiles.len()
            invariant
                j <= self.dotfiles.len(),
                forall|a: int, b: int|
                    0 <= a < b < j ==> self.dotfiles@[a].0@ != self.dotfiles@[b].0@,
            decreases self.dotfiles.len() - j,
        {
            let mut i: usize = 0;
            while i < j
                invariant
                    i <= j < self.dotfiles.len(),
                    forall|a: int| 0 <= a < i ==> self.dotfiles@[a].0@ != self.dotfiles@[j as int].0@,
                decreases j - i,
            {
                if same_text(self.dotfiles[i].0.as_str(), self.dotfiles[j].0.as_str()) {
                    return false;
                }
                i += 1;
            }
            j += 1;
        }
        true
    }
}

/// What came of reading and parsing the configuration file.
#[derive(Debug)]
pub enum ConfigSource {
    /// The file could not be read; this is the system's message.
    Unreadable(String),
    /// The file does not hold a valid configuration; this is the parser's
    /// message.
    Invalid(String),
    /// The configuration that the file holds.
    Parsed(Config),
}

/// The root for a configuration file whose directory part is `parent`:
/// that directory, or the current directory, `.`, where the path has no
/// directory part.
pub open spec fn root_of(parent: Option<&str>) -> Seq<char> {
    match parent {
        Some(dir) => dir@,
        None => "."@,
    }
}

/// Puts a loaded configuration together with its location. `parent` is the
/// directory part of `path`, if it has one. A file that could not be read
/// or parsed is a configuration error that names the file and the cause.
pub fn load_config(path: &str, parent: Option<&str>, source: ConfigSource) -> (res: Result<
    ConfigBundle,
    SetupError,
>)
    ensures
        res is Ok <==> source is Parsed,
        res is Ok ==> {
            &&& res->Ok_0.config == source->Parsed_0
            &&& res->Ok_0.path@ == path@
            &&& res->Ok_0.root@ == root_of(parent)
        },
        res is Err ==> res->Err_0 is Config,
        source is Unreadable ==> res->Err_0->detail@ == "Failed to read "@ + path@ + ": "@
            + source->Unreadable_0@,
        source is Invalid ==> res->Err_0->detail@ == "Invalid TOML in "@ + path@ + ": "@
            + source->Invalid_0@,
{
    match source {
        ConfigSource::Parsed(config) => {
            let root = match parent {
                Some(dir) => String::from_str(dir),
                None => String::from_str("."),
            };
            Ok(ConfigBundle { config, path: String::from_str(path), root })
        },
        ConfigSource::Unreadable(cause) => {
            let mut detail = String::from_str("Failed to read ");
            detail.append(path);
            detail.append(": ");
            detail.append(cause.as_str());
            Err(SetupError::Config { detail })
        },
        ConfigSource::Invalid(cause) => {
            let mut detail = String::from_str("Invalid TOML in ");
            detail.append(path);
            detail.append(": ");
            detail.append(cause.as_str());
            Err(SetupError::Config { detail })
        },
    }
}

} // verus!
