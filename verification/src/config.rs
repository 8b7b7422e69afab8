//! The configuration of one run, and the rules that settings read from a
//! file must meet before the loop may start.

use vstd::prelude::*;

verus! {

/// The branch that is watched when the settings name none.
pub const DEFAULT_BRANCH: &'static str = "main";

/// The identity of the remote branch and the optional credential.
#[derive(Clone, Debug)]
pub struct GitHubConfig {
    pub owner: String,
    pub repo: String,
    pub target_branch: String,
    pub access_token: Option<String>,
}

/// The local clone and how often it is checked.
#[derive(Clone, Debug)]
pub struct LocalRepoConfig {
    pub path: String,
    pub check_interval_seconds: u64,
}

/// The configuration of one run. It does not change while the loop runs.
#[derive(Clone, Debug)]
pub struct Config {
    pub github: GitHubConfig,
    pub local_repo: LocalRepoConfig,
}

/// The recognised options as they were read, each present or absent.
#[derive(Clone, Debug)]
pub struct Settings {
    pub owner: Option<String>,
    pub repo: Option<String>,
    pub target_branch: Option<String>,
    pub access_token: Option<String>,
    pub path: Option<String>,
    pub check_interval_seconds: Option<i64>,
}

/// Why a set of options cannot configure a run.
#[derive(Clone, Copy, Debug, PartialEq, Eq, Structural)]
pub enum ConfigError {
    /// `github.owner` is absent.
    MissingOwner,
    /// `github.repo` is absent.
    MissingRepo,
    /// `local_repo.path` is absent.
    MissingPath,
    /// `local_repo.check_interval_seconds` is absent.
    MissingInterval,
    /// `local_repo.check_interval_seconds` is zero or negative.
    NonPositiveInterval,
}

/// A configuration as plain values.
pub struct ConfigView {
    pub owner: Seq<char>,
    pub repo: Seq<char>,
    pub target_branch: Seq<char>,
    pub access_token: Option<Seq<char>>,
    pub path: Seq<char>,
    pub check_interval_seconds: u64,
}

/// The text of an optional string.
pub open spec fn text_of(s: Option<String>) -> Option<Seq<char>> {
    match s {
        Some(t) => Some(t@),
        None => None,
    }
}

impl View for Config {
    type V = ConfigView;

    open spec fn view(&self) -> ConfigView {
        ConfigView {
            owner: self.github.owner@,
            repo: self.github.repo@,
            target_branch: self.github.target_branch@,
            access_token: text_of(self.github.access_token),
            path: self.local_repo.path@,
            check_interval_seconds: self.local_repo.check_interval_seconds,
        }
    }
}

impl Settings {
    /// What the options amount to: the first missing mandatory option in the
    /// order owner, repository, path, interval; else a non-positive interval;
    /// else the configuration, with the default branch where none is named.
    pub open spec fn outcome(self) -> Result<ConfigView, ConfigError> {
        if self.owner is None {
            Err(ConfigError::MissingOwner)
        } else if self.repo is None {
            Err(ConfigError::MissingRepo)
        } else if self.path is None {
            Err(ConfigError::MissingPath)
        } else if self.check_interval_seconds is None {
            Err(ConfigError::MissingInterval)
        } else if self.check_interval_seconds->0 <= 0 {
            Err(ConfigError::NonPositiveInterval)
        } else {
            Ok(
                ConfigView {
                    owner: self.owner->0@,
                    repo: self.repo->0@,
                    target_branch: match self.target_branch {
                        Some(b) => b@,
                        None => DEFAULT_BRANCH@,
                    },
                    access_token: text_of(self.access_token),
                    path: self.path->0@,
                    check_interval_seconds: self.check_interval_seconds->0 as u64,
                },
            )
        }
    }
}

impl Config {
    /// A configuration is usable when its poll interval is positive.
    pub open spec fn valid(&self) -> bool {
        self.local_repo.check_interval_seconds > 0
    }

    /// Checks the options and builds the configuration from them.
    pub fn from_settings(settings: Settings) -> (r: Result<Config, ConfigError>)
        ensures
            match r {
                Ok(config) => settings.outcome() == Ok::<ConfigView, ConfigError>(config@)
                    && config.valid(),
                Err(e) => settings.outcome() == Err::<ConfigView, ConfigError>(e),
            },
    {
        let Settings { owner, repo, target_branch, access_token, path, check_interval_seconds } =
            settings;
        let owner = match owner {
            Some(o) => o,
            None => { return Err(ConfigError::MissingOwner); },
        };
        let repo = match repo {
            Some(r) => r,
            None => { return Err(ConfigError::MissingRepo); },
        };
        let path = match path {
            Some(p) => p,
            None => { return Err(ConfigError::MissingPath); },
        };
        let interval: i64 = match check_interval_seconds {
            Some(i) => i,
            None => { return Err(ConfigError::MissingInterval); },
        };
        if interval <= 0 {
            return Err(ConfigError::NonPositiveInterval);
        }
        let target_branch = match target_branch {
            Some(b) => b,
            None => DEFAULT_BRANCH.to_owned(),
        };
        Ok(
            Config {
                github: GitHubConfig { owner, repo, target_branch, access_token },
                local_repo: LocalRepoConfig { path, check_interval_seconds: interval as u64 },
            },
        )
    }
}

} // verus!
