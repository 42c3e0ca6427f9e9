//! The configuration of the dashboard.

use vstd::prelude::*;
use vstd::string::StringExecFns;
use crate::error::GciError;

verus! {

/// The refresh interval, in seconds, where none is configured.
pub const DEFAULT_REFRESH_INTERVAL: u64 = 5;

/// What the dashboard is configured with.
#[derive(Debug, Clone)]
pub struct Config {
    /// Project to list; where absent, the provider's default is looked up.
    pub project: Option<String>,
    /// Region to show; where absent, a fixed one is used.
    pub region: Option<String>,
    /// Seconds between two refreshes, a positive number.
    pub refresh_interval: u64,
    /// Name of the colour theme.
    pub theme: String,
    /// Whether instances are reached over SSH.
    pub use_ssh: bool,
    /// Where the credentials file lies, if one is named.
    pub credentials_path: Option<String>,
}

/// Whether a configuration holds the default values.
pub open spec fn is_default(c: Config) -> bool {
    &&& c.project is None
    &&& c.region is None
    &&& c.refresh_interval == DEFAULT_REFRESH_INTERVAL
    &&& c.theme@ == "default"@
    &&& c.use_ssh
    &&& c.credentials_path is None
}

/// A configuration as it is taken over from a file: an interval of zero is
/// rejected and the default interval stands in its place.
pub open spec fn accepted(c: Config) -> Config {
    if c.refresh_interval == 0 {
        Config { refresh_interval: DEFAULT_REFRESH_INTERVAL, ..c }
    } else {
        c
    }
}

impl Default for Config {
    fn default() -> (r: Self)
        ensures
            is_default(r),
            r.valid(),
    {
        Config {
            project: None,
            region: None,
            refresh_interval: DEFAULT_REFRESH_INTERVAL,
            theme: String::from_str("default"),
            use_ssh: true,
            credentials_path: None,
        }
    }
}

impl Config {
    /// The configuration can be used: its refresh interval is positive.
    pub open spec fn valid(&self) -> bool {
        self.refresh_interval > 0
    }

    /// Chooses the configuration among what was read. `specified` is the
    /// outcome of reading the file that the user named, if one was named;
    /// `found` is the outcome of reading the file at the default location,
    /// if there is one. The named file wins, then the default file, then the
    /// default values. A failure to read is handed on as it is.
    pub fn load(
        specified: Option<Result<Config, GciError>>,
        found: Option<Result<Config, GciError>>,
    ) -> (r: Result<Config, GciError>)
        ensures
            specified matches Some(Ok(c)) ==> r == Ok::<Config, GciError>(accepted(c)),
            specified matches Some(Err(e)) ==> r == Err::<Config, GciError>(e),
            specified is None ==> (found matches Some(Ok(c)) ==> r == Ok::<Config, GciError>(
                accepted(c),
            )),
            specified is None ==> (found matches Some(Err(e)) ==> r == Err::<Config, GciError>(e)),
            specified is None && found is None ==> r is Ok && is_default(r->Ok_0),
            r is Ok ==> r->Ok_0.valid(),
    {
        let chosen = match specified {
            Some(outcome) => Some(outcome),
            None => found,
        };
        match chosen {
            Some(Ok(c)) => Ok(c.with_refresh_interval_or_default()),
            Some(Err(e)) => Err(e),
            None => Ok(Config::default()),
        }
    }

    fn with_refresh_interval_or_default(self) -> (r: Self)
        ensures
            r == accepted(self),
    {
        if self.refresh_interval == 0 {
            Config { refresh_interval: DEFAULT_REFRESH_INTERVAL, ..self }
        } else {
            self
        }
    }

    /// Takes over a project, if one is given.
    pub fn with_project(self, project: Option<String>) -> (r: Self)
        ensures
            r == (Config {
                project: if project is Some {
                    project
                } else {
                    self.project
                },
                ..self
            }),
            self.valid() ==> r.valid(),
    {
        match project {
            Some(p) => Config { project: Some(p), ..self },
            None => self,
        }
    }

    /// Takes over a region, if one is given.
    pub fn with_region(self, region: Option<String>) -> (r: Self)
        ensures
            r == (Config {
                region: if region is Some {
                    region
                } else {
                    self.region
                },
                ..self
            }),
            self.valid() ==> r.valid(),
    {
        match region {
            Some(g) => Config { region: Some(g), ..self },
            None => self,
        }
    }

    /// Takes over a refresh interval. Zero is rejected: the interval that
    /// the configuration holds stays.
    pub fn with_refresh_interval(self, interval: u64) -> (r: Self)
        ensures
            r == (Config {
                refresh_interval: if interval > 0 {
                    interval
                } else {
                    self.refresh_interval
                },
                ..self
            }),
            self.valid() || interval > 0 ==> r.valid(),
    {
        if interval > 0 {
            Config { refresh_interval: interval, ..self }
        } else {
            self
        }
    }
}

} // verus!
