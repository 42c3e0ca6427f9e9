//! The client's settings: which project and region the dashboard shows, and
//! the version of the provider's command-line tool.

use vstd::prelude::*;
pub use crate::auth::get_gcloud_version;
pub use crate::instance::Instance;
use vstd::string::StringExecFns;
use crate::config::Config;
use crate::error::{detail_of, GciError};
use crate::text::text_view;

verus! {

/// The region that is shown where none is configured.
pub open spec fn default_region() -> Seq<char> {
    "us-central1"@
}

/// The settings of the provider's client.
pub struct CloudClient {
    project_id: String,
    region: String,
    json_output: bool,
    cli_version: Option<String>,
}

/// The model of the client's settings.
pub struct ClientView {
    pub project_id: Seq<char>,
    pub region: Seq<char>,
    /// Whether the provider's tool is asked for JSON.
    pub json_output: bool,
    /// The version of the provider's tool, where it could be read.
    pub cli_version: Option<Seq<char>>,
}

impl View for CloudClient {
    type V = ClientView;

    closed spec fn view(&self) -> ClientView {
        ClientView {
            project_id: self.project_id@,
            region: self.region@,
            json_output: self.json_output,
            cli_version: text_view(self.cli_version),
        }
    }
}

impl CloudClient {
    /// Settles the client's settings. The project is the configured one, or
    /// else `detected`, the provider's default where the lookup found one;
    /// with neither there is no client. The region is the configured one or
    /// the default region. `cli_version` is the version of the provider's
    /// tool, where it could be read.
    pub fn new(config: &Config, detected: Option<String>, cli_version: Option<String>) -> (r:
        Result<Self, GciError>)
        ensures
            r is Ok == (config.project is Some || detected is Some),
            r is Err ==> r->Err_0 is Config && detail_of(r->Err_0)
                == "no project given and no default project found"@,
            r is Ok ==> r->Ok_0@ == (ClientView {
                project_id: if config.project is Some {
                    config.project->0@
                } else {
                    detected->0@
                },
                region: if config.region is Some {
                    config.region->0@
                } else {
                    default_region()
                },
                json_output: true,
                cli_version: text_view(cli_version),
            }),
    {
        let project_id = match &config.project {
            Some(project) => project.clone(),
            None => match detected {
                Some(project) => project,
                None => {
                    return Err(
                        GciError::Config(String::from_str("no project given and no default project found")),
                    );
                },
            },
        };
        let region = match &config.region {
            Some(region) => region.clone(),
            None => String::from_str("us-central1"),
        };
        Ok(CloudClient { project_id, region, json_output: true, cli_version })
    }

    /// The region that the client shows.
    pub fn get_region(&self) -> (r: &str)
        ensures
            r@ == self@.region,
    {
        self.region.as_str()
    }

    /// The project that the client lists.
    pub fn get_project_id(&self) -> (r: &str)
        ensures
            r@ == self@.project_id,
    {
        self.project_id.as_str()
    }

    /// Whether the provider's tool is asked for JSON.
    pub fn json_output(&self) -> (r: bool)
        ensures
            r == self@.json_output,
    {
        self.json_output
    }

    /// The version of the provider's tool, or an error where it could not be
    /// read.
    pub fn get_cli_version(&self) -> (r: Result<String, GciError>)
        ensures
            r is Ok == (self@.cli_version is Some),
            r is Ok ==> Some(r->Ok_0@) == self@.cli_version,
            r is Err ==> r->Err_0 is ProviderUnavailable && detail_of(r->Err_0)
                == "the tool's version is not known"@,
    {
        match &self.cli_version {
            Some(version) => Ok(version.clone()),
            None => Err(
                GciError::ProviderUnavailable(String::from_str("the tool's version is not known")),
            ),
        }
    }
}

} // verus!
