//! The checks at startup, read from what the provider's tool gave back:
//! the default project, the tool and its login, the compute API.

use vstd::prelude::*;
use vstd::string::StringExecFns;
use crate::error::{detail_of, GciError};
use crate::provider::{texts, CommandOutput};
use crate::text::{contains, is_substring, same_text, trimmed};

verus! {

/// The default project that the tool printed: its output without the
/// white space around it.
pub open spec fn printed_project(output: CommandOutput) -> Seq<char> {
    trimmed(output.stdout@)
}

/// Whether the tool's list of accounts marks one as active.
pub open spec fn has_active_account(output: CommandOutput) -> bool {
    is_substring("*"@, output.stdout@)
}

/// Whether the tool reports the compute API as enabled.
pub open spec fn api_enabled(output: CommandOutput) -> bool {
    trimmed(output.stdout@) == "ENABLED"@
}

/// Reads the default project from the tool's answer. The run must have
/// succeeded and must have printed a project.
pub fn get_default_project(output: &CommandOutput) -> (r: Result<String, GciError>)
    ensures
        r is Ok == (output.success && printed_project(*output).len() > 0),
        r is Ok ==> r->Ok_0@ == printed_project(*output),
        !output.success ==> r is Err && r->Err_0 is ProviderUnavailable && detail_of(r->Err_0)
            == "Failed to get default project: "@ + output.stderr@,
        output.success && r is Err ==> r->Err_0 is Config && detail_of(r->Err_0)
            == "No default project found. Please set a default project with 'gcloud config set project PROJECT_ID' or specify a project with --project"@,
{
    if !output.success {
        return Err(
            GciError::ProviderUnavailable(
                String::from_str("Failed to get default project: ").concat(output.stderr.as_str()),
            ),
        );
    }
    project_from_printed(output.stdout.as_str().trim())
}

/// Reads the default project from what the tool printed, white space
/// taken off: the project is that text, and an empty text is no project.
pub fn project_from_printed(printed: &str) -> (r: Result<String, GciError>)
    ensures
        r is Ok == (printed@.len() > 0),
        r is Ok ==> r->Ok_0@ == printed@,
        r is Err ==> r->Err_0 is Config && detail_of(r->Err_0)
            == "No default project found. Please set a default project with 'gcloud config set project PROJECT_ID' or specify a project with --project"@,
{
    if printed.is_empty() {
        return Err(
            GciError::Config(
                String::from_str(
                    "No default project found. Please set a default project with 'gcloud config set project PROJECT_ID' or specify a project with --project",
                ),
            ),
        );
    }
    Ok(String::from_str(printed))
}

/// Reads whether the tool is installed and logged in, from its answer to
/// the version request and its list of accounts. Both runs must have
/// succeeded, and the list must mark an account as active.
pub fn check_gcloud(version: &CommandOutput, accounts: &CommandOutput) -> (r: Result<(), GciError>)
    ensures
        r is Ok == (version.success && accounts.success && has_active_account(*accounts)),
        r is Err ==> r->Err_0 is ProviderUnavailable,
        !version.success ==> r is Err && detail_of(r->Err_0) == "gcloud CLI check failed: "@
            + version.stderr@,
        version.success && !accounts.success ==> r is Err && detail_of(r->Err_0)
            == "Authentication check failed: "@ + accounts.stderr@,
        version.success && accounts.success && !has_active_account(*accounts) ==> r is Err
            && detail_of(r->Err_0) == "No active gcloud account found"@,
{
    if !version.success {
        return Err(
            GciError::ProviderUnavailable(
                String::from_str("gcloud CLI check failed: ").concat(version.stderr.as_str()),
            ),
        );
    }
    if !accounts.success {
        return Err(
            GciError::ProviderUnavailable(
                String::from_str("Authentication check failed: ").concat(accounts.stderr.as_str()),
            ),
        );
    }
    if !contains(accounts.stdout.as_str(), "*") {
        return Err(
            GciError::ProviderUnavailable(String::from_str("No active gcloud account found")),
        );
    }
    Ok(())
}

/// Reads whether the compute API is enabled for the project, from the
/// tool's answer. The run must have succeeded and printed `ENABLED`.
pub fn check_compute_api(output: &CommandOutput, project_id: &str) -> (r: Result<(), GciError>)
    ensures
        r is Ok == (output.success && api_enabled(*output)),
        r is Err ==> r->Err_0 is ProviderUnavailable,
        !output.success ==> r is Err && detail_of(r->Err_0)
            == "Failed to check compute API status: "@ + output.stderr@,
        output.success && !api_enabled(*output) ==> r is Err && detail_of(r->Err_0)
            == "Compute Engine API is not enabled for project "@ + project_id@
            + ". Please enable it at https://console.cloud.google.com/apis/library/compute.googleapis.com"@,
{
    if !output.success {
        return Err(
            GciError::ProviderUnavailable(
                String::from_str("Failed to check compute API status: ").concat(
                    output.stderr.as_str(),
                ),
            ),
        );
    }
    api_state_enabled(output.stdout.as_str().trim(), project_id)
}

/// Reads whether the compute API is enabled from the state that the tool
/// printed, white space taken off: the one state that counts is `ENABLED`,
/// spelled so.
pub fn api_state_enabled(state: &str, project_id: &str) -> (r: Result<(), GciError>)
    ensures
        r is Ok == (state@ == "ENABLED"@),
        r is Err ==> r->Err_0 is ProviderUnavailable && detail_of(r->Err_0)
            == "Compute Engine API is not enabled for project "@ + project_id@
            + ". Please enable it at https://console.cloud.google.com/apis/library/compute.googleapis.com"@,
{
    if !same_text(state, "ENABLED") {
        return Err(
            GciError::ProviderUnavailable(
                String::from_str("Compute Engine API is not enabled for project ").concat(
                    project_id,
                ).concat(
                    ". Please enable it at https://console.cloud.google.com/apis/library/compute.googleapis.com",
                ),
            ),
        );
    }
    Ok(())
}

/// Reads the tool's version from its answer: what it printed, without the
/// white space around it, if the run succeeded and printed anything.
pub fn get_gcloud_version(output: &CommandOutput) -> (r: Option<String>)
    ensures
        r is Some == (output.success && trimmed(output.stdout@).len() > 0),
        r is Some ==> r->0@ == trimmed(output.stdout@),
{
    if !output.success {
        return None;
    }
    version_from_printed(output.stdout.as_str().trim())
}

/// Reads the tool's version from what it printed, white space taken off:
/// the version is that text, and an empty text is no version.
pub fn version_from_printed(printed: &str) -> (r: Option<String>)
    ensures
        r is Some == (printed@.len() > 0),
        r is Some ==> r->0@ == printed@,
{
    if printed.is_empty() {
        None
    } else {
        Some(String::from_str(printed))
    }
}

/// The arguments that ask the tool for its default project.
pub open spec fn default_project_args() -> Seq<Seq<char>> {
    seq!["config"@, "get-value"@, "project"@]
}

/// The arguments that ask the tool whether it is there.
pub open spec fn installed_args() -> Seq<Seq<char>> {
    seq!["--version"@]
}

/// The arguments that ask the tool for its accounts.
pub open spec fn accounts_args() -> Seq<Seq<char>> {
    seq!["auth"@, "list"@]
}

/// The arguments that ask the tool for the state of a project's compute
/// API.
pub open spec fn compute_api_args(project: Seq<char>) -> Seq<Seq<char>> {
    seq![
        "services"@,
        "list"@,
        "--project"@,
        project,
        "--filter"@,
        "name:compute.googleapis.com"@,
        "--format"@,
        "value(state)"@,
    ]
}

/// The arguments that ask the tool for its version alone.
pub open spec fn version_args() -> Seq<Seq<char>> {
    seq!["version"@, "--format"@, "value(core)"@]
}

/// The arguments with which the tool tells its default project.
pub fn default_project_command() -> (r: Vec<String>)
    ensures
        texts(r@) == default_project_args(),
{
    let mut args: Vec<String> = Vec::new();
    args.push(String::from_str("config"));
    args.push(String::from_str("get-value"));
    args.push(String::from_str("project"));
    proof {
        assert(texts(args@) =~= default_project_args());
    }
    args
}

/// The arguments with which the tool shows that it is there.
pub fn installed_command() -> (r: Vec<String>)
    ensures
        texts(r@) == installed_args(),
{
    let mut args: Vec<String> = Vec::new();
    args.push(String::from_str("--version"));
    proof {
        assert(texts(args@) =~= installed_args());
    }
    args
}

/// The arguments with which the tool lists its accounts.
pub fn accounts_command() -> (r: Vec<String>)
    ensures
        texts(r@) == accounts_args(),
{
    let mut args: Vec<String> = Vec::new();
    args.push(String::from_str("auth"));
    args.push(String::from_str("list"));
    proof {
        assert(texts(args@) =~= accounts_args());
    }
    args
}

/// The arguments with which the tool tells the state of a project's
/// compute API.
pub fn compute_api_command(project_id: &str) -> (r: Vec<String>)
    ensures
        texts(r@) == compute_api_args(project_id@),
{
    let mut args: Vec<String> = Vec::new();
    args.push(String::from_str("services"));
    args.push(String::from_str("list"));
    args.push(String::from_str("--project"));
    args.push(String::from_str(project_id));
    args.push(String::from_str("--filter"));
    args.push(String::from_str("name:compute.googleapis.com"));
    args.push(String::from_str("--format"));
    args.push(String::from_str("value(state)"));
    proof {
        assert(texts(args@) =~= compute_api_args(project_id@));
    }
    args
}

/// The arguments with which the tool tells its version alone.
pub fn version_command() -> (r: Vec<String>)
    ensures
        texts(r@) == version_args(),
{
    let mut args: Vec<String> = Vec::new();
    args.push(String::from_str("version"));
    args.push(String::from_str("--format"));
    args.push(String::from_str("value(core)"));
    proof {
        assert(texts(args@) =~= version_args());
    }
    args
}

} // verus!
