use g1c::auth::{
    accounts_command, api_state_enabled, check_compute_api, check_gcloud, compute_api_command,
    default_project_command, get_default_project, get_gcloud_version, installed_command,
    project_from_printed, version_command, version_from_printed,
};
use g1c::cloud::CloudClient;
use g1c::config::Config;
use g1c::error::GciError;
use g1c::instance::{lowered_fields_hold, Instance};
use g1c::logging::{
    format_from_lowered, init, level_from_lowered, parse_format, parse_level, LogFormat, LogLevel,
    LogSetup,
};
use g1c::provider::{check_output, operation_for, resolve, CommandOutput, Operation};
use g1c::text::is_white_space;
use g1c::ui::Action;

fn client(json: bool) -> CloudClient {
    let config = Config::default().with_project(Some("proj".to_string()));
    let c = CloudClient::new(&config, None, None).unwrap();
    assert_eq!(c.json_output(), json);
    c
}

fn vm(id: &str, name: &str, zone: &str) -> Instance {
    Instance {
        id: id.to_string(),
        name: name.to_string(),
        status: "RUNNING".to_string(),
        machine_type: "e2-micro".to_string(),
        zone: zone.to_string(),
        external_ip: None,
        internal_ip: None,
        creation_timestamp: None,
        description: None,
        metadata: None,
        tags: Vec::new(),
    }
}

fn out(success: bool, stdout: &str, stderr: &str) -> CommandOutput {
    CommandOutput { success, stdout: stdout.to_string(), stderr: stderr.to_string() }
}

#[test]
fn list_command_names_the_project_and_asks_for_json() {
    assert_eq!(
        client(true).list_command(),
        vec!["compute", "instances", "list", "--project", "proj", "--format", "json"]
    );
}

#[test]
fn describe_command_addresses_the_instance() {
    let args = client(true).instance_command(Operation::Describe, &vm("1", "web", "zone-a"));
    assert_eq!(
        args.unwrap(),
        vec![
            "compute", "instances", "describe", "web", "--zone", "zone-a", "--project", "proj",
            "--format", "json"
        ]
    );
}

#[test]
fn lifecycle_commands_run_quietly() {
    let c = client(true);
    let target = vm("1", "web", "zone-a");
    assert_eq!(
        c.instance_command(Operation::Start, &target).unwrap(),
        vec![
            "compute", "instances", "start", "web", "--zone", "zone-a", "--project", "proj",
            "--quiet"
        ]
    );
    assert_eq!(c.instance_command(Operation::Stop, &target).unwrap()[2], "stop");
    assert_eq!(c.instance_command(Operation::Delete, &target).unwrap()[2], "delete");
    assert_eq!(c.instance_command(Operation::Stop, &target).unwrap().len(), 9);
}

#[test]
fn restart_is_a_single_reset() {
    let args = client(true).instance_command(Operation::Restart, &vm("1", "web", "zone-a"));
    assert_eq!(
        args.unwrap(),
        vec![
            "compute", "instances", "reset", "web", "--zone", "zone-a", "--project", "proj",
            "--quiet"
        ]
    );
}

#[test]
fn listing_addresses_no_instance() {
    assert!(client(true).instance_command(Operation::List, &vm("1", "web", "z")).is_none());
}

#[test]
fn operations_for_actions() {
    assert_eq!(operation_for(Action::Start), Some(Operation::Start));
    assert_eq!(operation_for(Action::Stop), Some(Operation::Stop));
    assert_eq!(operation_for(Action::Restart), Some(Operation::Restart));
    assert_eq!(operation_for(Action::Delete), Some(Operation::Delete));
    assert_eq!(operation_for(Action::Ssh), None);
    assert_eq!(operation_for(Action::Noop), None);
}

#[test]
fn resolve_finds_by_identifier_or_name() {
    let list = vec![vm("1", "web", "a"), vm("2", "db", "b"), vm("3", "cache", "c")];
    assert_eq!(resolve(&list, "2").unwrap(), 1);
    assert_eq!(resolve(&list, "cache").unwrap(), 2);
    assert_eq!(resolve(&list, "1").unwrap(), 0);
}

#[test]
fn resolve_refuses_an_unknown_identifier() {
    let list = vec![vm("1", "web", "a"), vm("2", "db", "b")];
    match resolve(&list, "nope") {
        Err(GciError::InstanceNotFound(m)) => assert_eq!(m, "nope"),
        other => panic!("unexpected outcome: {:?}", other),
    }
    assert!(matches!(resolve(&Vec::new(), "1"), Err(GciError::InstanceNotFound(_))));
}

#[test]
fn resolve_refuses_an_identifier_that_names_two() {
    // The same name in two zones.
    let list = vec![vm("1", "web", "a"), vm("2", "web", "b"), vm("3", "db", "c")];
    assert!(matches!(resolve(&list, "web"), Err(GciError::InstanceNotFound(_))));
    assert_eq!(resolve(&list, "db").unwrap(), 2);
    // One instance's identifier is another one's name.
    let list = vec![vm("7", "web", "a"), vm("8", "7", "b")];
    assert!(matches!(resolve(&list, "7"), Err(GciError::InstanceNotFound(_))));
}

#[test]
fn resolve_accepts_an_instance_named_by_both_fields() {
    let list = vec![vm("web", "web", "a"), vm("2", "db", "b")];
    assert_eq!(resolve(&list, "web").unwrap(), 0);
}

#[test]
fn check_output_passes_success_and_reports_failure() {
    assert!(check_output(Operation::List, &out(true, "[]", "warning")).is_ok());
    match check_output(Operation::List, &out(false, "", "denied")) {
        Err(GciError::ProviderUnavailable(m)) => assert_eq!(m, "Failed to list instances: denied"),
        other => panic!("unexpected outcome: {:?}", other),
    }
    match check_output(Operation::Restart, &out(false, "", "x")) {
        Err(e) => assert_eq!(e.message(), "Provider unavailable: Failed to restart instance: x"),
        other => panic!("unexpected outcome: {:?}", other),
    }
    match check_output(Operation::Describe, &out(false, "", "x")) {
        Err(GciError::ProviderUnavailable(m)) => {
            assert_eq!(m, "Failed to get instance details: x")
        }
        other => panic!("unexpected outcome: {:?}", other),
    }
    match check_output(Operation::Start, &out(false, "", "")) {
        Err(GciError::ProviderUnavailable(m)) => assert_eq!(m, "Failed to start instance: "),
        other => panic!("unexpected outcome: {:?}", other),
    }
    match check_output(Operation::Stop, &out(false, "", "s")) {
        Err(GciError::ProviderUnavailable(m)) => assert_eq!(m, "Failed to stop instance: s"),
        other => panic!("unexpected outcome: {:?}", other),
    }
    match check_output(Operation::Delete, &out(false, "", "d")) {
        Err(GciError::ProviderUnavailable(m)) => assert_eq!(m, "Failed to delete instance: d"),
        other => panic!("unexpected outcome: {:?}", other),
    }
}

#[test]
fn default_project_is_the_trimmed_output() {
    assert_eq!(get_default_project(&out(true, "  my-project\n", "")).unwrap(), "my-project");
    assert_eq!(get_default_project(&out(true, "p", "")).unwrap(), "p");
}

#[test]
fn default_project_must_be_printed() {
    assert!(matches!(get_default_project(&out(true, " \n\t", "")), Err(GciError::Config(_))));
    assert!(matches!(get_default_project(&out(true, "", "")), Err(GciError::Config(_))));
    match get_default_project(&out(false, "my-project", "boom")) {
        Err(GciError::ProviderUnavailable(m)) => {
            assert_eq!(m, "Failed to get default project: boom")
        }
        other => panic!("unexpected outcome: {:?}", other),
    }
}

#[test]
fn gcloud_check_wants_an_active_account() {
    let version = out(true, "Google Cloud SDK 470.0.0", "");
    assert!(check_gcloud(&version, &out(true, "* me@example.com\n  other@example.com", "")).is_ok());
    match check_gcloud(&version, &out(true, "  me@example.com", "")) {
        Err(GciError::ProviderUnavailable(m)) => assert_eq!(m, "No active gcloud account found"),
        other => panic!("unexpected outcome: {:?}", other),
    }
    match check_gcloud(&version, &out(false, "* me", "no auth")) {
        Err(GciError::ProviderUnavailable(m)) => {
            assert_eq!(m, "Authentication check failed: no auth")
        }
        other => panic!("unexpected outcome: {:?}", other),
    }
    match check_gcloud(&out(false, "", "not found"), &out(true, "* me", "")) {
        Err(GciError::ProviderUnavailable(m)) => {
            assert_eq!(m, "gcloud CLI check failed: not found")
        }
        other => panic!("unexpected outcome: {:?}", other),
    }
}

#[test]
fn compute_api_must_be_enabled() {
    assert!(check_compute_api(&out(true, "ENABLED\n", ""), "p").is_ok());
    match check_compute_api(&out(true, "DISABLED\n", ""), "p") {
        Err(GciError::ProviderUnavailable(m)) => assert_eq!(
            m,
            "Compute Engine API is not enabled for project p. Please enable it at https://console.cloud.google.com/apis/library/compute.googleapis.com"
        ),
        other => panic!("unexpected outcome: {:?}", other),
    }
    assert!(check_compute_api(&out(true, "enabled", ""), "p").is_err());
    assert!(check_compute_api(&out(true, "", ""), "p").is_err());
    match check_compute_api(&out(false, "ENABLED", "nope"), "p") {
        Err(GciError::ProviderUnavailable(m)) => {
            assert_eq!(m, "Failed to check compute API status: nope")
        }
        other => panic!("unexpected outcome: {:?}", other),
    }
}

#[test]
fn tool_version_is_the_trimmed_output() {
    assert_eq!(get_gcloud_version(&out(true, " 470.0.0 \n", "")), Some("470.0.0".to_string()));
    assert_eq!(get_gcloud_version(&out(true, "\n", "")), None);
    assert_eq!(get_gcloud_version(&out(false, "470.0.0", "")), None);
}

#[test]
fn log_level_words() {
    assert_eq!(parse_level(Some("trace")), LogLevel::Trace);
    assert_eq!(parse_level(Some("DEBUG")), LogLevel::Debug);
    assert_eq!(parse_level(Some("Info")), LogLevel::Info);
    assert_eq!(parse_level(Some("warn")), LogLevel::Warn);
    assert_eq!(parse_level(Some("ERROR")), LogLevel::Error);
    assert_eq!(parse_level(Some("loud")), LogLevel::Info);
    assert_eq!(parse_level(Some("")), LogLevel::Info);
    assert_eq!(parse_level(None), LogLevel::Info);
}

#[test]
fn log_format_words() {
    assert_eq!(parse_format(Some("json")), LogFormat::Json);
    assert_eq!(parse_format(Some("JSON")), LogFormat::Json);
    assert_eq!(parse_format(Some("text")), LogFormat::Text);
    assert_eq!(parse_format(Some("yaml")), LogFormat::Text);
    assert_eq!(parse_format(None), LogFormat::Text);
}

#[test]
fn logging_goes_to_a_file_only_when_one_is_named() {
    assert!(matches!(init(None, Some("debug"), Some("json")), LogSetup::Console));
    match init(Some("/tmp/x.log"), Some("Debug"), Some("Json")) {
        LogSetup::File { path, level, format } => {
            assert_eq!(path, "/tmp/x.log");
            assert_eq!(level, LogLevel::Debug);
            assert_eq!(format, LogFormat::Json);
        }
        other => panic!("unexpected setup: {:?}", other),
    }
    match init(Some("x.log"), None, None) {
        LogSetup::File { level, format, .. } => {
            assert_eq!(level, LogLevel::Info);
            assert_eq!(format, LogFormat::Text);
        }
        other => panic!("unexpected setup: {:?}", other),
    }
}

#[test]
fn startup_commands() {
    assert_eq!(default_project_command(), vec!["config", "get-value", "project"]);
    assert_eq!(installed_command(), vec!["--version"]);
    assert_eq!(accounts_command(), vec!["auth", "list"]);
    assert_eq!(
        compute_api_command("proj"),
        vec![
            "services",
            "list",
            "--project",
            "proj",
            "--filter",
            "name:compute.googleapis.com",
            "--format",
            "value(state)"
        ]
    );
    assert_eq!(version_command(), vec!["version", "--format", "value(core)"]);
}

#[test]
fn white_space_is_what_std_takes_it_to_be() {
    let mut count = 0;
    for n in 0..=0x10FFFFu32 {
        if let Some(c) = char::from_u32(n) {
            assert_eq!(is_white_space(c), c.is_whitespace(), "U+{:04X}", n);
            if is_white_space(c) {
                count += 1;
            }
        }
    }
    assert_eq!(count, 25);
}

#[test]
fn trimming_takes_off_every_kind_of_white_space() {
    for n in 0..=0x10FFFFu32 {
        if let Some(c) = char::from_u32(n) {
            let printed = format!("{}proj ect{}", c, c);
            let expected = if is_white_space(c) { "proj ect".to_string() } else { printed.clone() };
            assert_eq!(get_default_project(&out(true, &printed, "")).unwrap(), expected);
        }
    }
    assert_eq!(
        get_default_project(&out(true, "\t\u{2003} a\u{a0}b \u{3000}\r\n", "")).unwrap(),
        "a\u{a0}b"
    );
}

#[test]
fn project_from_printed_text() {
    assert_eq!(project_from_printed("my-project").unwrap(), "my-project");
    assert_eq!(project_from_printed(" padded ").unwrap(), " padded ");
    match project_from_printed("") {
        Err(GciError::Config(m)) => assert!(m.starts_with("No default project found.")),
        other => panic!("unexpected outcome: {:?}", other),
    }
}

#[test]
fn api_state_from_printed_text() {
    assert!(api_state_enabled("ENABLED", "p").is_ok());
    assert!(api_state_enabled("ENABLED ", "p").is_err());
    assert!(api_state_enabled("Enabled", "p").is_err());
    assert!(api_state_enabled("", "p").is_err());
    match api_state_enabled("DISABLED", "proj") {
        Err(GciError::ProviderUnavailable(m)) => {
            assert!(m.starts_with("Compute Engine API is not enabled for project proj. "))
        }
        other => panic!("unexpected outcome: {:?}", other),
    }
}

#[test]
fn version_from_printed_text() {
    assert_eq!(version_from_printed("470.0.0"), Some("470.0.0".to_string()));
    assert_eq!(version_from_printed(""), None);
    assert_eq!(version_from_printed(" "), Some(" ".to_string()));
}

#[test]
fn level_from_a_lowered_word() {
    assert_eq!(level_from_lowered("trace"), LogLevel::Trace);
    assert_eq!(level_from_lowered("debug"), LogLevel::Debug);
    assert_eq!(level_from_lowered("info"), LogLevel::Info);
    assert_eq!(level_from_lowered("warn"), LogLevel::Warn);
    assert_eq!(level_from_lowered("error"), LogLevel::Error);
    // The word is taken as it is: nothing is lowered here.
    assert_eq!(level_from_lowered("ERROR"), LogLevel::Info);
    assert_eq!(level_from_lowered("warning"), LogLevel::Info);
}

#[test]
fn format_from_a_lowered_word() {
    assert_eq!(format_from_lowered("json"), LogFormat::Json);
    assert_eq!(format_from_lowered("JSON"), LogFormat::Text);
    assert_eq!(format_from_lowered("text"), LogFormat::Text);
    assert_eq!(format_from_lowered(""), LogFormat::Text);
}

#[test]
fn lowered_fields_hold_a_lowered_query() {
    assert!(lowered_fields_hold("web", "running", "e2-micro", "us-central1-a", None, "central"));
    assert!(lowered_fields_hold("web", "running", "e2-micro", "us-central1-a", None, "unn"));
    assert!(lowered_fields_hold("web", "running", "e2-micro", "us-central1-a", None, "micro"));
    assert!(lowered_fields_hold("web", "running", "e2-micro", "us-central1-a", None, "we"));
    assert!(lowered_fields_hold("web", "running", "e2-micro", "z", Some("10.0.0.7"), "0.7"));
    assert!(lowered_fields_hold("web", "running", "e2-micro", "z", None, ""));
    assert!(!lowered_fields_hold("web", "running", "e2-micro", "z", None, "0.7"));
    // Nothing is lowered here: the texts are compared as they are.
    assert!(!lowered_fields_hold("web", "RUNNING", "e2-micro", "z", None, "running"));
    assert!(!lowered_fields_hold("web", "running", "e2-micro", "z", None, "ebw"));
}
