use g1c::display::{column_widths, fit, side_margin, ColumnWidths, StatusCounts, Tone};
use g1c::instance::{Instance, Status};
use g1c::ui::{Key, KeyCode, UiState};

fn vm(name: &str, status: &str) -> Instance {
    Instance {
        id: name.to_string(),
        name: name.to_string(),
        status: status.to_string(),
        machine_type: "e2-micro".to_string(),
        zone: "z".to_string(),
        external_ip: None,
        internal_ip: None,
        creation_timestamp: None,
        description: None,
        metadata: None,
        tags: Vec::new(),
    }
}

#[test]
fn counts_by_status() {
    let mut ui = UiState::new();
    ui.update_instances(vec![
        vm("a", "RUNNING"),
        vm("b", "TERMINATED"),
        vm("c", "RUNNING"),
        vm("d", "STAGING"),
        vm("e", "running"),
        vm("f", "RUNNING"),
    ]);
    assert_eq!(
        ui.status_counts(),
        StatusCounts { total: 6, running: 3, stopped: 1, other: 2 }
    );
}

#[test]
fn counts_of_an_empty_list() {
    let ui = UiState::new();
    assert_eq!(ui.status_counts(), StatusCounts { total: 0, running: 0, stopped: 0, other: 0 });
}

#[test]
fn counts_follow_the_filter() {
    let mut ui = UiState::new();
    ui.update_instances(vec![vm("web-1", "RUNNING"), vm("web-2", "TERMINATED"), vm("db", "RUNNING")]);
    ui.toggle_filter_mode();
    for c in "web".chars() {
        ui.handle_input(Key { code: KeyCode::Char(c), ctrl: false });
    }
    assert_eq!(
        ui.status_counts(),
        StatusCounts { total: 2, running: 1, stopped: 1, other: 0 }
    );
}

#[test]
fn column_widths_share_out_what_the_overhead_leaves() {
    assert_eq!(
        column_widths(120),
        Some(ColumnWidths {
            name: 18,
            status: 10,
            machine_type: 18,
            zone: 15,
            network: 12,
            internal_ip: 14,
            external_ip: 13,
        })
    );
    assert_eq!(
        column_widths(87),
        Some(ColumnWidths {
            name: 12,
            status: 6,
            machine_type: 12,
            zone: 10,
            network: 8,
            internal_ip: 9,
            external_ip: 8,
        })
    );
}

#[test]
fn column_widths_of_a_narrow_table() {
    assert_eq!(column_widths(19), None);
    assert_eq!(column_widths(0), None);
    assert_eq!(
        column_widths(20),
        Some(ColumnWidths {
            name: 0,
            status: 0,
            machine_type: 0,
            zone: 0,
            network: 0,
            internal_ip: 0,
            external_ip: 0,
        })
    );
    let widest = column_widths(u16::MAX).unwrap();
    assert_eq!(widest.name, 11792);
    assert_eq!(widest.status, 6551);
}

#[test]
fn side_margins() {
    assert_eq!(side_margin(60), 20);
    assert_eq!(side_margin(70), 15);
    assert_eq!(side_margin(80), 10);
    assert_eq!(side_margin(100), 0);
    assert_eq!(side_margin(0), 50);
    assert_eq!(side_margin(99), 0);
    assert_eq!(side_margin(101), 0);
}

#[test]
fn fit_leaves_a_text_that_fits() {
    assert_eq!(fit("web", 3), "web");
    assert_eq!(fit("web", 10), "web");
    assert_eq!(fit("", 0), "");
    assert_eq!(fit("", 5), "");
}

#[test]
fn fit_cuts_a_long_text_and_ends_it_in_an_ellipsis() {
    assert_eq!(fit("instance-name", 8), "instanc…");
    assert_eq!(fit("ab", 1), "…");
    assert_eq!(fit("ab", 0), "");
    assert_eq!(fit("zürich-west", 4), "zür…");
}

#[test]
fn status_signs_and_words() {
    assert_eq!(Status::Running.symbol(), "🟢");
    assert_eq!(Status::Terminated.symbol(), "🔴");
    assert_eq!(Status::Stopping.symbol(), "🟠");
    assert_eq!(Status::Provisioning.symbol(), "🟡");
    assert_eq!(Status::Staging.symbol(), "🔄");
    assert_eq!(Status::Suspended.symbol(), "💤");
    assert_eq!(Status::Repairing.symbol(), "🟡");
    assert_eq!(Status::Pending.symbol(), "🟡");
    assert_eq!(Status::Unknown.symbol(), "❓");
    assert_eq!(Status::Running.word(), "RUNNING");
    assert_eq!(Status::Unknown.word(), "UNKNOWN");
    assert_eq!(Status::Suspended.word(), "SUSPENDED");
}

#[test]
fn status_labels() {
    assert_eq!(Status::Running.label(), "🟢 RUNNING");
    assert_eq!(Status::Terminated.label(), "🔴 TERMINATED");
    assert_eq!(Status::parse("whatever").label(), "❓ UNKNOWN");
    assert_eq!(Status::parse("PENDING").label(), "🟡 PENDING");
}

#[test]
fn status_tones() {
    assert_eq!(Status::Running.tone(), Tone::Success);
    assert_eq!(Status::Terminated.tone(), Tone::Error);
    assert_eq!(Status::Stopping.tone(), Tone::Warning);
    assert_eq!(Status::Provisioning.tone(), Tone::Warning);
    assert_eq!(Status::Staging.tone(), Tone::Secondary);
    assert_eq!(Status::Suspended.tone(), Tone::Muted);
    assert_eq!(Status::Repairing.tone(), Tone::Warning);
    assert_eq!(Status::Pending.tone(), Tone::Warning);
    assert_eq!(Status::Unknown.tone(), Tone::Plain);
}
