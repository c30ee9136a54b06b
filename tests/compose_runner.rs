use dockium::compose::{project_from_fields, ActionKind, ComposeAction, ComposeService, ToolRun};
use dockium::error::CoreError;

fn action(name: &str) -> ComposeAction {
    ComposeAction { project_path: "/srv/app/compose.yml".to_string(), action: name.to_string() }
}

#[test]
fn action_names_up_and_down() {
    assert_eq!(action("up").kind().unwrap(), ActionKind::Up);
    assert_eq!(action("down").kind().unwrap(), ActionKind::Down);
}

#[test]
fn restart_and_unknown_actions_are_invalid_requests() {
    for name in ["restart", "", "UP", "up "] {
        match action(name).kind() {
            Err(CoreError::InvalidRequest { reason }) => assert_eq!(reason, "Invalid action"),
            _ => panic!("{name:?} should be refused"),
        }
    }
}

#[test]
fn listing_command_asks_for_json() {
    let svc = ComposeService::new();
    assert_eq!(svc.program(), "docker");
    assert_eq!(svc.list_args(), vec!["compose", "ls", "--format", "json"]);
}

#[test]
fn up_runs_detached_against_the_definition() {
    let svc = ComposeService::new();
    assert_eq!(svc.up("/path/to/definition.yml"), vec!["compose", "-f", "/path/to/definition.yml", "up", "-d"]);
}

#[test]
fn down_tears_down_the_definition() {
    let svc = ComposeService::new();
    assert_eq!(svc.down("/path/to/definition.yml"), vec!["compose", "-f", "/path/to/definition.yml", "down"]);
    assert_eq!(svc.action_args(ActionKind::Down, "x.yml"), svc.down("x.yml"));
}

#[test]
fn up_then_down_succeed_when_both_runs_exit_cleanly() {
    let svc = ComposeService::new();
    let ok = ToolRun::Exited { success: true, stdout: Vec::new(), stderr: Vec::new() };
    assert!(svc.finish_action(&ok).is_ok());
    assert!(svc.finish_action(&ok).is_ok());
}

#[test]
fn up_on_missing_definition_is_a_command_failure() {
    let svc = ComposeService::new();
    let run = ToolRun::Exited {
        success: false,
        stdout: Vec::new(),
        stderr: b"open /nope.yml: no such file or directory".to_vec(),
    };
    match svc.finish_action(&run) {
        Err(CoreError::CommandFailed { stderr }) => assert_eq!(stderr, "open /nope.yml: no such file or directory"),
        _ => panic!("expected a command failure"),
    }
}

#[test]
fn failure_text_replaces_invalid_utf8() {
    let svc = ComposeService::new();
    let run = ToolRun::Exited { success: false, stdout: Vec::new(), stderr: vec![b'a', 0xff, b'b'] };
    match svc.finish_action(&run) {
        Err(CoreError::CommandFailed { stderr }) => assert_eq!(stderr, "a\u{fffd}b"),
        _ => panic!("expected a command failure"),
    }
}

#[test]
fn a_tool_that_cannot_start_is_a_command_failure() {
    let svc = ComposeService::new();
    let run = ToolRun::NotSpawned { reason: "No such file or directory (os error 2)".to_string() };
    match svc.finish_action(&run) {
        Err(e) => {
            assert!(matches!(e, CoreError::CommandFailed { .. }));
            assert_eq!(e.message(), "No such file or directory (os error 2)");
        }
        Ok(()) => panic!("expected a command failure"),
    }
    assert!(svc.finish_listing(&run).is_err());
}

#[test]
fn listing_reads_each_record_in_order() {
    let svc = ComposeService::new();
    let json = br#"[{"Name":"web","Status":"running(2)","ConfigFiles":"/srv/web/compose.yml"},
                    {"Name":"db","Status":"exited(1)","ConfigFiles":"/srv/db/compose.yml"}]"#;
    let ps = svc.parse_projects(json).unwrap();
    assert_eq!(ps.len(), 2);
    assert_eq!(ps[0].name, "web");
    assert_eq!(ps[0].status, "running(2)");
    assert_eq!(ps[0].config_path, "/srv/web/compose.yml");
    assert_eq!(ps[1].name, "db");
    assert_eq!(ps[1].status, "exited(1)");
    assert_eq!(ps[1].config_path, "/srv/db/compose.yml");
}

#[test]
fn listing_fields_that_are_missing_or_not_text_read_as_empty() {
    let svc = ComposeService::new();
    let ps = svc.parse_projects(br#"[{"Name":"web"},{"Status":3},"oops"]"#).unwrap();
    assert_eq!(ps.len(), 3);
    assert_eq!(ps[0].name, "web");
    assert_eq!(ps[0].status, "");
    assert_eq!(ps[0].config_path, "");
    assert_eq!(ps[1].name, "");
    assert_eq!(ps[1].status, "");
    assert_eq!(ps[2].name, "");
}

#[test]
fn empty_listing_has_no_projects() {
    let svc = ComposeService::new();
    assert!(svc.parse_projects(b"[]").unwrap().is_empty());
}

#[test]
fn malformed_listing_is_a_command_failure() {
    let svc = ComposeService::new();
    assert!(matches!(svc.parse_projects(b"{not json"), Err(CoreError::CommandFailed { .. })));
    assert!(matches!(svc.parse_projects(br#"{"Name":"web"}"#), Err(CoreError::CommandFailed { .. })));
}

#[test]
fn listing_run_gives_projects_or_the_failure() {
    let svc = ComposeService::new();
    let ok = ToolRun::Exited { success: true, stdout: br#"[{"Name":"a"}]"#.to_vec(), stderr: Vec::new() };
    let ps = svc.finish_listing(&ok).unwrap();
    assert_eq!(ps.len(), 1);
    assert_eq!(ps[0].name, "a");
    let bad = ToolRun::Exited { success: false, stdout: b"[]".to_vec(), stderr: b"daemon down".to_vec() };
    match svc.finish_listing(&bad) {
        Err(CoreError::CommandFailed { stderr }) => assert_eq!(stderr, "daemon down"),
        _ => panic!("expected a command failure"),
    }
}

#[test]
fn record_fields_become_a_project() {
    let p = project_from_fields(Some("web".to_string()), None, Some("/srv/web/compose.yml".to_string()));
    assert_eq!(p.name, "web");
    assert_eq!(p.status, "");
    assert_eq!(p.config_path, "/srv/web/compose.yml");
    let q = project_from_fields(None, Some("running(1)".to_string()), None);
    assert_eq!(q.name, "");
    assert_eq!(q.status, "running(1)");
    assert_eq!(q.config_path, "");
}
