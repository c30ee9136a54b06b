use dockium::daemon::{
    pull_step, select_containers, ContainerState, ContainerSummary, ListOptions, LogOptions, PullItem, PullStep,
};
use dockium::error::CoreError;

fn container(id: &str, state: ContainerState) -> ContainerSummary {
    ContainerSummary {
        id: id.to_string(),
        names: vec![format!("/{id}")],
        image: "nginx:latest".to_string(),
        state,
        ports: Vec::new(),
        created: 1_700_000_000,
    }
}

fn listing() -> Vec<ContainerSummary> {
    vec![
        container("a", ContainerState::Running),
        container("b", ContainerState::Exited),
        container("c", ContainerState::Paused),
        container("d", ContainerState::Running),
        container("e", ContainerState::Created),
    ]
}

fn ids(cs: &[ContainerSummary]) -> Vec<String> {
    cs.iter().map(|c| c.id.clone()).collect()
}

#[test]
fn running_listing_shows_containers_that_count_as_running() {
    assert_eq!(ids(&select_containers(listing(), false)), vec!["a", "c", "d"]);
    let restarting = vec![container("r", ContainerState::Restarting), container("x", ContainerState::Dead)];
    assert_eq!(ids(&select_containers(restarting, false)), vec!["r"]);
}

#[test]
fn paused_and_restarting_count_as_running() {
    assert!(ContainerState::Running.counts_as_running());
    assert!(ContainerState::Paused.counts_as_running());
    assert!(ContainerState::Restarting.counts_as_running());
    assert!(!ContainerState::Created.counts_as_running());
    assert!(!ContainerState::Exited.counts_as_running());
    assert!(!ContainerState::Dead.counts_as_running());
}

#[test]
fn missing_or_unknown_state_is_taken_as_exited() {
    assert_eq!(ContainerState::reported(&Some("paused".to_string())), ContainerState::Paused);
    assert_eq!(ContainerState::reported(&Some("removing".to_string())), ContainerState::Exited);
    assert_eq!(ContainerState::reported(&None), ContainerState::Exited);
}

#[test]
fn full_listing_shows_every_container() {
    assert_eq!(ids(&select_containers(listing(), true)), vec!["a", "b", "c", "d", "e"]);
}

#[test]
fn running_listing_is_within_full_listing() {
    let all = ids(&select_containers(listing(), true));
    for id in ids(&select_containers(listing(), false)) {
        assert!(all.contains(&id));
    }
    assert!(select_containers(Vec::new(), false).is_empty());
}

#[test]
fn stopped_containers_are_left_out_unless_asked_for() {
    assert!(!ListOptions { all: None }.include_stopped());
    assert!(!ListOptions { all: Some(false) }.include_stopped());
    assert!(ListOptions { all: Some(true) }.include_stopped());
}

#[test]
fn daemon_state_names_are_read() {
    let names = ["created", "running", "paused", "restarting", "exited", "dead"];
    let states = [
        ContainerState::Created,
        ContainerState::Running,
        ContainerState::Paused,
        ContainerState::Restarting,
        ContainerState::Exited,
        ContainerState::Dead,
    ];
    for (n, s) in names.iter().zip(states) {
        assert_eq!(ContainerState::parse(&n.to_string()), Some(s));
    }
    assert_eq!(ContainerState::parse(&"Running".to_string()), None);
    assert_eq!(ContainerState::parse(&String::new()), None);
}

#[test]
fn log_sessions_tail_a_hundred_lines_and_follow() {
    let o = LogOptions::session_default();
    assert_eq!(o.tail_count, 100);
    assert!(o.follow);
}

fn drain(items: Vec<PullItem>) -> Result<(), CoreError> {
    let mut it = items.into_iter();
    loop {
        match pull_step(it.next()) {
            PullStep::Continue => {}
            PullStep::Done(r) => return r,
        }
    }
}

#[test]
fn pull_of_unknown_image_fails_with_the_daemon_error() {
    let r = drain(vec![
        PullItem::Progress,
        PullItem::Failed { status: Some(404), message: "pull access denied for nosuch/image".to_string() },
        PullItem::Progress,
    ]);
    match r {
        Err(CoreError::DaemonError { status, message }) => {
            assert_eq!(status, Some(404));
            assert_eq!(message, "pull access denied for nosuch/image");
        }
        _ => panic!("expected a daemon error"),
    }
}

#[test]
fn pull_succeeds_once_every_progress_event_is_drained() {
    assert!(drain(vec![PullItem::Progress, PullItem::Progress, PullItem::Progress]).is_ok());
    assert!(drain(Vec::new()).is_ok());
}

#[test]
fn not_found_is_told_apart_from_other_daemon_errors() {
    assert!(CoreError::from_daemon(Some(404), "No such container: x".to_string()).is_not_found());
    assert!(!CoreError::from_daemon(Some(409), "conflict".to_string()).is_not_found());
    assert!(!CoreError::from_daemon(None, "connection refused".to_string()).is_not_found());
    assert!(!CoreError::CommandFailed { stderr: String::new() }.is_not_found());
    assert_eq!(CoreError::from_daemon(Some(500), "boom".to_string()).message(), "boom");
}

#[test]
fn daemon_client_errors_keep_status_and_message() {
    let e = bollard::errors::Error::DockerResponseServerError {
        status_code: 404,
        message: "No such container: nosuch".to_string(),
    };
    let c = CoreError::from_client(&e);
    assert!(c.is_not_found());
    match c {
        CoreError::DaemonError { status, message } => {
            assert_eq!(status, Some(404));
            assert_eq!(message, "No such container: nosuch");
        }
        _ => panic!("expected a daemon error"),
    }
    let other = bollard::errors::Error::DockerResponseServerError { status_code: 409, message: "conflict".to_string() };
    assert!(!CoreError::from_client(&other).is_not_found());
}
