use std::io;

use mihomoctl::config_page::{format_wrapped_value, panel_width, ConfigLine, ConfigPage};
use mihomoctl::interval::Interval;
use mihomoctl::kind::ControllerKind;
use mihomoctl::popup::{Server, ServerPopupMode};
use mihomoctl::scroll::scrollbar;
use mihomoctl::session::{
    initial_state, missing_server_message, server_failure_body, servo_failure_message,
    session_outcome, switch_failure_message, switch_success_notice, terminal_width_from_size,
    ConfigData, ConfigError, SessionNotice, SessionOutcome, WorkerExit,
};

#[test]
fn server_url_uses_the_full_config_panel_width() {
    assert_eq!(
        format_wrapped_value("Server", "http://192.168.8.1:9090", 31),
        "Server http://192.168.8.1:9090"
    );
}

#[test]
fn long_server_url_wraps_instead_of_being_truncated() {
    let rendered = format_wrapped_value("Server", "http://example.com:9090/controller", 20);

    assert_eq!(
        rendered.replace('\n', "").replace(' ', ""),
        "Serverhttp://example.com:9090/controller"
    );
    assert!(rendered.contains('\n'));
}

#[test]
fn wrapped_value_lines_are_indented_under_the_value() {
    assert_eq!(
        format_wrapped_value("Server", "abcdefghij", 11),
        "Server abcd\n       efgh\n       ij"
    );
    // A width narrower than the label still fits one character per line.
    assert_eq!(format_wrapped_value("Ab", "xyz", 1), "Ab x\n   y\n   z");
    assert_eq!(format_wrapped_value("Ab", "", 10), "Ab ");
}

#[test]
fn config_rows_align_labels_and_values() {
    let row = ConfigLine::Item { label: "Mode".to_owned(), content: "rule".to_owned() };
    assert_eq!(row.text(25), format!("{:<15}{:>10}", "Mode", "rule"));
    assert_eq!(ConfigLine::Separator.text(4), "----");
    assert_eq!(ConfigLine::Empty.text(3), "   ");
    assert_eq!(ConfigLine::Title("Clash".to_owned()).text(30), "Clash");
}

#[test]
fn config_page_lists_both_sections() {
    let page = ConfigPage::new(
        vec![("Port".to_owned(), "7890".to_owned())],
        vec![("Server".to_owned(), "http://127.0.0.1:9090".to_owned())],
    );
    let lines = page.lines(20);
    assert_eq!(
        lines,
        vec![
            " ".repeat(20),
            "Clash".to_owned(),
            "-".repeat(20),
            format!("{:<15}{:>5}", "Port", "7890"),
            " ".repeat(20),
            "Mihomoctl".to_owned(),
            "-".repeat(20),
            "Server http://127.0.\n       0.1:9090".to_owned(),
        ]
    );
    assert_eq!(panel_width(80), 76);
    assert_eq!(panel_width(12), 10);
    assert_eq!(panel_width(0), 10);
}

#[test]
fn server_failure_prompt_includes_error_and_switch_shortcut() {
    let body = server_failure_body("authentication failed: 401");

    assert!(body.contains("authentication failed: 401"));
    assert!(body.contains("Shift+S"));
}

#[test]
fn servo_failure_is_turned_into_a_user_message() {
    assert_eq!(
        servo_failure_message(WorkerExit::Failed("Tui internal error".to_owned())),
        "Tui internal error"
    );
    assert_eq!(servo_failure_message(WorkerExit::Stopped), "Background worker stopped");
    assert_eq!(servo_failure_message(WorkerExit::Panicked), "Background worker panicked");
}

#[test]
fn switch_messages_name_the_server() {
    assert_eq!(switch_success_notice("http://a:1/"), "Switched to http://a:1/");
    assert_eq!(
        switch_failure_message("http://a:1/", "timed out"),
        "Failed to connect to http://a:1/: timed out\n\nStaying on the current server."
    );
    assert_eq!(
        missing_server_message("http://a:1/"),
        "Server http://a:1/ is not in the config anymore"
    );
}

fn server(url: &str) -> Server {
    Server { url: url.to_owned(), secret: None, kind: ControllerKind::Mihomo }
}

#[test]
fn config_data_tracks_the_server_in_use() {
    let mut config = ConfigData {
        servers: vec![server("http://a:1/"), server("http://b:2/")],
        using: None,
    };
    assert!(config.using_server().is_none());
    assert_eq!(config.use_server("http://c:3/".to_owned()), Err(ConfigError::ServerNotFound));
    assert_eq!(config.using, None);
    assert_eq!(config.use_server("http://b:2/".to_owned()), Ok(()));
    assert_eq!(config.using_server().map(|s| s.url.as_str()), Some("http://b:2/"));
    assert_eq!(config.get_server("http://a:1/").map(|s| s.url.as_str()), Some("http://a:1/"));
    assert!(config.get_server("http://z:9/").is_none());
}

#[test]
fn session_without_server_opens_the_server_manager() {
    let config = ConfigData { servers: vec![server("http://a:1/")], using: None };
    let state = initial_state(ControllerKind::Mihomo, None, &config, 0);
    let popup = state.server_popup.as_ref().unwrap();
    assert_eq!(popup.mode, ServerPopupMode::List);
    assert_eq!(
        popup.message.as_deref(),
        Some("No active server: press a to add one, Enter to use the selected")
    );
    assert!(state.notice_popup.is_none());
    assert!(matches!(session_outcome(&state), SessionOutcome::Quit));
}

#[test]
fn session_shows_the_switch_feedback() {
    let config = ConfigData {
        servers: vec![server("http://a:1/")],
        using: Some("http://a:1/".to_owned()),
    };
    let state = initial_state(
        ControllerKind::Clash,
        Some(SessionNotice::Success("Switched to http://a:1/".to_owned())),
        &config,
        42,
    );
    assert!(state.server_popup.is_none());
    let notice = state.notice_popup.as_ref().unwrap();
    assert_eq!(notice.title, "Server Switched");
    assert_eq!(notice.created_ms, 42);

    let mut state = initial_state(
        ControllerKind::Clash,
        Some(SessionNotice::Failure("boom".to_owned())),
        &config,
        0,
    );
    let popup = state.api_result_popup.as_ref().unwrap();
    assert_eq!(popup.title, "Switch Server");
    assert_eq!(popup.body, "boom");

    state.switch_to_server = Some("http://a:1/".to_owned());
    assert!(matches!(session_outcome(&state), SessionOutcome::Switch(url) if url == "http://a:1/"));
}

#[test]
fn terminal_width_from_size_uses_reported_width() {
    assert_eq!(terminal_width_from_size(Ok((120, 40)), 70), 120);
}

#[test]
fn terminal_width_from_size_uses_default_on_error() {
    let err = io::Error::new(io::ErrorKind::Other, "terminal size unavailable");

    assert_eq!(terminal_width_from_size(Err(err), 70), 70);
}

#[test]
fn test_interval() {
    let mut interval = Interval::every(100);
    let first = interval.next_tick(1_000);
    assert!(first <= 100);
    assert!(first >= 90);
    let second = interval.next_tick(1_050);
    assert!(second <= 60);
    assert!(second >= 30);
}

#[test]
fn interval_waits_for_the_next_grid_point_when_late() {
    let mut interval = Interval::every(100);
    assert_eq!(interval.next_tick(1_000), 100);
    assert_eq!(interval.deadline_ms, Some(1_100));
    assert_eq!(interval.next_tick(1_100), 0);
    assert_eq!(interval.next_tick(1_130), 70);
    assert_eq!(interval.next_tick(1_300), 100);
    assert_eq!(interval.next_tick(1_301), 99);
}

#[test]
fn scrollbar_places_the_thumb_by_offset() {
    assert_eq!(scrollbar(0, 5, 3, 4, '|', '#'), "####");
    assert_eq!(scrollbar(0, 0, 10, 3, '|', '#'), "###");
    assert_eq!(scrollbar(0, 5, 10, 0, '|', '#'), "");
    assert_eq!(scrollbar(0, 5, 20, 8, '|', '#'), "##||||||");
    assert_eq!(scrollbar(15, 5, 20, 8, '|', '#'), "||||||##");
    assert_eq!(scrollbar(99, 5, 20, 8, '|', '#'), "||||||##");
    assert_eq!(scrollbar(5, 5, 20, 8, '|', '#'), "||##||||");
    assert_eq!(scrollbar(0, 1, 100, 4, '|', '#'), "#|||");
}

#[test]
fn section_head_is_blank_title_and_rule() {
    let head = ConfigLine::title("Clash");
    assert_eq!(head.len(), 3);
    let texts: Vec<String> = head.iter().map(|l| l.text(6)).collect();
    assert_eq!(texts, vec!["      ".to_owned(), "Clash".to_owned(), "------".to_owned()]);
}

#[test]
fn session_api_pages_follow_the_controller_kind() {
    let config = ConfigData { servers: vec![server("http://a:1/")], using: Some("http://a:1/".to_owned()) };
    let clash = initial_state(ControllerKind::Clash, None, &config, 0);
    let mihomo = initial_state(ControllerKind::Mihomo, None, &config, 0);
    let fresh = mihomoctl::tui::TuiStates::for_controller_kind(ControllerKind::Clash);
    let ops = |s: &mihomoctl::tui::TuiStates| s.api_state.items.iter().map(|i| i.operation).collect::<Vec<_>>();
    assert_eq!(ops(&clash), ops(&fresh));
    assert!(ops(&clash).len() < ops(&mihomo).len());
}
