use mihomoctl::kind::ControllerKind;
use mihomoctl::popup::Server;
use mihomoctl::session::{server_from_answers, ConfigData};
use mihomoctl::status::{status_figures, status_rows, StatusFigures};
use mihomoctl::tui::{Traffic, TuiStates, UpdateEvent};

#[test]
fn server_answers_give_parsed_url_and_optional_secret() {
    let s = server_from_answers("http://127.0.0.1:9090", "", ControllerKind::Clash).unwrap();
    assert_eq!(s.url, "http://127.0.0.1:9090/");
    assert_eq!(s.secret, None);
    assert_eq!(s.kind, ControllerKind::Clash);
    let s = server_from_answers("http://example.com", "token", ControllerKind::Mihomo).unwrap();
    assert_eq!(s.url, "http://example.com/");
    assert_eq!(s.secret.as_deref(), Some("token"));
    let e = server_from_answers("not a url", "x", ControllerKind::Mihomo).unwrap_err();
    assert_eq!(e, "Invalid URL: relative URL without a base");
}

#[test]
fn server_table_marks_the_server_in_use() {
    let data = ConfigData {
        servers: vec![
            Server { url: "http://a/".to_owned(), secret: None, kind: ControllerKind::Mihomo },
            Server { url: "http://b/".to_owned(), secret: None, kind: ControllerKind::Clash },
        ],
        using: Some("http://b/".to_owned()),
    };
    let lines = data.server_table(12);
    assert_eq!(lines.len(), 8);
    assert_eq!(lines[0].plain, "");
    assert_eq!(lines[1].plain, "-".repeat(12));
    assert_eq!(lines[2].green, "ACTIVE  ");
    assert_eq!(lines[2].plain, format!("{:<10}{:<50}", "KIND", "URL"));
    assert_eq!(lines[4].green, " ".repeat(8));
    assert_eq!(lines[4].plain, format!("{:<10}{:<50}", "mihomo", "http://a/"));
    assert_eq!(lines[5].green, format!("{:^8}", "→"));
    assert_eq!(lines[5].plain, format!("{:<10}{:<50}", "clash", "http://b/"));
    assert_eq!(lines[6].plain, "-".repeat(12));
    assert_eq!(lines[7].plain, "");
}

#[test]
fn status_rows_show_figures_and_versions() {
    let mut state = TuiStates::new();
    state.handle_update(UpdateEvent::Traffic(Traffic { up: 100, down: 300 }), 0);
    state.handle_update(UpdateEvent::Traffic(Traffic { up: 500, down: 10 }), 0);
    state.version = Some("v1.18.0".to_owned());
    let rows = status_rows(&state, 0, "0.1.0");
    let row = |t: &str, c: &str| format!(" {:<13}{:>18} ", t, c);
    assert_eq!(rows.info.len(), 10);
    assert_eq!(rows.info[0], row("⇉ Connections", "0"));
    assert_eq!(rows.info[1], row("◎ Memory", "?"));
    assert_eq!(rows.info[2], row("▲ Upload", "500 B/s"));
    assert_eq!(rows.info[3], row("▼ Download", "10 B/s"));
    assert_eq!(rows.info[4], row("▲ Avg.", "?"));
    assert_eq!(rows.info[5], row("▼ Avg.", "?"));
    assert_eq!(rows.info[6], row("▲ Max", "500 B/s"));
    assert_eq!(rows.info[7], row("▼ Max", "300 B/s"));
    assert_eq!(rows.info[8], row("▲ Total", "0 B"));
    assert_eq!(rows.versions, vec![row("Clash Ver.", "v1.18.0"), row("Mihomoctl Ver.", "0.1.0")]);
    let later = status_rows(&state, 2, "0.1.0");
    assert_eq!(later.info[4], row("▲ Avg.", "300 B/s"));
    assert_eq!(later.info[5], row("▼ Avg.", "155 B"));
}

#[test]
fn status_figures_put_each_traffic_figure_in_its_place() {
    let mut state = TuiStates::new();
    state.handle_update(UpdateEvent::Traffic(Traffic { up: 4096, down: 2048 }), 0);
    state.handle_update(UpdateEvent::Traffic(Traffic { up: 1024, down: 8192 }), 0);
    state.con_size = (10_000, 20_000);
    assert_eq!(
        status_figures(&state, 4),
        StatusFigures {
            connections: 0,
            up: 1024,
            down: 8192,
            avg_up: Some(1280),
            avg_down: Some(2560),
            max_up: 4096,
            max_down: 8192,
            total_up: 10_000,
            total_down: 20_000,
        }
    );
    assert_eq!(status_figures(&state, 0).avg_up, None);
    assert_eq!(status_rows(&state, 4, "x").figures, status_figures(&state, 4));
}
