use mihomoctl::kind::ControllerKind;
use mihomoctl::popup::{Server, ServerForm, ServerFormField, ServerPopupMode, ServerSwitchPopup};

fn server(url: &str, kind: ControllerKind) -> Server {
    Server { url: url.to_owned(), secret: None, kind }
}

fn switcher() -> ServerSwitchPopup {
    ServerSwitchPopup::open(
        vec![server("http://a:9090", ControllerKind::Clash), server("http://b:9090", ControllerKind::Mihomo)],
        Some("http://b:9090".to_owned()),
    )
}

#[test]
fn server_list_marks_the_server_in_use() {
    let lines = switcher().lines();
    assert_eq!(lines[0], "  clash   http://a:9090");
    assert_eq!(lines[1], "\u{2192} mihomo  http://b:9090");
    assert_eq!(lines[2], "");
    assert_eq!(lines[3], "\u{2191}/\u{2193} select | Enter switch | a add | d delete | Esc close");
    assert_eq!(lines.len(), 4);
}

#[test]
fn empty_server_list_says_so() {
    let p = ServerSwitchPopup::open(Vec::new(), None);
    let lines = p.lines();
    assert_eq!(lines[0], "No servers configured");
    assert_eq!(lines[1], "");
}

#[test]
fn deletion_question_names_the_selected_server() {
    let mut p = switcher();
    p.index = 1;
    p.mode = ServerPopupMode::ConfirmDelete;
    let lines = p.lines();
    assert_eq!(lines[3], "Delete http://b:9090 ?");
    assert_eq!(lines[4], "Enter confirm | Esc cancel");
}

#[test]
fn message_comes_before_the_keys() {
    let mut p = switcher();
    p.message = Some("Server added".to_owned());
    let lines = p.lines();
    assert_eq!(lines[3], "Server added");
    assert_eq!(lines.len(), 5);
}

#[test]
fn form_masks_the_secret_and_marks_the_field() {
    let form = ServerForm {
        url: "http://c:9090".to_owned(),
        secret: "s3cr\u{e9}t".to_owned(),
        kind: ControllerKind::Mihomo,
        field: ServerFormField::Secret,
        error: Some("URL is required".to_owned()),
    };
    let lines = form.lines();
    assert_eq!(lines[0], "URL:    http://c:9090");
    assert_eq!(lines[1], "Secret: ******\u{2588}");
    assert_eq!(lines[2], "Kind:   \u{25c0} mihomo \u{25b6}");
    assert_eq!(lines[3], "");
    assert_eq!(lines[4], "URL is required");
    assert!(!lines.iter().any(|l| l.contains("s3cr")));
    let mut p = switcher();
    p.mode = ServerPopupMode::Add(form);
    assert_eq!(p.lines(), lines);
}
