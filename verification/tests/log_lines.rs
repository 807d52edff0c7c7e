use mihomoctl::logs::{format_log_payload, log_line};

#[test]
fn structured_log_payload_is_rendered_readably() {
    let payload = r#"{"time":"2026-07-03T01:02:03Z","level":"info","message":"proxy connected","fields":{"proxy":"DIRECT","rule":"MATCH"}}"#;

    let rendered = log_line("info", payload);
    assert!(rendered.contains("proxy connected"));
    assert!(rendered.contains("proxy=DIRECT"));
    assert!(rendered.contains("rule=MATCH"));
    assert!(!rendered.contains(r#""fields""#));
}

#[test]
fn log_payloads_keep_plain_text_and_print_other_values_as_json() {
    assert_eq!(format_log_payload("plain text"), "plain text");
    assert_eq!(format_log_payload("[1,2]"), "[1,2]");
    assert_eq!(format_log_payload(r#"{"other":1}"#), r#"{"other":1}"#);
    assert_eq!(
        format_log_payload(r#"{"message":"m","fields":{"a":1,"b":[true,null],"c":"x"}}"#),
        "m a=1 b=[true,null] c=x"
    );
    assert_eq!(format_log_payload(r#"{"fields":{"k":"v"}}"#), "k=v");
    assert_eq!(log_line("warning", "x"), "WARNING x");
    assert_eq!(log_line("info", "x"), "INFO  x");
}
