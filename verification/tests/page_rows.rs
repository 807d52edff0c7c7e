use mihomoctl::json::JsonValue;
use mihomoctl::results::{parse_json, truncate, websocket_result};
use mihomoctl::model::{Connection, ConnectionWithSpeed, Metadata, Rule, RuleType};
use mihomoctl::row_text::{
    connection_figures, memory_figures, MemoryFigures, connection_line, connection_line_of, format_memory, info_row, join_with, pad_left, pad_right, rate_of_bytes, rule_line,
    size_of_bytes, utf8_length_capped,
};

fn connection(download: u64, upload: u64, destination_ip: &str, chains: &[&str]) -> ConnectionWithSpeed {
    ConnectionWithSpeed {
        connection: Connection {
            id: "c1".to_owned(),
            upload,
            download,
            metadata: Metadata {
                connection_type: "HTTP".to_owned(),
                source_ip: "192.168.1.2".to_owned(),
                source_port: "50000".to_owned(),
                destination_ip: destination_ip.to_owned(),
                destination_port: "443".to_owned(),
                host: "example.com".to_owned(),
                network: "tcp".to_owned(),
            },
            rule: RuleType::DomainSuffix,
            rule_payload: "example.com".to_owned(),
            start: 0,
            chains: chains.iter().map(|c| (*c).to_owned()).collect(),
        },
        upload: Some(3),
        download: None,
    }
}

fn memory(text: &str) -> JsonValue {
    parse_json(text).unwrap()
}

#[test]
fn small_byte_counts_are_written_in_bytes() {
    assert_eq!(size_of_bytes(0), "0 B");
    assert_eq!(size_of_bytes(1023), "1023 B");
    assert_eq!(rate_of_bytes(512), "512 B/s");
}

#[test]
fn larger_byte_counts_use_units_of_1024() {
    assert_eq!(size_of_bytes(2048), "2.0 kiB");
    assert_eq!(size_of_bytes(1536), "1.5 kiB");
    assert_eq!(rate_of_bytes(3 * 1024 * 1024), "3.0 MiB/s");
}

#[test]
fn padding_and_joining() {
    assert_eq!(pad_right("ab", 5), "ab   ");
    assert_eq!(pad_right("abcdef", 3), "abcdef");
    assert_eq!(join_with(&vec!["a".to_owned(), "b".to_owned(), "c".to_owned()], " - "), "a - b - c");
    assert_eq!(join_with(&Vec::new(), " - "), "");
    assert_eq!(utf8_length_capped("a\u{2500}b", 44), 5);
    assert_eq!(utf8_length_capped("abcdef", 4), 4);
}

#[test]
fn rule_line_has_type_column_payload_leader_and_proxy() {
    let rule = Rule { rule_type: RuleType::Match, payload: String::new(), proxy: "DIRECT".to_owned() };
    let line = rule_line(&rule);
    let expected = format!("{:16}* {} DIRECT", "Match", "\u{2500}".repeat(36));
    assert_eq!(line, expected);
    let long = Rule {
        rule_type: RuleType::DomainSuffix,
        payload: "a".repeat(40),
        proxy: "Proxy".to_owned(),
    };
    assert_eq!(rule_line(&long), format!("{:16}{} {} Proxy", "DomainSuffix", "a".repeat(40), "\u{2500}".repeat(2)));
}

#[test]
fn connection_line_lays_out_every_column() {
    let c = connection(100, 200, "1.1.1.1", &["Proxy", "DIRECT"]);
    let line = connection_line(&c, "5s");
    let from = "192.168.1.2:50000 ";
    let to = " 1.1.1.1:50000";
    let expected = format!(
        "{:45} \u{25bc}  {:12} \u{21ca}  {:12} \u{25b2}  {:12} \u{21c8}  {:12} \u{23f2}  {:10} \u{2724}  {:15} \u{21c4}  {}{}{}   \u{27f4}  {}",
        "example.com:443",
        "100 B",
        "0 B/s",
        "200 B",
        "3 B/s",
        "5s",
        "DomainSuffix",
        from,
        "\u{2500}".repeat(44 - from.len() - to.len()),
        to,
        "Proxy - DIRECT"
    );
    assert_eq!(line, expected);
}

#[test]
fn unknown_destination_shows_a_question_mark_and_the_source_port() {
    let c = connection(0, 0, "", &[]);
    let line = connection_line_of(&c, "a", "b", "c", "d", "t");
    assert!(line.contains(" ?:50000"));
    assert!(line.ends_with("   \u{27f4}  "));
}

#[test]
fn long_addresses_keep_one_dash() {
    let mut c = connection(0, 0, "2001:db8:85a3:8d3:1319:8a2e:370:7348", &[]);
    c.connection.metadata.source_ip = "2001:db8:85a3:8d3:1319:8a2e:370:7349".to_owned();
    let line = connection_line_of(&c, "a", "b", "c", "d", "t");
    assert!(line.contains("7349:50000 \u{2500} 2001:"));
}

#[test]
fn memory_figure_follows_the_report() {
    assert_eq!(format_memory(None), "?");
    assert_eq!(format_memory(Some(&memory(r#"{"inuse":100,"oslimit":200}"#))), "100 B / 200 B");
    assert_eq!(format_memory(Some(&memory(r#"{"inUse":100,"osLimit":0}"#))), "100 B");
    assert_eq!(format_memory(Some(&memory(r#"{"inuse":2048}"#))), "2.0 kiB");
    assert_eq!(format_memory(Some(&memory(r#"{"total":5}"#))), r#"{"total":5}"#);
    assert_eq!(format_memory(Some(&memory(r#"{"inuse":-1,"oslimit":5}"#))), r#"{"inuse":-1,"oslimit":5}"#);
}

#[test]
fn json_whole_numbers() {
    assert_eq!(memory("42").as_u64(), Some(42));
    assert_eq!(memory("-42").as_u64(), None);
    assert_eq!(memory("4.5").as_u64(), None);
    assert_eq!(memory("\"42\"").as_u64(), None);
    assert_eq!(JsonValue::Number("+42".to_owned()).as_u64(), None);
}

#[test]
fn memory_values_are_already_reported_in_bytes() {
    let memory = memory(&format!(r#"{{"inuse":{},"oslimit":{}}}"#, 20 * 1024 * 1024, 256 * 1024 * 1024));
    assert_eq!(format_memory(Some(&memory)), "20.0 MiB / 256.0 MiB");
}

#[test]
fn zero_os_limit_is_not_displayed_as_a_real_limit() {
    let memory = memory(&format!(r#"{{"inUse":{},"osLimit":0}}"#, 20 * 1024 * 1024));
    assert_eq!(format_memory(Some(&memory)), "20.0 MiB");
}

#[test]
fn status_rows_align_title_and_figure() {
    assert_eq!(info_row("\u{25b2} Upload", "1.5 kiB/s"), format!(" {:<13}{:>18} ", "\u{25b2} Upload", "1.5 kiB/s"));
    assert_eq!(pad_left("ab", 4), "  ab");
    assert_eq!(pad_left("abcdef", 4), "abcdef");
}

#[test]
fn websocket_replies_are_pretty_json_or_cut_text() {
    assert_eq!(websocket_result(Ok(r#"{"up":1}"#.to_owned())), "WS\n{\n  \"up\": 1\n}");
    assert_eq!(websocket_result(Ok("hello".to_owned())), "WS hello");
    assert_eq!(websocket_result(Err("closed".to_owned())), "ERR closed");
    let long = "x".repeat(200);
    let shown = websocket_result(Ok(long));
    assert_eq!(shown.len(), 160);
    assert!(shown.starts_with("WS xxx"));
    assert!(shown.ends_with("x..."));
    assert_eq!(truncate("abcdef".to_owned(), 5), "ab...");
    assert_eq!(truncate("abcde".to_owned(), 5), "abcde");
    assert_eq!(truncate("\u{e9}\u{e9}\u{e9}\u{e9}".to_owned(), 7), "\u{e9}\u{e9}...");
}

#[test]
fn memory_figures_pick_in_use_and_a_positive_limit() {
    assert_eq!(memory_figures(None), MemoryFigures::Unknown);
    assert_eq!(
        memory_figures(Some(&memory(r#"{"inuse":3000,"oslimit":9000}"#))),
        MemoryFigures::InUse { in_use: 3000, limit: Some(9000) }
    );
    assert_eq!(
        memory_figures(Some(&memory(r#"{"inUse":3000,"osLimit":0}"#))),
        MemoryFigures::InUse { in_use: 3000, limit: None }
    );
    assert_eq!(memory_figures(Some(&memory(r#"{"total":5}"#))), MemoryFigures::Unread);
}

#[test]
fn connection_figures_keep_download_and_upload_apart() {
    let c = connection(5000, 7000, "1.1.1.1", &["DIRECT"]);
    assert_eq!(connection_figures(&c), (5000, 0, 7000, 3));
}
