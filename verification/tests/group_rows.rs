use mihomoctl::group_rows::{Badge, DelayCell, GroupRow, LatencyLevel, NameStyle, RowMarker};
use mihomoctl::model::{History, ProxyType};
use mihomoctl::proxy::{ProxyGroup, ProxyGroupFocusStatus, ProxyItem};

fn member(name: &str, proxy_type: ProxyType, delay: Option<u64>) -> ProxyItem {
    ProxyItem { name: name.to_owned(), proxy_type, history: delay.map(|delay| History { delay }), udp: None, now: None }
}

fn sample() -> ProxyGroup {
    ProxyGroup {
        name: "Proxy".to_owned(),
        proxy_type: ProxyType::Selector,
        members: vec![
            member("fast", ProxyType::Vmess, Some(120)),
            member("mid", ProxyType::Trojan, Some(300)),
            member("slow", ProxyType::Vless, Some(900)),
            member("DIRECT", ProxyType::Direct, None),
            member("dead", ProxyType::Vmess, Some(0)),
        ],
        current: Some(1),
        cursor: 2,
    }
}

#[test]
fn summary_badges_follow_latency_levels() {
    assert_eq!(
        sample().get_summary_widget(),
        vec![
            Badge::Latency(LatencyLevel::Low),
            Badge::Latency(LatencyLevel::Mid),
            Badge::Latency(LatencyLevel::High),
            Badge::NotProxy,
            Badge::Latency(LatencyLevel::Unknown),
        ]
    );
}

#[test]
fn collapsed_group_wraps_badges_into_rows() {
    // width 10 leaves room for (10 - 4) / 2 = 3 badges per row
    let rows = sample().get_widget(10, ProxyGroupFocusStatus::Focused);
    assert_eq!(
        rows,
        vec![
            GroupRow::Header {
                marker: RowMarker::Focused,
                name: "Proxy".to_owned(),
                proxy_type: ProxyType::Selector,
                count: "5".to_owned(),
            },
            GroupRow::Badges(vec![
                Badge::Latency(LatencyLevel::Low),
                Badge::Latency(LatencyLevel::Mid),
                Badge::Latency(LatencyLevel::High),
            ]),
            GroupRow::Badges(vec![Badge::NotProxy, Badge::Latency(LatencyLevel::Unknown)]),
        ]
    );
}

#[test]
fn opened_group_lists_shown_members_with_cursor_place() {
    let g = sample();
    let rows = g.get_filtered_widget(40, ProxyGroupFocusStatus::Expanded, Some(&[1, 2, 3]), 1);
    assert_eq!(
        rows,
        vec![
            GroupRow::Header {
                marker: RowMarker::Unfocused,
                name: "Proxy".to_owned(),
                proxy_type: ProxyType::Selector,
                count: "2/3".to_owned(),
            },
            GroupRow::Member {
                marker: RowMarker::MemberFocused,
                name: "slow".to_owned(),
                style: NameStyle::Pointed,
                proxy_type: ProxyType::Vless,
                delay: DelayCell::Millis(900),
            },
            GroupRow::Member {
                marker: RowMarker::Member,
                name: "DIRECT".to_owned(),
                style: NameStyle::Plain,
                proxy_type: ProxyType::Direct,
                delay: DelayCell::Blank,
            },
        ]
    );
}

#[test]
fn opened_group_counts_from_first_when_cursor_is_hidden() {
    let g = sample();
    let rows = g.get_filtered_widget(40, ProxyGroupFocusStatus::Expanded, Some(&[0, 1, 4]), 0);
    assert_eq!(rows.len(), 4);
    assert_eq!(
        rows[0],
        GroupRow::Header {
            marker: RowMarker::Unfocused,
            name: "Proxy".to_owned(),
            proxy_type: ProxyType::Selector,
            count: "1/3".to_owned(),
        }
    );
    assert_eq!(
        rows[2],
        GroupRow::Member {
            marker: RowMarker::Member,
            name: "mid".to_owned(),
            style: NameStyle::Current,
            proxy_type: ProxyType::Trojan,
            delay: DelayCell::Millis(300),
        }
    );
    assert!(matches!(rows[3], GroupRow::Member { delay: DelayCell::NoLatency, .. }));
}

#[test]
fn collapsed_rows_number_the_collapsed_height() {
    let g = sample();
    for width in [6usize, 7, 8, 10, 13, 40] {
        let rows = g.get_widget(width, ProxyGroupFocusStatus::Unfocused);
        assert_eq!(rows.len(), g.collapsed_height(width, None));
        let some = g.get_filtered_widget(width, ProxyGroupFocusStatus::Focused, Some(&[0, 2, 4]), 0);
        assert_eq!(some.len(), g.collapsed_height(width, Some(&[0, 2, 4])));
    }
}
