use mihomoctl::model::{History, ProxyType};
use mihomoctl::proxy::{ProxyGroup, ProxyItem, ProxyTree};

fn item(name: &str) -> ProxyItem {
    ProxyItem { name: name.to_owned(), proxy_type: ProxyType::Vmess, history: Some(History { delay: 10 }), udp: None, now: None }
}

fn group(name: &str, n: usize, cursor: usize) -> ProxyGroup {
    let members = (0..n).map(|i| item(&format!("{name}-{i}"))).collect();
    ProxyGroup { name: name.to_owned(), proxy_type: ProxyType::Selector, members, current: None, cursor }
}

#[test]
fn member_window_follows_focused_member_and_is_kept() {
    let mut tree = ProxyTree::new();
    tree.groups = vec![group("a", 20, 12)];
    // member 12 needs the window to start at 12 + 1 - 5 = 8
    assert_eq!(tree.settle_member_window(5), 8);
    assert_eq!(tree.member_window_start, 8);
    // moving within the window keeps it
    tree.groups[0].cursor = 9;
    assert_eq!(tree.settle_member_window(5), 8);
    // moving above pulls it up
    tree.groups[0].cursor = 3;
    assert_eq!(tree.settle_member_window(5), 3);
    assert_eq!(tree.member_window_start, 3);
}

#[test]
fn member_window_counts_places_among_searched_members() {
    let mut tree = ProxyTree::new();
    tree.groups = vec![group("a", 20, 15)];
    tree.visible_member_indices = vec![(0, vec![2, 7, 15, 19])];
    // member 15 is the third shown one: place 2 fits a window of 2 from 1
    assert_eq!(tree.settle_member_window(2), 1);
}

#[test]
fn group_window_moves_down_only_as_far_as_the_focused_group_needs() {
    let mut tree = ProxyTree::new();
    // width 8 leaves room for two badges per row: a group of 4 takes 1 + 2 rows
    tree.groups = vec![group("a", 4, 0), group("b", 4, 0), group("c", 4, 0), group("d", 4, 0)];
    tree.cursor = 2;
    assert_eq!(tree.settle_group_window(8, 7), 1);
    assert_eq!(tree.window_start, 1);
    tree.cursor = 1;
    assert_eq!(tree.settle_group_window(8, 7), 1);
    tree.cursor = 0;
    assert_eq!(tree.settle_group_window(8, 7), 0);
}
