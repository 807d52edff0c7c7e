use mihomoctl::event::{KeyCode, ListEvent};
use mihomoctl::list::ListState;

#[test]
fn list_search_filters_to_matching_items() {
    let mut state: ListState<String> = ListState::new(vec![
        "old needle".to_owned(),
        "middle row".to_owned(),
        "new needle".to_owned(),
    ]);

    state.begin_search();
    for ch in "needle".chars() {
        state.input_search_char(ch);
    }

    assert!(state.is_searching());
    assert_eq!(state.search_query(), Some("needle"));
    assert_eq!(state.visible_len(), 2);
    assert_eq!(state.offset.y, 0);
}

#[test]
fn list_search_restores_full_position_on_cancel() {
    let mut state: ListState<String> =
        ListState::new(vec!["alpha".to_owned(), "needle row".to_owned(), "omega".to_owned()]);

    state.begin_search();
    for ch in "needle".chars() {
        state.input_search_char(ch);
    }

    assert_eq!(state.visible_len(), 1);
    assert_eq!(state.offset.y, 0);

    state.cancel_search();

    assert!(!state.is_searching());
    assert_eq!(state.search_query(), None);
    assert_eq!(state.visible_len(), 3);
    assert_eq!(state.offset.y, 1);
}

#[test]
fn search_is_case_insensitive_and_backspace_widens_it() {
    let mut state: ListState<String> =
        ListState::new(vec!["Alpha".to_owned(), "beta".to_owned(), "ALPINE".to_owned()]);
    state.begin_search();
    for ch in "alpx".chars() {
        state.input_search_char(ch);
    }
    assert_eq!(state.visible_len(), 0);
    state.backspace_search();
    assert_eq!(state.search_query(), Some("alp"));
    assert_eq!(state.visible_len(), 2);
    assert_eq!(state.visible_item_index(1), Some(2));
}

#[test]
fn list_cursor_moves_within_the_items() {
    let mut state: ListState<String> =
        ListState::new(vec!["a".to_owned(), "b".to_owned(), "c".to_owned()]);
    state.handle(ListEvent { fast: false, code: KeyCode::Down });
    assert_eq!(state.offset.y, 1);
    assert!(state.offset.hold);
    state.handle(ListEvent { fast: true, code: KeyCode::Down });
    assert_eq!(state.offset.y, 2);
    state.handle(ListEvent { fast: false, code: KeyCode::Up });
    assert_eq!(state.offset.y, 1);
    state.handle(ListEvent { fast: true, code: KeyCode::Up });
    assert_eq!(state.offset.y, 0);
}
