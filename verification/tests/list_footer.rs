use mihomoctl::footer::{footer_text, Footer, FooterColor, FooterItem};
use mihomoctl::list::{Coord, ListState};

fn label(text: &str, color: FooterColor) -> FooterItem {
    FooterItem { tag: None, text: text.to_owned(), color, bold: false, wrapped: false }
}

#[test]
fn footer_of_a_free_list_names_mode_moves_and_search() {
    let state: ListState<String> = ListState::new(vec!["a".to_owned(), "b".to_owned(), "c".to_owned()]);
    let footer = footer_text(&state, "", true);
    let blue = FooterColor::Blue;
    assert_eq!(
        footer,
        Footer {
            left: vec![
                label(" NORMAL ", blue),
                label(" SPACE / [^] ▲ ▼ ◀ ▶ Move ", blue),
                label(" / Search ", blue),
            ],
            right: vec![label(" Ln 3, Col 0 ", blue)],
        }
    );
}

#[test]
fn footer_of_a_held_paused_searching_list() {
    let mut state: ListState<String> = ListState::new(vec!["a".to_owned(), "b".to_owned()]);
    state.offset = Coord { x: 2, y: 1, hold: true };
    state.pause_enabled = true;
    state.paused = true;
    state.search_query = Some("ab".to_owned());
    let footer = footer_text(&state, "Time ▼", true);
    let green = FooterColor::Green;
    assert_eq!(
        footer.left,
        vec![
            label(" FREE ", green),
            label(" [^] ▲ ▼ ◀ ▶ Move ", green),
            label(" PAUSED ", FooterColor::Red),
            label(" p Resume ", green),
            label(" c Clear ", green),
            FooterItem { tag: Some("Sort".to_owned()), text: "Time ▼".to_owned(), color: green, bold: false, wrapped: false },
            FooterItem { tag: None, text: " SEARCH ".to_owned(), color: green, bold: true, wrapped: false },
            FooterItem { tag: None, text: "ab".to_owned(), color: FooterColor::Plain, bold: false, wrapped: true },
            label(" Esc Cancel ", green),
        ]
    );
    assert_eq!(footer.right, vec![label(" Ln 1, Col 2 ", green)]);
}

#[test]
fn footer_without_pause_or_search_keeps_to_mode_and_moves() {
    let mut state: ListState<String> = ListState::new(Vec::new());
    state.pause_enabled = true;
    let footer = footer_text(&state, "", false);
    let blue = FooterColor::Blue;
    assert_eq!(
        footer.left,
        vec![
            label(" NORMAL ", blue),
            label(" p Pause ", blue),
            label(" c Clear ", blue),
            label(" SPACE / [^] ▲ ▼ ◀ ▶ Move ", blue),
        ]
    );
    assert_eq!(footer.right, vec![label(" Ln 0, Col 0 ", blue)]);
}

#[test]
fn list_window_follows_cursor_and_stays_within_the_list() {
    let items: Vec<String> = (0..10).map(|i| i.to_string()).collect();
    let mut state: ListState<String> = ListState::new(items);
    state.offset = Coord { x: 0, y: 6, hold: true };
    // the cursor on row 6 needs a window of 4 rows to start at 3
    assert_eq!(state.settle_window(4), 3);
    assert_eq!(state.window_start, 3);
    // moving within the window keeps it
    state.offset.y = 4;
    assert_eq!(state.settle_window(4), 3);
    // a cursor past the end stays on the last row, and the window ends there
    state.offset.y = 40;
    assert_eq!(state.settle_window(4), 6);
}

#[test]
fn drawn_rows_show_newest_first_with_numbers_and_cursor() {
    let items: Vec<String> = (0..5).map(|i| i.to_string()).collect();
    let mut state: ListState<String> = ListState::new(items);
    state.with_index();
    state.offset = Coord { x: 0, y: 2, hold: true };
    let rows = state.drawn_rows(1, 3);
    let items: Vec<usize> = rows.iter().map(|r| r.item_index).collect();
    let numbers: Vec<Option<usize>> = rows.iter().map(|r| r.number).collect();
    let focused: Vec<bool> = rows.iter().map(|r| r.focused).collect();
    assert_eq!(items, vec![3, 2, 1]);
    assert_eq!(numbers, vec![Some(2), Some(3), Some(4)]);
    assert_eq!(focused, vec![false, true, false]);
    assert!(state.drawn_rows(5, 3).is_empty());
}

#[test]
fn empty_list_draws_its_placeholder() {
    let mut state: ListState<String> = ListState::new(Vec::new());
    assert_eq!(state.placeholder_text(), "Nothing's here yet");
    state.placeholder = Some("No logs".to_owned());
    assert_eq!(state.placeholder_text(), "No logs");
}
