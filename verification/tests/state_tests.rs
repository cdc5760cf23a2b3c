use git_cliff_tui::document::{build_document, DocBlock, ViewDocument};
use git_cliff_tui::geometry::Rect;
use git_cliff_tui::state::{GenerationStatus, PaneContent, State};

fn profiles(names: &[&str]) -> Vec<String> {
    names.iter().map(|n| n.to_string()).collect()
}

fn doc_of_height(height: usize) -> ViewDocument {
    ViewDocument {
        raw: b"content".to_vec(),
        blocks: vec![DocBlock {
            content: b"content".to_vec(),
            height,
            offset: 0,
        }],
        total_height: height,
    }
}

#[test]
fn new_state_starts_idle_on_the_first_profile() {
    let state = State::new(profiles(&["keepachangelog", "github"]), true);
    assert_eq!(state.configs.len(), 2);
    assert_eq!(state.configs[0].name, "keepachangelog");
    assert!(!state.configs[0].is_hovered);
    assert_eq!(state.selected_index, 0);
    assert_eq!(state.epoch, 0);
    assert_eq!(state.status, GenerationStatus::Idle);
    assert!(state.document.is_none());
    assert!(state.is_running);
    assert!(state.autoload);
    assert!(state.is_toggled);
    assert!(state.clipboard_available);
}

#[test]
fn quit_clears_the_running_flag() {
    let mut state = State::new(profiles(&["a"]), false);
    state.quit();
    assert!(!state.is_running);
}

#[test]
fn selection_wraps_around_after_as_many_steps_as_profiles() {
    let mut state = State::new(profiles(&["a", "b", "c"]), false);
    assert_eq!(state.selected_index, 0);
    state.select_next();
    assert_eq!(state.selected_index, 1);
    state.select_next();
    assert_eq!(state.selected_index, 2);
    state.select_next();
    assert_eq!(state.selected_index, 0);
}

#[test]
fn selection_wraps_backwards_too() {
    let mut state = State::new(profiles(&["a", "b", "c"]), false);
    state.select_previous();
    assert_eq!(state.selected_index, 2);
    state.select_previous();
    assert_eq!(state.selected_index, 1);
    state.select_previous();
    assert_eq!(state.selected_index, 0);
}

#[test]
fn selection_on_empty_list_is_a_no_op() {
    let mut state = State::new(Vec::new(), false);
    state.select_next();
    assert_eq!(state.selected_index, 0);
    state.select_previous();
    assert_eq!(state.selected_index, 0);
}

#[test]
fn request_epochs_grow_and_stale_documents_are_discarded() {
    let mut state = State::new(profiles(&["a", "b"]), false);
    let first = state.request_generation(0);
    let second = state.request_generation(1);
    assert_eq!(first, 1);
    assert_eq!(second, 2);
    // A result for the superseded first request arrives late: nothing
    // changes, not even the status.
    state.accept_document(first, doc_of_height(3));
    assert!(state.document.is_none());
    assert_eq!(state.status, GenerationStatus::InFlight);
    // The current request's result is accepted.
    state.accept_document(second, doc_of_height(3));
    assert!(state.document.is_some());
    assert_eq!(state.status, GenerationStatus::Idle);
    assert_eq!(state.viewport.displayed_index, 1);
}

#[test]
fn stale_failures_are_discarded_too() {
    let mut state = State::new(profiles(&["a"]), false);
    let first = state.request_generation(0);
    let second = state.request_generation(0);
    state.accept_failure(first, "old failure".to_string());
    assert_eq!(state.status, GenerationStatus::InFlight);
    state.accept_failure(second, "new failure".to_string());
    assert_eq!(state.status, GenerationStatus::Failed("new failure".to_string()));
    assert_eq!(state.last_error, Some("new failure".to_string()));
}

#[test]
fn accepting_a_document_resets_the_scroll() {
    let mut state = State::new(profiles(&["a"]), false);
    state.resize(80, 2);
    state.document = Some(doc_of_height(10));
    state.viewport.scroll_index = 5;
    let epoch = state.request_generation(0);
    state.accept_document(epoch, doc_of_height(10));
    assert_eq!(state.viewport.scroll_index, 0);
}

#[test]
fn scroll_stays_clamped_to_the_document() {
    let mut state = State::new(profiles(&["a"]), false);
    state.document = Some(doc_of_height(10));
    state.resize(80, 4);
    // Max scroll is 10 - 4 = 6.
    for _ in 0..20 {
        state.scroll(1);
        assert!(state.viewport.scroll_index <= 6);
    }
    assert_eq!(state.viewport.scroll_index, 6);
    for _ in 0..20 {
        state.scroll(-1);
    }
    assert_eq!(state.viewport.scroll_index, 0);
    state.scroll(3);
    assert_eq!(state.viewport.scroll_index, 3);
    state.scroll(100);
    assert_eq!(state.viewport.scroll_index, 6);
    state.scroll(-100);
    assert_eq!(state.viewport.scroll_index, 0);
}

#[test]
fn scroll_without_a_document_stays_at_zero() {
    let mut state = State::new(profiles(&["a"]), false);
    state.scroll(1);
    assert_eq!(state.viewport.scroll_index, 0);
}

#[test]
fn resize_reclamps_the_scroll_offset() {
    let mut state = State::new(profiles(&["a"]), false);
    state.document = Some(doc_of_height(10));
    state.resize(80, 4);
    state.scroll(6);
    assert_eq!(state.viewport.scroll_index, 6);
    // A taller viewport leaves less to scroll: 10 - 8 = 2.
    state.resize(80, 8);
    assert_eq!(state.viewport.scroll_index, 2);
    assert_eq!(state.viewport.width, 80);
    assert_eq!(state.viewport.height, 8);
}

#[test]
fn hover_marks_exactly_the_profiles_under_the_cursor() {
    let mut state = State::new(profiles(&["a", "b", "c"]), false);
    state.configs[0].area = Rect { x: 0, y: 0, width: 10, height: 1 };
    state.configs[1].area = Rect { x: 0, y: 1, width: 10, height: 1 };
    state.configs[2].area = Rect { x: 0, y: 2, width: 10, height: 1 };
    state.hover_test(5, 1);
    assert!(!state.configs[0].is_hovered);
    assert!(state.configs[1].is_hovered);
    assert!(!state.configs[2].is_hovered);
    // Moving outside every rectangle clears all marks.
    state.hover_test(50, 1);
    assert!(state.configs.iter().all(|c| !c.is_hovered));
}

#[test]
fn first_hovered_returns_the_topmost_match() {
    let mut state = State::new(profiles(&["a", "b"]), false);
    assert_eq!(state.first_hovered(), None);
    state.configs[0].is_hovered = true;
    state.configs[1].is_hovered = true;
    assert_eq!(state.first_hovered(), Some(0));
}

#[test]
fn rect_contains_its_cells_and_nothing_else() {
    let r = Rect { x: 2, y: 3, width: 4, height: 2 };
    assert!(r.contains(2, 3));
    assert!(r.contains(5, 4));
    assert!(!r.contains(6, 3));
    assert!(!r.contains(2, 5));
    assert!(!r.contains(1, 3));
    let empty = Rect { x: 0, y: 0, width: 0, height: 0 };
    assert!(!empty.contains(0, 0));
}

#[test]
fn copy_needs_a_clipboard_and_a_document() {
    let mut state = State::new(profiles(&["a"]), false);
    assert_eq!(state.copy_to_clipboard(), None);
    state.document = Some(build_document(b"# v1.0\nNotes".to_vec()).unwrap());
    assert_eq!(state.copy_to_clipboard(), None);
    state.clipboard_available = true;
    assert_eq!(state.copy_to_clipboard(), Some(b"# v1.0\nNotes".to_vec()));
}

#[test]
fn tick_advances_the_spinner_only_in_flight() {
    let mut state = State::new(profiles(&["a"]), false);
    state.tick();
    assert_eq!(state.spinner_step, 0);
    state.request_generation(0);
    state.tick();
    state.tick();
    assert_eq!(state.spinner_step, 2);
}

#[test]
fn toggles_flip_their_flags() {
    let mut state = State::new(profiles(&["a"]), false);
    state.toggle_autoload();
    assert!(!state.autoload);
    state.toggle_sidebar();
    assert!(!state.is_toggled);
    state.toggle_unreleased();
    assert!(state.args.unreleased);
    state.toggle_latest();
    assert!(state.args.latest);
    state.toggle_latest();
    assert!(!state.args.latest);
}

#[test]
fn pane_shows_the_failure_in_place_of_the_document() {
    let mut state = State::new(profiles(&["a"]), false);
    assert_eq!(state.pane_content(), PaneContent::Empty);
    state.document = Some(doc_of_height(1));
    assert_eq!(state.pane_content(), PaneContent::Document);
    let epoch = state.request_generation(0);
    state.accept_failure(epoch, "bad config".to_string());
    assert_eq!(
        state.pane_content(),
        PaneContent::ErrorMessage("bad config".to_string())
    );
}

#[test]
fn sidebar_width_fits_the_widest_name() {
    let mut state = State::new(profiles(&["ab", "keepachangelog"]), false);
    // The widest name has 14 bytes; six columns of decoration are added.
    assert_eq!(state.sidebar_width(), 20);
    state.toggle_sidebar();
    assert_eq!(state.sidebar_width(), 0);
}

#[test]
fn sidebar_width_of_an_empty_list_is_zero() {
    let state = State::new(Vec::new(), false);
    assert_eq!(state.sidebar_width(), 0);
}
