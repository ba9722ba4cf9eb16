use delineate::age::{age_label, AgeLabel, MICROS_PER_DAY, MICROS_PER_MINUTE};
use delineate::document::{DiscardAction, Document, DocumentOpError};
use delineate::gutter::ErrorGutter;
use delineate::page::Page;
use delineate::render_error::RenderErrorAction;
use delineate::session::{
    active_page_index, any_modified, effective_window_size, inhibit_change, modified_indices,
    plan_open_files, InhibitChange, OpenFilesPlan, PageState, SelectionState, SessionFlags,
    DEFAULT_WINDOW_HEIGHT, DEFAULT_WINDOW_WIDTH,
};
use delineate::settings::Settings;
use delineate::LayoutEngine;

fn page_state(is_active: bool) -> PageState {
    PageState {
        paned_position: 100,
        is_active,
        uri: None,
        selection: SelectionState { start_line: 0, start_line_offset: 0, end_line: 0, end_line_offset: 0 },
        layout_engine: LayoutEngine::Dot,
    }
}

#[test]
fn age_labels_at_the_boundaries() {
    assert_eq!(age_label(-1), AgeLabel::Hidden);
    assert_eq!(age_label(0), AgeLabel::JustNow);
    assert_eq!(age_label(45 * MICROS_PER_MINUTE - 1), AgeLabel::JustNow);
    assert_eq!(age_label(45 * MICROS_PER_MINUTE), AgeLabel::AnHourAgo);
    assert_eq!(age_label(90 * MICROS_PER_MINUTE), AgeLabel::Yesterday);
    assert_eq!(age_label(2 * MICROS_PER_DAY), AgeLabel::Weekday);
    assert_eq!(age_label(7 * MICROS_PER_DAY), AgeLabel::MonthDay);
    assert_eq!(age_label(365 * MICROS_PER_DAY), AgeLabel::AboutAYear);
    assert_eq!(age_label(547 * MICROS_PER_DAY), AgeLabel::Years(1));
    assert_eq!(age_label(3 * 365 * MICROS_PER_DAY), AgeLabel::Years(3));
}

#[test]
fn document_lifecycle() {
    let mut d = Document::new();
    assert!(d.is_draft());
    assert!(d.is_safely_discardable());
    assert_eq!(d.begin_load(), Err(DocumentOpError::Draft));
    assert_eq!(d.begin_save(), Err(DocumentOpError::Draft));
    assert_eq!(d.begin_save_as("file:///a.gv".to_string()), Ok(()));
    assert!(d.busy);
    assert_eq!(d.begin_save(), Err(DocumentOpError::Busy));
    d.finish_save();
    assert!(!d.busy);
    assert!(!d.is_draft());
    assert_eq!(d.uri, Some("file:///a.gv".to_string()));
    assert_eq!(d.begin_load(), Ok(()));
    d.finish_load();
    d.modified_flag = true;
    assert!(d.is_modified());
    assert!(!d.is_safely_discardable());
    assert_eq!(d.begin_discard(), Ok(DiscardAction::Reload));
    d.finish_load();
    d.modified_flag = false;
    assert!(!d.is_modified());
}

#[test]
fn draft_discard_clears_in_place() {
    let mut d = Document::new();
    d.modified_flag = true;
    assert_eq!(d.begin_discard(), Ok(DiscardAction::ClearBuffer));
    assert!(!d.is_modified());
}

#[test]
fn edits_while_loading_do_not_count() {
    let mut d = Document::for_uri("file:///a.gv".to_string());
    d.loading = true;
    d.modified_flag = true;
    assert!(!d.is_modified());
    let (notify_title, emit_changed) = d.edit_effects();
    assert!(!notify_title);
    assert!(!emit_changed);
    d.loading = false;
    assert!(d.is_modified());
}

#[test]
fn page_debounce_flow() {
    let mut page = Page::new();
    assert!(!page.render_tick());
    // A change while idle cuts the timer short; one while rendering waits.
    assert!(page.text_changed(false));
    assert!(!page.queue_draw_graph(true));
    assert!(page.render_tick());
    assert!(!page.render_tick());
}

#[test]
fn page_remembers_the_syntax_error_line() {
    let mut page = Page::new();
    let r = page.handle_render_error(b"syntax error in line 5");
    assert_eq!(r, RenderErrorAction::MarkLine(4));
    assert_eq!(page.error_line(), Some(4));
    assert!(page.reveal_go_to_error(false));
    assert!(!page.reveal_go_to_error(true));
    let r = page.handle_render_error(b"something else went wrong");
    assert_eq!(r, RenderErrorAction::Notify);
    assert_eq!(page.error_line(), Some(4));
    page.text_changed(false);
    assert_eq!(page.error_line(), None);
    assert!(!page.reveal_go_to_error(false));
}

#[test]
fn gutter_marks() {
    let mut gutter = ErrorGutter::new();
    assert!(!gutter.has_error_on(3));
    gutter.set_error(3, "syntax error in line 4".to_string());
    assert!(gutter.has_error_on(3));
    assert_eq!(gutter.message_for(3), Some(&"syntax error in line 4".to_string()));
    assert_eq!(gutter.message_for(4), None);
    assert!(gutter.any_error_in(0, 10));
    assert!(!gutter.any_error_in(4, 10));
    assert!(gutter.update_visible_errors(0, 10));
    assert!(gutter.has_visible_errors());
    assert!(gutter.update_visible_errors(5, 10));
    assert!(!gutter.has_visible_errors());
    gutter.clear_errors();
    assert!(!gutter.has_error_on(3));
}

#[test]
fn open_files_plans() {
    let no_files: Vec<String> = vec![];
    let open: Vec<Vec<Option<String>>> = vec![
        vec![None, Some("file:///a.gv".to_string())],
        vec![Some("file:///b.gv".to_string())],
    ];
    assert_eq!(plan_open_files(&no_files, &open, false), OpenFilesPlan::Ignore);

    let two = vec!["file:///x.gv".to_string(), "file:///y.gv".to_string()];
    assert_eq!(plan_open_files(&two, &open, true), OpenFilesPlan::LoadAllInNewPages);

    let known = vec!["file:///b.gv".to_string()];
    assert_eq!(plan_open_files(&known, &open, true), OpenFilesPlan::Present { window: 1, page: 0 });

    let also_known = vec!["file:///a.gv".to_string()];
    assert_eq!(
        plan_open_files(&also_known, &open, true),
        OpenFilesPlan::Present { window: 0, page: 1 }
    );

    let new_one = vec!["file:///x.gv".to_string()];
    assert_eq!(plan_open_files(&new_one, &open, true), OpenFilesPlan::LoadInSelected);
    assert_eq!(plan_open_files(&new_one, &open, false), OpenFilesPlan::LoadInNewPage);
}

#[test]
fn modified_bookkeeping() {
    let flags = vec![false, true, false, true];
    assert_eq!(modified_indices(&flags), vec![1, 3]);
    assert!(any_modified(&flags));
    assert!(!any_modified(&vec![false, false]));
    assert_eq!(modified_indices(&vec![]), Vec::<usize>::new());
}

#[test]
fn inhibit_decisions() {
    assert_eq!(inhibit_change(true, false), InhibitChange::Acquire);
    assert_eq!(inhibit_change(false, true), InhibitChange::Release);
    assert_eq!(inhibit_change(true, true), InhibitChange::Keep);
    assert_eq!(inhibit_change(false, false), InhibitChange::Keep);
}

#[test]
fn window_sizes() {
    assert_eq!(effective_window_size(800, 500), (800, 500));
    assert_eq!(effective_window_size(0, 500), (DEFAULT_WINDOW_WIDTH, DEFAULT_WINDOW_HEIGHT));
    assert_eq!(effective_window_size(800, -1), (DEFAULT_WINDOW_WIDTH, DEFAULT_WINDOW_HEIGHT));
}

#[test]
fn last_active_page_is_selected() {
    let pages = vec![page_state(false), page_state(true), page_state(false)];
    assert_eq!(active_page_index(&pages), Some(1));
    let none_active = vec![page_state(false), page_state(false)];
    assert_eq!(active_page_index(&none_active), None);
    let two_active = vec![page_state(true), page_state(true)];
    assert_eq!(active_page_index(&two_active), Some(1));
    assert_eq!(active_page_index(&vec![]), None);
}

#[test]
fn session_dirty_flag_batches_saves() {
    let mut flags = SessionFlags::new();
    assert!(flags.mark_dirty());
    assert!(!flags.mark_dirty());
    flags.begin_save();
    assert!(!flags.is_dirty);
    assert!(flags.mark_dirty());
}

#[test]
fn default_settings() {
    let s = Settings::default();
    assert_eq!(s.window_width, DEFAULT_WINDOW_WIDTH);
    assert_eq!(s.window_height, DEFAULT_WINDOW_HEIGHT);
    assert!(!s.is_maximized);
    assert_eq!(s.layout_engine, LayoutEngine::Dot);
}
