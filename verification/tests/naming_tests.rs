use delineate::document::style_scheme_candidates;
use delineate::naming::{draft_file_name, suggested_file_name, window_title};
use delineate::preview::js_call_body;
use delineate::save_changes::{checked_count, save_changes_plan, SaveChangesResponse};
use delineate::search::{recents_stack_page, RecentsStackPage};
use delineate::Format;

#[test]
fn suggested_names() {
    assert_eq!(suggested_file_name(b"pipeline", b"svg"), b"pipeline.svg");
    assert_eq!(
        suggested_file_name(b"pipeline", Format::Png.extension().as_bytes()),
        b"pipeline.png"
    );
    assert_eq!(suggested_file_name(b"", b"svg"), b".svg");
}

#[test]
fn draft_names_end_in_gv() {
    assert_eq!(draft_file_name(b"untitled"), b"untitled.gv");
    assert_eq!(draft_file_name(b""), b".gv");
}

#[test]
fn encoder_types() {
    assert_eq!(Format::Svg.encoder_type(), None);
    assert_eq!(Format::Png.encoder_type(), Some("png"));
    assert_eq!(Format::Jpeg.encoder_type(), Some("jpeg"));
}

#[test]
fn window_titles() {
    assert_eq!(window_title(None, b"Delineate"), b"Delineate");
    let page = b"pipeline".to_vec();
    assert_eq!(window_title(Some(&page), b"Delineate"), b"pipeline - Delineate");
}

#[test]
fn popover_stack_pages() {
    assert_eq!(recents_stack_page(0, 0, true), RecentsStackPage::Empty);
    assert_eq!(recents_stack_page(3, 0, false), RecentsStackPage::EmptySearch);
    assert_eq!(recents_stack_page(3, 2, false), RecentsStackPage::List);
    assert_eq!(recents_stack_page(3, 3, true), RecentsStackPage::List);
}

#[test]
fn save_changes_plans() {
    let checked = vec![true, false, true];
    assert_eq!(checked_count(&checked), 2);
    assert_eq!(checked_count(&vec![]), 0);

    let (proceed, to_save) = save_changes_plan(SaveChangesResponse::Cancel, &checked);
    assert!(!proceed);
    assert!(to_save.is_empty());

    let (proceed, to_save) = save_changes_plan(SaveChangesResponse::Discard, &checked);
    assert!(proceed);
    assert!(to_save.is_empty());

    let (proceed, to_save) = save_changes_plan(SaveChangesResponse::Save, &checked);
    assert!(proceed);
    assert_eq!(to_save, vec![0, 2]);
}

#[test]
fn js_call_bodies() {
    assert_eq!(js_call_body(b"resetZoom", 0), b"return graphView.resetZoom()");
    assert_eq!(js_call_body(b"setZoomLevelBy", 1), b"return graphView.setZoomLevelBy(arg0)");
    assert_eq!(js_call_body(b"setData", 2), b"return graphView.setData(arg0, arg1)");
    assert_eq!(
        js_call_body(b"m", 11),
        b"return graphView.m(arg0, arg1, arg2, arg3, arg4, arg5, arg6, arg7, arg8, arg9, arg10)"
            .as_slice()
    );
}

#[test]
fn format_index_round_trip() {
    for i in 0u32..3 {
        assert_eq!(Format::from_index(i).unwrap().index(), i);
    }
    assert!(Format::from_index(3).is_none());
}

#[test]
fn style_schemes_follow_the_theme() {
    assert_eq!(style_scheme_candidates(true), ("Adwaita-dark", "classic-dark"));
    assert_eq!(style_scheme_candidates(false), ("Adwaita", "classic"));
}

#[test]
fn application_and_cancelled_wording() {
    assert_eq!(delineate::naming::application_name(), "Delineate");
    assert_eq!(delineate::cancelled::Cancelled.message(), "Task cancelled");
}
