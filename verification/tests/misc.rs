use manuscript::libs::text_metrics::get_margin_indent;
use manuscript::services::i18n::translators_list;
use manuscript::widgets::editors::EditorWidgetFocusResult;
use manuscript::widgets::progress_indicator::ManuscriptProgressIndicator;

#[test]
fn progress_is_a_percentage() {
    let mut p = ManuscriptProgressIndicator::new();
    assert_eq!(p.progress(), 0);
    p.set_minimum(0);
    p.set_maximum(200);
    p.set_value(50);
    assert_eq!(p.progress(), 25);
    p.set_value(200);
    assert_eq!(p.progress(), 100);
    p.set_value(0);
    assert_eq!(p.progress(), 0);
}

#[test]
fn progress_rounds_toward_zero() {
    let mut p = ManuscriptProgressIndicator::default();
    p.set_minimum(10);
    p.set_maximum(13);
    p.set_value(11);
    assert_eq!(p.progress(), 33);
    p.set_value(9);
    assert_eq!(p.progress(), -33);
}

#[test]
fn progress_of_empty_range_is_zero() {
    let mut p = ManuscriptProgressIndicator::new();
    p.set_minimum(5);
    p.set_maximum(5);
    p.set_value(100);
    assert_eq!(p.progress(), 0);
    p.set_maximum(1);
    assert_eq!(p.progress(), 0);
}

#[test]
fn progress_indicator_accessors() {
    let mut p = ManuscriptProgressIndicator::new();
    assert!(!p.show_label());
    p.set_show_label(true);
    assert!(p.show_label());
    p.set_value(3);
    p.set_minimum(1);
    p.set_maximum(9);
    assert_eq!((p.value(), p.minimum(), p.maximum()), (3, 1, 9));
}

#[test]
fn margin_and_indent_from_levels() {
    assert_eq!(get_margin_indent(0, 0, 40, 8), (40, 0));
    assert_eq!(get_margin_indent(-2, 0, 40, 8), (24, 0));
    assert_eq!(get_margin_indent(2, 1, 40, 8), (56, 8));
    assert_eq!(get_margin_indent(-10, 3, 40, 8), (0, 24));
}

#[test]
fn focus_results() {
    assert_eq!(EditorWidgetFocusResult::from_grab(None), EditorWidgetFocusResult::Unfocusable);
    assert_eq!(EditorWidgetFocusResult::from_grab(Some(true)), EditorWidgetFocusResult::Focused);
    assert_eq!(
        EditorWidgetFocusResult::from_grab(Some(false)),
        EditorWidgetFocusResult::NotFocused
    );
}

#[test]
fn translators_are_listed() {
    assert_eq!(translators_list(), vec!["Andrea Coronese (English, Italian)"]);
}
