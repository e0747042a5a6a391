use post_processing::selection_resolver::{SelectionContext, SelectionResolver, SelectionType};

#[test]
fn test_text_selection() {
    let ctx = SelectionContext::text("Hello, world!".to_string());
    assert_eq!(ctx.selection_type, SelectionType::Text);
    assert!(ctx.has_text());
    assert!(!ctx.has_image());
    assert!(ctx.has_selection());
}

#[test]
fn test_image_selection() {
    let ctx = SelectionContext::image("data:image/png;base64,abc123".to_string());
    assert_eq!(ctx.selection_type, SelectionType::Image);
    assert!(!ctx.has_text());
    assert!(ctx.has_image());
    assert!(ctx.has_selection());
}

#[test]
fn test_none_selection() {
    let ctx = SelectionContext::none();
    assert_eq!(ctx.selection_type, SelectionType::Empty);
    assert!(!ctx.has_text());
    assert!(!ctx.has_image());
    assert!(!ctx.has_selection());
}

#[test]
fn test_empty_text_not_selected() {
    let ctx = SelectionResolver::resolve_text_selection(Some("   ".to_string()));
    assert_eq!(ctx.selection_type, SelectionType::Empty);
}

#[test]
fn text_selection_keeps_surrounding_whitespace() {
    let ctx = SelectionResolver::resolve_text_selection(Some("  hi ".to_string()));
    assert_eq!(ctx.selection_type, SelectionType::Text);
    assert_eq!(ctx.selected_text, Some("  hi ".to_string()));
    assert_eq!(ctx.selection, Some("  hi ".to_string()));
    assert_eq!(ctx.selected_image, None);
}

#[test]
fn unicode_whitespace_is_blank() {
    let ctx = SelectionResolver::resolve_text_selection(Some("\u{3000}\t\n\u{a0}".to_string()));
    assert_eq!(ctx.selection_type, SelectionType::Empty);
    assert!(!ctx.has_selection());
}

#[test]
fn missing_text_is_no_selection() {
    let ctx = SelectionResolver::resolve_text_selection(None);
    assert!(!ctx.has_selection());
    assert_eq!(ctx.selection, None);
}

#[test]
fn image_selection_resolution() {
    let ctx = SelectionResolver::resolve_image_selection(Some("data:x".to_string()));
    assert!(ctx.has_image());
    assert_eq!(ctx.selected_image, Some("data:x".to_string()));
    let empty = SelectionResolver::resolve_image_selection(Some(String::new()));
    assert!(!empty.has_selection());
    let whitespace = SelectionResolver::resolve_image_selection(Some(" ".to_string()));
    assert!(whitespace.has_image());
    assert!(!SelectionResolver::resolve_image_selection(None).has_selection());
}

#[test]
fn resolve_dispatches_on_kind() {
    let img = SelectionResolver::resolve(Some("abc".to_string()), true);
    assert_eq!(img.selection_type, SelectionType::Image);
    let txt = SelectionResolver::resolve(Some("abc".to_string()), false);
    assert_eq!(txt.selection_type, SelectionType::Text);
    let blank = SelectionResolver::resolve(Some("  ".to_string()), false);
    assert_eq!(blank.selection_type, SelectionType::Empty);
}

#[test]
fn defaults_are_empty() {
    assert_eq!(SelectionType::default(), SelectionType::Empty);
    let ctx = SelectionContext::default();
    assert_eq!(ctx.selection_type, SelectionType::Empty);
    assert_eq!(ctx.selected_text, None);
}
