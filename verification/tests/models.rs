use axum_app::text::trim;
use axum_app::todos::{TodoCreateInput, TodoUpdateInput};

fn create(title: &str) -> Result<TodoCreateInput, &'static str> {
    TodoCreateInput { title: title.to_string() }.normalize_and_validate()
}

fn update(title: Option<&str>, completed: Option<bool>) -> Result<TodoUpdateInput, &'static str> {
    TodoUpdateInput { title: title.map(|t| t.to_string()), completed }.normalize_and_validate()
}

#[test]
fn create_title_is_trimmed() {
    let v = create("  write tests \n").unwrap();
    assert_eq!(v.title, "write tests");
}

#[test]
fn create_title_keeps_inner_spaces() {
    let v = create("\t buy  milk\r").unwrap();
    assert_eq!(v.title, "buy  milk");
}

#[test]
fn create_title_unicode_white_space_is_trimmed() {
    let v = create("\u{3000}\u{a0}task\u{2029}\u{85}").unwrap();
    assert_eq!(v.title, "task");
}

#[test]
fn create_rejects_empty_title() {
    assert_eq!(create("").err(), Some("title cannot be empty"));
}

#[test]
fn create_rejects_blank_title() {
    assert_eq!(create(" \t\n\u{2003} ").err(), Some("title cannot be empty"));
}

#[test]
fn create_normalization_is_idempotent() {
    let once = create("  a b  ").unwrap();
    let twice = once.normalize_and_validate().unwrap();
    assert_eq!(twice.title, "a b");
}

#[test]
fn update_trims_title_and_keeps_completed() {
    let v = update(Some("  updated title "), Some(true)).unwrap();
    assert_eq!(v.title.as_deref(), Some("updated title"));
    assert_eq!(v.completed, Some(true));
}

#[test]
fn update_completed_only() {
    let v = update(None, Some(false)).unwrap();
    assert_eq!(v.title, None);
    assert_eq!(v.completed, Some(false));
}

#[test]
fn update_rejects_blank_title() {
    assert_eq!(update(Some("   "), Some(true)).err(), Some("title cannot be empty"));
}

#[test]
fn update_rejects_blank_title_before_missing_fields() {
    assert_eq!(update(Some(" "), None).err(), Some("title cannot be empty"));
}

#[test]
fn update_rejects_empty_payload() {
    assert_eq!(update(None, None).err(), Some("at least one field must be provided"));
}

#[test]
fn update_normalization_is_idempotent() {
    let once = update(Some(" x "), None).unwrap();
    let twice = once.normalize_and_validate().unwrap();
    assert_eq!(twice.title.as_deref(), Some("x"));
    assert_eq!(twice.completed, None);
}

#[test]
fn trim_agrees_with_std() {
    for s in ["", " ", "a", " a ", "\u{3000}x y\u{200a}", "\t\n", "ab\u{85}", "\u{180e}z\u{180e}", "\u{e9} \u{2028}"] {
        assert_eq!(trim(s), s.trim());
    }
}
