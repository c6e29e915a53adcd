use rut::routes::{route, Route};
use rut::text::{contains, ends_with, eq_ignore_ascii_case, find_char, same_text, split_once_char};

#[test]
fn same_text_compares_all_chars() {
    assert!(same_text("abc", "abc"));
    assert!(!same_text("abc", "abd"));
    assert!(!same_text("abc", "ab"));
    assert!(same_text("", ""));
}

#[test]
fn ascii_case_is_ignored_only_for_ascii_letters() {
    assert!(eq_ignore_ascii_case("Authorization", "authorization"));
    assert!(eq_ignore_ascii_case("AUTHORIZATION", "Authorization"));
    assert!(!eq_ignore_ascii_case("Authorisation", "Authorization"));
    assert!(!eq_ignore_ascii_case("Ä", "ä"));
    assert!(!eq_ignore_ascii_case("[", "{"));
}

#[test]
fn suffixes_and_substrings() {
    assert!(ends_with("/a/index.html", "/index.html"));
    assert!(ends_with("/", "/"));
    assert!(!ends_with("/api/login", "/"));
    assert!(ends_with("abc", ""));
    assert!(!ends_with("l", "/index.html"));
    assert!(contains("notify;telegram=yes;x", "telegram=yes"));
    assert!(!contains("telegram=no", "telegram=yes"));
    assert!(contains("anything", ""));
    assert!(!contains("", "x"));
}

#[test]
fn split_at_first_separator() {
    assert_eq!(find_char("a:b:c", ':'), Some(1));
    assert_eq!(find_char("abc", ':'), None);
    assert_eq!(split_once_char("a:b:c", ':'), Some(("a".to_string(), "b:c".to_string())));
    assert_eq!(split_once_char(":x", ':'), Some(("".to_string(), "x".to_string())));
    assert_eq!(split_once_char("x", ':'), None);
    assert_eq!(split_once_char("jü:rgen", ':'), Some(("jü".to_string(), "rgen".to_string())));
}

#[test]
fn routes_follow_the_table() {
    assert_eq!(route("/"), Route::Index);
    assert_eq!(route("/index.html"), Route::Index);
    assert_eq!(route("/some/dir/"), Route::Index);
    assert_eq!(route("/api/login"), Route::Login);
    assert_eq!(route("/api/updatePassword"), Route::UpdatePassword);
    assert_eq!(route("/api/listCategories"), Route::ListCategories);
    assert_eq!(route("/api/addCategory"), Route::AddCategory);
    assert_eq!(route("/api/editCategory"), Route::EditCategory);
    assert_eq!(route("/api/removeCategory"), Route::RemoveCategory);
    assert_eq!(route("/api/listData"), Route::ListData);
    assert_eq!(route("/api/addData"), Route::AddData);
    assert_eq!(route("/api/editData"), Route::EditData);
    assert_eq!(route("/api/removeData"), Route::RemoveData);
    assert_eq!(route("/api/unknown"), Route::NotFound);
    assert_eq!(route("/api/login?x=1"), Route::NotFound);
    assert_eq!(route("api/login"), Route::NotFound);
    assert_eq!(route("no-slash"), Route::NotFound);
}
