use envtrackernode::console::console_file_path;

#[test]
fn empty_path_serves_the_index() {
    assert_eq!(console_file_path("..", "").as_deref(), Some("../.next/server/app/index.html"));
}

#[test]
fn static_assets_come_from_the_build() {
    assert_eq!(
        console_file_path("..", "_next/static/chunks/a.js").as_deref(),
        Some("../.next/static/chunks/a.js")
    );
}

#[test]
fn single_component_paths_are_public_files() {
    assert_eq!(console_file_path("/srv", "favicon.ico").as_deref(), Some("/srv/public/favicon.ico"));
    assert_eq!(console_file_path("..", "favicon.ico").as_deref(), Some("../.next/../public/favicon.ico"));
}

#[test]
fn other_paths_point_at_the_build_directory() {
    assert_eq!(console_file_path("..", "a/b").as_deref(), Some("../.next"));
    assert_eq!(console_file_path("..", "_next/other").as_deref(), Some("../.next"));
}

#[test]
fn a_path_without_parent_has_no_file() {
    assert_eq!(console_file_path("..", "/"), None);
}
