use kuroya_logic::startup_arguments::{
    startup_file_from_arguments, startup_target_for_path, StartupTarget,
};

#[test]
fn startup_file_uses_first_non_empty_argument() {
    let first = r"C:\Users\Kuroya User\project\main.rs".to_string();
    let second = r"C:\Users\Kuroya User\project\other.rs".to_string();

    assert_eq!(
        startup_file_from_arguments(vec![String::new(), first.clone(), second]),
        Some(first)
    );
}

#[test]
fn startup_file_preserves_unicode_path_text() {
    let path = "C:\\workspace\\\u{30c6}\u{30b9}\u{30c8} file.rs".to_string();

    assert_eq!(startup_file_from_arguments(vec![path.clone()]), Some(path));
}

#[test]
fn startup_file_is_absent_without_a_non_empty_argument() {
    assert_eq!(startup_file_from_arguments(vec![]), None);
    assert_eq!(startup_file_from_arguments(vec![String::new()]), None);
}

#[test]
fn startup_target_defaults_missing_paths_to_files_and_keeps_none_absent() {
    let missing = "/tmp/kuroya-startup-arguments-missing/absent.rs".to_string();

    // A missing path is not a directory, so it opens as a file.
    assert_eq!(
        startup_file_from_arguments(vec![missing.clone()])
            .map(|path| startup_target_for_path(path, false)),
        Some(StartupTarget::File(missing))
    );
    assert_eq!(
        startup_file_from_arguments(vec![]).map(|path| startup_target_for_path(path, false)),
        None
    );
}

#[test]
fn startup_target_detects_directories_as_folders() {
    assert_eq!(
        startup_target_for_path("workspace".to_string(), true),
        StartupTarget::Folder("workspace".to_string())
    );
    assert_eq!(
        startup_target_for_path("workspace/main.rs".to_string(), false),
        StartupTarget::File("workspace/main.rs".to_string())
    );
}
