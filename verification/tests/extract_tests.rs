use pulsar2db::extract::filename_from_path;
use pulsar2db::extract::split_pid_by_underscore;
use pulsar2db::extract::ExtractError;

#[test]
fn split_pid_with_underscore() {
    let input_pid: &str = "a1b2c3d4e5_str";
    let result_pid: &str = "a1b2c3d4e5";
    let result: &str = split_pid_by_underscore(&input_pid);
    assert_eq!(&result, &result_pid);
}

#[test]
fn split_pid_without_underscore() {
    let input_pid: &str = "a1b2c3d4e5";
    let result_pid: &str = "a1b2c3d4e5";
    let result: &str = split_pid_by_underscore(&input_pid);
    assert_eq!(&result, &result_pid);
}

#[test]
fn split_pid_with_hyphen() {
    let input_pid: &str = "a1b2c3d4e5-str";
    let result_pid: &str = "a1b2c3d4e5-str";
    let result: &str = split_pid_by_underscore(&input_pid);
    assert_eq!(&result, &result_pid);
}

#[test]
fn filename_from_path_with_filename() {
    let input_path = Some("/home/username/files/directory/filename-123.bag.zip");
    let expected_filename = "filename-123.bag.zip";
    let result = filename_from_path(input_path).unwrap();
    assert_eq!(&result, &expected_filename);
}

#[test]
fn split_pid_with_two_underscores() {
    assert_eq!(split_pid_by_underscore("a1b2c3_d4_e5"), "a1b2c3");
}

#[test]
fn split_pid_leading_underscore() {
    assert_eq!(split_pid_by_underscore("_tail"), "");
}

#[test]
fn split_pid_empty() {
    assert_eq!(split_pid_by_underscore(""), "");
}

#[test]
fn filename_from_absent_path() {
    assert_eq!(filename_from_path(None), Err(ExtractError::MissingPath));
}

#[test]
fn filename_from_empty_path() {
    assert_eq!(filename_from_path(Some("")), Err(ExtractError::EmptyBasename));
}

#[test]
fn filename_from_path_ignores_trailing_separators() {
    assert_eq!(filename_from_path(Some("/home/u/dir/")), Ok("dir"));
    assert_eq!(filename_from_path(Some("/home/u/dir///")), Ok("dir"));
}

#[test]
fn filename_from_separators_only_path() {
    assert_eq!(filename_from_path(Some("/")), Err(ExtractError::EmptyBasename));
    assert_eq!(filename_from_path(Some("///")), Err(ExtractError::EmptyBasename));
}

#[test]
fn filename_from_path_ending_in_parent_marker() {
    assert_eq!(filename_from_path(Some("..")), Err(ExtractError::EmptyBasename));
    assert_eq!(filename_from_path(Some("a/..")), Err(ExtractError::EmptyBasename));
    assert_eq!(filename_from_path(Some("/a/b/../")), Err(ExtractError::EmptyBasename));
}

#[test]
fn filename_from_path_without_separator() {
    assert_eq!(filename_from_path(Some("bag.zip")), Ok("bag.zip"));
}
