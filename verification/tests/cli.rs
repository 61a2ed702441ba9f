use std::path::PathBuf;
use termframe::cli::{dir_outcome, dir_parser};

#[test]
fn dir_parser_accepts_directory() {
    assert_eq!(dir_parser("."), Ok(PathBuf::from(".")));
}

#[test]
fn dir_parser_rejects_missing_path() {
    assert_eq!(
        dir_parser("no_such_directory_should_exist_here"),
        Err("Not a vaild dir".to_string())
    );
}

#[test]
fn dir_outcome_decides_on_the_answer() {
    assert_eq!(dir_outcome(PathBuf::from("frames"), true), Ok(PathBuf::from("frames")));
    assert_eq!(dir_outcome(PathBuf::from("frames"), false), Err("Not a vaild dir".to_string()));
}
