use kak_tool::args::{_all_args_start_with_dash, _searchable_args, err};
use kak_tool::error::{ErrorKind, IoError};

fn strings(items: &[&str]) -> Vec<String> {
    items.iter().map(|item| item.to_string()).collect()
}

fn other(message: &str) -> IoError {
    IoError { kind: ErrorKind::Other, message: message.to_string() }
}

#[test]
fn err_is_always_a_failure() {
    assert_eq!(err("Search entry empty"), Err(other("Search entry empty")));
    assert_eq!(err(""), Err(other("")));
}

#[test]
fn searchable_args_wants_a_first_entry() {
    assert_eq!(_searchable_args(&strings(&["needle"])), Ok(()));
    assert_eq!(_searchable_args(&strings(&["needle", ""])), Ok(()));
    assert_eq!(_searchable_args(&strings(&["-"])), Ok(()));
}

#[test]
fn searchable_args_refuses_nothing_and_emptiness() {
    assert_eq!(_searchable_args(&[]), Err(other("Search entry empty")));
    assert_eq!(_searchable_args(&strings(&[""])), Err(other("Search entry empty")));
    assert_eq!(_searchable_args(&strings(&["", "needle"])), Err(other("Search entry empty")));
}

#[test]
fn all_args_start_with_dash_accepts_one_plain_argument() {
    assert_eq!(_all_args_start_with_dash(&strings(&["needle"])), Ok(()));
    assert_eq!(_all_args_start_with_dash(&strings(&["-i", "needle"])), Ok(()));
    assert_eq!(_all_args_start_with_dash(&strings(&["needle", "-i"])), Ok(()));
    assert_eq!(_all_args_start_with_dash(&strings(&["-i", ""])), Ok(()));
    assert_eq!(_all_args_start_with_dash(&strings(&["a-b"])), Ok(()));
}

#[test]
fn all_args_start_with_dash_refuses_options_alone() {
    assert_eq!(
        _all_args_start_with_dash(&strings(&["-i", "--hidden", "-"])),
        Err(other("All args start with dash"))
    );
    assert_eq!(_all_args_start_with_dash(&[]), Err(other("All args start with dash")));
}
