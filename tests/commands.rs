use tauri_commands::dispatch::{
    dispatch, find_argument, Action, CommandKind, CommandRequest, InvokeError,
};
use tauri_commands::handlers::{
    get_system_info, greet, read_file_result, write_file_result, READ_ERROR_PREFIX,
    VERSION, WRITE_ERROR_PREFIX,
};

fn request(name: &str, args: &[(&str, &str)]) -> CommandRequest {
    CommandRequest {
        name: name.to_string(),
        arguments: args
            .iter()
            .map(|(k, v)| (k.to_string(), v.to_string()))
            .collect(),
    }
}

#[test]
fn greet_formats_name() {
    assert_eq!(greet("World"), "Hello, World! You've been greeted from Rust!");
}

#[test]
fn greet_empty_name() {
    assert_eq!(greet(""), "Hello, ! You've been greeted from Rust!");
}

#[test]
fn greet_unicode_name() {
    assert_eq!(greet("太郎"), "Hello, 太郎! You've been greeted from Rust!");
}

#[test]
fn system_info_keeps_host_values() {
    let info = get_system_info("linux", "x86_64");
    assert_eq!(info.platform, "linux");
    assert_eq!(info.architecture, "x86_64");
    assert_eq!(info.version, "0.1.0");
    assert_eq!(info.version, VERSION);
    assert!(!info.platform.is_empty());
    assert!(!info.architecture.is_empty());
}

#[test]
fn read_success_passes_contents_unchanged() {
    let r = read_file_result(Ok("line one\nline two".to_string()));
    assert_eq!(r, Ok("line one\nline two".to_string()));
}

#[test]
fn read_success_of_empty_file() {
    assert_eq!(read_file_result(Ok(String::new())), Ok(String::new()));
}

#[test]
fn read_failure_carries_detail() {
    let detail = "No such file or directory (os error 2)";
    let r = read_file_result(Err(detail.to_string()));
    assert_eq!(
        r,
        Err("ファイル読み込みエラー: No such file or directory (os error 2)".to_string())
    );
}

#[test]
fn read_failure_with_empty_detail_is_not_empty() {
    let r = read_file_result(Err(String::new()));
    assert_eq!(r, Err(READ_ERROR_PREFIX.to_string()));
    assert!(!r.unwrap_err().is_empty());
}

#[test]
fn write_success_is_unit() {
    assert_eq!(write_file_result(Ok(())), Ok(()));
}

#[test]
fn write_failure_carries_detail() {
    let r = write_file_result(Err("Permission denied (os error 13)".to_string()));
    assert_eq!(
        r,
        Err("ファイル書き込みエラー: Permission denied (os error 13)".to_string())
    );
    assert!(r.unwrap_err().starts_with(WRITE_ERROR_PREFIX));
}

#[test]
fn registry_names_round_trip() {
    for k in [
        CommandKind::Greet,
        CommandKind::GetSystemInfo,
        CommandKind::ReadFile,
        CommandKind::WriteFile,
    ] {
        assert_eq!(CommandKind::from_name(k.name()), Some(k));
    }
    assert_eq!(CommandKind::ReadFile.name(), "read_file");
}

#[test]
fn registry_rejects_other_names() {
    assert_eq!(CommandKind::from_name("delete_file"), None);
    assert_eq!(CommandKind::from_name(""), None);
    assert_eq!(CommandKind::from_name("Greet"), None);
    assert_eq!(CommandKind::from_name("greet "), None);
}

#[test]
fn dispatch_greet_replies_at_once() {
    let r = dispatch(&request("greet", &[("name", "Ada")]));
    assert!(matches!(r, Ok(Action::Reply(t)) if t == "Hello, Ada! You've been greeted from Rust!"));
}

#[test]
fn dispatch_greet_without_name_is_refused() {
    let r = dispatch(&request("greet", &[("who", "Ada")]));
    assert!(matches!(
        r,
        Err(InvokeError::MissingArgument { command: CommandKind::Greet, argument: "name" })
    ));
}

#[test]
fn dispatch_system_info_asks_the_host() {
    let r = dispatch(&request("get_system_info", &[]));
    assert!(matches!(r, Ok(Action::QuerySystem)));
}

#[test]
fn dispatch_read_file_asks_for_a_read() {
    let r = dispatch(&request("read_file", &[("path", "/tmp/notes.txt")]));
    assert!(matches!(r, Ok(Action::ReadFile { path }) if path == "/tmp/notes.txt"));
}

#[test]
fn dispatch_write_file_asks_for_a_write() {
    let r = dispatch(&request(
        "write_file",
        &[("content", "hello"), ("path", "/tmp/notes.txt")],
    ));
    assert!(matches!(
        r,
        Ok(Action::WriteFile { path, content }) if path == "/tmp/notes.txt" && content == "hello"
    ));
}

#[test]
fn dispatch_write_file_without_content_is_refused() {
    let r = dispatch(&request("write_file", &[("path", "/tmp/notes.txt")]));
    assert!(matches!(
        r,
        Err(InvokeError::MissingArgument { command: CommandKind::WriteFile, argument: "content" })
    ));
}

#[test]
fn dispatch_write_file_without_path_is_refused() {
    let r = dispatch(&request("write_file", &[("content", "x")]));
    assert!(matches!(
        r,
        Err(InvokeError::MissingArgument { command: CommandKind::WriteFile, argument: "path" })
    ));
}

#[test]
fn dispatch_unknown_command_is_a_boundary_error() {
    let r = dispatch(&request("delete_file", &[("path", "/tmp/notes.txt")]));
    assert!(matches!(r, Err(InvokeError::UnknownCommand(n)) if n == "delete_file"));
}

#[test]
fn first_argument_of_a_name_wins() {
    let args = vec![
        ("path".to_string(), "a.txt".to_string()),
        ("path".to_string(), "b.txt".to_string()),
    ];
    assert_eq!(find_argument(&args, "path"), Some("a.txt".to_string()));
    assert_eq!(find_argument(&args, "content"), None);
    assert_eq!(find_argument(&Vec::new(), "path"), None);
}

#[test]
fn write_then_read_round_trip_through_dispatch() {
    let w = dispatch(&request("write_file", &[("path", "data.txt"), ("content", "abc")]));
    let r = dispatch(&request("read_file", &[("path", "data.txt")]));
    let (wp, wc) = match w {
        Ok(Action::WriteFile { path, content }) => (path, content),
        _ => panic!("write_file was not dispatched as a write"),
    };
    let rp = match r {
        Ok(Action::ReadFile { path }) => path,
        _ => panic!("read_file was not dispatched as a read"),
    };
    assert_eq!(wp, rp);
    assert_eq!(write_file_result(Ok(())), Ok(()));
    assert_eq!(read_file_result(Ok(wc)), Ok("abc".to_string()));
}

#[test]
fn read_of_missing_file_is_a_failure() {
    let detail = std::io::Error::from(std::io::ErrorKind::NotFound).to_string();
    let message = read_file_result(Err(detail.clone())).unwrap_err();
    assert_eq!(message, format!("{}{}", READ_ERROR_PREFIX, detail));
    assert!(message.len() > READ_ERROR_PREFIX.len());
}

#[test]
fn write_into_missing_directory_is_a_failure() {
    let detail = std::io::Error::from(std::io::ErrorKind::NotFound).to_string();
    let message = write_file_result(Err(detail.clone())).unwrap_err();
    assert_eq!(message, format!("{}{}", WRITE_ERROR_PREFIX, detail));
    assert!(message.len() > WRITE_ERROR_PREFIX.len());
}
