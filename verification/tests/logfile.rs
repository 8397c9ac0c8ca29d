use on_the_gpu::logfile::{
    build_log_filename, get_logs_dir, last_run_log_path, log_file_name, log_path, push_path,
    LAST_RUN_FILE, SEPARATOR,
};
use std::path::PathBuf;

fn pushed(base: &str, path: &str) -> String {
    let mut out = base.as_bytes().to_vec();
    push_path(&mut out, path.as_bytes());
    String::from_utf8(out).unwrap()
}

fn pushed_by_std(base: &str, path: &str) -> String {
    let mut out = PathBuf::from(base);
    out.push(path);
    out.into_os_string().into_string().unwrap()
}

#[test]
fn log_file_name_joins_name_and_time() {
    assert_eq!(
        log_file_name("space-game", "2024-05-06T07:08:09.123456789+02:00"),
        "space-game_2024-05-06T07:08:09.123456789+02:00.log.zstd"
    );
    assert_eq!(log_file_name("", ""), "_.log.zstd");
    assert_eq!(log_file_name("jeu été", "t"), "jeu été_t.log.zstd");
}

#[test]
fn push_path_puts_a_separator_between() {
    assert_eq!(SEPARATOR, b'/');
    assert_eq!(pushed("/home/p", "games"), "/home/p/games");
    assert_eq!(pushed("/home/p/", "games"), "/home/p/games");
    assert_eq!(pushed("", "games"), "games");
    assert_eq!(pushed("/", "games"), "/games");
    assert_eq!(pushed("rel", "a/b"), "rel/a/b");
    assert_eq!(pushed("/home/p", ""), "/home/p/");
}

#[test]
fn push_path_lets_an_absolute_path_take_over() {
    assert_eq!(pushed("/home/p", "/tmp/x"), "/tmp/x");
    assert_eq!(pushed("", "/"), "/");
    assert_eq!(pushed("rel", "/abs"), "/abs");
}

#[test]
fn push_path_agrees_with_the_standard_library() {
    let bases = ["", "/", "/home/p", "/home/p/", "rel", "rel/", "a//b", "//"];
    let paths = ["", "x", "x/", "/abs", "/", "a/b", "é", "..", "."];
    for base in bases {
        for path in paths {
            assert_eq!(pushed(base, path), pushed_by_std(base, path), "{base:?} + {path:?}");
        }
    }
}

#[test]
fn push_path_takes_bytes_that_are_no_text() {
    let mut out = vec![b'/', 0xff];
    push_path(&mut out, &[0xfe, b'a']);
    assert_eq!(out, vec![b'/', 0xff, b'/', 0xfe, b'a']);
}

#[test]
fn logs_go_under_games_logs() {
    assert_eq!(get_logs_dir(b"/home/p"), b"/home/p/games/logs".to_vec());
    assert_eq!(get_logs_dir(b"/home/p/"), b"/home/p/games/logs".to_vec());
    assert_eq!(get_logs_dir(b""), b"games/logs".to_vec());
}

#[test]
fn last_run_is_recorded_under_the_logs() {
    assert_eq!(LAST_RUN_FILE, "on-the-gpu--last-run.log");
    assert_eq!(
        last_run_log_path(b"/home/p"),
        b"/home/p/games/logs/on-the-gpu--last-run.log".to_vec()
    );
}

#[test]
fn log_path_prefers_the_overriding_directory() {
    assert_eq!(
        log_path("g", "T", Some(b"/var/log"), Some(b"/home/p")),
        Some(b"/var/log/g_T.log.zstd".to_vec())
    );
    assert_eq!(log_path("g", "T", Some(b"/var/log"), None), Some(b"/var/log/g_T.log.zstd".to_vec()));
    assert_eq!(
        log_path("g", "T", None, Some(b"/home/p")),
        Some(b"/home/p/games/logs/g_T.log.zstd".to_vec())
    );
}

#[test]
fn log_path_without_any_directory_is_none() {
    assert_eq!(log_path("g", "T", None, None), None);
    assert_eq!(build_log_filename("g", None, None), None);
}

#[test]
fn log_path_of_an_absolute_name_leaves_the_directory() {
    assert_eq!(log_path("/tmp/g", "T", Some(b"/var/log"), None), Some(b"/tmp/g_T.log.zstd".to_vec()));
}

#[test]
fn log_path_encodes_the_name_as_utf8() {
    assert_eq!(
        log_path("é", "T", Some(b"d"), None),
        Some("d/é_T.log.zstd".as_bytes().to_vec())
    );
}

#[test]
fn build_log_filename_holds_a_time_stamp() {
    let before = chrono::offset::Local::now();
    let path = build_log_filename("space-game", Some(b"/var/log"), None).unwrap();
    let after = chrono::offset::Local::now();
    let path = String::from_utf8(path).unwrap();
    let stamp = path
        .strip_prefix("/var/log/space-game_")
        .and_then(|rest| rest.strip_suffix(".log.zstd"))
        .unwrap();
    let stamp = chrono::DateTime::parse_from_rfc3339(stamp).unwrap();
    assert!(before <= stamp && stamp <= after);
}

#[test]
fn build_log_filename_goes_to_the_default_directory() {
    let path = build_log_filename("g", None, Some(b"/home/p")).unwrap();
    let path = String::from_utf8(path).unwrap();
    assert!(path.starts_with("/home/p/games/logs/g_"));
    assert!(path.ends_with(".log.zstd"));
    assert_eq!(path.matches('/').count(), 5);
}
