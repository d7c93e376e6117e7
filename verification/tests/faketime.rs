//! The library's public surface, exercised end to end: the real clock
//! fallback, an explicitly enabled thread, and the timestamp file
//! read/write pairing.

use faketime::parse::{format_millis, parse_millis};
use faketime::{read_or_system, time_source, ThreadTimeState, TimeSource};

#[test]
fn test_system() {
    let system_now = faketime::system::unix_time();
    // A fresh context with no environment value and no thread-name
    // convention auto-detects "disabled" and reads the real clock.
    let mut state = ThreadTimeState::Undecided;
    let source = time_source(&mut state, None, None);
    assert_eq!(source, TimeSource::Real);
    assert_eq!(state, ThreadTimeState::Disabled);
    let now = faketime::system::unix_time();
    assert!(now.saturating_sub(&system_now).as_secs() < 60);
}

#[test]
fn test_faketime() {
    let faketime_file = faketime::millis_tempfile(123_456).expect("create faketime file");
    let path = faketime_file.to_str().expect("temp path is text").to_string();

    let mut state = ThreadTimeState::Undecided;
    faketime::enable(&mut state, path.clone());
    let source = time_source(&mut state, None, None);
    assert_eq!(source, TimeSource::Fake { path });

    // The published content of the file is the canonical decimal text of
    // 123456; resolving it must not touch the real clock value.
    let content = format_millis(123_456);
    let now = read_or_system(Some(content), faketime::system::unix_time());
    assert_eq!(123, now.as_secs());
    assert_eq!(456, now.subsec_millis());
}

#[test]
fn test_mock_file_io() {
    {
        let path = tempfile::NamedTempFile::new()
            .expect("create faketime file")
            .into_temp_path();
        println!("write {:?}", path);
        faketime::write_millis(path.to_str().expect("temp path is text"), 0)
            .expect("write millis");
    }

    let empty: Vec<u8> = Vec::new();
    assert_eq!(None, parse_millis(&empty));
    assert_eq!(None, parse_millis(&b"x".to_vec()));
    assert_eq!(12345, parse_millis(&b"12345\n".to_vec()).expect("read millis"));
    assert_eq!(54321, parse_millis(&format_millis(54321)).expect("read millis"));
}
