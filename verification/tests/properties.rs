//! Behaviour the library promises, checked on concrete values: the
//! publish/resolve pairing, fallback robustness, state stickiness, the
//! auto-detection conventions, and the scoped temporary file's lifecycle.

use faketime::parse::{format_millis, parse_millis};
use faketime::{
    disable, enable, read_or_system, time_source, Duration, ThreadTimeState, TimeSource,
};

#[test]
fn publish_then_resolve_components() {
    for &m in &[0u64, 1, 999, 1000, 1001, 123_456, u64::MAX] {
        let content = format_millis(m);
        let resolved = read_or_system(Some(content), Duration::new(0, 0));
        assert_eq!(resolved.as_secs(), m / 1000);
        assert_eq!(resolved.subsec_millis() as u64, m % 1000);
    }
}

#[test]
fn resolve_is_idempotent_against_unchanged_content() {
    let content = b" 500 \n".to_vec();
    let first = read_or_system(Some(content.clone()), faketime::system::unix_time());
    let second = read_or_system(Some(content.clone()), faketime::system::unix_time());
    let third = read_or_system(Some(content), faketime::system::unix_time());
    assert_eq!(first, second);
    assert_eq!(second, third);
    assert_eq!(first.as_secs(), 0);
    assert_eq!(first.subsec_millis(), 500);
}

#[test]
fn invalid_content_falls_back_to_system() {
    let system_time = Duration::new(42, 7);
    assert_eq!(system_time, read_or_system(Some(b"not a number".to_vec()), system_time));
    assert_eq!(system_time, read_or_system(Some(b"12a4".to_vec()), system_time));
    assert_eq!(system_time, read_or_system(Some(b"-5".to_vec()), system_time));
    assert_eq!(system_time, read_or_system(Some(b"".to_vec()), system_time));
    assert_eq!(system_time, read_or_system(Some(b"+ 5".to_vec()), system_time));
    // a missing or unreadable file arrives as no content at all
    assert_eq!(system_time, read_or_system(None, system_time));
}

#[test]
fn write_read_roundtrip() {
    for &m in &[0u64, 7, 999, 1000, 999_999_999_999, u64::MAX] {
        assert_eq!(Some(m), parse_millis(&format_millis(m)));
    }
    // surrounding whitespace is tolerated when reading back
    let mut padded = b"\t ".to_vec();
    padded.extend(format_millis(123));
    padded.push(b'\n');
    assert_eq!(Some(123), parse_millis(&padded));
    // an explicit plus sign before the digits is accepted
    assert_eq!(Some(42), parse_millis(&b"+42".to_vec()));
}

#[test]
fn scoped_file_is_removed_when_scope_exits() {
    let path_buf = {
        let handle = faketime::millis_tempfile(123).expect("create faketime file");
        let p = handle.to_path_buf();
        assert!(p.exists());
        p
    };
    assert!(!path_buf.exists());
}

#[test]
fn enable_is_sticky_against_later_environment() {
    let mut state = ThreadTimeState::Undecided;
    enable(&mut state, "/tmp/faketime_a".to_string());
    // the environment and the thread name both point elsewhere now, but
    // auto-detection must not run again on a decided state
    let source = time_source(
        &mut state,
        Some("/tmp/faketime_b".to_string()),
        Some("FAKETIME=/tmp/faketime_c".to_string()),
    );
    assert_eq!(source, TimeSource::Fake { path: "/tmp/faketime_a".to_string() });
    let again = time_source(&mut state, Some("/tmp/faketime_d".to_string()), None);
    assert_eq!(again, TimeSource::Fake { path: "/tmp/faketime_a".to_string() });
}

#[test]
fn disable_is_sticky_against_later_environment() {
    let mut state = ThreadTimeState::Undecided;
    disable(&mut state);
    let source = time_source(&mut state, Some("/tmp/faketime_e".to_string()), None);
    assert_eq!(source, TimeSource::Real);
    assert_eq!(state, ThreadTimeState::Disabled);
}

#[test]
fn environment_detection_end_to_end() {
    // the environment indicator points at a file containing "100000"
    let handle = faketime::millis_tempfile(100_000).expect("create faketime file");
    let env_path = handle.to_str().expect("temp path is text").to_string();
    // a fresh thread's state is undecided; its first query detects the file
    let mut state = ThreadTimeState::Undecided;
    let source = time_source(&mut state, Some(env_path.clone()), None);
    assert_eq!(source, TimeSource::Fake { path: env_path.clone() });
    assert_eq!(state, ThreadTimeState::Enabled { path: env_path });
    let now = read_or_system(Some(format_millis(100_000)), faketime::system::unix_time());
    assert_eq!(100, now.as_secs());
}

#[test]
fn thread_name_detection_end_to_end() {
    // a thread named with the prefix carries the path in the remainder
    let mut state = ThreadTimeState::Undecided;
    let name = format!("FAKETIME={}", "/tmp/faketime_file");
    let source = time_source(&mut state, None, Some(name));
    assert_eq!(source, TimeSource::Fake { path: "/tmp/faketime_file".to_string() });
    let now = read_or_system(Some(b"99".to_vec()), faketime::system::unix_time());
    assert_eq!(0, now.as_secs());
    assert_eq!(99, now.subsec_millis());
}

#[test]
fn detection_prefers_environment_over_thread_name() {
    let mut state = ThreadTimeState::Undecided;
    let source = time_source(
        &mut state,
        Some("/tmp/faketime_env".to_string()),
        Some("FAKETIME=/tmp/faketime_name".to_string()),
    );
    assert_eq!(source, TimeSource::Fake { path: "/tmp/faketime_env".to_string() });
}

#[test]
fn detection_rejects_names_without_the_prefix() {
    let mut state = ThreadTimeState::Undecided;
    let source = time_source(&mut state, None, Some("worker-1".to_string()));
    assert_eq!(source, TimeSource::Real);
    let mut other = ThreadTimeState::Undecided;
    // a near miss on the prefix does not count
    let near = time_source(&mut other, None, Some("FAKETIME-/tmp/x".to_string()));
    assert_eq!(near, TimeSource::Real);
    let mut short = ThreadTimeState::Undecided;
    let too_short = time_source(&mut short, None, Some("FAKETIME".to_string()));
    assert_eq!(too_short, TimeSource::Real);
}

#[test]
fn millis_conversion_matches_components() {
    let d = Duration::new(1, 999_999_999);
    assert_eq!(1999, faketime::unix_time_as_millis(&d));
    let e = Duration::from_millis(123_456);
    assert_eq!(456_000_000, e.subsec_nanos());
    assert_eq!(123_456, faketime::unix_time_as_millis(&e));
    let now = faketime::system::unix_time();
    let millis = faketime::unix_time_as_millis(&now);
    assert!(millis / 1000 - now.as_secs() < 60);
}
