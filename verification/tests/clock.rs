use starry_test_harness::clock::Timestamp;

#[test]
fn run_id_of_a_known_instant() {
    let at = Timestamp { secs: 1_700_000_000, nanos: 0, offset_secs: 0 };
    assert_eq!(at.run_id(), Some("20231114-221320".to_string()));
}

#[test]
fn run_id_is_in_local_time() {
    let east = Timestamp { secs: 1_700_000_000, nanos: 0, offset_secs: 8 * 3600 };
    assert_eq!(east.run_id(), Some("20231115-061320".to_string()));
    let west = Timestamp { secs: 1_700_000_000, nanos: 0, offset_secs: -5 * 3600 };
    assert_eq!(west.run_id(), Some("20231114-171320".to_string()));
}

#[test]
fn run_id_ignores_fractions_of_a_second() {
    let at = Timestamp { secs: 0, nanos: 999_999_999, offset_secs: 0 };
    assert_eq!(at.run_id(), Some("19700101-000000".to_string()));
}

#[test]
fn run_id_pads_every_field() {
    let at = Timestamp { secs: 951_793_445, nanos: 0, offset_secs: 0 };
    assert_eq!(at.run_id(), Some("20000229-030405".to_string()));
}

#[test]
fn run_id_differs_from_its_input() {
    let at = Timestamp { secs: 1_700_000_000, nanos: 0, offset_secs: 0 };
    let id = at.run_id().unwrap();
    assert_ne!(id, "1700000000");
    assert_eq!(id.len(), 15);
}

#[test]
fn no_run_id_for_an_impossible_offset() {
    let at = Timestamp { secs: 0, nanos: 0, offset_secs: 86_400 };
    assert_eq!(at.run_id(), None);
    let at = Timestamp { secs: 0, nanos: 0, offset_secs: -86_400 };
    assert_eq!(at.run_id(), None);
}

#[test]
fn no_run_id_beyond_the_calendar() {
    let at = Timestamp { secs: i64::MAX, nanos: 0, offset_secs: 0 };
    assert_eq!(at.run_id(), None);
    let at = Timestamp { secs: 0, nanos: 2_000_000_000, offset_secs: 0 };
    assert_eq!(at.run_id(), None);
}

#[test]
fn the_clock_gives_a_usable_run_id() {
    let now = Timestamp::now();
    let id = now.run_id().expect("the current time has a run id");
    assert_eq!(id.len(), 15);
    assert_eq!(id.as_bytes()[8], b'-');
    assert!(id.bytes().enumerate().all(|(i, b)| i == 8 || b.is_ascii_digit()));
    assert!(now.secs > 1_600_000_000);
    assert!(now.nanos < 1_000_000_000);
    assert!(now.offset_secs > -86_400 && now.offset_secs < 86_400);
}

#[test]
fn the_clock_agrees_with_chrono() {
    let before = chrono::Local::now().timestamp();
    let now = Timestamp::now();
    let after = chrono::Local::now().timestamp();
    assert!(before <= now.secs && now.secs <= after);
}
