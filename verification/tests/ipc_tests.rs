use talking_head::ipc::{
    frame_message, is_already_running, liveness, parse_pid_file, parse_position_file,
    parse_size_value, pid_file_contents, position_file_contents, reply_payload, request_payload,
    Liveness, ProbeOutcome, SizeValue, device_file_contents, parse_device_file,
};

#[test]
fn size_values() {
    assert_eq!(parse_size_value("small"), Some(SizeValue::Small));
    assert_eq!(parse_size_value("MEDIUM"), Some(SizeValue::Medium));
    assert_eq!(parse_size_value("Large"), Some(SizeValue::Large));
    assert_eq!(parse_size_value("640"), Some(SizeValue::Custom(640)));
    assert_eq!(parse_size_value("tiny"), None);
    assert_eq!(parse_size_value("-3"), None);
}

#[test]
fn framing_round_trip() {
    let line = frame_message("{\"cmd\":\"toggle\"}");
    assert_eq!(line, "{\"cmd\":\"toggle\"}\n");
    assert_eq!(request_payload(&line), Ok("{\"cmd\":\"toggle\"}".to_string()));
    assert_eq!(reply_payload(&line), Ok("{\"cmd\":\"toggle\"}".to_string()));
}

#[test]
fn empty_lines() {
    assert_eq!(request_payload("  \n"), Err("empty command".to_string()));
    assert_eq!(
        reply_payload(""),
        Err("daemon closed connection without responding".to_string())
    );
    assert_eq!(reply_payload("\n"), Ok(String::new()));
}

#[test]
fn pid_file_round_trip() {
    for pid in [0u32, 7, 10, 4242, 4294967295] {
        assert_eq!(pid_file_contents(pid), pid.to_string());
        assert_eq!(parse_pid_file(&pid_file_contents(pid)), Some(pid));
    }
    assert_eq!(parse_pid_file(" 123\n"), Some(123));
    assert_eq!(parse_pid_file("\u{3000}9\u{a0}"), Some(9));
    assert_eq!(parse_pid_file("12a"), None);
    assert_eq!(parse_pid_file(""), None);
}

#[test]
fn liveness_of_probe_outcomes() {
    assert_eq!(liveness(ProbeOutcome::Alive), Liveness { running: true, stale: false });
    assert_eq!(liveness(ProbeOutcome::NoSuchProcess), Liveness { running: false, stale: true });
    assert_eq!(liveness(ProbeOutcome::PermissionDenied), Liveness { running: true, stale: false });
    assert_eq!(liveness(ProbeOutcome::Failed), Liveness { running: false, stale: false });
}

#[test]
fn running_check() {
    let nobody = Liveness { running: false, stale: false };
    assert_eq!(is_already_running(None), nobody);
    assert_eq!(is_already_running(Some("not a pid")), nobody);
    // Process 1 always exists: signalling it either works or is refused.
    assert_eq!(is_already_running(Some("1")), Liveness { running: true, stale: false });
    assert_eq!(
        is_already_running(Some("999999999\n")),
        Liveness { running: false, stale: true }
    );
}

#[test]
fn position_file_round_trip() {
    for (r, t) in [(20, 50), (0, 0), (-5, 2160), (i32::MIN, i32::MAX)] {
        let text = position_file_contents(r, t);
        assert_eq!(text, format!("{},{}", r, t));
        assert_eq!(parse_position_file(&text), Some((r, t)));
    }
    assert_eq!(parse_position_file(" 12,34\n"), Some((12, 34)));
    assert_eq!(parse_position_file("12;34"), None);
    assert_eq!(parse_position_file("12,34,5"), None);
    assert_eq!(parse_position_file("12, 34"), None);
    assert_eq!(parse_position_file(""), None);
}

#[test]
fn device_file_round_trip() {
    assert_eq!(device_file_contents("/dev/video2"), "/dev/video2\n");
    assert_eq!(parse_device_file(&device_file_contents("/dev/video2")), Some("/dev/video2".to_string()));
    assert_eq!(parse_device_file("  \n"), None);
}
