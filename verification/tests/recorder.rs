use munic_simulator::recorder::{
    count_trips_of_date, is_trip_file_of, make_trip_file_name, plan_target, Incoming,
    Notification, PayloadType, RecordReply, Recorder, TripFile,
};

fn note(kind: Option<&str>, body: &str) -> Notification {
    Notification {
        payload_type: match kind {
            Some(k) => PayloadType::Text(k.to_string()),
            None => PayloadType::Absent,
        },
        body: body.as_bytes().to_vec(),
    }
}

#[test]
fn trip_file_names_follow_the_convention() {
    assert_eq!(make_trip_file_name(1, "2023-02-08"), "trip_1_2023-02-08.json");
    assert_eq!(make_trip_file_name(12, "2023-02-08"), "trip_12_2023-02-08.json");
    assert_eq!(make_trip_file_name(0, "2023-02-08"), "trip_0_2023-02-08.json");
}

#[test]
fn trip_files_are_recognised_by_date() {
    assert!(is_trip_file_of("trip_1_2023-02-08.json", "2023-02-08"));
    assert!(!is_trip_file_of("trip_1_2023-02-09.json", "2023-02-08"));
    assert!(!is_trip_file_of("trap_1_2023-02-08.json", "2023-02-08"));
    assert!(!is_trip_file_of("notes.txt", "2023-02-08"));
    assert!(is_trip_file_of("trip_10_2023-02-08.json", "2023-02-08"));
}

#[test]
fn trips_of_the_day_are_counted() {
    let names = vec![
        "trip_1_2023-02-08.json".to_string(),
        "trip_2_2023-02-08.json".to_string(),
        "trip_1_2023-02-07.json".to_string(),
        "refrence.json".to_string(),
    ];
    assert_eq!(count_trips_of_date(&names, "2023-02-08"), 2);
    assert_eq!(count_trips_of_date(&names, "2023-02-07"), 1);
    assert_eq!(count_trips_of_date(&vec![], "2023-02-07"), 0);
}

#[test]
fn target_of_a_new_day_is_trip_one() {
    let t = plan_target(0, "2023-02-08", TripFile::Missing);
    assert_eq!(t.file_name, "trip_1_2023-02-08.json");
    assert!(t.create);
    assert!(t.opens_with_bracket);
}

#[test]
fn target_after_a_closed_trip_is_the_next_index() {
    let t = plan_target(2, "2023-02-08", TripFile::Closed);
    assert_eq!(t.file_name, "trip_3_2023-02-08.json");
    assert!(t.create);
    assert!(t.opens_with_bracket);
    // with no file of the day counted, the next index is still 1
    let t = plan_target(0, "2023-02-08", TripFile::Closed);
    assert_eq!(t.file_name, "trip_1_2023-02-08.json");
}

#[test]
fn target_of_an_unclosed_trip_does_not_reopen_it() {
    let t = plan_target(2, "2023-02-08", TripFile::Unclosed);
    assert_eq!(t.file_name, "trip_2_2023-02-08.json");
    assert!(!t.create);
    assert!(!t.opens_with_bracket);
    let t = plan_target(2, "2023-02-08", TripFile::Empty);
    assert_eq!(t.file_name, "trip_2_2023-02-08.json");
    assert!(!t.create);
    assert!(t.opens_with_bracket);
}

#[test]
fn a_trip_is_written_as_a_json_array() {
    let mut r = Recorder::new();
    let batch = vec![
        note(Some("connect"), "{\"c\":1}"),
        note(None, "{\"t\":2}"),
        note(None, "{\"t\":3}"),
        note(Some("disconnect"), "{\"d\":4}"),
    ];
    let written = r.accept_all(&batch, true);
    assert_eq!(
        String::from_utf8(written).unwrap(),
        "[{\"c\":1},{\"t\":2},{\"t\":3},{\"d\":4}]"
    );
    assert!(!r.started);
}

#[test]
fn notifications_outside_a_trip_are_dropped() {
    let mut r = Recorder::new();
    let written = r.accept_all(&vec![note(None, "{}"), note(Some("other"), "{}")], true);
    assert!(written.is_empty());
    assert!(!r.started);
}

#[test]
fn a_trip_spans_requests() {
    let mut r = Recorder::new();
    let first = r.accept_all(&vec![note(Some("connect"), "1"), note(None, "2")], true);
    assert_eq!(first, b"[1,2,".to_vec());
    assert!(r.started);
    let second = r.accept_all(&vec![note(None, "3"), note(Some("disconnect"), "4")], false);
    assert_eq!(second, b"3,4]".to_vec());
    assert!(!r.started);
}

#[test]
fn connect_into_an_unclosed_file_writes_no_bracket() {
    let mut r = Recorder::new();
    let written = r.accept(&note(Some("connect"), "c"), false);
    assert_eq!(written, b"c,".to_vec());
}

#[test]
fn disconnect_outside_a_trip_still_closes() {
    let mut r = Recorder::new();
    let written = r.accept(&note(Some("disconnect"), "d"), true);
    assert_eq!(written, b"d]".to_vec());
    assert!(!r.started);
}

#[test]
fn replies_to_posted_values() {
    let mut r = Recorder::new();
    let (reply, written) = r.record(&Incoming::Object, true);
    assert!(matches!(reply, RecordReply::Processed));
    assert!(written.is_empty());
    let (reply, written) = r.record(&Incoming::Other, true);
    assert!(matches!(reply, RecordReply::BadRequest));
    assert!(written.is_empty());
    let (reply, written) = r.record(&Incoming::Array(vec![note(Some("connect"), "x")]), true);
    assert!(matches!(reply, RecordReply::Processed));
    assert_eq!(written, b"[x,".to_vec());
}

#[test]
fn recording_in_parts_writes_the_same_bytes() {
    let batch = vec![
        note(None, "a"),
        note(Some("connect"), "b"),
        note(None, "c"),
        note(Some("disconnect"), "d"),
        note(None, "e"),
    ];
    let mut whole = Recorder::new();
    let all = whole.accept_all(&batch, true);
    for cut in 0..=batch.len() {
        let mut parts = Recorder::new();
        let (front, back) = batch.split_at(cut);
        let front: Vec<Notification> = front.iter().map(copy_note).collect();
        let back: Vec<Notification> = back.iter().map(copy_note).collect();
        let mut written = parts.accept_all(&front, true);
        written.extend(parts.accept_all(&back, true));
        assert_eq!(written, all);
        assert_eq!(parts.started, whole.started);
    }
}

fn copy_note(n: &Notification) -> Notification {
    Notification {
        payload_type: match &n.payload_type {
            PayloadType::Absent => PayloadType::Absent,
            PayloadType::Text(s) => PayloadType::Text(s.clone()),
            PayloadType::NonText => PayloadType::NonText,
        },
        body: n.body.clone(),
    }
}

#[test]
fn a_named_file_counts_for_its_date() {
    for index in [1usize, 9, 10, 123] {
        let name = make_trip_file_name(index, "2024-12-31");
        assert!(is_trip_file_of(&name, "2024-12-31"));
        assert!(!is_trip_file_of(&name, "2024-12-30"));
    }
    let names = vec![make_trip_file_name(1, "2024-12-31"), make_trip_file_name(2, "2024-12-31")];
    assert_eq!(count_trips_of_date(&names, "2024-12-31"), 2);
}

#[test]
fn typed_notifications_inside_a_trip_are_written() {
    let mut r = Recorder::new();
    let batch = vec![
        note(Some("connect"), "c"),
        note(Some("gps"), "g"),
        note(Some("disconnect"), "d"),
        note(Some("gps"), "h"),
    ];
    assert_eq!(r.accept_all(&batch, true), b"[c,g,d]".to_vec());
    assert!(!r.started);
}

#[test]
fn last_marker_decides_the_state() {
    let mut r = Recorder::new();
    r.accept_all(&vec![note(Some("disconnect"), "a"), note(Some("connect"), "b"), note(None, "c")], true);
    assert!(r.started);
    r.accept_all(&vec![note(Some("x"), "d")], true);
    assert!(r.started);
}
