use sentinel_agent::communicator::{
    ingest_url, save_event_to_queue, send_event, spool_entry, spool_file_name, Delivery,
    SendAttempt, SpoolFile, QUEUE_DIR,
};

const JSON: &str = "{\"event_source\":\"linux_auditd\",\"data\":{\"timestamp\":\"1.5\",\"uid\":\"0\"}}";

fn assert_spool_name(name: &str) {
    assert_eq!(name.len(), 41);
    assert!(name.ends_with(".json"));
    let id = &name[..36];
    for (i, c) in id.chars().enumerate() {
        if i == 8 || i == 13 || i == 18 || i == 23 {
            assert_eq!(c, '-');
        } else {
            assert!(c.is_ascii_digit() || ('a'..='f').contains(&c), "{:?} in {}", c, id);
        }
    }
    assert_eq!(id.as_bytes()[14], b'4');
    let parsed = uuid::Uuid::parse_str(id).expect("a UUID");
    assert_eq!(parsed.get_version_num(), 4);
    assert_eq!(parsed.to_string(), id);
}

#[test]
fn events_are_posted_to_ingest() {
    assert_eq!(ingest_url("https://collector.example:8443"), "https://collector.example:8443/ingest");
    assert_eq!(ingest_url(""), "/ingest");
    assert_eq!(ingest_url("http://h/"), "http://h//ingest");
}

#[test]
fn spool_lives_under_the_queue_directory() {
    assert_eq!(QUEUE_DIR, "agent/queue");
}

#[test]
fn only_success_statuses_are_accepted() {
    for status in [200u16, 201, 204, 250, 299] {
        assert!(SendAttempt::Status(status).is_accepted(), "{}", status);
    }
    for status in [0u16, 100, 199, 300, 301, 404, 500, 503, 999, u16::MAX] {
        assert!(!SendAttempt::Status(status).is_accepted(), "{}", status);
    }
    assert!(!SendAttempt::Failed.is_accepted());
}

#[test]
fn accepted_send_is_a_delivery_and_spools_nothing() {
    assert_eq!(send_event(SendAttempt::Status(200), Some(JSON.to_string())), Delivery::Delivered);
    assert_eq!(send_event(SendAttempt::Status(204), None), Delivery::Delivered);
}

#[test]
fn server_error_spools_exactly_one_file_with_the_event() {
    match send_event(SendAttempt::Status(500), Some(JSON.to_string())) {
        Delivery::Spooled(Some(file)) => {
            assert_eq!(file.contents, JSON);
            assert_spool_name(&file.name);
        }
        other => panic!("not spooled: {:?}", other),
    }
}

#[test]
fn failed_request_spools_the_event() {
    match send_event(SendAttempt::Failed, Some(JSON.to_string())) {
        Delivery::Spooled(Some(file)) => {
            assert_eq!(file.contents, JSON);
            assert_spool_name(&file.name);
        }
        other => panic!("not spooled: {:?}", other),
    }
}

#[test]
fn event_that_cannot_be_serialised_is_lost() {
    assert_eq!(send_event(SendAttempt::Status(503), None), Delivery::Spooled(None));
    assert_eq!(save_event_to_queue(None), None);
}

#[test]
fn every_spool_file_gets_a_name_of_its_own() {
    let mut names = Vec::new();
    for _ in 0..64 {
        let file = save_event_to_queue(Some(JSON.to_string())).unwrap();
        assert_eq!(file.contents, JSON);
        assert_spool_name(&file.name);
        assert!(!names.contains(&file.name));
        names.push(file.name);
    }
}

#[test]
fn spool_file_is_named_after_its_identifier() {
    assert_eq!(spool_file_name("abc"), "abc.json");
    assert_eq!(spool_file_name(""), ".json");
    assert_eq!(
        spool_entry("0d9c1f5e-7a0b-4c3d-9e2f-1a2b3c4d5e6f", Some(JSON.to_string())),
        Some(SpoolFile {
            name: "0d9c1f5e-7a0b-4c3d-9e2f-1a2b3c4d5e6f.json".to_string(),
            contents: JSON.to_string(),
        })
    );
    assert_eq!(spool_entry("0d9c1f5e-7a0b-4c3d-9e2f-1a2b3c4d5e6f", None), None);
}
