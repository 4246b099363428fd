use sentinel_agent::processor::models::{
    DataPair, EventData, EventPayload, Provider, SysmonEvent, System, TimeCreated,
};
use sentinel_agent::processor::processor::process_event;

fn sysmon() -> SysmonEvent {
    SysmonEvent {
        system: System {
            provider: Provider { name: "Microsoft-Windows-Sysmon".to_string() },
            event_id: 1,
            time_created: TimeCreated { system_time: "2023-03-15T13:20:00.123Z".to_string() },
            computer: "HOST-1".to_string(),
        },
        event_data: EventData {
            data: vec![
                DataPair { name: "Image".to_string(), value: "C:\\evil.exe".to_string() },
                DataPair { name: "ProcessId".to_string(), value: "4242".to_string() },
            ],
        },
    }
}

#[test]
fn windows_match_wins_over_the_linux_schema() {
    // The record would also read as a Linux record: it holds a pair.
    let raw = "<Event a=b><System/></Event> uid=1";
    match process_event(Some(sysmon()), raw) {
        Some(EventPayload::Windows(event)) => assert_eq!(event, sysmon()),
        other => panic!("not the Windows event: {:?}", other),
    }
}

#[test]
fn windows_match_wins_where_linux_would_not_match() {
    match process_event(Some(sysmon()), "no pairs here") {
        Some(EventPayload::Windows(event)) => assert_eq!(event, sysmon()),
        other => panic!("not the Windows event: {:?}", other),
    }
}

#[test]
fn linux_schema_is_second() {
    match process_event(None, "audit(1678886400.123:456): uid=1000 comm=\"bash\" success=yes") {
        Some(EventPayload::Linux(event)) => {
            assert_eq!(event.timestamp, "1678886400.123");
            assert_eq!(event.uid.as_deref(), Some("1000"));
            assert_eq!(event.comm.as_deref(), Some("bash"));
            assert_eq!(event.success.as_deref(), Some("yes"));
            assert!(event.other_fields.is_empty());
        }
        other => panic!("not a Linux event: {:?}", other),
    }
}

#[test]
fn record_of_no_schema_is_dropped() {
    assert!(process_event(None, "neither one nor the other").is_none());
    assert!(process_event(None, "").is_none());
}

#[test]
fn payload_carries_its_wire_tag() {
    assert_eq!(EventPayload::Windows(sysmon()).event_source(), "windows_sysmon");
    let linux = process_event(None, "uid=0").unwrap();
    assert_eq!(linux.event_source(), "linux_auditd");
}
