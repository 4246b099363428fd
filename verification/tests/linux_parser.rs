use sentinel_agent::processor::linux_parser::parse_audit_message;
use sentinel_agent::processor::models::LinuxAuditEvent;
use sentinel_agent::processor::text::{is_whitespace, same_text, to_chars};
use std::collections::HashMap;

fn text(value: &Option<String>) -> Option<&str> {
    value.as_deref()
}

fn other(event: &LinuxAuditEvent) -> HashMap<String, String> {
    event.other_fields.entries().iter().cloned().collect()
}

/// The same record read with the standard library's own splitting.
fn by_std(raw: &str) -> Option<(String, HashMap<String, String>)> {
    let timestamp = raw
        .find("audit(")
        .map(|at| &raw[at + "audit(".len()..])
        .and_then(|rest| rest.split_once(':'))
        .map(|(ts, _)| ts)
        .unwrap_or("unknown")
        .to_string();
    let mut fields = HashMap::new();
    for part in raw.split_whitespace() {
        if let Some((key, value)) = part.split_once('=') {
            fields.insert(key.to_string(), value.trim_matches('"').to_string());
        }
    }
    if fields.is_empty() {
        None
    } else {
        Some((timestamp, fields))
    }
}

fn all_fields(event: &LinuxAuditEvent) -> HashMap<String, String> {
    let mut fields = other(event);
    let known = [
        ("uid", &event.uid),
        ("gid", &event.gid),
        ("pid", &event.pid),
        ("comm", &event.comm),
        ("exe", &event.exe),
        ("syscall", &event.syscall),
        ("success", &event.success),
    ];
    for (key, value) in known {
        assert!(!fields.contains_key(key));
        if let Some(value) = value {
            fields.insert(key.to_string(), value.clone());
        }
    }
    fields
}

#[test]
fn audit_record_with_marker_and_three_fields() {
    let event =
        parse_audit_message("audit(1678886400.123:456): uid=1000 comm=\"bash\" success=yes")
            .expect("a record with fields is an event");
    assert_eq!(event.timestamp, "1678886400.123");
    assert_eq!(text(&event.uid), Some("1000"));
    assert_eq!(text(&event.comm), Some("bash"));
    assert_eq!(text(&event.success), Some("yes"));
    assert_eq!(event.gid, None);
    assert_eq!(event.pid, None);
    assert_eq!(event.exe, None);
    assert_eq!(event.syscall, None);
    assert!(event.other_fields.is_empty());
    assert_eq!(event.other_fields.entries().len(), 0);
}

#[test]
fn record_without_pairs_is_no_event() {
    assert!(parse_audit_message("").is_none());
    assert!(parse_audit_message("   \t\n").is_none());
    assert!(parse_audit_message("hello world").is_none());
    assert!(parse_audit_message("audit(1678886400.123:456):").is_none());
    assert!(parse_audit_message("<Event><System/></Event>").is_none());
}

#[test]
fn all_seven_known_fields_leave_the_extension_map() {
    let event = parse_audit_message(
        "audit(1.5:9): uid=1 gid=2 pid=3 comm=sh exe=/bin/sh syscall=59 success=no tty=pts0 ses=4",
    )
    .unwrap();
    assert_eq!(event.timestamp, "1.5");
    assert_eq!(text(&event.uid), Some("1"));
    assert_eq!(text(&event.gid), Some("2"));
    assert_eq!(text(&event.pid), Some("3"));
    assert_eq!(text(&event.comm), Some("sh"));
    assert_eq!(text(&event.exe), Some("/bin/sh"));
    assert_eq!(text(&event.syscall), Some("59"));
    assert_eq!(text(&event.success), Some("no"));
    let rest = other(&event);
    assert_eq!(rest.len(), 2);
    assert_eq!(rest.get("tty").map(String::as_str), Some("pts0"));
    assert_eq!(rest.get("ses").map(String::as_str), Some("4"));
    assert_eq!(event.other_fields.get("tty").map(String::as_str), Some("pts0"));
    assert!(event.other_fields.contains_key("ses"));
    assert!(!event.other_fields.contains_key("uid"));
}

#[test]
fn timestamp_is_unknown_without_the_marker() {
    for raw in [
        "uid=1",
        "uid=0 note=(x:y)",
        "type: uid=1 (x)",
        "(: a=b",
        "a=b (1 2:3)",
        "((x(y:z): a=b",
        "Audit(1.5:2): a=b",
        "audit (1.5:2): a=b",
        "audi(1.5:2): a=b",
        "audit[1.5:2]: a=b",
    ] {
        assert_eq!(parse_audit_message(raw).unwrap().timestamp, "unknown", "{:?}", raw);
    }
}

#[test]
fn parentheses_and_colons_without_the_marker_give_no_timestamp() {
    let event = parse_audit_message("uid=0 note=(x:y)").unwrap();
    assert_eq!(event.timestamp, "unknown");
    assert_eq!(text(&event.uid), Some("0"));
    let rest = other(&event);
    assert_eq!(rest.len(), 1);
    assert_eq!(rest["note"], "(x:y)");
}

#[test]
fn timestamp_is_unknown_where_no_colon_follows_the_marker() {
    assert_eq!(parse_audit_message("audit(12 uid=1").unwrap().timestamp, "unknown");
    assert_eq!(parse_audit_message("a:b audit(12 uid=1").unwrap().timestamp, "unknown");
    assert_eq!(parse_audit_message("uid=1 audit(").unwrap().timestamp, "unknown");
}

#[test]
fn timestamp_runs_from_the_marker_to_the_first_colon_after_it() {
    assert_eq!(parse_audit_message("audit(1.5:9): a=b").unwrap().timestamp, "1.5");
    assert_eq!(parse_audit_message("msg=audit(10.2:7): a=b").unwrap().timestamp, "10.2");
    assert_eq!(parse_audit_message("time: audit(1.5:2): uid=0").unwrap().timestamp, "1.5");
    assert_eq!(parse_audit_message("x(y audit(3:4): a=b").unwrap().timestamp, "3");
    assert_eq!(parse_audit_message("日本 audit(9:1): a=b").unwrap().timestamp, "9");
    assert_eq!(parse_audit_message("aaudit(5:6): a=b").unwrap().timestamp, "5");
    assert_eq!(parse_audit_message("audit(: a=b").unwrap().timestamp, "");
    assert_eq!(parse_audit_message("audit((x:1): a=b").unwrap().timestamp, "(x");
    assert_eq!(parse_audit_message("audit(1 2:3) a=b").unwrap().timestamp, "1 2");
    assert_eq!(parse_audit_message("audit(x audit(1:2): a=b").unwrap().timestamp, "x audit(1");
    assert_eq!(parse_audit_message("a=b audit(7:8)").unwrap().timestamp, "7");
}

#[test]
fn quotes_are_stripped_from_both_ends_of_a_value() {
    let event = parse_audit_message("exe=\"/usr/bin/ls\" a=\"\"x\"\" b=\"\"\" c=\"in\"ner\" d=\"").unwrap();
    assert_eq!(text(&event.exe), Some("/usr/bin/ls"));
    let rest = other(&event);
    assert_eq!(rest["a"], "x");
    assert_eq!(rest["b"], "");
    assert_eq!(rest["c"], "in\"ner");
    assert_eq!(rest["d"], "");
}

#[test]
fn later_pair_replaces_earlier_pair_of_the_same_key() {
    let event = parse_audit_message("a=1 uid=5 a=2 uid=6").unwrap();
    assert_eq!(text(&event.uid), Some("6"));
    let rest = other(&event);
    assert_eq!(rest.len(), 1);
    assert_eq!(rest["a"], "2");
}

#[test]
fn token_splits_at_its_first_equals_sign() {
    let event = parse_audit_message("=x a==b k=v=w plain").unwrap();
    let rest = other(&event);
    assert_eq!(rest.len(), 3);
    assert_eq!(rest[""], "x");
    assert_eq!(rest["a"], "=b");
    assert_eq!(rest["k"], "v=w");
}

#[test]
fn tokens_are_split_at_unicode_white_space() {
    let event = parse_audit_message("a=1\u{2003}b=2\u{a0}c=3\u{3000}\u{85}d=4\r\ne=5").unwrap();
    let rest = other(&event);
    assert_eq!(rest.len(), 5);
    assert_eq!(rest["a"], "1");
    assert_eq!(rest["b"], "2");
    assert_eq!(rest["c"], "3");
    assert_eq!(rest["d"], "4");
    assert_eq!(rest["e"], "5");
}

#[test]
fn values_may_hold_any_other_character() {
    let event = parse_audit_message("näme=wért\u{200b}zero comm=\"日本語\"").unwrap();
    assert_eq!(text(&event.comm), Some("日本語"));
    assert_eq!(other(&event)["näme"], "wért\u{200b}zero");
}

#[test]
fn parser_agrees_with_the_standard_library() {
    let records = [
        "",
        " ",
        "a",
        "=",
        "a=",
        "=\"",
        "a=b",
        " a=b ",
        "audit(1678886400.123:456): uid=1000 comm=\"bash\" success=yes",
        "type=SYSCALL msg=audit(1364481363.243:24287): arch=c000003e syscall=2 success=no exit=-13 a0=7fffd19c5592 a1=0 items=1 ppid=2686 pid=3538 auid=1000 uid=1000 gid=1000 comm=\"cat\" exe=\"/bin/cat\" key=\"sshd_config\"",
        "x:y(z a=b",
        "(:) =",
        "a=\"\"\"\"",
        "a=\"b c\" d",
        "\u{feff}a=b",
        "uid=\"\" gid uid",
        "k=v\u{1680}k=w\u{2028}\u{2029}\u{202f}\u{205f}z=\"q\"",
        "tab\tsep=1\x0bvt=2\x0cff=3",
        "\u{1f}a=b\u{1c}c=d",
        "(a=b:c=d) e=f",
        "uid=0 note=(x:y)",
        "time: audit(1.5:2): uid=0",
        "audit(x audit(1:2): a=b",
        "audit(12 uid=1",
        "audi(1:2): audit a=b",
        "é audit(日:本): k=v",
    ];
    for raw in records {
        let ours = parse_audit_message(raw);
        let theirs = by_std(raw);
        match (ours, theirs) {
            (None, None) => {}
            (Some(event), Some((timestamp, fields))) => {
                assert_eq!(event.timestamp, timestamp, "timestamp of {:?}", raw);
                assert_eq!(all_fields(&event), fields, "fields of {:?}", raw);
            }
            (ours, theirs) => panic!("{:?}: {:?} against {:?}", raw, ours, theirs),
        }
    }
}

#[test]
fn white_space_is_what_the_standard_library_calls_white_space() {
    for code in 0..=0x10ffffu32 {
        if let Some(c) = char::from_u32(code) {
            assert_eq!(is_whitespace(c), c.is_whitespace(), "U+{:04X}", code);
        }
    }
}

#[test]
fn same_text_compares_whole_strings() {
    assert!(same_text("", ""));
    assert!(same_text("uid", "uid"));
    assert!(same_text("日本", "日本"));
    assert!(!same_text("uid", "gid"));
    assert!(!same_text("uid", "uid "));
    assert!(!same_text("", "a"));
    assert!(!same_text("é", "e\u{301}"));
}

#[test]
fn to_chars_keeps_every_character() {
    assert_eq!(to_chars(""), Vec::<char>::new());
    assert_eq!(to_chars("a=é 日"), vec!['a', '=', 'é', ' ', '日']);
}

#[test]
fn default_event_is_without_content() {
    let event = LinuxAuditEvent::default();
    assert_eq!(event.timestamp, "");
    assert_eq!(event.uid, None);
    assert_eq!(event.gid, None);
    assert_eq!(event.pid, None);
    assert_eq!(event.comm, None);
    assert_eq!(event.exe, None);
    assert_eq!(event.syscall, None);
    assert_eq!(event.success, None);
    assert!(event.other_fields.is_empty());
    assert_eq!(event.other_fields.entries().len(), 0);
}
