use sentinel_agent::config::{Security, Server, Settings};
use sentinel_agent::responder::actions::kill_process::KillProcess;
use sentinel_agent::responder::actions::quarantine_file::{QuarantineFile, NO_ACCESS};
use sentinel_agent::responder::actions::{
    get_action_registry, Action, BuiltinAction, Effect, Feedback, Report, Step,
};
use sentinel_agent::responder::responder::{
    check_for_commands, commands_url, execute_command, POLL_INTERVAL_SECS,
};
use sentinel_agent::responder::Command;

fn command(id: &str, action: &str, target: &str) -> Command {
    Command { id: id.to_string(), action: action.to_string(), target: target.to_string() }
}

fn settings(agent_id: &str, url: &str) -> Settings {
    Settings::new(
        agent_id.to_string(),
        Server { url: url.to_string() },
        Security {
            server_cert_path: "certs/server.pem".to_string(),
            agent_cert_path: "certs/agent.pem".to_string(),
            agent_key_path: "certs/agent.key".to_string(),
        },
    )
}

const ALL_FEEDBACK: [Feedback; 7] = [
    Feedback::Start,
    Feedback::ProcessExit(true),
    Feedback::ProcessExit(false),
    Feedback::FileProbed(true),
    Feedback::FileProbed(false),
    Feedback::PermissionsSet(true),
    Feedback::PermissionsSet(false),
];

#[test]
fn settings_keep_their_parts() {
    let s = settings("agent-7", "https://c.example");
    assert_eq!(s.agent_id, "agent-7");
    assert_eq!(s.server, Server { url: "https://c.example".to_string() });
    assert_eq!(s.security.server_cert_path, "certs/server.pem");
    assert_eq!(s.security.agent_cert_path, "certs/agent.pem");
    assert_eq!(s.security.agent_key_path, "certs/agent.key");
}

#[test]
fn commands_are_polled_every_half_minute() {
    assert_eq!(POLL_INTERVAL_SECS, 30);
}

#[test]
fn commands_are_fetched_for_this_agent() {
    assert_eq!(
        commands_url(&settings("agent-7", "https://c.example")),
        "https://c.example/commands/agent-7"
    );
    assert_eq!(commands_url(&settings("", "")), "/commands/");
}

#[test]
fn failed_poll_runs_nothing() {
    assert_eq!(check_for_commands(None), Vec::<Command>::new());
    assert_eq!(check_for_commands(Some(Vec::new())), Vec::<Command>::new());
}

#[test]
fn batch_keeps_the_order_of_the_answer() {
    let commands = vec![
        command("1", "kill_process", "evil.exe"),
        command("2", "reboot_host", ""),
        command("3", "quarantine_file", "/tmp/x"),
        command("1", "kill_process", "evil.exe"),
    ];
    assert_eq!(check_for_commands(Some(commands.clone())), commands);
}

#[test]
fn registry_holds_the_two_built_in_actions() {
    let registry = get_action_registry();
    assert_eq!(registry.get("kill_process").map(|a| a.name()), Some("kill_process"));
    assert_eq!(registry.get("quarantine_file").map(|a| a.name()), Some("quarantine_file"));
    assert!(matches!(registry.get("kill_process"), Some(BuiltinAction::KillProcess(_))));
    assert!(matches!(registry.get("quarantine_file"), Some(BuiltinAction::QuarantineFile(_))));
    for name in ["", "reboot_host", "kill_process ", "Kill_Process", "quarantine", "kill_processquarantine_file"] {
        assert!(registry.get(name).is_none(), "{:?}", name);
    }
}

#[test]
fn actions_go_by_their_names() {
    assert_eq!(KillProcess.name(), "kill_process");
    assert_eq!(QuarantineFile.name(), "quarantine_file");
}

#[test]
fn kill_command_goes_to_kill_process_only() {
    let registry = get_action_registry();
    let cmd = command("1", "kill_process", "evil.exe");
    assert_eq!(
        execute_command(&cmd, &registry, Feedback::Start),
        Some(Step::Perform(Effect::TerminateProcess { name: "evil.exe".to_string() }))
    );
    for feedback in ALL_FEEDBACK {
        match execute_command(&cmd, &registry, feedback) {
            Some(Step::Perform(Effect::TerminateProcess { name })) => assert_eq!(name, "evil.exe"),
            Some(Step::Perform(effect)) => panic!("an effect of another action: {:?}", effect),
            Some(Step::Finish(_)) => {}
            None => panic!("the action is registered"),
        }
    }
}

#[test]
fn unregistered_action_runs_nothing() {
    let registry = get_action_registry();
    let cmd = command("9", "reboot_host", "now");
    for feedback in ALL_FEEDBACK {
        assert_eq!(execute_command(&cmd, &registry, feedback), None);
    }
    assert_eq!(execute_command(&command("", "", ""), &registry, Feedback::Start), None);
}

#[test]
fn kill_process_reports_how_the_request_ended() {
    assert_eq!(
        KillProcess.execute("sshd", Feedback::Start),
        Step::Perform(Effect::TerminateProcess { name: "sshd".to_string() })
    );
    assert_eq!(KillProcess.execute("sshd", Feedback::ProcessExit(true)), Step::Finish(Report::Terminated));
    assert_eq!(KillProcess.execute("sshd", Feedback::ProcessExit(false)), Step::Finish(Report::NotTerminated));
    for feedback in [
        Feedback::FileProbed(true),
        Feedback::FileProbed(false),
        Feedback::PermissionsSet(true),
        Feedback::PermissionsSet(false),
    ] {
        assert_eq!(KillProcess.execute("sshd", feedback), Step::Finish(Report::Unexpected));
    }
}

#[test]
fn quarantine_clears_the_permissions_of_a_file_that_is_there() {
    assert_eq!(NO_ACCESS, 0);
    assert_eq!(
        QuarantineFile.execute("/tmp/x", Feedback::Start),
        Step::Perform(Effect::ProbeFile { path: "/tmp/x".to_string() })
    );
    assert_eq!(
        QuarantineFile.execute("/tmp/x", Feedback::FileProbed(true)),
        Step::Perform(Effect::SetPermissions { path: "/tmp/x".to_string(), mode: 0 })
    );
    assert_eq!(QuarantineFile.execute("/tmp/x", Feedback::PermissionsSet(true)), Step::Finish(Report::Quarantined));
    assert_eq!(
        QuarantineFile.execute("/tmp/x", Feedback::PermissionsSet(false)),
        Step::Finish(Report::PermissionsUnchanged)
    );
}

#[test]
fn quarantine_leaves_a_missing_file_alone() {
    assert_eq!(QuarantineFile.execute("/nowhere", Feedback::FileProbed(false)), Step::Finish(Report::FileNotFound));
    assert_eq!(QuarantineFile.execute("/nowhere", Feedback::ProcessExit(true)), Step::Finish(Report::Unexpected));
    assert_eq!(QuarantineFile.execute("/nowhere", Feedback::ProcessExit(false)), Step::Finish(Report::Unexpected));
}

#[test]
fn quarantine_command_goes_to_quarantine_file_only() {
    let registry = get_action_registry();
    let cmd = command("2", "quarantine_file", "/tmp/x");
    for feedback in ALL_FEEDBACK {
        match execute_command(&cmd, &registry, feedback) {
            Some(Step::Perform(Effect::TerminateProcess { .. })) => panic!("an effect of kill_process"),
            Some(_) => {}
            None => panic!("the action is registered"),
        }
    }
}
