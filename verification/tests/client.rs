use remote_runner::client::{
    disconnect_line, disconnect_report, next_console_action, styled_disconnect_line, Action,
    Announcement, ConsoleAction, ConsoleEvent, Resp, Worker, WorkerAction, WorkerEvent,
};
use remote_runner::message::{ServerCmd, ServerUpdate, StdStream, StdioBytes, Version};
use remote_runner::server::{
    next_server_action, InternalMessage, Relay, RelayAction, RelayEvent, ServerAction, ServerEvent,
};

fn update(panicked: bool, data: &[u8]) -> ServerUpdate {
    let stdio = StdioBytes { stream: StdStream::Stderr, data: data.to_vec() };
    ServerUpdate { panicked, stdio }
}

#[test]
fn an_argument_names_an_action() {
    assert_eq!(Action::from_argument(Some("--upgrade")), Action::Upgrade);
    assert_eq!(Action::from_argument(Some("--upgrade ")), Action::Run);
    assert_eq!(Action::from_argument(Some("target/tool")), Action::Run);
    assert_eq!(Action::from_argument(None), Action::Run);
}

#[test]
fn announcements_are_lines() {
    let looking = Announcement::LookingForServer("here:1".to_string());
    let stdio = looking.line("<1>", "<here>");
    assert_eq!(stdio.stream, StdStream::Stdout);
    assert_eq!(stdio.data, b"<1> Looking for server at <here>\n".to_vec());
    let uploading = Announcement::Uploading("tool".to_string());
    assert_eq!(uploading.line("<2>", "\u{e9}").data, "<2> Uploading \u{e9}\n".as_bytes());
    let running = Announcement::Running("tool".to_string());
    assert_eq!(running.line("<3>", "tool").data, b"<3> Running tool\n".to_vec());
}

#[test]
fn announcements_are_styled_where_there_are_colours() {
    let looking = Announcement::LookingForServer("127.0.0.1:4444".to_string());
    let stdio = looking.styled_line(true);
    assert_eq!(stdio.stream, StdStream::Stdout);
    assert_eq!(
        stdio.data,
        b"\x1b[1m\x1b[2m[1/3]\x1b[0m Looking for server at \x1b[1m127.0.0.1:4444\x1b[0m\n".to_vec()
    );
    assert_eq!(
        styled_disconnect_line(true),
        "\x1b[31m\x1b[1m[ERR]\x1b[0m Network thread disconnected unexpectedly"
    );
}

#[test]
fn announcements_are_plain_where_there_are_none() {
    let uploading = Announcement::Uploading("tool".to_string());
    assert_eq!(uploading.styled_line(false).data, b"[2/3] Uploading tool\n".to_vec());
    let running = Announcement::Running("tool".to_string());
    assert_eq!(running.styled_line(false).data, b"[3/3] Running tool\n".to_vec());
    assert_eq!(
        styled_disconnect_line(false),
        "[ERR] Network thread disconnected unexpectedly"
    );
    assert_eq!(disconnect_line("!"), "! Network thread disconnected unexpectedly");
}

#[test]
fn styles_follow_the_terminal() {
    let uploading = Announcement::Uploading("tool".to_string());
    for coloured in [true, false, true] {
        console::set_colors_enabled(coloured);
        assert_eq!(uploading.announce().data, uploading.styled_line(coloured).data);
        assert_eq!(disconnect_report(), styled_disconnect_line(coloured));
    }
}

#[test]
fn a_worker_uploads_and_runs() {
    let mut worker = Worker::new(Action::Run, "here:1".to_string());
    assert!(matches!(
        worker.next_action(WorkerEvent::Started),
        WorkerAction::Announce(Announcement::LookingForServer(address)) if address == "here:1"
    ));
    assert!(matches!(
        worker.next_action(WorkerEvent::LookingAnnounced),
        WorkerAction::Connect
    ));
    assert!(matches!(
        worker.next_action(WorkerEvent::Connected(true)),
        WorkerAction::ReadVersion
    ));
    let server_version = Version { major: 7, minor: 7, patch: 7 };
    assert!(matches!(
        worker.next_action(WorkerEvent::VersionRead(server_version)),
        WorkerAction::SendVersion(Version { major: 0, minor: 1, patch: 0 })
    ));
    assert!(matches!(
        worker.next_action(WorkerEvent::VersionSent),
        WorkerAction::NameExecutable
    ));
    assert!(matches!(
        worker.next_action(WorkerEvent::Named("tool".to_string())),
        WorkerAction::Announce(Announcement::Uploading(name)) if name == "tool"
    ));
    assert!(matches!(
        worker.next_action(WorkerEvent::UploadAnnounced),
        WorkerAction::ReadExecutable
    ));
    match worker.next_action(WorkerEvent::ExecutableRead(vec![1, 2, 3])) {
        WorkerAction::SendCommand(ServerCmd::Run(executable)) => {
            assert_eq!(executable.name, "tool");
            assert_eq!(executable.data, vec![1, 2, 3]);
        }
        _ => panic!("no command is sent"),
    }
    assert!(matches!(
        worker.next_action(WorkerEvent::CommandSent),
        WorkerAction::Announce(Announcement::Running(name)) if name == "tool"
    ));
    assert!(matches!(
        worker.next_action(WorkerEvent::RunAnnounced),
        WorkerAction::ReadUpdate
    ));
    assert!(matches!(
        worker.next_action(WorkerEvent::UpdateRead(update(true, &[5]))),
        WorkerAction::Respond(Resp::Print(stdio)) if stdio.data == vec![5]
    ));
    assert!(matches!(worker.next_action(WorkerEvent::Printed), WorkerAction::ReadUpdate));
}

#[test]
fn a_worker_without_a_server_fails() {
    let mut worker = Worker::new(Action::Run, "here:1".to_string());
    assert!(matches!(
        worker.next_action(WorkerEvent::Connected(false)),
        WorkerAction::Respond(Resp::Errored)
    ));
}

#[test]
fn a_worker_can_be_asked_for_an_upgrade() {
    let mut worker = Worker::new(Action::Upgrade, "here:1".to_string());
    assert!(matches!(
        worker.next_action(WorkerEvent::VersionSent),
        WorkerAction::UpgradeSelf
    ));
}

#[test]
fn the_console_prints_and_ends() {
    let stdio = StdioBytes { stream: StdStream::Stderr, data: vec![1, 2] };
    assert!(matches!(
        next_console_action(ConsoleEvent::Received(Resp::Print(stdio))),
        ConsoleAction::Write(data) if data == vec![1, 2]
    ));
    assert!(matches!(
        next_console_action(ConsoleEvent::Received(Resp::Errored)),
        ConsoleAction::Quit
    ));
    assert!(matches!(next_console_action(ConsoleEvent::Empty), ConsoleAction::Poll));
    assert!(matches!(
        next_console_action(ConsoleEvent::Disconnected),
        ConsoleAction::ReportDisconnect
    ));
}

#[test]
fn output_reaches_the_user() {
    let stdio = StdioBytes { stream: StdStream::Stdout, data: b"hello\n".to_vec() };
    let event = RelayEvent::Received(Some(InternalMessage::Stdio(stdio)));
    let sent = match Relay::new().next_action(event) {
        RelayAction::Send(update) => update,
        _ => panic!("no update is sent"),
    };
    let mut worker = Worker::new(Action::Run, "here:1".to_string());
    let resp = match worker.next_action(WorkerEvent::UpdateRead(sent)) {
        WorkerAction::Respond(resp) => resp,
        _ => panic!("nothing is handed to the console"),
    };
    assert!(matches!(
        next_console_action(ConsoleEvent::Received(resp)),
        ConsoleAction::Write(data) if data == b"hello\n".to_vec()
    ));
}

#[test]
fn both_sides_agree_on_the_version() {
    let announced = match next_server_action(ServerEvent::Accepted(true)) {
        ServerAction::SendVersion(version) => version,
        _ => panic!("no version is announced"),
    };
    let mut worker = Worker::new(Action::Run, "here:1".to_string());
    let sent = match worker.next_action(WorkerEvent::VersionRead(announced)) {
        WorkerAction::SendVersion(version) => version,
        _ => panic!("no version is announced"),
    };
    assert_eq!(sent, announced);
    assert!(matches!(
        next_server_action(ServerEvent::VersionRead(Some(sent))),
        ServerAction::ReadCommand
    ));
}

#[test]
fn a_worker_ends_with_the_updates() {
    let mut worker = Worker::new(Action::Run, "here:1".to_string());
    assert!(matches!(worker.next_action(WorkerEvent::CommandSent), WorkerAction::Announce(_)));
    assert!(matches!(
        worker.next_action(WorkerEvent::RunAnnounced),
        WorkerAction::ReadUpdate
    ));
    assert!(matches!(
        worker.next_action(WorkerEvent::UpdateRead(update(false, &[1]))),
        WorkerAction::Respond(Resp::Print(_))
    ));
    assert!(matches!(worker.next_action(WorkerEvent::Printed), WorkerAction::ReadUpdate));
    assert!(matches!(worker.next_action(WorkerEvent::UpdatesEnded), WorkerAction::Finish));
}
