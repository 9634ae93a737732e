use remote_runner::message::{RunExecutable, SelfUpdate, ServerCmd, StdStream, StdioBytes, Version};
use remote_runner::server::{
    make_executable, next_server_action, next_watch_action, retries_spawn, ClientPoll,
    InternalMessage, ProcessPoll, RedirectAction, RedirectEvent, Redirector, Relay, RelayAction,
    RelayEvent, ServerAction, ServerEvent, WatchAction, WatchEvent,
};

fn version(major: u32, minor: u32, patch: u32) -> Version {
    Version { major, minor, patch }
}

fn output(data: &[u8]) -> StdioBytes {
    StdioBytes { stream: StdStream::Stderr, data: data.to_vec() }
}

#[test]
fn a_client_is_served_step_by_step() {
    assert!(matches!(next_server_action(ServerEvent::Started), ServerAction::Accept));
    assert!(matches!(
        next_server_action(ServerEvent::Accepted(true)),
        ServerAction::SendVersion(sent) if sent == version(0, 1, 0)
    ));
    assert!(matches!(
        next_server_action(ServerEvent::VersionSent(true)),
        ServerAction::ReadVersion
    ));
    assert!(matches!(
        next_server_action(ServerEvent::VersionRead(Some(version(0, 1, 0)))),
        ServerAction::ReadCommand
    ));
    let cmd = ServerCmd::Run(RunExecutable { name: "tool".to_string(), data: vec![1, 2] });
    assert!(matches!(
        next_server_action(ServerEvent::CommandRead(Some(cmd))),
        ServerAction::Run(executable)
            if executable.name == "tool" && executable.data == vec![1, 2]
    ));
    assert!(matches!(next_server_action(ServerEvent::RunFinished), ServerAction::Accept));
}

#[test]
fn an_upgrade_is_told_from_a_run() {
    let cmd = ServerCmd::UpgradeSelf(SelfUpdate { data: vec![3] });
    assert!(matches!(
        next_server_action(ServerEvent::CommandRead(Some(cmd))),
        ServerAction::UpgradeSelf(update) if update.data == vec![3]
    ));
}

#[test]
fn the_server_survives_its_clients() {
    for event in [
        ServerEvent::Accepted(false),
        ServerEvent::VersionSent(false),
        ServerEvent::VersionRead(None),
        ServerEvent::CommandRead(None),
    ] {
        assert!(matches!(next_server_action(event), ServerAction::Accept));
    }
}

#[test]
fn the_null_version_is_turned_away() {
    assert!(matches!(
        next_server_action(ServerEvent::VersionRead(Some(version(0, 0, 0)))),
        ServerAction::Accept
    ));
    assert!(matches!(
        next_server_action(ServerEvent::VersionRead(Some(version(0, 0, 1)))),
        ServerAction::ReadCommand
    ));
}

#[test]
fn everyone_may_execute_an_executable() {
    assert_eq!(make_executable(0o644), 0o755);
    assert_eq!(make_executable(0), 0o111);
    assert_eq!(make_executable(0o100755), 0o100755);
    assert_eq!(make_executable(make_executable(0o600)), make_executable(0o600));
}

#[test]
fn only_a_file_in_use_on_windows_is_tried_again() {
    assert!(retries_spawn(true, Some(32)));
    assert!(!retries_spawn(true, Some(2)));
    assert!(!retries_spawn(true, None));
    assert!(!retries_spawn(false, Some(32)));
}

#[test]
fn the_watcher_goes_round() {
    assert!(matches!(next_watch_action(WatchEvent::Started), WatchAction::CheckStdio));
    assert!(matches!(
        next_watch_action(WatchEvent::StdioChecked(false)),
        WatchAction::PollClient
    ));
    assert!(matches!(
        next_watch_action(WatchEvent::ClientPolled(ClientPoll::WouldBlock)),
        WatchAction::PollProcess
    ));
    assert!(matches!(
        next_watch_action(WatchEvent::ClientPolled(ClientPoll::Read(1))),
        WatchAction::PollProcess
    ));
    assert!(matches!(
        next_watch_action(WatchEvent::ProcessPolled(ProcessPoll::Running)),
        WatchAction::Sleep(100)
    ));
    assert!(matches!(
        next_watch_action(WatchEvent::ProcessPolled(ProcessPoll::Unknown)),
        WatchAction::Sleep(100)
    ));
    assert!(matches!(next_watch_action(WatchEvent::Slept), WatchAction::CheckStdio));
}

#[test]
fn the_watcher_asks_for_a_stop() {
    for event in [
        WatchEvent::StdioChecked(true),
        WatchEvent::ClientPolled(ClientPoll::Read(0)),
        WatchEvent::ClientPolled(ClientPoll::Failed),
    ] {
        assert!(matches!(
            next_watch_action(event),
            WatchAction::Report(InternalMessage::Stop)
        ));
    }
}

#[test]
fn the_watcher_reports_the_end_of_the_program() {
    assert!(matches!(
        next_watch_action(WatchEvent::ProcessPolled(ProcessPoll::Exited)),
        WatchAction::Report(InternalMessage::ProcessExited)
    ));
}

#[test]
fn a_redirector_hands_on_what_it_reads() {
    let mut redirector = Redirector::new(StdStream::Stderr);
    let mut handed_on = Vec::new();
    assert!(matches!(
        redirector.redirect_stdio(RedirectEvent::Started),
        RedirectAction::CheckError
    ));
    for chunk in [vec![1u8, 2], vec![3], vec![4, 5, 6]] {
        assert!(matches!(
            redirector.redirect_stdio(RedirectEvent::ErrorChecked(false)),
            RedirectAction::Read
        ));
        match redirector.redirect_stdio(RedirectEvent::Read(chunk.clone())) {
            RedirectAction::Send(stdio) => {
                assert_eq!(stdio.stream, StdStream::Stderr);
                assert_eq!(stdio.data, chunk);
                handed_on.extend_from_slice(&stdio.data);
            }
            _ => panic!("nothing is handed on"),
        }
        assert!(matches!(
            redirector.redirect_stdio(RedirectEvent::Sent),
            RedirectAction::CheckError
        ));
    }
    assert_eq!(handed_on, vec![1, 2, 3, 4, 5, 6]);
}

#[test]
fn a_redirector_goes_on_at_the_end_of_its_stream() {
    let mut redirector = Redirector::new(StdStream::Stdout);
    assert!(matches!(
        redirector.redirect_stdio(RedirectEvent::Read(Vec::new())),
        RedirectAction::CheckError
    ));
}

#[test]
fn a_redirector_ends_on_errors() {
    let mut redirector = Redirector::new(StdStream::Stdout);
    assert!(matches!(
        redirector.redirect_stdio(RedirectEvent::ReadFailed),
        RedirectAction::RecordError
    ));
    assert!(matches!(
        redirector.redirect_stdio(RedirectEvent::ErrorChecked(true)),
        RedirectAction::Finish
    ));
}

#[test]
fn the_relay_sends_updates() {
    let mut relay = Relay::new();
    assert!(matches!(relay.next_action(RelayEvent::Started), RelayAction::Receive));
    let event = RelayEvent::Received(Some(InternalMessage::Stdio(output(&[1, 2]))));
    match relay.next_action(event) {
        RelayAction::Send(update) => {
            assert!(!update.panicked);
            assert_eq!(update.stdio.stream, StdStream::Stderr);
            assert_eq!(update.stdio.data, vec![1, 2]);
        }
        _ => panic!("no update is sent"),
    }
    assert!(matches!(relay.next_action(RelayEvent::Sent(true)), RelayAction::Receive));
    assert!(matches!(relay.next_action(RelayEvent::Received(None)), RelayAction::Receive));
}

fn tear_down(relay: &mut Relay) -> RelayAction {
    assert!(matches!(relay.next_action(RelayEvent::WatcherJoined), RelayAction::ShutDown));
    assert!(matches!(relay.next_action(RelayEvent::ShutDown), RelayAction::Drain));
    assert!(matches!(relay.next_action(RelayEvent::Drained(Some(1))), RelayAction::Drain));
    relay.next_action(RelayEvent::Drained(Some(0)))
}

#[test]
fn a_program_that_has_ended_is_not_killed() {
    let mut relay = Relay::new();
    let event = RelayEvent::Received(Some(InternalMessage::ProcessExited));
    assert!(matches!(relay.next_action(event), RelayAction::JoinWatcher));
    assert!(matches!(tear_down(&mut relay), RelayAction::Finish));
}

#[test]
fn a_stopped_program_is_killed() {
    let mut relay = Relay::new();
    let event = RelayEvent::Received(Some(InternalMessage::Stop));
    assert!(matches!(relay.next_action(event), RelayAction::JoinWatcher));
    assert!(matches!(tear_down(&mut relay), RelayAction::Kill));
    assert!(matches!(relay.next_action(RelayEvent::KillTried), RelayAction::Finish));
}

#[test]
fn a_program_without_a_client_is_killed() {
    let mut relay = Relay::new();
    assert!(matches!(relay.next_action(RelayEvent::Sent(false)), RelayAction::JoinWatcher));
    assert!(matches!(relay.next_action(RelayEvent::WatcherJoined), RelayAction::ShutDown));
    assert!(matches!(relay.next_action(RelayEvent::ShutDown), RelayAction::Drain));
    assert!(matches!(relay.next_action(RelayEvent::Drained(None)), RelayAction::Kill));
}
