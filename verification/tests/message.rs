use remote_runner::message::{
    default_port, default_socket_address, RunExecutable, SelfUpdate, ServerCmd, ServerUpdate,
    StdStream, StdioBytes, Version,
};

#[test]
fn the_server_is_looked_for_on_the_local_machine() {
    let address = default_socket_address();
    assert_eq!(address.octets, [127, 0, 0, 1]);
    assert_eq!(address.port, default_port());
    assert_eq!(default_port(), 4444);
}

#[test]
fn the_announced_version_is_not_null() {
    assert_eq!(Version::announced(), Version { major: 0, minor: 1, patch: 0 });
    assert!(!Version::announced().is_null());
}

#[test]
fn only_all_zeros_is_the_null_version() {
    assert!(Version { major: 0, minor: 0, patch: 0 }.is_null());
    assert!(!Version { major: 1, minor: 0, patch: 0 }.is_null());
    assert!(!Version { major: 0, minor: 0, patch: 1 }.is_null());
}

#[test]
fn an_executable_is_shown_without_its_contents() {
    let executable = RunExecutable { name: "a \"b\"\n".to_string(), data: vec![1, 2, 3] };
    assert_eq!(
        executable.debug_text(),
        "RunExecutable { name: \"a \\\"b\\\"\\n\", data: [0] }"
    );
    let other = RunExecutable { name: "a \"b\"\n".to_string(), data: vec![] };
    assert_eq!(executable.debug_text(), other.debug_text());
}

#[test]
fn a_quoted_name_is_shown_as_it_is() {
    assert_eq!(
        RunExecutable::debug_text_of("\"tool\""),
        "RunExecutable { name: \"tool\", data: [0] }"
    );
}

#[test]
fn an_upgrade_is_shown_without_its_contents() {
    assert_eq!(SelfUpdate { data: vec![9] }.debug_text(), "SelfUpdate { data: [0] }");
}

#[test]
fn output_is_shown_without_its_contents() {
    assert_eq!(
        StdioBytes { stream: StdStream::Stdout, data: vec![9] }.debug_text(),
        "StdioBytes { stream: Stdout, data: [0] }"
    );
    assert_eq!(
        StdioBytes { stream: StdStream::Stderr, data: vec![] }.debug_text(),
        "StdioBytes { stream: Stderr, data: [0] }"
    );
}

#[test]
fn commands_are_shown_without_their_contents() {
    let run = ServerCmd::Run(RunExecutable { name: "tool".to_string(), data: vec![1] });
    assert_eq!(run.debug_text(), "Run(RunExecutable { name: \"tool\", data: [0] })");
    let upgrade = ServerCmd::UpgradeSelf(SelfUpdate { data: vec![1] });
    assert_eq!(upgrade.debug_text(), "UpgradeSelf(SelfUpdate { data: [0] })");
}

#[test]
fn updates_are_shown_without_their_contents() {
    let stdio = StdioBytes { stream: StdStream::Stdout, data: vec![1, 2] };
    let update = ServerUpdate { panicked: false, stdio };
    assert_eq!(
        update.debug_text(),
        "ServerUpdate { panicked: false, stdio: StdioBytes { stream: Stdout, data: [0] } }"
    );
    let stdio = StdioBytes { stream: StdStream::Stderr, data: vec![] };
    let update = ServerUpdate { panicked: true, stdio };
    assert_eq!(
        update.debug_text(),
        "ServerUpdate { panicked: true, stdio: StdioBytes { stream: Stderr, data: [0] } }"
    );
}
