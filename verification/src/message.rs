//! The messages that client and server exchange, and where they meet.

use vstd::prelude::*;

verus! {

/// An IPv4 address together with a port.
#[derive(Clone, Copy, Debug)]
pub struct SocketAddress {
    pub octets: [u8; 4],
    pub port: u16,
}

/// The address at which a client looks for the server: the local machine, on
/// the default port.
pub fn default_socket_address() -> (address: SocketAddress)
    ensures
        address.octets@ == seq![127u8, 0, 0, 1],
        address.port == 4444,
{
    let address = SocketAddress { octets: [127, 0, 0, 1], port: default_port() };
    assert(address.octets@ =~= seq![127u8, 0, 0, 1]);
    address
}

/// The port on which the server listens.
pub fn default_port() -> (port: u16)
    ensures
        port == 4444,
{
    4444
}

/// The version of the protocol that one side speaks.
#[derive(Clone, Copy, Debug, PartialEq, Eq, Structural)]
pub struct Version {
    pub major: u32,
    pub minor: u32,
    pub patch: u32,
}

/// The version that both sides of this library announce.
pub open spec fn announced_version() -> Version {
    Version { major: 0, minor: 1, patch: 0 }
}

/// A peer that announces 0.0.0 takes no part in the exchange.
pub open spec fn is_null_version(version: Version) -> bool {
    version.major == 0 && version.minor == 0 && version.patch == 0
}

impl Version {
    /// The version that this library announces to its peer.
    pub fn announced() -> (version: Version)
        ensures
            version == announced_version(),
            version.major == 0 && version.minor == 1 && version.patch == 0,
    {
        Version { major: 0, minor: 1, patch: 0 }
    }

    /// Whether this is the version 0.0.0.
    pub fn is_null(&self) -> (null: bool)
        ensures
            null == is_null_version(*self),
            null <==> self.major == 0 && self.minor == 0 && self.patch == 0,
    {
        self.major == 0 && self.minor == 0 && self.patch == 0
    }
}

/// What a client asks of the server.
pub enum ServerCmd {
    Run(RunExecutable),
    UpgradeSelf(SelfUpdate),
}

/// An executable to be run, by its file name and its contents.
pub struct RunExecutable {
    pub name: String,
    pub data: Vec<u8>,
}

/// A replacement for the server's own executable.
pub struct SelfUpdate {
    pub data: Vec<u8>,
}

/// What the server reports while a program runs.
pub struct ServerUpdate {
    pub panicked: bool,
    pub stdio: StdioBytes,
}

/// Bytes that a program wrote to one of its standard streams.
pub struct StdioBytes {
    pub stream: StdStream,
    pub data: Vec<u8>,
}

/// A standard stream that a program writes to.
#[derive(Clone, Copy, Debug, PartialEq, Eq, Structural)]
pub enum StdStream {
    Stdout,
    Stderr,
}

/// The quoted and escaped form in which `{:?}` writes a string.
pub uninterp spec fn quoted(text: Seq<char>) -> Seq<char>;

/// `str`'s `Debug` formatting, through `std::fmt::format`. Its quoting and
/// escaping rules are not spelled out: the contract claims that the result is a
/// function of the text alone and calls it `quoted`.
#[verifier::external_body]
fn quote(text: &str) -> (result: String)
    ensures
        result@ == quoted(text@),
{
    format!("{:?}", text)
}

/// The name under which a standard stream appears in diagnostics.
pub open spec fn stream_name(stream: StdStream) -> Seq<char> {
    match stream {
        StdStream::Stdout => "Stdout"@,
        StdStream::Stderr => "Stderr"@,
    }
}

/// The diagnostic form of a `RunExecutable`.
pub open spec fn run_executable_text(executable: RunExecutable) -> Seq<char> {
    run_executable_form(quoted(executable.name@))
}

/// The diagnostic form of a `RunExecutable`, given its name in quotes.
pub open spec fn run_executable_form(quoted_name: Seq<char>) -> Seq<char> {
    "RunExecutable { name: "@ + quoted_name + ", data: [0] }"@
}

/// The diagnostic form of a `SelfUpdate`.
pub open spec fn self_update_text(update: SelfUpdate) -> Seq<char> {
    "SelfUpdate { data: [0] }"@
}

/// The diagnostic form of a `StdioBytes`.
pub open spec fn stdio_bytes_text(stdio: StdioBytes) -> Seq<char> {
    "StdioBytes { stream: "@ + stream_name(stdio.stream) + ", data: [0] }"@
}

/// The diagnostic form of a `ServerUpdate`.
pub open spec fn server_update_text(update: ServerUpdate) -> Seq<char> {
    "ServerUpdate { panicked: "@ + (if update.panicked {
        "true"@
    } else {
        "false"@
    }) + ", stdio: "@ + stdio_bytes_text(update.stdio) + " }"@
}

/// The diagnostic form of a `ServerCmd`.
pub open spec fn server_cmd_text(cmd: ServerCmd) -> Seq<char> {
    match cmd {
        ServerCmd::Run(executable) => "Run("@ + run_executable_text(executable) + ")"@,
        ServerCmd::UpgradeSelf(update) => "UpgradeSelf("@ + self_update_text(update) + ")"@,
    }
}

impl RunExecutable {
    /// A line for diagnostics on an executable, given its name in quotes.
    pub fn debug_text_of(quoted_name: &str) -> (text: String)
        ensures
            text@ == run_executable_form(quoted_name@),
    {
        let mut text = "RunExecutable { name: ".to_owned();
        text.append(quoted_name);
        text.append(", data: [0] }");
        text
    }

    /// A line for diagnostics, in which `[0]` stands for the contents.
    pub fn debug_text(&self) -> (text: String)
        ensures
            text@ == run_executable_text(*self),
    {
        let quoted_name = quote(self.name.as_str());
        RunExecutable::debug_text_of(quoted_name.as_str())
    }
}

impl SelfUpdate {
    /// A line for diagnostics, in which `[0]` stands for the contents.
    pub fn debug_text(&self) -> (text: String)
        ensures
            text@ == self_update_text(*self),
    {
        "SelfUpdate { data: [0] }".to_owned()
    }
}

impl StdioBytes {
    /// A line for diagnostics, in which `[0]` stands for the contents.
    pub fn debug_text(&self) -> (text: String)
        ensures
            text@ == stdio_bytes_text(*self),
    {
        let mut text = "StdioBytes { stream: ".to_owned();
        match self.stream {
            StdStream::Stdout => text.append("Stdout"),
            StdStream::Stderr => text.append("Stderr"),
        }
        text.append(", data: [0] }");
        text
    }
}

impl ServerUpdate {
    /// A line for diagnostics, in which `[0]` stands for the contents.
    pub fn debug_text(&self) -> (text: String)
        ensures
            text@ == server_update_text(*self),
    {
        let stdio = self.stdio.debug_text();
        let mut text = "ServerUpdate { panicked: ".to_owned();
        if self.panicked {
            text.append("true");
        } else {
            text.append("false");
        }
        text.append(", stdio: ");
        text.append(stdio.as_str());
        text.append(" }");
        text
    }
}

impl ServerCmd {
    /// A line for diagnostics, in which `[0]` stands for the contents.
    pub fn debug_text(&self) -> (text: String)
        ensures
            text@ == server_cmd_text(*self),
    {
        match self {
            ServerCmd::Run(executable) => {
                let inner = executable.debug_text();
                let mut text = "Run(".to_owned();
                text.append(inner.as_str());
                text.append(")");
                text
            },
            ServerCmd::UpgradeSelf(update) => {
                let inner = update.debug_text();
                let mut text = "UpgradeSelf(".to_owned();
                text.append(inner.as_str());
                text.append(")");
                text
            },
        }
    }
}

/// Diagnostics never show what a command carries: two commands that differ in
/// their data alone have the same diagnostic form.
pub proof fn law_command_text_hides_data(name: String, first: Vec<u8>, second: Vec<u8>)
    ensures
        server_cmd_text(ServerCmd::Run(RunExecutable { name, data: first })) == server_cmd_text(
            ServerCmd::Run(RunExecutable { name, data: second }),
        ),
        server_cmd_text(ServerCmd::UpgradeSelf(SelfUpdate { data: first })) == server_cmd_text(
            ServerCmd::UpgradeSelf(SelfUpdate { data: second }),
        ),
{
}

/// Diagnostics never show what a program wrote: two chunks of the same stream
/// have the same diagnostic form, alone and in an update.
pub proof fn law_stdio_text_hides_data(
    panicked: bool,
    stream: StdStream,
    first: Vec<u8>,
    second: Vec<u8>,
)
    ensures
        stdio_bytes_text(StdioBytes { stream, data: first }) == stdio_bytes_text(
            StdioBytes { stream, data: second },
        ),
        server_update_text(
            ServerUpdate { panicked, stdio: StdioBytes { stream, data: first } },
        ) == server_update_text(
            ServerUpdate { panicked, stdio: StdioBytes { stream, data: second } },
        ),
{
}

/// What diagnostics show of a command: its kind and, of an executable, the
/// quoted name, with `[0]` in the place of what it carries.
pub proof fn law_command_text_shows_kind_and_name(executable: RunExecutable, update: SelfUpdate)
    ensures
        run_executable_text(executable) == "RunExecutable { name: "@ + quoted(executable.name@)
            + ", data: [0] }"@,
        self_update_text(update) == "SelfUpdate { data: [0] }"@,
        server_cmd_text(ServerCmd::Run(executable)) == "Run("@ + ("RunExecutable { name: "@
            + quoted(executable.name@) + ", data: [0] }"@) + ")"@,
        server_cmd_text(ServerCmd::UpgradeSelf(update)) == "UpgradeSelf("@
            + "SelfUpdate { data: [0] }"@ + ")"@,
{
}

/// An executable's diagnostic form is its quoted name between two fixed texts,
/// whatever the quoted name is.
pub proof fn law_executable_text_surrounds_name(quoted_name: Seq<char>)
    ensures
        run_executable_form(quoted_name) == "RunExecutable { name: "@ + quoted_name
            + ", data: [0] }"@,
{
}

/// What diagnostics show of a chunk of output and of an update: the stream and
/// whether the program has panicked, with `[0]` in the place of the bytes.
pub proof fn law_stdio_text_shows_stream(stdio: StdioBytes, panicked: bool)
    ensures
        stdio.stream == StdStream::Stdout ==> stdio_bytes_text(stdio) == "StdioBytes { stream: "@
            + "Stdout"@ + ", data: [0] }"@,
        stdio.stream == StdStream::Stderr ==> stdio_bytes_text(stdio) == "StdioBytes { stream: "@
            + "Stderr"@ + ", data: [0] }"@,
        panicked ==> server_update_text(ServerUpdate { panicked, stdio })
            == "ServerUpdate { panicked: "@ + "true"@ + ", stdio: "@ + stdio_bytes_text(stdio)
            + " }"@,
        !panicked ==> server_update_text(ServerUpdate { panicked, stdio })
            == "ServerUpdate { panicked: "@ + "false"@ + ", stdio: "@ + stdio_bytes_text(stdio)
            + " }"@,
{
}

} // verus!
