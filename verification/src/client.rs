//! What the client does next.
//!
//! A worker connects to the server, exchanges versions with it, uploads an
//! executable and passes on what the program writes; the console prints what
//! the worker tells it.

use crate::message::{RunExecutable, ServerCmd, ServerUpdate, StdStream, StdioBytes, Version};
use vstd::prelude::*;

verus! {

/// What the user wants.
#[derive(Clone, Copy, Debug, PartialEq, Eq, Structural)]
pub enum Action {
    /// To run an executable on the server.
    Run,
    /// To upgrade the server.
    Upgrade,
}

/// What an argument on the command line asks for. One that is no text can only
/// be the path of an executable.
pub open spec fn requested_action(argument: Option<Seq<char>>) -> Action {
    if argument == Some("--upgrade"@) {
        Action::Upgrade
    } else {
        Action::Run
    }
}

impl Action {
    /// The action that an argument asks for; there is none to be given where the
    /// argument is no text.
    pub fn from_argument(argument: Option<&str>) -> (action: Action)
        ensures
            action == requested_action(
                match argument {
                    Some(text) => Some(text@),
                    None => None,
                },
            ),
            action == Action::Upgrade <==> (argument matches Some(text) && text@ == "--upgrade"@),
            action == Action::Run <==> !(argument matches Some(text) && text@ == "--upgrade"@),
    {
        match argument {
            Some(text) => {
                if text.to_owned() == "--upgrade".to_owned() {
                    Action::Upgrade
                } else {
                    Action::Run
                }
            },
            None => Action::Run,
        }
    }
}

/// A text as the terminal gets it: between codes where it is to be styled, and
/// bare where it is not.
pub open spec fn styled(coloured: bool, codes: Seq<char>, text: Seq<char>) -> Seq<char> {
    if coloured {
        codes + text + "\x1b[0m"@
    } else {
        text
    }
}

/// `console::colors_enabled`: whether styles are to be shown on the standard
/// output. That depends on the terminal, on the environment and on what the
/// process has switched on or off, so nothing is claimed of the answer.
#[verifier::external_body]
fn colours_enabled() -> bool {
    console::colors_enabled()
}

/// A text styled with `console::style` and `bold`, the style being switched on
/// or off by `force_styling`. The contract claims that the text stands between
/// the code for bold and the one that ends all styles, or alone.
#[verifier::external_body]
fn bold(text: &str, coloured: bool) -> (result: String)
    ensures
        result@ == styled(coloured, "\x1b[1m"@, text@),
{
    console::style(text).bold().force_styling(coloured).to_string()
}

/// A text styled with `console::style`, `bold` and `dim`, the style being
/// switched on or off by `force_styling`. The contract claims that the text
/// stands between the codes for bold and dim and the one that ends all styles,
/// or alone.
#[verifier::external_body]
fn bold_dim(text: &str, coloured: bool) -> (result: String)
    ensures
        result@ == styled(coloured, "\x1b[1m\x1b[2m"@, text@),
{
    console::style(text).bold().dim().force_styling(coloured).to_string()
}

/// A text styled with `console::style`, `bold` and `red`, the style being
/// switched on or off by `force_styling`. The contract claims that the text
/// stands between the codes for red and bold and the one that ends all styles,
/// or alone.
#[verifier::external_body]
fn bold_red(text: &str, coloured: bool) -> (result: String)
    ensures
        result@ == styled(coloured, "\x1b[31m\x1b[1m"@, text@),
{
    console::style(text).bold().red().force_styling(coloured).to_string()
}

/// A stage of the work that the user is told of.
pub enum Announcement {
    /// The worker connects to the server at this address.
    LookingForServer(String),
    /// The worker uploads the executable of this name.
    Uploading(String),
    /// The server runs the executable of this name.
    Running(String),
}

/// How an announcement is numbered.
pub open spec fn announcement_tag(announcement: Announcement) -> Seq<char> {
    match announcement {
        Announcement::LookingForServer(_) => "[1/3]"@,
        Announcement::Uploading(_) => "[2/3]"@,
        Announcement::Running(_) => "[3/3]"@,
    }
}

/// What an announcement says of its subject.
pub open spec fn announcement_verb(announcement: Announcement) -> Seq<char> {
    match announcement {
        Announcement::LookingForServer(_) => " Looking for server at "@,
        Announcement::Uploading(_) => " Uploading "@,
        Announcement::Running(_) => " Running "@,
    }
}

/// What an announcement is about.
pub open spec fn announcement_subject(announcement: Announcement) -> Seq<char> {
    match announcement {
        Announcement::LookingForServer(address) => address@,
        Announcement::Uploading(name) => name@,
        Announcement::Running(name) => name@,
    }
}

/// The bytes of an announcement's line, with its number in bold and dim and its
/// subject in bold where styles are shown.
pub open spec fn announcement_bytes(announcement: Announcement, coloured: bool) -> Seq<u8> {
    vstd::utf8::encode_utf8(
        styled(coloured, "\x1b[1m\x1b[2m"@, announcement_tag(announcement)) + announcement_verb(
            announcement,
        ) + styled(coloured, "\x1b[1m"@, announcement_subject(announcement)) + "\n"@,
    )
}

impl Announcement {
    /// The announcement as a line for the standard output, given its number and
    /// its subject as they are to be printed.
    pub fn line(&self, tag: &str, subject: &str) -> (stdio: StdioBytes)
        ensures
            stdio.stream == StdStream::Stdout,
            stdio.data@ == vstd::utf8::encode_utf8(
                tag@ + announcement_verb(*self) + subject@ + "\n"@,
            ),
    {
        let mut line = tag.to_owned();
        match self {
            Announcement::LookingForServer(_) => line.append(" Looking for server at "),
            Announcement::Uploading(_) => line.append(" Uploading "),
            Announcement::Running(_) => line.append(" Running "),
        }
        line.append(subject);
        line.append("\n");
        StdioBytes { stream: StdStream::Stdout, data: line.as_str().as_bytes_vec() }
    }

    /// The announcement as a line for the standard output, with its number in
    /// bold and dim and its subject in bold where styles are shown.
    pub fn styled_line(&self, coloured: bool) -> (stdio: StdioBytes)
        ensures
            stdio.stream == StdStream::Stdout,
            stdio.data@ == announcement_bytes(*self, coloured),
    {
        let (tag, subject) = match self {
            Announcement::LookingForServer(address) => ("[1/3]", address),
            Announcement::Uploading(name) => ("[2/3]", name),
            Announcement::Running(name) => ("[3/3]", name),
        };
        let tag = bold_dim(tag, coloured);
        let subject = bold(subject.as_str(), coloured);
        self.line(tag.as_str(), subject.as_str())
    }

    /// The announcement as a line for the standard output, styled if the
    /// terminal shows styles and plain otherwise.
    pub fn announce(&self) -> (stdio: StdioBytes)
        ensures
            stdio.stream == StdStream::Stdout,
            exists|coloured: bool| stdio.data@ == #[trigger] announcement_bytes(*self, coloured),
    {
        self.styled_line(colours_enabled())
    }
}

/// What happened to the worker last.
pub enum WorkerEvent {
    /// The worker has started.
    Started,
    /// The user was told that the worker looks for the server.
    LookingAnnounced,
    /// The server was reached, or it was not.
    Connected(bool),
    /// The server's version.
    VersionRead(Version),
    /// The client's version was sent.
    VersionSent,
    /// The file name of the executable.
    Named(String),
    /// The user was told that the executable is uploaded.
    UploadAnnounced,
    /// The contents of the executable.
    ExecutableRead(Vec<u8>),
    /// The command was sent.
    CommandSent,
    /// The user was told that the executable is run.
    RunAnnounced,
    /// What the server reports of the program.
    UpdateRead(ServerUpdate),
    /// No more reports can be read.
    UpdatesEnded,
    /// What the program wrote was handed to the console.
    Printed,
}

/// What the worker is to do.
pub enum WorkerAction {
    /// Tell the user.
    Announce(Announcement),
    /// Connect to the server.
    Connect,
    /// Read the server's version.
    ReadVersion,
    SendVersion(Version),
    /// Take the file name from the path of the executable.
    NameExecutable,
    ReadExecutable,
    SendCommand(ServerCmd),
    /// Wait for a report of the server.
    ReadUpdate,
    /// Hand this to the console.
    Respond(Resp),
    /// Upgrade the server.
    UpgradeSelf,
    /// End, and leave the console alone.
    Finish,
}

/// What the worker tells the console.
pub enum Resp {
    /// To print this.
    Print(StdioBytes),
    /// That the worker has failed.
    Errored,
}

/// The worker's reaction to an event, given what it was asked for and what it
/// knows. The server's version is not looked at, nor is it whether an update
/// tells of a panic.
pub open spec fn worker_action(
    action: Action,
    server: String,
    name: String,
    event: WorkerEvent,
) -> WorkerAction {
    match event {
        WorkerEvent::Started => WorkerAction::Announce(Announcement::LookingForServer(server)),
        WorkerEvent::LookingAnnounced => WorkerAction::Connect,
        WorkerEvent::Connected(true) => WorkerAction::ReadVersion,
        WorkerEvent::Connected(false) => WorkerAction::Respond(Resp::Errored),
        WorkerEvent::VersionRead(_) => WorkerAction::SendVersion(
            crate::message::announced_version(),
        ),
        WorkerEvent::VersionSent => match action {
            Action::Run => WorkerAction::NameExecutable,
            Action::Upgrade => WorkerAction::UpgradeSelf,
        },
        WorkerEvent::Named(given) => WorkerAction::Announce(Announcement::Uploading(given)),
        WorkerEvent::UploadAnnounced => WorkerAction::ReadExecutable,
        WorkerEvent::ExecutableRead(data) => WorkerAction::SendCommand(
            ServerCmd::Run(RunExecutable { name, data }),
        ),
        WorkerEvent::CommandSent => WorkerAction::Announce(Announcement::Running(name)),
        WorkerEvent::RunAnnounced | WorkerEvent::Printed => WorkerAction::ReadUpdate,
        WorkerEvent::UpdateRead(update) => WorkerAction::Respond(Resp::Print(update.stdio)),
        WorkerEvent::UpdatesEnded => WorkerAction::Finish,
    }
}

/// The name of the executable as the worker knows it after an event.
pub open spec fn worker_name(name: String, event: WorkerEvent) -> String {
    match event {
        WorkerEvent::Named(given) => given,
        _ => name,
    }
}

/// Does the client's part of the exchange with the server.
pub struct Worker {
    action: Action,
    server: String,
    name: String,
}

impl Worker {
    /// What the worker was asked for.
    pub closed spec fn action(&self) -> Action {
        self.action
    }

    /// The address of the server.
    pub closed spec fn server(&self) -> String {
        self.server
    }

    /// The name of the executable.
    pub closed spec fn name(&self) -> String {
        self.name
    }

    /// A worker that has done nothing yet.
    pub fn new(action: Action, server: String) -> (worker: Self)
        ensures
            worker.action() == action,
            worker.server() == server,
            worker.name()@ == Seq::<char>::empty(),
    {
        Worker { action, server, name: String::new() }
    }

    /// What the worker is to do after an event.
    pub fn next_action(&mut self, event: WorkerEvent) -> (action: WorkerAction)
        ensures
            action == worker_action(old(self).action(), old(self).server(), old(self).name(), event),
            final(self).action() == old(self).action(),
            final(self).server() == old(self).server(),
            final(self).name() == worker_name(old(self).name(), event),
    {
        match event {
            WorkerEvent::Started => {
                WorkerAction::Announce(Announcement::LookingForServer(self.server.clone()))
            },
            WorkerEvent::LookingAnnounced => WorkerAction::Connect,
            WorkerEvent::Connected(connected) => {
                if connected {
                    WorkerAction::ReadVersion
                } else {
                    WorkerAction::Respond(Resp::Errored)
                }
            },
            WorkerEvent::VersionRead(_) => WorkerAction::SendVersion(Version::announced()),
            WorkerEvent::VersionSent => match self.action {
                Action::Run => WorkerAction::NameExecutable,
                Action::Upgrade => WorkerAction::UpgradeSelf,
            },
            WorkerEvent::Named(given) => {
                self.name = given.clone();
                WorkerAction::Announce(Announcement::Uploading(given))
            },
            WorkerEvent::UploadAnnounced => WorkerAction::ReadExecutable,
            WorkerEvent::ExecutableRead(data) => {
                WorkerAction::SendCommand(
                    ServerCmd::Run(RunExecutable { name: self.name.clone(), data }),
                )
            },
            WorkerEvent::CommandSent => {
                WorkerAction::Announce(Announcement::Running(self.name.clone()))
            },
            WorkerEvent::RunAnnounced => WorkerAction::ReadUpdate,
            WorkerEvent::UpdateRead(update) => WorkerAction::Respond(Resp::Print(update.stdio)),
            WorkerEvent::UpdatesEnded => WorkerAction::Finish,
            WorkerEvent::Printed => WorkerAction::ReadUpdate,
        }
    }
}

/// What the console finds when it looks for something from the worker.
pub enum ConsoleEvent {
    /// The worker has told something.
    Received(Resp),
    /// There is nothing at the moment.
    Empty,
    /// The worker is gone.
    Disconnected,
}

/// What the console is to do.
pub enum ConsoleAction {
    /// Look again.
    Poll,
    /// Write these bytes to the standard output, and look again.
    Write(Vec<u8>),
    /// Print that the worker is gone, and end.
    ReportDisconnect,
    /// End.
    Quit,
}

/// The console's reaction to what it finds. Whatever stream the program wrote
/// to, it is printed to the standard output.
pub open spec fn console_action(event: ConsoleEvent) -> ConsoleAction {
    match event {
        ConsoleEvent::Received(Resp::Print(stdio)) => ConsoleAction::Write(stdio.data),
        ConsoleEvent::Received(Resp::Errored) => ConsoleAction::Quit,
        ConsoleEvent::Empty => ConsoleAction::Poll,
        ConsoleEvent::Disconnected => ConsoleAction::ReportDisconnect,
    }
}

/// What the console is to do given what it found.
pub fn next_console_action(event: ConsoleEvent) -> (action: ConsoleAction)
    ensures
        action == console_action(event),
{
    match event {
        ConsoleEvent::Received(Resp::Print(stdio)) => ConsoleAction::Write(stdio.data),
        ConsoleEvent::Received(Resp::Errored) => ConsoleAction::Quit,
        ConsoleEvent::Empty => ConsoleAction::Poll,
        ConsoleEvent::Disconnected => ConsoleAction::ReportDisconnect,
    }
}

/// What is printed when the worker is gone, given how the line is marked.
pub fn disconnect_line(tag: &str) -> (line: String)
    ensures
        line@ == tag@ + " Network thread disconnected unexpectedly"@,
{
    let mut line = tag.to_owned();
    line.append(" Network thread disconnected unexpectedly");
    line
}

/// What is printed when the worker is gone, marked as an error in bold and red
/// where styles are shown.
pub open spec fn disconnect_text(coloured: bool) -> Seq<char> {
    styled(coloured, "\x1b[31m\x1b[1m"@, "[ERR]"@) + " Network thread disconnected unexpectedly"@
}

/// What is printed when the worker is gone, marked as an error in bold and red
/// where styles are shown.
pub fn styled_disconnect_line(coloured: bool) -> (line: String)
    ensures
        line@ == disconnect_text(coloured),
{
    let tag = bold_red("[ERR]", coloured);
    disconnect_line(tag.as_str())
}

/// What is printed when the worker is gone, styled if the terminal shows styles
/// and plain otherwise.
pub fn disconnect_report() -> (line: String)
    ensures
        exists|coloured: bool| line@ == #[trigger] disconnect_text(coloured),
{
    styled_disconnect_line(colours_enabled())
}

/// Whether an event can be what comes of an action of the worker. A failure and
/// the end of the reports end the worker, and an upgrade is not supported:
/// nothing comes of these.
pub open spec fn worker_answers(action: WorkerAction, event: WorkerEvent) -> bool {
    match action {
        WorkerAction::Announce(Announcement::LookingForServer(_)) => event is LookingAnnounced,
        WorkerAction::Announce(Announcement::Uploading(_)) => event is UploadAnnounced,
        WorkerAction::Announce(Announcement::Running(_)) => event is RunAnnounced,
        WorkerAction::Connect => event is Connected,
        WorkerAction::ReadVersion => event is VersionRead,
        WorkerAction::SendVersion(_) => event is VersionSent,
        WorkerAction::NameExecutable => event is Named,
        WorkerAction::ReadExecutable => event is ExecutableRead,
        WorkerAction::SendCommand(_) => event is CommandSent,
        WorkerAction::ReadUpdate => event is UpdateRead || event is UpdatesEnded,
        WorkerAction::Respond(Resp::Print(_)) => event is Printed,
        WorkerAction::Respond(Resp::Errored) => false,
        WorkerAction::UpgradeSelf => false,
        WorkerAction::Finish => false,
    }
}

/// The name that a worker knows once it has gone through `events`.
pub open spec fn worker_name_after(name: String, events: Seq<WorkerEvent>) -> String
    decreases events.len(),
{
    if events.len() == 0 {
        name
    } else {
        worker_name(worker_name_after(name, events.drop_last()), events.last())
    }
}

/// The last action that a worker calls for in going through `events`.
pub open spec fn worker_action_after(
    action: Action,
    server: String,
    name: String,
    events: Seq<WorkerEvent>,
) -> WorkerAction
    recommends
        events.len() > 0,
{
    worker_action(action, server, worker_name_after(name, events.drop_last()), events.last())
}

/// Whether `events` is what a worker can go through.
pub open spec fn worker_history(
    action: Action,
    server: String,
    name: String,
    events: Seq<WorkerEvent>,
) -> bool {
    &&& events.len() > 0 ==> events[0] is Started
    &&& forall|i: int|
        1 <= i < events.len() ==> worker_answers(
            worker_action_after(action, server, name, #[trigger] events.take(i)),
            events[i],
        )
}

/// An event of a history comes of the reaction to the event before it.
proof fn lemma_worker_event_answers(
    action: Action,
    server: String,
    name: String,
    events: Seq<WorkerEvent>,
    i: int,
)
    requires
        worker_history(action, server, name, events),
        1 <= i < events.len(),
    ensures
        worker_answers(
            worker_action(action, server, worker_name_after(name, events.take(i - 1)), events[i - 1]),
            events[i],
        ),
{
    assert(events.take(i).drop_last() =~= events.take(i - 1));
    assert(events.take(i).last() == events[i - 1]);
    assert(worker_answers(worker_action_after(action, server, name, events.take(i)), events[i]));
}

/// A worker sends a command only when it was asked to run an executable, has
/// reached the server, has read the server's version and sent its own, and has
/// told the user. The command then carries the name and the contents of the
/// executable as they were found.
pub proof fn law_upload_follows_the_handshake(
    action: Action,
    server: String,
    name: String,
    events: Seq<WorkerEvent>,
)
    requires
        worker_history(action, server, name, events),
        events.len() > 0,
        worker_action_after(action, server, name, events) is SendCommand,
    ensures
        action == Action::Run,
        events.len() >= 8,
        ({
            let last = events.len() - 1;
            &&& events[last - 5] == WorkerEvent::Connected(true)
            &&& events[last - 4] is VersionRead
            &&& events[last - 3] is VersionSent
            &&& events[last - 2] matches WorkerEvent::Named(given)
            &&& events[last - 1] is UploadAnnounced
            &&& events[last] matches WorkerEvent::ExecutableRead(data)
            &&& worker_action_after(action, server, name, events) == WorkerAction::SendCommand(
                ServerCmd::Run(RunExecutable { name: given, data }),
            )
        }),
{
    let last = events.len() - 1;
    assert(events[last] is ExecutableRead);
    lemma_worker_event_answers(action, server, name, events, last);
    assert(events[last - 1] is UploadAnnounced);
    lemma_worker_event_answers(action, server, name, events, last - 1);
    assert(events[last - 2] is Named);
    lemma_worker_event_answers(action, server, name, events, last - 2);
    assert(events[last - 3] is VersionSent);
    lemma_worker_event_answers(action, server, name, events, last - 3);
    assert(events[last - 4] is VersionRead);
    lemma_worker_event_answers(action, server, name, events, last - 4);
    assert(events[last - 5] is Connected);
    lemma_worker_event_answers(action, server, name, events, last - 5);
    assert(events[last - 6] is LookingAnnounced);
    let before = events.drop_last();
    assert(before.last() == events[last - 1]);
    assert(before.drop_last().last() == events[last - 2]);
    reveal_with_fuel(worker_name_after, 3);
}

/// Whether an event is one of the run: the sending of the command, or what follows it.
pub open spec fn belongs_to_run(event: WorkerEvent) -> bool {
    event is CommandSent || event is RunAnnounced || event is UpdateRead || event is Printed
        || event is UpdatesEnded
}

/// Behind an event of the run there comes an event of the run, and behind the end
/// of the reports there comes none.
proof fn lemma_run_event_follows(
    action: Action,
    server: String,
    name: String,
    event: WorkerEvent,
    next: WorkerEvent,
)
    requires
        belongs_to_run(event),
        worker_answers(worker_action(action, server, name, event), next),
    ensures
        belongs_to_run(next),
        !(event is UpdatesEnded),
{
}

/// Once its command was sent, a worker only passes on what the server reports:
/// every event is one of the run, and behind the end of the reports there is
/// none.
pub proof fn law_run_lasts_until_its_updates_end(
    action: Action,
    server: String,
    name: String,
    events: Seq<WorkerEvent>,
    sent: int,
    i: int,
)
    requires
        worker_history(action, server, name, events),
        0 <= sent <= i < events.len(),
        events[sent] is CommandSent,
    ensures
        belongs_to_run(events[i]),
        events[i] is UpdatesEnded ==> i == events.len() - 1,
    decreases i,
{
    if sent < i {
        law_run_lasts_until_its_updates_end(action, server, name, events, sent, i - 1);
        lemma_worker_event_answers(action, server, name, events, i);
        lemma_run_event_follows(
            action,
            server,
            worker_name_after(name, events.take(i - 1)),
            events[i - 1],
            events[i],
        );
    }
    if i + 1 < events.len() {
        lemma_worker_event_answers(action, server, name, events, i + 1);
        lemma_run_event_follows(
            action,
            server,
            worker_name_after(name, events.take(i)),
            events[i],
            events[i + 1],
        );
    }
}

/// A worker ends without telling the console of a failure only because no more
/// reports can be read, and it looks for reports only once it has told the user
/// that the executable is run, or has handed on an earlier report.
pub proof fn law_worker_finishes_after_its_run(
    action: Action,
    server: String,
    name: String,
    events: Seq<WorkerEvent>,
)
    requires
        worker_history(action, server, name, events),
        events.len() > 0,
        worker_action_after(action, server, name, events) is Finish,
    ensures
        events.len() > 1,
        events.last() is UpdatesEnded,
        events[events.len() - 2] is RunAnnounced || events[events.len() - 2] is Printed,
{
    assert(events.last() is UpdatesEnded);
    lemma_worker_event_answers(action, server, name, events, events.len() - 1);
}

/// What a program writes reaches the user unchanged: a chunk that a redirector
/// hands to the relay goes to the client in an update, the client's worker hands
/// it to the console, and the console writes its bytes.
pub proof fn law_output_reaches_the_user(
    stop_process: bool,
    worker: Worker,
    stdio: StdioBytes,
)
    ensures
        crate::server::relay_action(
            stop_process,
            crate::server::RelayEvent::Received(
                Some(crate::server::InternalMessage::Stdio(stdio)),
            ),
        ) matches crate::server::RelayAction::Send(update) && worker_action(
            worker.action(),
            worker.server(),
            worker.name(),
            WorkerEvent::UpdateRead(update),
        ) matches WorkerAction::Respond(resp) && console_action(ConsoleEvent::Received(resp))
            == ConsoleAction::Write(stdio.data),
{
}

/// Both sides announce the same version, and it is one that the server accepts.
pub proof fn law_sides_agree_on_the_version(worker: Worker, version: Version)
    ensures
        worker_action(
            worker.action(),
            worker.server(),
            worker.name(),
            WorkerEvent::VersionRead(version),
        ) matches WorkerAction::SendVersion(sent) && crate::server::server_action(
            crate::server::ServerEvent::Accepted(true),
        ) == crate::server::ServerAction::SendVersion(sent) && crate::server::server_action(
            crate::server::ServerEvent::VersionRead(Some(sent)),
        ) == crate::server::ServerAction::ReadCommand,
{
}

/// An argument asks for an upgrade if it is exactly `--upgrade`, and in every
/// other case, also where it is no text, for a run.
pub proof fn law_only_one_argument_asks_for_an_upgrade(argument: Option<Seq<char>>)
    ensures
        requested_action(argument) == Action::Upgrade <==> (argument matches Some(text) && text
            == "--upgrade"@),
        requested_action(argument) == Action::Run <==> !(argument matches Some(text) && text
            == "--upgrade"@),
{
}

/// Styling puts codes around a text and leaves the text as it is; without styles
/// the text stands alone.
pub proof fn law_styling_keeps_the_text(codes: Seq<char>, text: Seq<char>)
    ensures
        styled(false, codes, text) == text,
        styled(true, codes, text) == codes + text + "\x1b[0m"@,
{
}

/// What the user reads of the three stages, for every address and every name.
pub proof fn law_announcements_name_stage_and_subject(coloured: bool, subject: String)
    ensures
        announcement_verb(Announcement::LookingForServer(subject)) == " Looking for server at "@,
        announcement_verb(Announcement::Uploading(subject)) == " Uploading "@,
        announcement_verb(Announcement::Running(subject)) == " Running "@,
        announcement_bytes(Announcement::LookingForServer(subject), coloured)
            == vstd::utf8::encode_utf8(
            styled(coloured, "\x1b[1m\x1b[2m"@, "[1/3]"@) + " Looking for server at "@ + styled(
                coloured,
                "\x1b[1m"@,
                subject@,
            ) + "\n"@,
        ),
        announcement_bytes(Announcement::Uploading(subject), coloured) == vstd::utf8::encode_utf8(
            styled(coloured, "\x1b[1m\x1b[2m"@, "[2/3]"@) + " Uploading "@ + styled(
                coloured,
                "\x1b[1m"@,
                subject@,
            ) + "\n"@,
        ),
        announcement_bytes(Announcement::Running(subject), coloured) == vstd::utf8::encode_utf8(
            styled(coloured, "\x1b[1m\x1b[2m"@, "[3/3]"@) + " Running "@ + styled(
                coloured,
                "\x1b[1m"@,
                subject@,
            ) + "\n"@,
        ),
{
}

/// What the user reads when the worker is gone.
pub proof fn law_disconnect_is_marked_as_an_error(coloured: bool)
    ensures
        disconnect_text(coloured) == styled(coloured, "\x1b[31m\x1b[1m"@, "[ERR]"@)
            + " Network thread disconnected unexpectedly"@,
{
}

/// A worker tells of a failure exactly when the server could not be reached,
/// whatever it was asked for and whatever it knows: never once it is connected.
pub proof fn law_worker_fails_only_without_a_server(
    action: Action,
    server: String,
    name: String,
    event: WorkerEvent,
)
    ensures
        worker_action(action, server, name, event) == WorkerAction::Respond(Resp::Errored)
            <==> event == WorkerEvent::Connected(false),
{
}

/// A worker asks for the next report in exactly these cases: the user was just
/// told that the executable is run, or what was last reported was handed on. It
/// ends exactly when no more reports can be read.
pub proof fn law_worker_goes_on_reading(
    action: Action,
    server: String,
    name: String,
    event: WorkerEvent,
)
    ensures
        worker_action(action, server, name, event) == WorkerAction::ReadUpdate <==> event
            is RunAnnounced || event is Printed,
        worker_action(action, server, name, event) == WorkerAction::Finish <==> event
            is UpdatesEnded,
{
}

/// Whatever the server reports that a program wrote, a worker hands it to the
/// console as it came, also if the report tells of a panic. It hands nothing else
/// to the console.
pub proof fn law_worker_hands_on_every_report(
    action: Action,
    server: String,
    name: String,
    event: WorkerEvent,
    stdio: StdioBytes,
)
    ensures
        worker_action(action, server, name, event) == WorkerAction::Respond(Resp::Print(stdio))
            <==> (event matches WorkerEvent::UpdateRead(update) && update.stdio == stdio),
{
}

/// A worker looks for the server that it was given, says so first, reads the
/// server's version once it is connected, and whatever that version is answers
/// with the version 0.1.0.
pub proof fn law_worker_shakes_hands(
    action: Action,
    server: String,
    name: String,
    version: Version,
)
    ensures
        worker_action(action, server, name, WorkerEvent::Started) == WorkerAction::Announce(
            Announcement::LookingForServer(server),
        ),
        worker_action(action, server, name, WorkerEvent::LookingAnnounced)
            == WorkerAction::Connect,
        worker_action(action, server, name, WorkerEvent::Connected(true))
            == WorkerAction::ReadVersion,
        worker_action(action, server, name, WorkerEvent::VersionRead(version))
            == WorkerAction::SendVersion(Version { major: 0, minor: 1, patch: 0 }),
{
}

/// A worker that was asked to run an executable, whatever its name and contents,
/// takes its name, says that it uploads it, reads it, sends just that name and
/// those contents, and says that it is run.
pub proof fn law_worker_uploads_what_it_was_given(
    server: String,
    name: String,
    given: String,
    data: Vec<u8>,
)
    ensures
        worker_action(Action::Run, server, name, WorkerEvent::VersionSent)
            == WorkerAction::NameExecutable,
        worker_action(Action::Run, server, name, WorkerEvent::Named(given))
            == WorkerAction::Announce(Announcement::Uploading(given)),
        worker_name(name, WorkerEvent::Named(given)) == given,
        worker_action(Action::Run, server, given, WorkerEvent::UploadAnnounced)
            == WorkerAction::ReadExecutable,
        worker_action(Action::Run, server, given, WorkerEvent::ExecutableRead(data))
            == WorkerAction::SendCommand(ServerCmd::Run(RunExecutable { name: given, data })),
        worker_action(Action::Run, server, given, WorkerEvent::CommandSent)
            == WorkerAction::Announce(Announcement::Running(given)),
{
}

/// What a worker was asked for matters at one point alone: once versions are
/// exchanged, one that was asked for an upgrade upgrades the server, and one that
/// was asked for a run never does.
pub proof fn law_worker_upgrades_only_when_asked(
    action: Action,
    server: String,
    name: String,
    event: WorkerEvent,
)
    ensures
        worker_action(action, server, name, event) == WorkerAction::UpgradeSelf <==> action
            == Action::Upgrade && event is VersionSent,
        !(event is VersionSent) ==> worker_action(Action::Run, server, name, event)
            == worker_action(Action::Upgrade, server, name, event),
{
}

/// A worker knows the executable by the name that it was last given.
pub proof fn law_worker_remembers_the_name(name: String, event: WorkerEvent)
    ensures
        match event {
            WorkerEvent::Named(given) => worker_name(name, event) == given,
            _ => worker_name(name, event) == name,
        },
{
}

/// Once its command was sent, a worker is done exactly when no more reports can
/// be read. Until then there is always something for it to do that the run can go
/// on from, and it never tells of a failure.
pub proof fn law_run_is_over_only_when_its_updates_end(
    action: Action,
    server: String,
    name: String,
    events: Seq<WorkerEvent>,
    sent: int,
)
    requires
        worker_history(action, server, name, events),
        0 <= sent < events.len(),
        events[sent] is CommandSent,
    ensures
        worker_action_after(action, server, name, events) == WorkerAction::Finish <==> events.last()
            is UpdatesEnded,
        !(events.last() is UpdatesEnded) ==> {
            ||| worker_action_after(action, server, name, events) is Announce
            ||| worker_action_after(action, server, name, events) == WorkerAction::ReadUpdate
            ||| worker_action_after(action, server, name, events) matches WorkerAction::Respond(
                Resp::Print(_),
            )
        },
{
    law_run_lasts_until_its_updates_end(action, server, name, events, sent, events.len() - 1);
}

/// All that the server reports that the program wrote.
pub open spec fn reported_output(events: Seq<WorkerEvent>) -> Seq<StdioBytes>
    decreases events.len(),
{
    if events.len() == 0 {
        Seq::empty()
    } else {
        match events.last() {
            WorkerEvent::UpdateRead(update) => reported_output(events.drop_last()).push(
                update.stdio,
            ),
            _ => reported_output(events.drop_last()),
        }
    }
}

/// All that a worker hands to the console to be printed.
pub open spec fn printed_output(
    action: Action,
    server: String,
    name: String,
    events: Seq<WorkerEvent>,
) -> Seq<StdioBytes>
    decreases events.len(),
{
    if events.len() == 0 {
        Seq::empty()
    } else {
        let before = printed_output(action, server, name, events.drop_last());
        match worker_action_after(action, server, name, events) {
            WorkerAction::Respond(Resp::Print(stdio)) => before.push(stdio),
            _ => before,
        }
    }
}

/// A worker hands to the console all that the server reports that the program
/// wrote, each chunk once and in the order in which they were reported.
pub proof fn law_worker_prints_all_output_in_order(
    action: Action,
    server: String,
    name: String,
    events: Seq<WorkerEvent>,
)
    ensures
        printed_output(action, server, name, events) == reported_output(events),
    decreases events.len(),
{
    if events.len() > 0 {
        law_worker_prints_all_output_in_order(action, server, name, events.drop_last());
    }
}

/// A worker that waits for a report goes on: whatever is reported next is handed
/// to the console, and then the worker waits again.
pub proof fn law_worker_prints_one_report_after_the_other(
    action: Action,
    server: String,
    name: String,
    before: Seq<WorkerEvent>,
    update: ServerUpdate,
)
    requires
        worker_history(action, server, name, before),
        before.len() > 0,
        worker_action_after(action, server, name, before) == WorkerAction::ReadUpdate,
    ensures
        ({
            let read = before.push(WorkerEvent::UpdateRead(update));
            let printed = read.push(WorkerEvent::Printed);
            &&& worker_history(action, server, name, printed)
            &&& worker_action_after(action, server, name, read) == WorkerAction::Respond(
                Resp::Print(update.stdio),
            )
            &&& worker_action_after(action, server, name, printed) == WorkerAction::ReadUpdate
        }),
{
    let read = before.push(WorkerEvent::UpdateRead(update));
    let printed = read.push(WorkerEvent::Printed);
    lemma_worker_history_grows(action, server, name, before, WorkerEvent::UpdateRead(update));
    lemma_worker_history_grows(action, server, name, read, WorkerEvent::Printed);
}

/// A history goes on with whatever can come of its last action.
proof fn lemma_worker_history_grows(
    action: Action,
    server: String,
    name: String,
    events: Seq<WorkerEvent>,
    event: WorkerEvent,
)
    requires
        worker_history(action, server, name, events),
        events.len() > 0,
        worker_answers(worker_action_after(action, server, name, events), event),
    ensures
        worker_history(action, server, name, events.push(event)),
{
    let more = events.push(event);
    assert forall|i: int| 1 <= i < more.len() implies worker_answers(
        worker_action_after(action, server, name, #[trigger] more.take(i)),
        more[i],
    ) by {
        if i < events.len() {
            assert(more.take(i) =~= events.take(i));
            assert(more[i] == events[i]);
        } else {
            assert(more.take(i) =~= events);
        }
    }
}

/// The console writes exactly what it is told to print, whichever stream the
/// program wrote it to. It ends exactly when the worker has failed or is gone,
/// and says so in the second case; until then it looks again.
pub proof fn law_console_prints_until_the_worker_is_gone(event: ConsoleEvent, data: Vec<u8>)
    ensures
        console_action(event) == ConsoleAction::Write(data) <==> (event
            matches ConsoleEvent::Received(Resp::Print(stdio)) && stdio.data == data),
        console_action(event) == ConsoleAction::Quit <==> event == ConsoleEvent::Received(
            Resp::Errored,
        ),
        console_action(event) == ConsoleAction::ReportDisconnect <==> event is Disconnected,
        console_action(event) == ConsoleAction::Poll <==> event is Empty,
{
}

} // verus!
