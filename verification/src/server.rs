//! What the server does next.
//!
//! The server accepts one client at a time. It exchanges versions with it,
//! takes a command, and runs the executable that came with the command. While
//! the program runs, a watcher looks for a reason to end it, one redirector for
//! each standard stream passes on what the program writes, and a relay sends
//! that to the client. Each of these is a function from what happened last to
//! what is to be done now.

use crate::message::{
    RunExecutable, SelfUpdate, ServerCmd, ServerUpdate, StdStream, StdioBytes, Version,
};
use vstd::prelude::*;

verus! {

/// What happened to the server last.
pub enum ServerEvent {
    /// The server has started to listen.
    Started,
    /// A connection was accepted, or accepting one failed.
    Accepted(bool),
    /// The server's version was sent, or sending it failed.
    VersionSent(bool),
    /// The client's version, unless reading it failed.
    VersionRead(Option<Version>),
    /// The client's command, unless reading it failed.
    CommandRead(Option<ServerCmd>),
    /// An executable was run to its end.
    RunFinished,
}

/// What the server is to do.
pub enum ServerAction {
    /// Wait for a client, dropping the connection to an earlier one.
    Accept,
    SendVersion(Version),
    ReadVersion,
    ReadCommand,
    Run(RunExecutable),
    UpgradeSelf(SelfUpdate),
}

/// The server's reaction to an event. Whatever goes wrong with a client, the
/// server turns to the next one; a client that announces the null version is
/// turned away.
pub open spec fn server_action(event: ServerEvent) -> ServerAction {
    match event {
        ServerEvent::Accepted(true) => ServerAction::SendVersion(
            crate::message::announced_version(),
        ),
        ServerEvent::VersionSent(true) => ServerAction::ReadVersion,
        ServerEvent::VersionRead(Some(version)) if !crate::message::is_null_version(version) => {
            ServerAction::ReadCommand
        },
        ServerEvent::CommandRead(Some(ServerCmd::Run(executable))) => ServerAction::Run(executable),
        ServerEvent::CommandRead(Some(ServerCmd::UpgradeSelf(update))) => {
            ServerAction::UpgradeSelf(update)
        },
        _ => ServerAction::Accept,
    }
}

/// What the server is to do after an event.
pub fn next_server_action(event: ServerEvent) -> (action: ServerAction)
    ensures
        action == server_action(event),
{
    match event {
        ServerEvent::Started => ServerAction::Accept,
        ServerEvent::Accepted(accepted) => {
            if accepted {
                ServerAction::SendVersion(Version::announced())
            } else {
                ServerAction::Accept
            }
        },
        ServerEvent::VersionSent(sent) => {
            if sent {
                ServerAction::ReadVersion
            } else {
                ServerAction::Accept
            }
        },
        ServerEvent::VersionRead(Some(version)) => {
            if version.is_null() {
                ServerAction::Accept
            } else {
                ServerAction::ReadCommand
            }
        },
        ServerEvent::VersionRead(None) => ServerAction::Accept,
        ServerEvent::CommandRead(Some(ServerCmd::Run(executable))) => ServerAction::Run(executable),
        ServerEvent::CommandRead(Some(ServerCmd::UpgradeSelf(update))) => {
            ServerAction::UpgradeSelf(update)
        },
        ServerEvent::CommandRead(None) => ServerAction::Accept,
        ServerEvent::RunFinished => ServerAction::Accept,
    }
}

/// Whether an event can be what comes of an action. A self-upgrade is not
/// supported: nothing comes of it.
pub open spec fn server_answers(action: ServerAction, event: ServerEvent) -> bool {
    match action {
        ServerAction::Accept => event is Accepted,
        ServerAction::SendVersion(_) => event is VersionSent,
        ServerAction::ReadVersion => event is VersionRead,
        ServerAction::ReadCommand => event is CommandRead,
        ServerAction::Run(_) => event is RunFinished,
        ServerAction::UpgradeSelf(_) => false,
    }
}

/// Whether `events` is what a server can go through: each event comes of the
/// action that the one before it called for.
pub open spec fn server_history(events: Seq<ServerEvent>) -> bool {
    &&& events.len() > 0 ==> events[0] is Started
    &&& forall|i: int|
        1 <= i < events.len() ==> server_answers(
            server_action(events[i - 1]),
            #[trigger] events[i],
        )
}

/// Nothing is run, and no upgrade is taken, but for a client that was just
/// accepted, to which the server's version was sent, whose own version was read
/// and is not the null version, and whose command asks for it, in this order.
pub proof fn law_handshake_precedes_commands(events: Seq<ServerEvent>, i: int)
    requires
        server_history(events),
        0 <= i < events.len(),
        server_action(events[i]) is Run || server_action(events[i]) is UpgradeSelf,
    ensures
        i >= 4,
        events[i - 3] == ServerEvent::Accepted(true),
        events[i - 2] == ServerEvent::VersionSent(true),
        events[i - 1] matches ServerEvent::VersionRead(Some(version))
            && !crate::message::is_null_version(version),
        match server_action(events[i]) {
            ServerAction::Run(executable) => events[i] == ServerEvent::CommandRead(
                Some(ServerCmd::Run(executable)),
            ),
            ServerAction::UpgradeSelf(update) => events[i] == ServerEvent::CommandRead(
                Some(ServerCmd::UpgradeSelf(update)),
            ),
            _ => false,
        },
{
    assert(events[i] is CommandRead);
    assert(server_answers(server_action(events[i - 1]), events[i]));
    assert(events[i - 1] is VersionRead);
    assert(server_answers(server_action(events[i - 2]), events[i - 1]));
    assert(events[i - 2] is VersionSent);
    assert(server_answers(server_action(events[i - 3]), events[i - 2]));
    assert(events[i - 3] is Accepted);
}

/// Whatever goes wrong with a client, the server turns to the next one.
pub proof fn law_server_survives_its_clients(event: ServerEvent)
    requires
        event == ServerEvent::Accepted(false) || event == ServerEvent::VersionSent(false) || event
            == ServerEvent::VersionRead(None) || event == ServerEvent::CommandRead(None),
    ensures
        server_action(event) == ServerAction::Accept,
{
}

/// The mode of a file that everyone may execute, given its mode before.
pub fn make_executable(mode: u32) -> (result: u32)
    ensures
        result == mode | 0o0111,
        result & 0o0111 == 0o0111,
        result & !0o0111u32 == mode & !0o0111u32,
{
    let result: u32 = mode | 0o0111;
    assert(result & 0o0111 == 0o0111 && result & !0o0111u32 == mode & !0o0111u32) by (bit_vector)
        requires
            result == mode | 0o0111,
    ;
    result
}

/// Making a file executable twice is making it executable once.
pub proof fn law_make_executable_is_idempotent(mode: u32)
    ensures
        (mode | 0o0111) | 0o0111 == mode | 0o0111,
{
    assert((mode | 0o0111) | 0o0111 == mode | 0o0111) by (bit_vector);
}

/// Whether starting an executable is tried again after it has failed with the
/// given error of the operating system. On Windows a file that has just been
/// written can still be in use by another process; nothing else is worth
/// another try.
pub fn retries_spawn(on_windows: bool, os_error: Option<i32>) -> (retry: bool)
    ensures
        retry == (on_windows && os_error == Some(32i32)),
{
    match os_error {
        Some(code) => on_windows && code == 32,
        None => false,
    }
}

/// What the tasks around a running program tell the relay.
pub enum InternalMessage {
    /// The program has written something.
    Stdio(StdioBytes),
    /// The program is to be stopped.
    Stop,
    /// The program has ended.
    ProcessExited,
}

/// What came of trying to read from the client without waiting.
pub enum ClientPoll {
    /// So many bytes were read.
    Read(usize),
    /// There is nothing to be read at the moment.
    WouldBlock,
    /// Reading failed otherwise.
    Failed,
}

/// What came of asking whether the program has ended.
pub enum ProcessPoll {
    Running,
    Exited,
    /// It could not be found out.
    Unknown,
}

/// What happened to the watcher last.
pub enum WatchEvent {
    /// The program was started.
    Started,
    /// Whether reading one of the program's standard streams has failed.
    StdioChecked(bool),
    ClientPolled(ClientPoll),
    ProcessPolled(ProcessPoll),
    /// The time to sleep is over.
    Slept,
}

/// What the watcher is to do.
pub enum WatchAction {
    /// Find out whether reading a standard stream has failed.
    CheckStdio,
    /// Try to read from the client.
    PollClient,
    /// Find out whether the program has ended.
    PollProcess,
    /// Sleep for so many milliseconds.
    Sleep(u64),
    /// Tell the relay, and end.
    Report(InternalMessage),
}

/// The watcher's reaction to an event. A client from which nothing can be read,
/// be it that it has closed the connection or that reading fails, is gone.
pub open spec fn watch_action(event: WatchEvent) -> WatchAction {
    match event {
        WatchEvent::Started | WatchEvent::Slept => WatchAction::CheckStdio,
        WatchEvent::StdioChecked(failed) => if failed {
            WatchAction::Report(InternalMessage::Stop)
        } else {
            WatchAction::PollClient
        },
        WatchEvent::ClientPolled(poll) => if client_is_gone(poll) {
            WatchAction::Report(InternalMessage::Stop)
        } else {
            WatchAction::PollProcess
        },
        WatchEvent::ProcessPolled(poll) => if poll is Exited {
            WatchAction::Report(InternalMessage::ProcessExited)
        } else {
            WatchAction::Sleep(100)
        },
    }
}

/// Whether the client is to be taken for gone.
pub open spec fn client_is_gone(poll: ClientPoll) -> bool {
    poll == ClientPoll::Read(0) || poll == ClientPoll::Failed
}

/// What the watcher is to do after an event.
pub fn next_watch_action(event: WatchEvent) -> (action: WatchAction)
    ensures
        action == watch_action(event),
{
    match event {
        WatchEvent::Started => WatchAction::CheckStdio,
        WatchEvent::Slept => WatchAction::CheckStdio,
        WatchEvent::StdioChecked(failed) => {
            if failed {
                WatchAction::Report(InternalMessage::Stop)
            } else {
                WatchAction::PollClient
            }
        },
        WatchEvent::ClientPolled(ClientPoll::Read(read)) => {
            if read == 0 {
                WatchAction::Report(InternalMessage::Stop)
            } else {
                WatchAction::PollProcess
            }
        },
        WatchEvent::ClientPolled(ClientPoll::WouldBlock) => WatchAction::PollProcess,
        WatchEvent::ClientPolled(ClientPoll::Failed) => WatchAction::Report(InternalMessage::Stop),
        WatchEvent::ProcessPolled(ProcessPoll::Exited) => {
            WatchAction::Report(InternalMessage::ProcessExited)
        },
        WatchEvent::ProcessPolled(ProcessPoll::Running) => WatchAction::Sleep(100),
        WatchEvent::ProcessPolled(ProcessPoll::Unknown) => WatchAction::Sleep(100),
    }
}

/// Whether an event can be what comes of an action of the watcher.
pub open spec fn watch_answers(action: WatchAction, event: WatchEvent) -> bool {
    match action {
        WatchAction::CheckStdio => event is StdioChecked,
        WatchAction::PollClient => event is ClientPolled,
        WatchAction::PollProcess => event is ProcessPolled,
        WatchAction::Sleep(_) => event is Slept,
        WatchAction::Report(_) => false,
    }
}

/// Whether `events` is what a watcher can go through.
pub open spec fn watch_history(events: Seq<WatchEvent>) -> bool {
    &&& events.len() > 0 ==> events[0] is Started
    &&& forall|i: int|
        1 <= i < events.len() ==> watch_answers(watch_action(events[i - 1]), #[trigger] events[i])
}

/// A watcher reports that the program has ended only if it found just before
/// that the client was there, and before that that the standard streams could
/// be read. It asks for a stop only because one of the two had just failed, and
/// it reports nothing else.
pub proof fn law_watcher_reports_with_reason(events: Seq<WatchEvent>, i: int)
    requires
        watch_history(events),
        0 <= i < events.len(),
        watch_action(events[i]) is Report,
    ensures
        match watch_action(events[i])->Report_0 {
            InternalMessage::Stdio(_) => false,
            InternalMessage::Stop => events[i] == WatchEvent::StdioChecked(true) || (events[i]
                matches WatchEvent::ClientPolled(poll) && client_is_gone(poll)),
            InternalMessage::ProcessExited => {
                &&& i >= 3
                &&& events[i] == WatchEvent::ProcessPolled(ProcessPoll::Exited)
                &&& events[i - 1] matches WatchEvent::ClientPolled(poll) && !client_is_gone(poll)
                &&& events[i - 2] == WatchEvent::StdioChecked(false)
            },
        },
{
    if events[i] is ProcessPolled {
        assert(watch_answers(watch_action(events[i - 1]), events[i]));
        assert(events[i - 1] is ClientPolled);
        assert(watch_answers(watch_action(events[i - 2]), events[i - 1]));
        assert(events[i - 2] is StdioChecked);
        assert(watch_answers(watch_action(events[i - 3]), events[i - 2]));
    }
}

/// Once a watcher has reported, it does nothing more.
pub proof fn law_watcher_reports_once(events: Seq<WatchEvent>, i: int)
    requires
        watch_history(events),
        0 <= i < events.len(),
        watch_action(events[i]) is Report,
    ensures
        i == events.len() - 1,
{
    if i + 1 < events.len() {
        assert(watch_answers(watch_action(events[i + 1 - 1]), events[i + 1]));
    }
}

/// What happened to a redirector last.
pub enum RedirectEvent {
    /// The program was started.
    Started,
    /// Whether reading one of the program's standard streams has failed.
    ErrorChecked(bool),
    /// What one read of the stream gave, nothing at its end.
    Read(Vec<u8>),
    /// Reading the stream failed.
    ReadFailed,
    /// A chunk was handed to the relay, or there was no relay to take it.
    Sent,
}

/// What a redirector is to do.
pub enum RedirectAction {
    /// Find out whether reading a standard stream has failed.
    CheckError,
    /// Read from the stream.
    Read,
    /// Hand a chunk to the relay.
    Send(StdioBytes),
    /// Make the failure known to the others, and end.
    RecordError,
    /// End.
    Finish,
}

/// What a redirector is to do, with the bytes that it is to hand on.
pub enum RedirectStep {
    CheckError,
    Read,
    Send(StdStream, Seq<u8>),
    RecordError,
    Finish,
}

impl View for RedirectAction {
    type V = RedirectStep;

    open spec fn view(&self) -> RedirectStep {
        match *self {
            RedirectAction::CheckError => RedirectStep::CheckError,
            RedirectAction::Read => RedirectStep::Read,
            RedirectAction::Send(stdio) => RedirectStep::Send(stdio.stream, stdio.data@),
            RedirectAction::RecordError => RedirectStep::RecordError,
            RedirectAction::Finish => RedirectStep::Finish,
        }
    }
}

/// The bytes that a redirector holds after an event.
pub open spec fn redirect_held(held: Seq<u8>, event: RedirectEvent) -> Seq<u8> {
    match event {
        RedirectEvent::Read(bytes) => held + bytes@,
        RedirectEvent::Sent => Seq::empty(),
        _ => held,
    }
}

/// A redirector's reaction to an event, given the bytes that it held before.
/// At the end of the stream it goes on asking.
pub open spec fn redirect_step(
    stream: StdStream,
    held: Seq<u8>,
    event: RedirectEvent,
) -> RedirectStep {
    match event {
        RedirectEvent::Started | RedirectEvent::Sent => RedirectStep::CheckError,
        RedirectEvent::ErrorChecked(failed) => if failed {
            RedirectStep::Finish
        } else {
            RedirectStep::Read
        },
        RedirectEvent::Read(bytes) => if (held + bytes@).len() > 0 {
            RedirectStep::Send(stream, held + bytes@)
        } else {
            RedirectStep::CheckError
        },
        RedirectEvent::ReadFailed => RedirectStep::RecordError,
    }
}

/// Passes on what a program writes to one of its standard streams.
pub struct Redirector {
    stream: StdStream,
    buf: Vec<u8>,
}

impl View for Redirector {
    type V = Seq<u8>;

    /// The bytes that were read and not yet handed on.
    closed spec fn view(&self) -> Seq<u8> {
        self.buf@
    }
}

impl Redirector {
    /// The stream that is redirected.
    pub closed spec fn stream(&self) -> StdStream {
        self.stream
    }

    /// A redirector of a stream from which nothing has been read.
    pub fn new(stream: StdStream) -> (redirector: Self)
        ensures
            redirector@ == Seq::<u8>::empty(),
            redirector.stream() == stream,
    {
        Redirector { stream, buf: Vec::new() }
    }

    /// What the redirector is to do after an event.
    pub fn redirect_stdio(&mut self, event: RedirectEvent) -> (action: RedirectAction)
        ensures
            final(self).stream() == old(self).stream(),
            final(self)@ == redirect_held(old(self)@, event),
            action@ == redirect_step(old(self).stream(), old(self)@, event),
            event is Started || event is Sent ==> action is CheckError,
            event == RedirectEvent::ErrorChecked(false) ==> action is Read,
            event == RedirectEvent::ErrorChecked(true) ==> action is Finish,
            event is ReadFailed ==> action is RecordError,
            event matches RedirectEvent::Read(bytes) ==> if old(self)@.len() + bytes@.len() == 0 {
                action is CheckError
            } else {
                action matches RedirectAction::Send(stdio) && stdio.stream == old(self).stream()
                    && stdio.data@ == old(self)@ + bytes@
            },
    {
        match event {
            RedirectEvent::Started => RedirectAction::CheckError,
            RedirectEvent::ErrorChecked(failed) => {
                if failed {
                    RedirectAction::Finish
                } else {
                    RedirectAction::Read
                }
            },
            RedirectEvent::Read(bytes) => {
                let mut bytes = bytes;
                self.buf.append(&mut bytes);
                if self.buf.len() > 0 {
                    let data = self.buf.clone();
                    assert(data@ =~= self.buf@);
                    RedirectAction::Send(StdioBytes { stream: self.stream, data })
                } else {
                    RedirectAction::CheckError
                }
            },
            RedirectEvent::ReadFailed => RedirectAction::RecordError,
            RedirectEvent::Sent => {
                self.buf.clear();
                RedirectAction::CheckError
            },
        }
    }
}

/// Whether an event can be what comes of a step of a redirector.
pub open spec fn redirect_answers(step: RedirectStep, event: RedirectEvent) -> bool {
    match step {
        RedirectStep::CheckError => event is ErrorChecked,
        RedirectStep::Read => event is Read || event is ReadFailed,
        RedirectStep::Send(..) => event is Sent,
        RedirectStep::RecordError => false,
        RedirectStep::Finish => false,
    }
}

/// The bytes that a new redirector holds once it has gone through `events`.
pub open spec fn redirect_held_after(events: Seq<RedirectEvent>) -> Seq<u8>
    decreases events.len(),
{
    if events.len() == 0 {
        Seq::empty()
    } else {
        redirect_held(redirect_held_after(events.drop_last()), events.last())
    }
}

/// The last step that a new redirector takes in going through `events`.
pub open spec fn redirect_step_after(stream: StdStream, events: Seq<RedirectEvent>) -> RedirectStep
    recommends
        events.len() > 0,
{
    redirect_step(stream, redirect_held_after(events.drop_last()), events.last())
}

/// Whether `events` is what a redirector can go through.
pub open spec fn redirect_history(stream: StdStream, events: Seq<RedirectEvent>) -> bool {
    &&& events.len() > 0 ==> events[0] is Started
    &&& forall|i: int|
        1 <= i < events.len() ==> redirect_answers(
            redirect_step_after(stream, #[trigger] events.take(i)),
            events[i],
        )
}

/// All that was read from the stream.
pub open spec fn redirect_input(events: Seq<RedirectEvent>) -> Seq<u8>
    decreases events.len(),
{
    if events.len() == 0 {
        Seq::empty()
    } else {
        redirect_input(events.drop_last()) + match events.last() {
            RedirectEvent::Read(bytes) => bytes@,
            _ => Seq::empty(),
        }
    }
}

/// All that was handed to the relay.
pub open spec fn redirect_output(stream: StdStream, events: Seq<RedirectEvent>) -> Seq<u8>
    decreases events.len(),
{
    if events.len() == 0 {
        Seq::empty()
    } else {
        redirect_output(stream, events.drop_last()) + match redirect_step_after(stream, events) {
            RedirectStep::Send(_, bytes) => bytes,
            _ => Seq::empty(),
        }
    }
}

/// A history without its last event is a history, of which the last event comes.
proof fn lemma_redirect_history_shrinks(stream: StdStream, events: Seq<RedirectEvent>)
    requires
        redirect_history(stream, events),
        events.len() > 1,
    ensures
        redirect_history(stream, events.drop_last()),
        redirect_answers(redirect_step_after(stream, events.drop_last()), events.last()),
{
    let before = events.drop_last();
    assert forall|i: int| 1 <= i < before.len() implies redirect_answers(
        redirect_step_after(stream, #[trigger] before.take(i)),
        before[i],
    ) by {
        assert(before.take(i) =~= events.take(i));
        assert(before[i] == events[i]);
    }
    assert(events.take(events.len() - 1) =~= before);
    assert(redirect_answers(redirect_step_after(stream, before), events[events.len() - 1]));
}

/// A redirector that hands on no chunk holds none.
proof fn lemma_redirector_holds_nothing_back(stream: StdStream, events: Seq<RedirectEvent>)
    requires
        redirect_history(stream, events),
        events.len() > 0,
        !(redirect_step_after(stream, events) is Send),
    ensures
        redirect_held_after(events) == Seq::<u8>::empty(),
    decreases events.len(),
{
    let before = events.drop_last();
    if events.len() > 1 {
        lemma_redirect_history_shrinks(stream, events);
        if !(redirect_step_after(stream, before) is Send) {
            lemma_redirector_holds_nothing_back(stream, before);
        }
    } else {
        assert(redirect_held_after(before) == Seq::<u8>::empty());
    }
    assert(redirect_held_after(events) =~= Seq::<u8>::empty());
}

/// A redirector hands on every byte that it reads, once, in the order in which
/// it read them, and at once: it holds nothing back but a chunk on its way.
pub proof fn law_redirector_loses_nothing(stream: StdStream, events: Seq<RedirectEvent>)
    requires
        redirect_history(stream, events),
    ensures
        redirect_output(stream, events) == redirect_input(events),
        events.len() > 0 && !(redirect_step_after(stream, events) is Send)
            ==> redirect_held_after(events) == Seq::<u8>::empty(),
    decreases events.len(),
{
    if events.len() > 0 {
        let before = events.drop_last();
        if events.len() > 1 {
            lemma_redirect_history_shrinks(stream, events);
        }
        law_redirector_loses_nothing(stream, before);
        if !(redirect_step_after(stream, events) is Send) {
            lemma_redirector_holds_nothing_back(stream, events);
        }
        assert(redirect_output(stream, events) =~= redirect_input(events));
    }
}

/// What happened to the relay last.
pub enum RelayEvent {
    /// The program was started.
    Started,
    /// A message from the tasks around the program, unless there are none left.
    Received(Option<InternalMessage>),
    /// An update was sent to the client, or sending it failed.
    Sent(bool),
    /// The watcher has ended.
    WatcherJoined,
    /// The client was told that nothing more will come.
    ShutDown,
    /// So many bytes were read from the client, unless reading failed.
    Drained(Option<usize>),
    /// The program was killed, or killing it failed.
    KillTried,
}

/// What the relay is to do.
pub enum RelayAction {
    /// Wait for a message from the tasks around the program.
    Receive,
    /// Send an update to the client.
    Send(ServerUpdate),
    /// Wait until the watcher has ended.
    JoinWatcher,
    /// Tell the client that nothing more will come.
    ShutDown,
    /// Read from the client.
    Drain,
    /// Kill the program.
    Kill,
    /// The run is over.
    Finish,
}

/// Whether an event ends the relaying, and if so whether the program is then to
/// be killed.
pub open spec fn relay_end(event: RelayEvent) -> Option<bool> {
    match event {
        RelayEvent::Received(Some(InternalMessage::Stop)) => Some(true),
        RelayEvent::Received(Some(InternalMessage::ProcessExited)) => Some(false),
        RelayEvent::Sent(false) => Some(true),
        _ => None,
    }
}

/// The relay's reaction to an event, given whether the program is to be killed.
/// Before that, all that the client may still send is read and dropped.
pub open spec fn relay_action(stop_process: bool, event: RelayEvent) -> RelayAction {
    if relay_end(event) is Some {
        RelayAction::JoinWatcher
    } else {
        match event {
            RelayEvent::Received(Some(InternalMessage::Stdio(stdio))) => RelayAction::Send(
                ServerUpdate { panicked: false, stdio },
            ),
            RelayEvent::WatcherJoined => RelayAction::ShutDown,
            RelayEvent::ShutDown => RelayAction::Drain,
            RelayEvent::Drained(read) => if read is Some && read != Some(0usize) {
                RelayAction::Drain
            } else if stop_process {
                RelayAction::Kill
            } else {
                RelayAction::Finish
            },
            RelayEvent::KillTried => RelayAction::Finish,
            _ => RelayAction::Receive,
        }
    }
}

/// Sends to the client what a program writes, until the program has ended or is
/// to be stopped.
pub struct Relay {
    stop_process: bool,
}

impl Relay {
    /// Whether the program is to be killed at the end.
    pub closed spec fn stop_process(&self) -> bool {
        self.stop_process
    }

    /// A relay that has seen no reason to kill the program.
    pub fn new() -> (relay: Self)
        ensures
            !relay.stop_process(),
    {
        Relay { stop_process: false }
    }

    /// What the relay is to do after an event.
    pub fn next_action(&mut self, event: RelayEvent) -> (action: RelayAction)
        ensures
            action == relay_action(old(self).stop_process(), event),
            final(self).stop_process() == match relay_end(event) {
                Some(stop) => stop,
                None => old(self).stop_process(),
            },
    {
        match event {
            RelayEvent::Started => RelayAction::Receive,
            RelayEvent::Received(None) => RelayAction::Receive,
            RelayEvent::Received(Some(InternalMessage::Stdio(stdio))) => {
                RelayAction::Send(ServerUpdate { panicked: false, stdio })
            },
            RelayEvent::Received(Some(InternalMessage::Stop)) => {
                self.stop_process = true;
                RelayAction::JoinWatcher
            },
            RelayEvent::Received(Some(InternalMessage::ProcessExited)) => {
                self.stop_process = false;
                RelayAction::JoinWatcher
            },
            RelayEvent::Sent(sent) => {
                if sent {
                    RelayAction::Receive
                } else {
                    self.stop_process = true;
                    RelayAction::JoinWatcher
                }
            },
            RelayEvent::WatcherJoined => RelayAction::ShutDown,
            RelayEvent::ShutDown => RelayAction::Drain,
            RelayEvent::Drained(read) => {
                let more = match read {
                    Some(read) => read != 0,
                    None => false,
                };
                if more {
                    RelayAction::Drain
                } else if self.stop_process {
                    RelayAction::Kill
                } else {
                    RelayAction::Finish
                }
            },
            RelayEvent::KillTried => RelayAction::Finish,
        }
    }
}

/// Whether an event can be what comes of an action of the relay.
pub open spec fn relay_answers(action: RelayAction, event: RelayEvent) -> bool {
    match action {
        RelayAction::Receive => event is Received,
        RelayAction::Send(_) => event is Sent,
        RelayAction::JoinWatcher => event is WatcherJoined,
        RelayAction::ShutDown => event is ShutDown,
        RelayAction::Drain => event is Drained,
        RelayAction::Kill => event is KillTried,
        RelayAction::Finish => false,
    }
}

/// Whether a new relay holds that the program is to be killed once it has gone
/// through `events`.
pub open spec fn relay_stop_after(events: Seq<RelayEvent>) -> bool
    decreases events.len(),
{
    if events.len() == 0 {
        false
    } else {
        match relay_end(events.last()) {
            Some(stop) => stop,
            None => relay_stop_after(events.drop_last()),
        }
    }
}

/// The last action that a new relay calls for in going through `events`.
pub open spec fn relay_action_after(events: Seq<RelayEvent>) -> RelayAction
    recommends
        events.len() > 0,
{
    relay_action(relay_stop_after(events.drop_last()), events.last())
}

/// Whether `events` is what a relay can go through.
pub open spec fn relay_history(events: Seq<RelayEvent>) -> bool {
    &&& events.len() > 0 ==> events[0] is Started
    &&& forall|i: int|
        1 <= i < events.len() ==> relay_answers(
            relay_action_after(#[trigger] events.take(i)),
            events[i],
        )
}

/// Whether one of `events` ends the relaying.
pub open spec fn relay_ended(events: Seq<RelayEvent>) -> bool
    decreases events.len(),
{
    events.len() > 0 && (relay_end(events.last()) is Some || relay_ended(events.drop_last()))
}

/// A history without its last event is a history, of which the last event comes.
proof fn lemma_relay_history_shrinks(events: Seq<RelayEvent>)
    requires
        relay_history(events),
        events.len() > 1,
    ensures
        relay_history(events.drop_last()),
        relay_answers(relay_action_after(events.drop_last()), events.last()),
{
    let before = events.drop_last();
    assert forall|i: int| 1 <= i < before.len() implies relay_answers(
        relay_action_after(#[trigger] before.take(i)),
        before[i],
    ) by {
        assert(before.take(i) =~= events.take(i));
        assert(before[i] == events[i]);
    }
    assert(events.take(events.len() - 1) =~= before);
    assert(relay_answers(relay_action_after(before), events[events.len() - 1]));
}

/// Messages are received and updates are sent until the relaying ends, and not
/// after that.
pub proof fn law_relay_is_silent_after_its_end(events: Seq<RelayEvent>)
    requires
        relay_history(events),
        events.len() > 0,
    ensures
        (relay_action_after(events) is Receive || relay_action_after(events) is Send)
            <==> !relay_ended(events),
    decreases events.len(),
{
    if events.len() > 1 {
        lemma_relay_history_shrinks(events);
        law_relay_is_silent_after_its_end(events.drop_last());
    } else {
        reveal_with_fuel(relay_ended, 2);
    }
}

/// An event that ends the relaying is found by looking at all events.
proof fn lemma_relay_ended_at(events: Seq<RelayEvent>, j: int)
    requires
        0 <= j < events.len(),
        relay_end(events[j]) is Some,
    ensures
        relay_ended(events),
    decreases events.len(),
{
    if j < events.len() - 1 {
        assert(events.drop_last()[j] == events[j]);
        lemma_relay_ended_at(events.drop_last(), j);
    }
}

/// The event that ended the relaying decides alone over the program: it is
/// killed if that was a stop or an update that could not be sent, and it is left
/// alone if it had ended by itself.
pub proof fn law_program_is_killed_only_when_stopped(events: Seq<RelayEvent>, j: int)
    requires
        relay_history(events),
        0 <= j < events.len(),
        relay_end(events[j]) is Some,
    ensures
        Some(relay_stop_after(events)) == relay_end(events[j]),
        relay_action_after(events) is Kill ==> relay_end(events[j]) == Some(true),
        relay_action_after(events) is Finish && !(events.last() is KillTried) ==> relay_end(
            events[j],
        ) == Some(false),
    decreases events.len(),
{
    if j < events.len() - 1 {
        let before = events.drop_last();
        assert(before[j] == events[j]);
        lemma_relay_history_shrinks(events);
        lemma_relay_ended_at(before, j);
        law_relay_is_silent_after_its_end(before);
        law_program_is_killed_only_when_stopped(before, j);
    }
}

/// A run is not over, and its program is not killed, before the relaying ended.
pub proof fn law_run_ends_after_its_relay(events: Seq<RelayEvent>)
    requires
        relay_history(events),
        events.len() > 0,
        relay_action_after(events) is Kill || relay_action_after(events) is Finish,
    ensures
        relay_ended(events),
{
    law_relay_is_silent_after_its_end(events);
}

/// Whatever executable a client asks to be run, it is run, with its name and its
/// contents as they came; whatever upgrade a client brings, it is taken as it came.
pub proof fn law_commands_are_carried_out(executable: RunExecutable, update: SelfUpdate)
    ensures
        server_action(ServerEvent::CommandRead(Some(ServerCmd::Run(executable))))
            == ServerAction::Run(executable),
        server_action(ServerEvent::CommandRead(Some(ServerCmd::UpgradeSelf(update))))
            == ServerAction::UpgradeSelf(update),
{
}

/// The server gives a client up, or waits for one, in exactly these cases: it has
/// just started or just finished a run, something has failed, or the client
/// announced the version 0.0.0.
pub proof fn law_server_turns_to_the_next_client_only_with_reason(event: ServerEvent)
    ensures
        server_action(event) == ServerAction::Accept <==> {
            ||| event is Started
            ||| event is RunFinished
            ||| event == ServerEvent::Accepted(false)
            ||| event == ServerEvent::VersionSent(false)
            ||| event == ServerEvent::VersionRead(None)
            ||| event == ServerEvent::VersionRead(Some(Version { major: 0, minor: 0, patch: 0 }))
            ||| event == ServerEvent::CommandRead(None)
        },
{
}

/// A client that does its part is served. Whenever the server waits for a
/// client, and whatever went before, one that connects is sent the version
/// 0.1.0, is asked for its own and then for a command, unless its version is
/// 0.0.0, and the executable that it sends is run. Then the server waits again.
pub proof fn law_client_that_does_its_part_is_served(
    before: Seq<ServerEvent>,
    version: Version,
    executable: RunExecutable,
)
    requires
        server_history(before),
        before.len() > 0,
        server_action(before.last()) == ServerAction::Accept,
        version != (Version { major: 0, minor: 0, patch: 0 }),
    ensures
        ({
            let accepted = before.push(ServerEvent::Accepted(true));
            let greeted = accepted.push(ServerEvent::VersionSent(true));
            let known = greeted.push(ServerEvent::VersionRead(Some(version)));
            let asked = known.push(ServerEvent::CommandRead(Some(ServerCmd::Run(executable))));
            let done = asked.push(ServerEvent::RunFinished);
            &&& server_history(done)
            &&& server_action(accepted.last()) == ServerAction::SendVersion(
                Version { major: 0, minor: 1, patch: 0 },
            )
            &&& server_action(greeted.last()) == ServerAction::ReadVersion
            &&& server_action(known.last()) == ServerAction::ReadCommand
            &&& server_action(asked.last()) == ServerAction::Run(executable)
            &&& server_action(done.last()) == ServerAction::Accept
        }),
{
    let accepted = before.push(ServerEvent::Accepted(true));
    let greeted = accepted.push(ServerEvent::VersionSent(true));
    let known = greeted.push(ServerEvent::VersionRead(Some(version)));
    let asked = known.push(ServerEvent::CommandRead(Some(ServerCmd::Run(executable))));
    let done = asked.push(ServerEvent::RunFinished);
    let n = before.len() as int;
    assert forall|i: int| 1 <= i < done.len() implies server_answers(
        server_action(done[i - 1]),
        #[trigger] done[i],
    ) by {
        if i < n {
            assert(done[i] == before[i]);
            assert(done[i - 1] == before[i - 1]);
        } else if i == n {
            assert(done[i - 1] == before.last());
        }
    }
}

/// A watcher asks for a stop in exactly these cases: reading a standard stream
/// has failed, the client has closed its connection, or reading from it fails
/// for another reason than that there is nothing to be read at the moment. It
/// reports the end of the program exactly when it finds that the program has
/// ended.
pub proof fn law_watcher_notices(event: WatchEvent)
    ensures
        watch_action(event) == WatchAction::Report(InternalMessage::Stop) <==> {
            ||| event == WatchEvent::StdioChecked(true)
            ||| event == WatchEvent::ClientPolled(ClientPoll::Read(0))
            ||| event == WatchEvent::ClientPolled(ClientPoll::Failed)
        },
        watch_action(event) == WatchAction::Report(InternalMessage::ProcessExited) <==> event
            == WatchEvent::ProcessPolled(ProcessPoll::Exited),
{
}

/// As long as nothing is wrong a watcher goes round: it looks at the standard
/// streams, at the client and at the program, and sleeps for a tenth of a second
/// before it looks again. Bytes that the client sends are no reason to stop, and
/// neither is it that the state of the program cannot be found out.
pub proof fn law_watcher_goes_round(read: usize, client: ClientPoll, process: ProcessPoll)
    requires
        read > 0,
        client == ClientPoll::Read(read) || client == ClientPoll::WouldBlock,
        process == ProcessPoll::Running || process == ProcessPoll::Unknown,
    ensures
        watch_action(WatchEvent::Started) == WatchAction::CheckStdio,
        watch_action(WatchEvent::StdioChecked(false)) == WatchAction::PollClient,
        watch_action(WatchEvent::ClientPolled(client)) == WatchAction::PollProcess,
        watch_action(WatchEvent::ProcessPolled(process)) == WatchAction::Sleep(100),
        watch_action(WatchEvent::Slept) == WatchAction::CheckStdio,
{
}

/// A redirector ends in exactly two cases, whichever stream it redirects and
/// whatever went before: it found that reading a standard stream has failed, or
/// reading its own stream failed, which it makes known. Whenever it finds that
/// nothing has failed it reads.
pub proof fn law_redirector_reads_until_a_failure(stream: StdStream, events: Seq<RedirectEvent>)
    requires
        redirect_history(stream, events),
        events.len() > 0,
    ensures
        redirect_step_after(stream, events) == RedirectStep::Finish <==> events.last()
            == RedirectEvent::ErrorChecked(true),
        redirect_step_after(stream, events) == RedirectStep::RecordError <==> events.last()
            is ReadFailed,
        redirect_step_after(stream, events) == RedirectStep::Read <==> events.last()
            == RedirectEvent::ErrorChecked(false),
{
}

/// The two standard streams are treated alike: redirectors of either that hold
/// the same bytes react alike, but for the stream that they name.
pub proof fn law_streams_are_redirected_alike(held: Seq<u8>, event: RedirectEvent)
    ensures
        match redirect_step(StdStream::Stdout, held, event) {
            RedirectStep::Send(stream, bytes) => stream == StdStream::Stdout && redirect_step(
                StdStream::Stderr,
                held,
                event,
            ) == RedirectStep::Send(StdStream::Stderr, bytes),
            step => redirect_step(StdStream::Stderr, held, event) == step,
        },
{
}

/// What a program writes is handed on at once. Whenever a redirector looks for
/// failures, and whatever went before, if there are none it reads; the bytes that
/// it reads, if there are any, it hands on as a chunk of its stream, just these;
/// and then, or if there are none, it looks for failures again.
pub proof fn law_output_is_handed_on(
    stream: StdStream,
    before: Seq<RedirectEvent>,
    bytes: Vec<u8>,
)
    requires
        redirect_history(stream, before),
        before.len() > 0,
        redirect_step_after(stream, before) == RedirectStep::CheckError,
    ensures
        ({
            let checked = before.push(RedirectEvent::ErrorChecked(false));
            let read = checked.push(RedirectEvent::Read(bytes));
            let sent = read.push(RedirectEvent::Sent);
            &&& redirect_history(stream, read)
            &&& redirect_step_after(stream, checked) == RedirectStep::Read
            &&& bytes@.len() == 0 ==> redirect_step_after(stream, read) == RedirectStep::CheckError
            &&& bytes@.len() > 0 ==> {
                &&& redirect_step_after(stream, read) == RedirectStep::Send(stream, bytes@)
                &&& redirect_history(stream, sent)
                &&& redirect_step_after(stream, sent) == RedirectStep::CheckError
            }
        }),
{
    let checked = before.push(RedirectEvent::ErrorChecked(false));
    let read = checked.push(RedirectEvent::Read(bytes));
    let sent = read.push(RedirectEvent::Sent);
    lemma_redirector_holds_nothing_back(stream, before);
    lemma_redirect_history_grows(stream, before, RedirectEvent::ErrorChecked(false));
    assert(checked.drop_last() =~= before);
    lemma_redirect_history_grows(stream, checked, RedirectEvent::Read(bytes));
    assert(read.drop_last() =~= checked);
    assert(redirect_held_after(checked) =~= Seq::<u8>::empty());
    assert(Seq::<u8>::empty() + bytes@ =~= bytes@);
    if bytes@.len() > 0 {
        lemma_redirect_history_grows(stream, read, RedirectEvent::Sent);
    }
}

/// A history goes on with whatever can come of its last step.
proof fn lemma_redirect_history_grows(
    stream: StdStream,
    events: Seq<RedirectEvent>,
    event: RedirectEvent,
)
    requires
        redirect_history(stream, events),
        events.len() > 0,
        redirect_answers(redirect_step_after(stream, events), event),
    ensures
        redirect_history(stream, events.push(event)),
{
    let more = events.push(event);
    assert forall|i: int| 1 <= i < more.len() implies redirect_answers(
        redirect_step_after(stream, #[trigger] more.take(i)),
        more[i],
    ) by {
        if i < events.len() {
            assert(more.take(i) =~= events.take(i));
            assert(more[i] == events[i]);
        } else {
            assert(more.take(i) =~= events);
        }
    }
}

/// A redirector holds the bytes that it has read since it last handed any on.
pub proof fn law_redirector_holds_what_it_reads(held: Seq<u8>, event: RedirectEvent)
    ensures
        match event {
            RedirectEvent::Read(bytes) => redirect_held(held, event) == held + bytes@,
            RedirectEvent::Sent => redirect_held(held, event).len() == 0,
            _ => redirect_held(held, event) == held,
        },
{
}

/// A redirector looks for failures first, and again after every chunk.
pub proof fn law_redirector_looks_for_failures(stream: StdStream, held: Seq<u8>)
    ensures
        redirect_step(stream, held, RedirectEvent::Started) == RedirectStep::CheckError,
        redirect_step(stream, held, RedirectEvent::Sent) == RedirectStep::CheckError,
{
}

/// Whatever a program writes, the relay sends it to the client as it came, in an
/// update that tells of no panic.
pub proof fn law_relay_sends_what_it_receives(stop_process: bool, stdio: StdioBytes)
    ensures
        relay_action(stop_process, RelayEvent::Received(Some(InternalMessage::Stdio(stdio))))
            == RelayAction::Send(ServerUpdate { panicked: false, stdio }),
        relay_end(RelayEvent::Received(Some(InternalMessage::Stdio(stdio)))) is None,
{
}

/// The relay waits for messages in exactly these cases: it has just started, an
/// update was sent, or no message was there to be received.
pub proof fn law_relay_goes_on(stop_process: bool, event: RelayEvent)
    ensures
        relay_action(stop_process, event) == RelayAction::Receive <==> event is Started || event
            == RelayEvent::Sent(true) || event == RelayEvent::Received(None),
{
}

/// The relaying ends in exactly three cases. The program is then to be killed if
/// a stop was asked for or an update could not be sent, and is to be left alone if
/// it has ended. Either way the watcher is waited for.
pub proof fn law_relay_ends_only_with_reason(stop_process: bool, event: RelayEvent)
    ensures
        relay_end(event) == Some(true) <==> event == RelayEvent::Received(
            Some(InternalMessage::Stop),
        ) || event == RelayEvent::Sent(false),
        relay_end(event) == Some(false) <==> event == RelayEvent::Received(
            Some(InternalMessage::ProcessExited),
        ),
        relay_action(stop_process, event) == RelayAction::JoinWatcher <==> relay_end(event) is Some,
{
}

/// How a run is torn down: once the watcher has ended the client is told that
/// nothing more will come; then what the client still sends is read, until it
/// sends nothing more or reading fails; and then the program is killed if it is
/// to be, and the run is over.
pub proof fn law_run_is_torn_down_in_order(stop_process: bool, read: usize)
    ensures
        relay_action(stop_process, RelayEvent::WatcherJoined) == RelayAction::ShutDown,
        relay_action(stop_process, RelayEvent::ShutDown) == RelayAction::Drain,
        read > 0 ==> relay_action(stop_process, RelayEvent::Drained(Some(read)))
            == RelayAction::Drain,
        relay_action(true, RelayEvent::Drained(Some(0))) == RelayAction::Kill,
        relay_action(true, RelayEvent::Drained(None)) == RelayAction::Kill,
        relay_action(false, RelayEvent::Drained(Some(0))) == RelayAction::Finish,
        relay_action(false, RelayEvent::Drained(None)) == RelayAction::Finish,
        relay_action(stop_process, RelayEvent::KillTried) == RelayAction::Finish,
{
}

/// A program that was to be stopped is killed as soon as the client sends nothing
/// more, and one that has ended by itself is not.
pub proof fn law_stopped_program_is_killed(events: Seq<RelayEvent>, j: int)
    requires
        relay_history(events),
        0 <= j < events.len() - 1,
        relay_end(events[j]) is Some,
        events.last() == RelayEvent::Drained(None) || events.last() == RelayEvent::Drained(
            Some(0),
        ),
    ensures
        events[j] == RelayEvent::Received(Some(InternalMessage::Stop)) || events[j]
            == RelayEvent::Sent(false) ==> relay_action_after(events) == RelayAction::Kill,
        events[j] == RelayEvent::Received(Some(InternalMessage::ProcessExited))
            ==> relay_action_after(events) == RelayAction::Finish,
{
    lemma_relay_history_shrinks(events);
    assert(events.drop_last()[j] == events[j]);
    law_program_is_killed_only_when_stopped(events.drop_last(), j);
}

} // verus!
