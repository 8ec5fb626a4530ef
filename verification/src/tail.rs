//! The tail session: following the realtime connection from a terminal
//! until the user, the process or the connection ends it.
//!
//! The session does no I/O. It is a state machine that tells its driver what
//! to do next ([`Command`]) and is told what came of it ([`Report`]). The
//! driver loads the credentials, starts the connection, toggles the
//! terminal's raw mode, sleeps, looks and prints; the session decides the
//! order, decides when the loop ends, and sees to it that the terminal is
//! handed back before the session finishes, whatever ended it.
//!
//! A tick of the loop is three looks, each asked for only if the one before
//! it did not end the loop: at the process interrupt (while waiting out the
//! tick), at the keyboard, and at the connection.

use crate::connection::ConnectionState;
use crate::error::CliError;
use crate::input::{classify, key_action, KeyAction, KeyPress};
use vstd::prelude::*;

verus! {

/// Length of a tick in milliseconds: how long the loop waits between two
/// rounds of looks.
pub const TICK_MILLIS: u64 = 100;

/// Number of ticks between two reminders that the connection is still being
/// re-established.
pub const REMINDER_PERIOD: u8 = 50;

/// Why the monitoring loop ended.
#[derive(Clone, Copy, Debug, PartialEq, Eq, Structural)]
pub enum ExitReason {
    /// The process was interrupted.
    Interrupted,
    /// The user pressed the cancel key.
    QuitKey,
    /// The connection was closed.
    ConnectionClosed,
    /// The connection was lost for good.
    ConnectionLost,
}

/// A line that the session has printed for the user.
#[derive(Clone, Copy, Debug, PartialEq, Eq, Structural)]
pub enum Message {
    /// The connection is being opened.
    Connecting,
    /// The connection is open and events will follow.
    Connected,
    /// The connection is still being re-established.
    StillReconnecting,
    /// The loop is ending, and why.
    Leaving(ExitReason),
    /// The session is over. This is the last line of every session that got
    /// as far as opening the connection.
    Disconnected,
}

/// What the driver is to do next.
#[derive(Clone, Copy, Debug, PartialEq, Eq, Structural)]
pub enum Command {
    /// Load the stored credentials.
    LoadCredentials,
    /// Print a line.
    Print(Message),
    /// Open the realtime connection with the credentials just loaded.
    StartMonitor,
    /// Put the terminal into raw mode.
    EnableRawMode,
    /// Wait one tick, and say whether the process interrupt was raised.
    AwaitTick,
    /// Look at the keyboard without waiting.
    PollInput,
    /// Read the stage that the connection monitor shows.
    ReadState,
    /// Ask the connection for teardown.
    RequestDisconnect,
    /// Take the terminal out of raw mode.
    RestoreTerminal,
    /// Stop: the session is over and its outcome can be collected.
    Finish,
}

/// What came of the last command.
#[derive(Debug, PartialEq, Eq)]
pub enum Report {
    /// The command was carried out, or failed with the given error.
    Completed(Result<(), CliError>),
    /// The tick has been waited out; whether the process interrupt was
    /// raised by then.
    Waited { interrupted: bool },
    /// What the keyboard held.
    Key(KeyPress),
    /// The stage the connection monitor showed.
    State(ConnectionState),
}

/// Where a session stands: each phase waits for the outcome of one command.
#[derive(Clone, Copy, Debug, PartialEq, Eq, Structural)]
pub enum Phase {
    /// Waiting for the credentials.
    Loading,
    /// Announcing that the connection is being opened.
    Greeting,
    /// Waiting for the connection to open.
    Starting,
    /// Announcing that the connection is open.
    Welcoming,
    /// Waiting for the terminal to enter raw mode.
    Arming,
    /// In the loop, waiting out the tick.
    Monitoring,
    /// In the loop, looking at the keyboard.
    Polling,
    /// In the loop, looking at the connection.
    Reading,
    /// In the loop, printing the reminder.
    Notifying,
    /// Out of the loop, announcing why.
    Leaving(ExitReason),
    /// Waiting for the teardown request to go out.
    Disconnecting,
    /// Waiting for the terminal to leave raw mode.
    Restoring,
    /// Printing the last line.
    Farewell,
    /// Over.
    Finished,
}

/// Mathematical content of a [`TailSession`].
pub struct SessionModel {
    /// Where the session stands.
    pub phase: Phase,
    /// Whether the session holds the terminal in raw mode.
    pub raw_mode: bool,
    /// Ticks since the last multiple of [`REMINDER_PERIOD`].
    pub cycle: nat,
    /// How the session ends, as far as it is settled: `Ok` until a failure
    /// is recorded.
    pub outcome: Result<(), CliError>,
}

/// The text of a line.
pub open spec fn message_text(message: Message) -> Seq<char> {
    match message {
        Message::Connecting => "Connecting to AnyList WebSocket..."@,
        Message::Connected => "Connected! Monitoring events... (Press Ctrl+C or 'q' to quit)\n"@,
        Message::StillReconnecting => "Still attempting to reconnect..."@,
        Message::Leaving(ExitReason::Interrupted) => "\r\nReceived Ctrl+C, shutting down..."@,
        Message::Leaving(ExitReason::QuitKey) => "\r\nReceived 'q', shutting down..."@,
        Message::Leaving(ExitReason::ConnectionClosed) => "\r\nConnection permanently closed."@,
        Message::Leaving(ExitReason::ConnectionLost) => "\r\nConnection disconnected."@,
        Message::Disconnected => "\nDisconnected."@,
    }
}

/// The tick count after one more tick, within its period.
pub open spec fn next_cycle(cycle: nat) -> nat {
    if cycle + 1 >= REMINDER_PERIOD {
        0
    } else {
        cycle + 1
    }
}

/// The command that a phase waits on.
pub open spec fn command_for(phase: Phase) -> Command {
    match phase {
        Phase::Loading => Command::LoadCredentials,
        Phase::Greeting => Command::Print(Message::Connecting),
        Phase::Starting => Command::StartMonitor,
        Phase::Welcoming => Command::Print(Message::Connected),
        Phase::Arming => Command::EnableRawMode,
        Phase::Monitoring => Command::AwaitTick,
        Phase::Polling => Command::PollInput,
        Phase::Reading => Command::ReadState,
        Phase::Notifying => Command::Print(Message::StillReconnecting),
        Phase::Leaving(reason) => Command::Print(Message::Leaving(reason)),
        Phase::Disconnecting => Command::RequestDisconnect,
        Phase::Restoring => Command::RestoreTerminal,
        Phase::Farewell => Command::Print(Message::Disconnected),
        Phase::Finished => Command::Finish,
    }
}

/// Where the loop goes once the tick has been waited out: out, if the
/// interrupt was raised, and on to the keyboard otherwise.
pub open spec fn phase_after_wait(interrupted: bool) -> Phase {
    if interrupted {
        Phase::Leaving(ExitReason::Interrupted)
    } else {
        Phase::Polling
    }
}

/// Where the loop goes once the keyboard has been looked at: out, on the
/// cancel key or the interrupt chord, and on to the connection otherwise.
pub open spec fn phase_after_key(key: KeyPress) -> Phase {
    match key_action(key) {
        KeyAction::Quit => Phase::Leaving(ExitReason::QuitKey),
        KeyAction::Interrupt => Phase::Leaving(ExitReason::Interrupted),
        KeyAction::Ignore => Phase::Reading,
    }
}

/// Where the loop goes once the connection has been looked at: out, if it
/// has ended, and round again otherwise, by way of the reminder where one is
/// due. `cycle` is the tick count within its period.
pub open spec fn phase_after_state(state: ConnectionState, cycle: nat) -> Phase {
    match state {
        ConnectionState::Closed => Phase::Leaving(ExitReason::ConnectionClosed),
        ConnectionState::Disconnected => Phase::Leaving(ExitReason::ConnectionLost),
        ConnectionState::Reconnecting => if cycle == 0 {
            Phase::Notifying
        } else {
            Phase::Monitoring
        },
        _ => Phase::Monitoring,
    }
}

impl SessionModel {
    /// A session that has not done anything yet.
    pub open spec fn initial() -> SessionModel {
        SessionModel { phase: Phase::Loading, raw_mode: false, cycle: 0, outcome: Ok(()) }
    }

    /// The session in another phase, all else the same.
    pub open spec fn at(self, phase: Phase) -> SessionModel {
        SessionModel { phase, ..self }
    }

    /// The session with a failure recorded, in the phase that deals with it.
    pub open spec fn failed(self, phase: Phase, error: CliError) -> SessionModel {
        SessionModel { phase, outcome: Err(error), ..self }
    }

    /// Whether the session is in the loop.
    pub open spec fn in_loop(self) -> bool {
        self.phase == Phase::Monitoring || self.phase == Phase::Polling || self.phase
            == Phase::Reading || self.phase == Phase::Notifying
    }

    /// Whether the session is at one of the three looks of a tick.
    pub open spec fn is_looking(self) -> bool {
        self.phase == Phase::Monitoring || self.phase == Phase::Polling || self.phase
            == Phase::Reading
    }

    /// Whether the phase lies between the loop and the end.
    pub open spec fn is_cleaning_up(self) -> bool {
        self.phase is Leaving || self.phase == Phase::Disconnecting || self.phase
            == Phase::Restoring || self.phase == Phase::Farewell
    }

    /// The session after a command has been carried out, or has failed.
    ///
    /// Failures of printing, of the teardown request and of restoring the
    /// terminal are not held against the session: those steps are best
    /// effort. A failure before the connection is open ends the session at
    /// once; a later one is recorded and sends the session through the
    /// cleanup, last line included.
    pub open spec fn after_completion(self, result: Result<(), CliError>) -> SessionModel {
        match self.phase {
            Phase::Loading => match result {
                Ok(_) => self.at(Phase::Greeting),
                Err(error) => self.failed(Phase::Finished, error),
            },
            Phase::Greeting => self.at(Phase::Starting),
            Phase::Starting => match result {
                Ok(_) => self.at(Phase::Welcoming),
                Err(error) => self.failed(Phase::Finished, error),
            },
            Phase::Welcoming => self.at(Phase::Arming),
            Phase::Arming => match result {
                Ok(_) => SessionModel { phase: Phase::Monitoring, raw_mode: true, ..self },
                Err(error) => self.failed(Phase::Disconnecting, error),
            },
            Phase::Monitoring | Phase::Polling | Phase::Reading => match result {
                Ok(_) => self,
                Err(error) => self.failed(Phase::Disconnecting, error),
            },
            Phase::Notifying => self.at(Phase::Monitoring),
            Phase::Leaving(_) => self.at(Phase::Disconnecting),
            Phase::Disconnecting => if self.raw_mode {
                self.at(Phase::Restoring)
            } else {
                self.at(Phase::Farewell)
            },
            Phase::Restoring => SessionModel { phase: Phase::Farewell, raw_mode: false, ..self },
            Phase::Farewell => self.at(Phase::Finished),
            Phase::Finished => self,
        }
    }

    /// The session after `report`. A report that the phase does not wait for
    /// changes nothing.
    pub open spec fn step(self, report: Report) -> SessionModel {
        match report {
            Report::Completed(result) => self.after_completion(result),
            Report::Waited { interrupted } => if self.phase == Phase::Monitoring {
                SessionModel {
                    phase: phase_after_wait(interrupted),
                    cycle: next_cycle(self.cycle),
                    ..self
                }
            } else {
                self
            },
            Report::Key(key) => if self.phase == Phase::Polling {
                self.at(phase_after_key(key))
            } else {
                self
            },
            Report::State(state) => if self.phase == Phase::Reading {
                self.at(phase_after_state(state, self.cycle))
            } else {
                self
            },
        }
    }

    /// The session after the reports of `reports`, in order.
    pub open spec fn run(self, reports: Seq<Report>) -> SessionModel
        decreases reports.len(),
    {
        if reports.len() == 0 {
            self
        } else {
            self.run(reports.drop_last()).step(reports.last())
        }
    }

    /// What holds of every session that was made by [`TailSession::new`] and
    /// moved by [`TailSession::advance`].
    pub open spec fn wf(self) -> bool {
        &&& self.cycle < REMINDER_PERIOD
        &&& self.raw_mode ==> self.in_loop() || self.phase is Leaving || self.phase
            == Phase::Disconnecting || self.phase == Phase::Restoring
        &&& self.outcome is Err ==> self.phase == Phase::Disconnecting || self.phase
            == Phase::Restoring || self.phase == Phase::Farewell || self.phase == Phase::Finished
    }
}

impl Message {
    /// The text of the line.
    pub fn text(self) -> (result: &'static str)
        ensures
            result@ == message_text(self),
    {
        match self {
            Message::Connecting => "Connecting to AnyList WebSocket...",
            Message::Connected =>
                "Connected! Monitoring events... (Press Ctrl+C or 'q' to quit)\n",
            Message::StillReconnecting => "Still attempting to reconnect...",
            Message::Leaving(ExitReason::Interrupted) => "\r\nReceived Ctrl+C, shutting down...",
            Message::Leaving(ExitReason::QuitKey) => "\r\nReceived 'q', shutting down...",
            Message::Leaving(ExitReason::ConnectionClosed) =>
                "\r\nConnection permanently closed.",
            Message::Leaving(ExitReason::ConnectionLost) => "\r\nConnection disconnected.",
            Message::Disconnected => "\nDisconnected.",
        }
    }
}

/// The process exit code for an outcome: zero for a session that ended in
/// good order, one for a failure.
pub fn exit_code(outcome: &Result<(), CliError>) -> (result: u8)
    ensures
        result == (if outcome is Ok {
            0u8
        } else {
            1u8
        }),
{
    match outcome {
        Ok(_) => 0,
        Err(_) => 1,
    }
}

/// A tail session.
#[derive(Debug)]
pub struct TailSession {
    phase: Phase,
    raw_mode: bool,
    cycle: u8,
    outcome: Result<(), CliError>,
}

impl View for TailSession {
    type V = SessionModel;

    closed spec fn view(&self) -> SessionModel {
        SessionModel {
            phase: self.phase,
            raw_mode: self.raw_mode,
            cycle: self.cycle as nat,
            outcome: self.outcome,
        }
    }
}

impl TailSession {
    #[verifier::type_invariant]
    spec fn well_formed(self) -> bool {
        self@.wf()
    }

    /// A session that has not done anything yet.
    pub fn new() -> (result: TailSession)
        ensures
            result@ == SessionModel::initial(),
    {
        TailSession { phase: Phase::Loading, raw_mode: false, cycle: 0, outcome: Ok(()) }
    }

    /// Where the session stands.
    pub fn phase(&self) -> (result: Phase)
        ensures
            result == self@.phase,
    {
        self.phase
    }

    /// Whether the session holds the terminal in raw mode.
    pub fn raw_mode(&self) -> (result: bool)
        ensures
            result == self@.raw_mode,
    {
        self.raw_mode
    }

    /// The command the session is waiting on. It is `Finish` only while the
    /// terminal is out of raw mode.
    pub fn command(&self) -> (result: Command)
        ensures
            result == command_for(self@.phase),
            self@.wf(),
            result == Command::Finish ==> !self@.raw_mode,
    {
        proof {
            use_type_invariant(self);
        }
        match self.phase {
            Phase::Loading => Command::LoadCredentials,
            Phase::Greeting => Command::Print(Message::Connecting),
            Phase::Starting => Command::StartMonitor,
            Phase::Welcoming => Command::Print(Message::Connected),
            Phase::Arming => Command::EnableRawMode,
            Phase::Monitoring => Command::AwaitTick,
            Phase::Polling => Command::PollInput,
            Phase::Reading => Command::ReadState,
            Phase::Notifying => Command::Print(Message::StillReconnecting),
            Phase::Leaving(reason) => Command::Print(Message::Leaving(reason)),
            Phase::Disconnecting => Command::RequestDisconnect,
            Phase::Restoring => Command::RestoreTerminal,
            Phase::Farewell => Command::Print(Message::Disconnected),
            Phase::Finished => Command::Finish,
        }
    }

    /// How the session ended. Before `Finish` has been commanded this is
    /// what is settled so far.
    pub fn into_outcome(self) -> (result: Result<(), CliError>)
        ensures
            result == self@.outcome,
    {
        self.outcome
    }

    /// Takes in what came of the last command, and returns the next one. The
    /// next one is `Finish` only once the terminal is out of raw mode.
    pub fn advance(&mut self, report: Report) -> (result: Command)
        ensures
            final(self)@ == old(self)@.step(report),
            result == command_for(final(self)@.phase),
            final(self)@.wf(),
            result == Command::Finish ==> !final(self)@.raw_mode,
    {
        proof {
            use_type_invariant(&*self);
        }
        match report {
            Report::Completed(result) => {
                self.complete(result);
            },
            Report::Waited { interrupted } => {
                if let Phase::Monitoring = self.phase {
                    self.cycle = if self.cycle >= REMINDER_PERIOD - 1 {
                        0
                    } else {
                        self.cycle + 1
                    };
                    self.phase = if interrupted {
                        Phase::Leaving(ExitReason::Interrupted)
                    } else {
                        Phase::Polling
                    };
                }
            },
            Report::Key(key) => {
                if let Phase::Polling = self.phase {
                    self.phase = match classify(key) {
                        KeyAction::Quit => Phase::Leaving(ExitReason::QuitKey),
                        KeyAction::Interrupt => Phase::Leaving(ExitReason::Interrupted),
                        KeyAction::Ignore => Phase::Reading,
                    };
                }
            },
            Report::State(state) => {
                if let Phase::Reading = self.phase {
                    self.phase = match state {
                        ConnectionState::Closed => Phase::Leaving(ExitReason::ConnectionClosed),
                        ConnectionState::Disconnected => Phase::Leaving(
                            ExitReason::ConnectionLost,
                        ),
                        ConnectionState::Reconnecting => {
                            if self.cycle == 0 {
                                Phase::Notifying
                            } else {
                                Phase::Monitoring
                            }
                        },
                        _ => Phase::Monitoring,
                    };
                }
            },
        }
        self.command()
    }

    /// Takes in that a command has been carried out, or has failed.
    fn complete(&mut self, result: Result<(), CliError>)
        ensures
            final(self)@ == old(self)@.after_completion(result),
    {
        proof {
            use_type_invariant(&*self);
        }
        match self.phase {
            Phase::Loading | Phase::Starting => match result {
                Ok(_) => {
                    self.phase = match self.phase {
                        Phase::Loading => Phase::Greeting,
                        _ => Phase::Welcoming,
                    };
                },
                Err(error) => {
                    self.phase = Phase::Finished;
                    self.outcome = Err(error);
                },
            },
            Phase::Greeting => {
                self.phase = Phase::Starting;
            },
            Phase::Welcoming => {
                self.phase = Phase::Arming;
            },
            Phase::Arming => match result {
                Ok(_) => {
                    self.phase = Phase::Monitoring;
                    self.raw_mode = true;
                },
                Err(error) => {
                    self.phase = Phase::Disconnecting;
                    self.outcome = Err(error);
                },
            },
            Phase::Monitoring | Phase::Polling | Phase::Reading => match result {
                Ok(_) => {},
                Err(error) => {
                    self.phase = Phase::Disconnecting;
                    self.outcome = Err(error);
                },
            },
            Phase::Notifying => {
                self.phase = Phase::Monitoring;
            },
            Phase::Leaving(_) => {
                self.phase = Phase::Disconnecting;
            },
            Phase::Disconnecting => {
                self.phase = if self.raw_mode {
                    Phase::Restoring
                } else {
                    Phase::Farewell
                };
            },
            Phase::Restoring => {
                self.raw_mode = false;
                self.phase = Phase::Farewell;
            },
            Phase::Farewell => {
                self.phase = Phase::Finished;
            },
            Phase::Finished => {},
        }
    }
}

/// Whether a report gives the loop no cause to end: the interrupt was not
/// raised, the keyboard held nothing that is a request, the connection had
/// not ended, or a command was carried out.
pub open spec fn is_uneventful(report: Report) -> bool {
    match report {
        Report::Completed(result) => result is Ok,
        Report::Waited { interrupted } => !interrupted,
        Report::Key(key) => key_action(key) == KeyAction::Ignore,
        Report::State(state) => !state.spec_is_terminal(),
    }
}

/// The invariant of sessions holds of a new session and is kept by every
/// report, so it holds after any run of reports.
pub proof fn law_sessions_stay_well_formed(
    session: SessionModel,
    report: Report,
    reports: Seq<Report>,
)
    ensures
        SessionModel::initial().wf(),
        session.wf() ==> session.step(report).wf(),
        session.wf() ==> session.run(reports).wf(),
    decreases reports.len(),
{
    if session.wf() && reports.len() > 0 {
        law_sessions_stay_well_formed(session, report, reports.drop_last());
        law_sessions_stay_well_formed(
            session.run(reports.drop_last()),
            reports.last(),
            Seq::empty(),
        );
    }
}

/// The terminal is out of raw mode whenever a session is over, whatever
/// ended it: the cancel key, an interrupt, the connection, or a failure. Raw
/// mode is entered only as the loop is, and given up only by carrying out
/// `RestoreTerminal`.
pub proof fn law_terminal_is_restored_before_finish(
    reports: Seq<Report>,
    session: SessionModel,
    report: Report,
)
    ensures
        SessionModel::initial().run(reports).phase == Phase::Finished
            ==> !SessionModel::initial().run(reports).raw_mode,
        session.wf() && command_for(session.phase) == Command::Finish ==> !session.raw_mode,
        session.raw_mode && !session.step(report).raw_mode ==> command_for(session.phase)
            == Command::RestoreTerminal && report is Completed,
        !session.raw_mode && session.step(report).raw_mode ==> ({
            &&& command_for(session.phase) == Command::EnableRawMode
            &&& report matches Report::Completed(Ok(_))
            &&& session.step(report).phase == Phase::Monitoring
        }),
{
    law_sessions_stay_well_formed(SessionModel::initial(), report, reports);
}

/// The three looks of a tick come in order, and each is asked for only if
/// the one before it did not end the loop: the keyboard is looked at only
/// after a wait during which no interrupt was raised, and the connection
/// only after the keyboard held nothing that is a request.
pub proof fn law_looks_come_in_order(session: SessionModel, report: Report)
    requires
        command_for(session.phase) != command_for(session.step(report).phase),
    ensures
        command_for(session.step(report).phase) == Command::PollInput ==> session.phase
            == Phase::Monitoring && report == (Report::Waited { interrupted: false }),
        command_for(session.step(report).phase) == Command::ReadState ==> session.phase
            == Phase::Polling && report is Key && key_action(report->Key_0)
            == KeyAction::Ignore,
        session.phase == Phase::Monitoring && report == (Report::Waited { interrupted: true })
            ==> session.step(report).phase == Phase::Leaving(ExitReason::Interrupted),
        session.phase == Phase::Polling && report is Key && key_action(report->Key_0)
            != KeyAction::Ignore ==> session.step(report).phase is Leaving,
{
}

/// The keyboard ends the loop on the cancel key and on the interrupt chord,
/// and on nothing else: any other key leaves the loop running and sends it
/// on to look at the connection.
pub proof fn law_only_the_cancel_key_ends_the_loop(session: SessionModel, key: KeyPress)
    requires
        session.phase == Phase::Polling,
    ensures
        session.step(Report::Key(key)).phase is Leaving <==> key == KeyPress::Char(
            crate::input::CANCEL_KEY,
        ) || key == KeyPress::Interrupt,
        key == KeyPress::Char(crate::input::CANCEL_KEY) ==> session.step(Report::Key(key)).phase
            == Phase::Leaving(ExitReason::QuitKey),
        key == KeyPress::Interrupt ==> session.step(Report::Key(key)).phase == Phase::Leaving(
            ExitReason::Interrupted,
        ),
        !(session.step(Report::Key(key)).phase is Leaving) ==> session.step(
            Report::Key(key),
        ).phase == Phase::Reading,
{
}

/// The loop ends on the very tick that shows the connection `Closed` or
/// `Disconnected`, and on no other stage: a connection that is
/// `Reconnecting`, `Connecting` or `Connected` never ends it.
pub proof fn law_loop_ends_with_the_connection(session: SessionModel, state: ConnectionState)
    requires
        session.phase == Phase::Reading,
    ensures
        state.spec_is_terminal() <==> session.step(Report::State(state)).phase is Leaving,
        state == ConnectionState::Closed ==> session.step(Report::State(state)).phase
            == Phase::Leaving(ExitReason::ConnectionClosed),
        state == ConnectionState::Disconnected ==> session.step(Report::State(state)).phase
            == Phase::Leaving(ExitReason::ConnectionLost),
        !state.spec_is_terminal() ==> session.step(Report::State(state)).in_loop(),
{
}

/// A whole tick: when no interrupt is raised and the keyboard holds nothing
/// that is a request, the tick ends the loop if and only if the connection
/// has ended, and otherwise the session waits for the next tick or prints
/// the reminder first.
pub proof fn law_quiet_tick(session: SessionModel, key: KeyPress, state: ConnectionState)
    requires
        session.phase == Phase::Monitoring,
        key_action(key) == KeyAction::Ignore,
    ensures
        ({
            let after = session.step(Report::Waited { interrupted: false }).step(
                Report::Key(key),
            ).step(Report::State(state));
            &&& after.phase == phase_after_state(state, next_cycle(session.cycle))
            &&& after.phase is Leaving <==> state.spec_is_terminal()
            &&& !state.spec_is_terminal() ==> after.phase == Phase::Monitoring || after.phase
                == Phase::Notifying
            &&& after.raw_mode == session.raw_mode
            &&& after.outcome == session.outcome
        }),
{
}

/// As long as nothing is raised or pressed that is a request and the
/// connection has not ended, the session stays in the loop, however long
/// the connection keeps reconnecting.
pub proof fn law_uneventful_ticks_keep_the_loop(session: SessionModel, reports: Seq<Report>)
    requires
        session.in_loop(),
        forall|i: int| 0 <= i < reports.len() ==> is_uneventful(#[trigger] reports[i]),
    ensures
        session.run(reports).in_loop(),
        session.run(reports).raw_mode == session.raw_mode,
        session.run(reports).outcome == session.outcome,
    decreases reports.len(),
{
    if reports.len() > 0 {
        let earlier = reports.drop_last();
        assert forall|i: int| 0 <= i < earlier.len() implies is_uneventful(
            #[trigger] earlier[i],
        ) by {
            assert(earlier[i] == reports[i]);
        }
        law_uneventful_ticks_keep_the_loop(session, earlier);
        assert(is_uneventful(reports[reports.len() - 1]));
    }
}

/// A session whose credentials cannot be loaded is over at once, with the
/// error of the load as its outcome, and stays over: no later report makes
/// it command anything but `Finish`, so no connection is ever started.
pub proof fn law_failed_load_ends_the_session(error: CliError, reports: Seq<Report>)
    ensures
        SessionModel::initial().step(Report::Completed(Err(error))).run(reports)
            == SessionModel::initial().failed(Phase::Finished, error),
        command_for(
            SessionModel::initial().step(Report::Completed(Err(error))).run(reports).phase,
        ) == Command::Finish,
    decreases reports.len(),
{
    if reports.len() > 0 {
        law_failed_load_ends_the_session(error, reports.drop_last());
    }
}

/// Once out of the loop a session is over within four commands, whatever
/// comes of them, and it ends with the outcome it left the loop with.
pub proof fn law_cleanup_finishes(session: SessionModel, reports: Seq<Report>)
    requires
        session.wf(),
        session.is_cleaning_up(),
        reports.len() == 4,
        forall|i: int| 0 <= i < reports.len() ==> #[trigger] reports[i] is Completed,
    ensures
        session.run(reports).phase == Phase::Finished,
        !session.run(reports).raw_mode,
        session.run(reports).outcome == session.outcome,
{
    let r3 = reports.drop_last();
    let r2 = r3.drop_last();
    let r1 = r2.drop_last();
    let r0 = r1.drop_last();
    assert(r0.len() == 0);
    assert(session.run(r0) == session);
    assert(r1.last() == reports[0]);
    assert(r2.last() == reports[1]);
    assert(r3.last() == reports[2]);
    assert(reports.last() == reports[3]);
    let s1 = session.step(reports[0]);
    assert(session.run(r1) == s1);
    let s2 = s1.step(reports[1]);
    assert(session.run(r2) == s2);
    let s3 = s2.step(reports[2]);
    assert(session.run(r3) == s3);
    assert(session.run(reports) == s3.step(reports[3]));
}

/// The steps of an orderly exit: after the line that says why the loop
/// ended come the teardown request, the terminal's restoration and the
/// last line, in this order, and then the end.
pub proof fn law_exit_path_order(
    session: SessionModel,
    first: Report,
    second: Report,
    third: Report,
    fourth: Report,
)
    requires
        session.wf(),
        session.phase is Leaving,
        session.raw_mode,
        first is Completed,
        second is Completed,
        third is Completed,
        fourth is Completed,
    ensures
        command_for(session.step(first).phase) == Command::RequestDisconnect,
        command_for(session.step(first).step(second).phase) == Command::RestoreTerminal,
        command_for(session.step(first).step(second).step(third).phase) == Command::Print(
            Message::Disconnected,
        ),
        command_for(session.step(first).step(second).step(third).step(fourth).phase)
            == Command::Finish,
        session.step(first).step(second).step(third).step(fourth).outcome is Ok,
{
}

/// A failure in the loop, or in entering raw mode, is reported only after
/// the cleanup, and the cleanup is the same as on any other way out: the
/// teardown request goes out first, the terminal is restored if it was
/// taken, the last line is printed, and only then is the session over, with
/// that failure as its outcome.
pub proof fn law_failures_wait_for_cleanup(
    session: SessionModel,
    error: CliError,
    first: Report,
    second: Report,
    third: Report,
)
    requires
        session.wf(),
        session.is_looking() || session.phase == Phase::Arming,
        first is Completed,
        second is Completed,
        third is Completed,
    ensures
        ({
            let failed = session.step(Report::Completed(Err(error)));
            let last_line = if failed.raw_mode {
                failed.step(first).step(second)
            } else {
                failed.step(first)
            };
            &&& command_for(failed.phase) == Command::RequestDisconnect
            &&& failed.outcome == Err::<(), CliError>(error)
            &&& failed.raw_mode == session.raw_mode
            &&& failed.raw_mode ==> command_for(failed.step(first).phase)
                == Command::RestoreTerminal
            &&& command_for(last_line.phase) == Command::Print(Message::Disconnected)
            &&& last_line.step(third) == (SessionModel {
                phase: Phase::Finished,
                raw_mode: false,
                ..failed
            })
        }),
{
}

/// Every way out of a session that got as far as opening the connection
/// ends with the last line: a session becomes finished either by having
/// printed it, or by failing before there was a connection.
pub proof fn law_last_line_precedes_finish(session: SessionModel, report: Report)
    requires
        session.phase != Phase::Finished,
        session.step(report).phase == Phase::Finished,
    ensures
        report is Completed,
        command_for(session.phase) == Command::Print(Message::Disconnected) || (report matches
        Report::Completed(Err(_)) && (session.phase == Phase::Loading || session.phase
            == Phase::Starting)),
{
}

/// Within its period the tick count is the number of ticks modulo the
/// period, so the reminder comes on every fiftieth tick of the loop, and
/// only while the connection is reconnecting.
pub proof fn law_reminder_period(
    session: SessionModel,
    interrupted: bool,
    state: ConnectionState,
)
    requires
        session.wf(),
    ensures
        session.phase == Phase::Monitoring ==> session.step(
            Report::Waited { interrupted },
        ).cycle == (session.cycle + 1) % (REMINDER_PERIOD as nat),
        session.phase == Phase::Reading ==> (session.step(Report::State(state)).phase
            == Phase::Notifying <==> state == ConnectionState::Reconnecting && session.cycle
            == 0),
        session.phase != Phase::Monitoring ==> session.step(
            Report::Waited { interrupted },
        ).cycle == session.cycle,
{
}

} // verus!
