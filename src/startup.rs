use vstd::prelude::*;

verus! {

/// How the program was built. Selects the setup path once, at startup.
#[derive(Clone, Copy, Debug, PartialEq, Eq, Structural)]
pub enum BuildMode {
    Debug,
    Release,
}

/// Minimum severity that a logging capability lets through.
#[derive(Clone, Copy, Debug, PartialEq, Eq, Structural)]
pub enum Severity {
    Off,
    Error,
    Warn,
    Info,
    Debug,
    Trace,
}

/// Where the single-shot startup sequence stands.
#[derive(Clone, Copy, Debug, PartialEq, Eq, Structural)]
pub enum Phase {
    /// Nothing has happened yet.
    Unconfigured,
    /// The setup step is waiting for the logging capability to be registered.
    Configuring,
    /// The event loop has been asked to run.
    Running,
    /// The sequence is over; it never starts again.
    Terminated,
}

/// What the host reports back to the runner.
#[derive(Clone, Copy, Debug, PartialEq, Eq, Structural)]
pub enum Event {
    /// The host asks for startup to begin.
    Begin,
    /// The logging capability was registered on the application handle.
    LoggingRegistered,
    /// Registering the logging capability failed.
    LoggingRejected,
    /// The event loop returned normally.
    LoopExited,
    /// The event loop could not be started or failed.
    LoopFailed,
}

/// What the runner asks the host to do next.
#[derive(Clone, Copy, Debug, PartialEq, Eq, Structural)]
pub enum Command {
    /// Build a logging capability with this minimum level and register it.
    RegisterLogging { level: Severity },
    /// Hand the generated context to the builder and block in the event loop.
    StartEventLoop,
    /// Propagate the setup failure; the event loop is not started.
    AbandonSetup,
    /// Terminate the process abnormally with [`fatal_message`].
    Abort,
    /// The application has exited normally.
    Finish,
    /// The event does not fit the current phase; nothing to do.
    Ignore,
}

/// The minimum level of the logging capability registered in debug builds.
pub open spec fn debug_log_level() -> Severity {
    Severity::Info
}

/// One transition of the startup sequence: the next phase and the command
/// that the host carries out.
pub open spec fn next(mode: BuildMode, phase: Phase, event: Event) -> (Phase, Command) {
    match (phase, event) {
        (Phase::Unconfigured, Event::Begin) => match mode {
            BuildMode::Debug => (Phase::Configuring, Command::RegisterLogging { level: debug_log_level() }),
            BuildMode::Release => (Phase::Running, Command::StartEventLoop),
        },
        (Phase::Configuring, Event::LoggingRegistered) => (Phase::Running, Command::StartEventLoop),
        (Phase::Configuring, Event::LoggingRejected) => (Phase::Terminated, Command::AbandonSetup),
        (Phase::Running, Event::LoopExited) => (Phase::Terminated, Command::Finish),
        (Phase::Running, Event::LoopFailed) => (Phase::Terminated, Command::Abort),
        _ => (phase, Command::Ignore),
    }
}

/// The text reported when the event loop cannot run.
pub fn fatal_message() -> (r: &'static str)
    ensures
        r@ == "error while running tauri application"@,
{
    "error while running tauri application"
}

/// The startup sequence of one application instance.
pub struct Runner {
    mode: BuildMode,
    phase: Phase,
}

impl Runner {
    /// The build mode this runner was created for.
    pub closed spec fn spec_mode(&self) -> BuildMode {
        self.mode
    }

    /// The phase the runner is in.
    pub closed spec fn spec_phase(&self) -> Phase {
        self.phase
    }

    /// A runner that has not begun.
    pub fn new(mode: BuildMode) -> (r: Runner)
        ensures
            r.spec_mode() == mode,
            r.spec_phase() == Phase::Unconfigured,
    {
        Runner { mode, phase: Phase::Unconfigured }
    }

    pub fn mode(&self) -> (r: BuildMode)
        ensures
            r == self.spec_mode(),
    {
        self.mode
    }

    pub fn phase(&self) -> (r: Phase)
        ensures
            r == self.spec_phase(),
    {
        self.phase
    }

    /// Takes one event from the host and returns what the host must do next.
    pub fn handle(&mut self, event: Event) -> (c: Command)
        ensures
            final(self).spec_mode() == old(self).spec_mode(),
            (final(self).spec_phase(), c) == next(old(self).spec_mode(), old(self).spec_phase(), event),
    {
        let (phase, command) = match (self.phase, event) {
            (Phase::Unconfigured, Event::Begin) => match self.mode {
                BuildMode::Debug => (Phase::Configuring, Command::RegisterLogging { level: Severity::Info }),
                BuildMode::Release => (Phase::Running, Command::StartEventLoop),
            },
            (Phase::Configuring, Event::LoggingRegistered) => (Phase::Running, Command::StartEventLoop),
            (Phase::Configuring, Event::LoggingRejected) => (Phase::Terminated, Command::AbandonSetup),
            (Phase::Running, Event::LoopExited) => (Phase::Terminated, Command::Finish),
            (Phase::Running, Event::LoopFailed) => (Phase::Terminated, Command::Abort),
            _ => (self.phase, Command::Ignore),
        };
        self.phase = phase;
        command
    }
}

/// The phase reached after the host has reported `events`, in order.
pub open spec fn phase_after(mode: BuildMode, events: Seq<Event>) -> Phase
    decreases events.len(),
{
    if events.len() == 0 {
        Phase::Unconfigured
    } else {
        next(mode, phase_after(mode, events.drop_last()), events.last()).0
    }
}

/// The commands answered to `events`, one per event.
pub open spec fn commands(mode: BuildMode, events: Seq<Event>) -> Seq<Command>
    decreases events.len(),
{
    if events.len() == 0 {
        Seq::empty()
    } else {
        commands(mode, events.drop_last()).push(
            next(mode, phase_after(mode, events.drop_last()), events.last()).1,
        )
    }
}

/// How many logging registrations `cs` asks for.
pub open spec fn registrations(cs: Seq<Command>) -> nat
    decreases cs.len(),
{
    if cs.len() == 0 {
        0
    } else {
        registrations(cs.drop_last()) + if cs.last() is RegisterLogging {
            1nat
        } else {
            0nat
        }
    }
}

/// Every logging registration in `cs` asks for the debug level.
pub open spec fn registrations_at_debug_level(cs: Seq<Command>) -> bool {
    forall|i: int|
        0 <= i < cs.len() && #[trigger] cs[i] is RegisterLogging ==> cs[i]
            == Command::RegisterLogging { level: debug_log_level() }
}

/// The registration of the logging capability was answered with a failure
/// at position `i` of `events`.
pub open spec fn rejected_at(mode: BuildMode, events: Seq<Event>, i: int) -> bool {
    &&& 0 <= i < events.len()
    &&& events[i] == Event::LoggingRejected
    &&& phase_after(mode, events.take(i)) == Phase::Configuring
}

/// Feeds `events` to a fresh runner and collects its answers.
pub fn replay(mode: BuildMode, events: &Vec<Event>) -> (cs: Vec<Command>)
    ensures
        cs@ == commands(mode, events@),
{
    let mut runner = Runner::new(mode);
    let mut cs: Vec<Command> = Vec::new();
    let mut i: usize = 0;
    while i < events.len()
        invariant
            i <= events.len(),
            runner.spec_mode() == mode,
            runner.spec_phase() == phase_after(mode, events@.take(i as int)),
            cs@ == commands(mode, events@.take(i as int)),
        decreases events.len() - i,
    {
        proof {
            assert(events@.take(i + 1).drop_last() =~= events@.take(i as int));
        }
        let c = runner.handle(events[i]);
        cs.push(c);
        i = i + 1;
    }
    proof {
        assert(events@.take(events.len() as int) =~= events@);
    }
    cs
}

/// What holds of every prefix of a run: one command per event, the count of
/// registrations so far, and the effect of a failed registration.
proof fn lemma_run_shape(mode: BuildMode, events: Seq<Event>)
    ensures
        commands(mode, events).len() == events.len(),
        registrations(commands(mode, events)) == if mode == BuildMode::Debug
            && phase_after(mode, events) != Phase::Unconfigured {
            1nat
        } else {
            0nat
        },
        registrations_at_debug_level(commands(mode, events)),
        mode == BuildMode::Debug ==> forall|j: int|
            0 <= j < events.len() && (#[trigger] commands(mode, events)[j] is StartEventLoop)
                ==> registrations(commands(mode, events).take(j)) == 1,
        forall|i: int|
            #[trigger] rejected_at(mode, events, i) ==> {
                &&& phase_after(mode, events) == Phase::Terminated
                &&& forall|j: int|
                    i < j < events.len() ==> !(#[trigger] commands(mode, events)[j] is StartEventLoop)
            },
    decreases events.len(),
{
    if events.len() > 0 {
        let prev = events.drop_last();
        lemma_run_shape(mode, prev);
        let cs = commands(mode, events);
        let cp = commands(mode, prev);
        assert(cs.drop_last() =~= cp);
        assert forall|j: int| 0 <= j < prev.len() implies #[trigger] cs.take(j) =~= cp.take(j) by {}
        assert(cs.take(prev.len() as int) =~= cp);
        assert forall|i: int| 0 <= i < prev.len() implies #[trigger] events.take(i) =~= prev.take(i) by {}
        assert(events.take(prev.len() as int) =~= prev);
        assert forall|i: int| #[trigger] rejected_at(mode, events, i) implies {
            &&& phase_after(mode, events) == Phase::Terminated
            &&& forall|j: int|
                i < j < events.len() ==> !(#[trigger] commands(mode, events)[j] is StartEventLoop)
        } by {
            if i < prev.len() {
                assert(events.take(i) =~= prev.take(i));
                assert(rejected_at(mode, prev, i));
            }
        }
    }
}

/// In a debug build the host is asked to register a logging capability at
/// most once, always at the debug level, and the event loop is started only
/// after exactly one such registration has been asked for.
pub proof fn law_debug_registers_logging_once(events: Seq<Event>)
    ensures
        registrations(commands(BuildMode::Debug, events)) <= 1,
        registrations_at_debug_level(commands(BuildMode::Debug, events)),
        forall|j: int|
            0 <= j < events.len() && (#[trigger] commands(BuildMode::Debug, events)[j]
                is StartEventLoop) ==> registrations(commands(BuildMode::Debug, events).take(j)) == 1,
        events.len() > 0 && events[0] == Event::Begin ==> commands(BuildMode::Debug, events)[0]
            == (Command::RegisterLogging { level: Severity::Info }),
{
    lemma_run_shape(BuildMode::Debug, events);
    if events.len() > 0 {
        lemma_first_command(BuildMode::Debug, events);
    }
}

/// The first answer of a run depends on the first event alone.
proof fn lemma_first_command(mode: BuildMode, events: Seq<Event>)
    requires
        events.len() > 0,
    ensures
        commands(mode, events)[0] == next(mode, Phase::Unconfigured, events[0]).1,
    decreases events.len(),
{
    lemma_run_shape(mode, events);
    if events.len() > 1 {
        lemma_first_command(mode, events.drop_last());
        lemma_run_shape(mode, events.drop_last());
    }
}

/// In a release build the host is never asked to register a logging
/// capability.
pub proof fn law_release_never_registers_logging(events: Seq<Event>)
    ensures
        registrations(commands(BuildMode::Release, events)) == 0,
        forall|j: int|
            0 <= j < events.len() ==> !(#[trigger] commands(BuildMode::Release, events)[j]
                is RegisterLogging),
{
    lemma_run_shape(BuildMode::Release, events);
    lemma_no_registration_in_count_zero(commands(BuildMode::Release, events));
}

/// A sequence with no registration counted holds none.
proof fn lemma_no_registration_in_count_zero(cs: Seq<Command>)
    requires
        registrations(cs) == 0,
    ensures
        forall|j: int| 0 <= j < cs.len() ==> !(#[trigger] cs[j] is RegisterLogging),
    decreases cs.len(),
{
    if cs.len() > 0 {
        lemma_no_registration_in_count_zero(cs.drop_last());
        assert forall|j: int| 0 <= j < cs.len() implies !(#[trigger] cs[j] is RegisterLogging) by {
            if j < cs.len() - 1 {
                assert(cs[j] == cs.drop_last()[j]);
            }
        }
    }
}

/// Once the registration of the logging capability has failed, the event
/// loop is never started, and the sequence is over.
pub proof fn law_failed_registration_stops_startup(mode: BuildMode, events: Seq<Event>, i: int)
    requires
        rejected_at(mode, events, i),
    ensures
        commands(mode, events)[i] == Command::AbandonSetup,
        phase_after(mode, events) == Phase::Terminated,
        forall|j: int| i < j < events.len() ==> !(#[trigger] commands(mode, events)[j] is StartEventLoop),
{
    lemma_run_shape(mode, events);
    lemma_command_at(mode, events, i);
}

/// The answer at position `i` is the transition from the phase reached
/// before it.
proof fn lemma_command_at(mode: BuildMode, events: Seq<Event>, i: int)
    requires
        0 <= i < events.len(),
    ensures
        commands(mode, events)[i] == next(mode, phase_after(mode, events.take(i)), events[i]).1,
    decreases events.len(),
{
    lemma_run_shape(mode, events.drop_last());
    if i < events.len() - 1 {
        lemma_command_at(mode, events.drop_last(), i);
        assert(events.take(i) =~= events.drop_last().take(i));
    } else {
        assert(events.take(i) =~= events.drop_last());
    }
}

/// A failed event loop is answered by an abnormal termination, whose
/// diagnostic is [`fatal_message`].
pub proof fn law_failed_loop_aborts(mode: BuildMode)
    ensures
        next(mode, Phase::Running, Event::LoopFailed) == (Phase::Terminated, Command::Abort),
{
}

} // verus!
