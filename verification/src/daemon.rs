//! Starting the server in the background, and stopping it again.
use vstd::prelude::*;

use crate::number::{decimal, decimal_string, parse_unsigned, parsed_unsigned};
use crate::path::{below, join, renamed, with_file_name};
use crate::text::{concat, concat3, opt_str, opt_text, texts};
use crate::words::{trim, trimmed};

verus! {

/// How often to look for the server after it was asked to end.
pub const EXIT_LOOKS: u8 = 20;

/// How long to pause between two looks, in milliseconds.
pub const EXIT_PAUSE_MS: u64 = 50;

/// The largest process number that can be signalled.
pub const LARGEST_PID: u32 = 0x7fff_ffff;

/// Where the file with the server's process number stands: where it was asked for,
/// else in the user's runtime directory, else in their home, else among the temporary
/// files. A runtime directory that is empty counts as none.
pub open spec fn pid_file_path(
    explicit: Option<Seq<char>>,
    runtime_dir: Option<Seq<char>>,
    home: Option<Seq<char>>,
    temp_dir: Seq<char>,
) -> Seq<char> {
    match (explicit, runtime_dir, home) {
        (Some(p), _, _) => p,
        (None, Some(d), _) if d.len() > 0 => below(below(d, "adboost"@), "server.pid"@),
        (None, _, Some(h)) => below(below(h, ".android"@), "adboost-server.pid"@),
        (None, _, None) => below(temp_dir, "adboost-server.pid"@),
    }
}

/// Finds the file with the server's process number.
pub fn resolve_pid_file(
    explicit: Option<String>,
    runtime_dir: Option<String>,
    home: Option<String>,
    temp_dir: &str,
) -> (r: String)
    ensures
        r@ == pid_file_path(opt_text(explicit), opt_text(runtime_dir), opt_text(home), temp_dir@),
{
    if let Some(p) = explicit {
        return p;
    }
    if let Some(d) = runtime_dir {
        if d.as_str().unicode_len() > 0 {
            return join(join(d.as_str(), "adboost").as_str(), "server.pid");
        }
    }
    match home {
        Some(h) => join(join(h.as_str(), ".android").as_str(), "adboost-server.pid"),
        None => join(temp_dir, "adboost-server.pid"),
    }
}

/// Where the server's log stands: where it was asked for, else beside the file with its
/// process number.
pub open spec fn log_file_path(explicit: Option<Seq<char>>, pid_file: Seq<char>) -> Seq<char> {
    match explicit {
        Some(p) => p,
        None => renamed(pid_file, "server.log"@),
    }
}

/// Finds the server's log.
pub fn resolve_log_file(explicit: Option<String>, pid_file: &str) -> (r: String)
    ensures
        r@ == log_file_path(opt_text(explicit), pid_file@),
{
    match explicit {
        Some(p) => p,
        None => with_file_name(pid_file, "server.log"),
    }
}

/// The process number in a file, with white space around it.
pub open spec fn recorded(content: Option<Seq<char>>) -> Option<nat> {
    match content {
        Some(c) => parsed_unsigned(trimmed(c), 0xffff_ffff),
        None => None,
    }
}

/// A process number that may be missing.
pub open spec fn pid_number(pid: Option<u32>) -> Option<nat> {
    match pid {
        Some(n) => Some(n as nat),
        None => None,
    }
}

/// The process number of the server, where it runs.
pub open spec fn running(content: Option<Seq<char>>, alive: bool) -> Option<nat> {
    if alive {
        recorded(content)
    } else {
        None
    }
}

/// Reads the process number in a file that may not be there.
pub fn recorded_pid(content: Option<&str>) -> (r: Option<u32>)
    ensures
        pid_number(r) == recorded(opt_str(content)),
{
    match content {
        None => None,
        Some(c) => match parse_unsigned(trim(c), 0xffff_ffff) {
            Some(n) => {
                proof {
                    assert(n <= 0xffff_ffff);
                }
                Some(n as u32)
            },
            None => None,
        },
    }
}

/// The process number as the system takes it.
pub open spec fn signable(pid: u32) -> Option<int> {
    if pid <= LARGEST_PID {
        Some(pid as int)
    } else {
        None
    }
}

/// The process number as the system takes it; one that is too large belongs to no
/// process.
pub fn signed_pid(pid: u32) -> (r: Option<i32>)
    ensures
        (match r {
            Some(n) => Some(n as int),
            None => None,
        }) == signable(pid),
{
    if pid <= LARGEST_PID {
        Some(pid as i32)
    } else {
        None
    }
}

/// The process number of the server, where it runs: that in the file, if a process
/// with that number is alive. A file that outlived its server counts as none.
pub fn running_pid(content: Option<&str>, alive: bool) -> (r: Option<u32>)
    ensures
        pid_number(r) == running(opt_str(content), alive),
{
    match recorded_pid(content) {
        Some(n) => if alive {
            Some(n)
        } else {
            None
        },
        None => None,
    }
}

/// How stopping the server ended: with a line for the log, or with an error.
pub open spec fn end_view(r: Result<String, String>) -> Result<Seq<char>, Seq<char>> {
    match r {
        Ok(t) => Ok(t@),
        Err(e) => Err(e@),
    }
}

/// How starting the server ended: with a line for the log, without one, or with an
/// error.
pub open spec fn start_end_view(
    r: Result<Option<String>, String>,
) -> Result<Option<Seq<char>>, Seq<char>> {
    match r {
        Ok(t) => Ok(opt_text(t)),
        Err(e) => Err(e@),
    }
}

/// What came of the last thing that was done.
#[derive(Debug, PartialEq, Eq)]
pub enum DaemonEvent {
    /// Something was done, or not.
    Did(Result<(), String>),
    /// The server's process number was looked up.
    Running(Option<u32>),
    /// A process was started, or not; it may have ended at once and lost its number.
    Spawned(Result<Option<u32>, String>),
    /// The server was looked for.
    Alive(bool),
}

/// The contents of a [`DaemonEvent`].
pub enum DaemonEventView {
    Did(Result<(), Seq<char>>),
    Running(Option<u32>),
    Spawned(Result<Option<u32>, Seq<char>>),
    Alive(bool),
}

impl View for DaemonEvent {
    type V = DaemonEventView;

    open spec fn view(&self) -> DaemonEventView {
        match self {
            DaemonEvent::Did(Ok(_)) => DaemonEventView::Did(Ok(())),
            DaemonEvent::Did(Err(e)) => DaemonEventView::Did(Err(e@)),
            DaemonEvent::Running(p) => DaemonEventView::Running(*p),
            DaemonEvent::Spawned(Ok(p)) => DaemonEventView::Spawned(Ok(*p)),
            DaemonEvent::Spawned(Err(e)) => DaemonEventView::Spawned(Err(e@)),
            DaemonEvent::Alive(b) => DaemonEventView::Alive(*b),
        }
    }
}

// ---------------------------------------------------------------------------------
// Starting
// ---------------------------------------------------------------------------------

/// What is to be started.
#[derive(Debug, PartialEq, Eq)]
pub struct StartRequest {
    /// The address to listen on.
    pub address: String,
    /// Whether to serve in this process.
    pub foreground: bool,
    /// Whether this process is the one that was started in the background.
    pub daemon_child: bool,
    /// The file for the process number.
    pub pid_file: String,
    /// The log.
    pub log_file: String,
}

/// What the environment says about where files stand, and about this process.
#[derive(Debug, PartialEq, Eq)]
pub struct Surroundings {
    /// The user's runtime directory.
    pub runtime_dir: Option<String>,
    /// The user's home.
    pub home: Option<String>,
    /// The directory for temporary files.
    pub temp_dir: String,
    /// Whether this process is the one that was started in the background.
    pub daemon_child: bool,
}

/// A command on the server.
#[derive(Debug, PartialEq, Eq)]
pub enum ServerCommand {
    /// Start it.
    Start {
        address: String,
        foreground: bool,
        pid_file: Option<String>,
        log_file: Option<String>,
    },
    /// Stop it.
    Kill { pid_file: Option<String> },
}

/// What a command on the server comes to.
#[derive(Debug, PartialEq, Eq)]
pub enum ServerPlan {
    /// Starting, as requested.
    Start(StartRequest),
    /// Stopping the server whose process number is in this file.
    Kill(String),
}

/// Where the file with the server's process number stands in these surroundings.
pub open spec fn pid_file_in(around: Surroundings, explicit: Option<String>) -> Seq<char> {
    pid_file_path(
        opt_text(explicit),
        opt_text(around.runtime_dir),
        opt_text(around.home),
        around.temp_dir@,
    )
}

/// What a command on the server comes to, with the files that it is about.
pub open spec fn plan_fits(
    command: ServerCommand,
    around: Surroundings,
    plan: ServerPlan,
) -> bool {
    match command {
        ServerCommand::Start { address, foreground, pid_file, log_file } => {
            &&& plan matches ServerPlan::Start(q)
            &&& q.address@ == address@
            &&& q.foreground == foreground
            &&& q.daemon_child == around.daemon_child
            &&& q.pid_file@ == pid_file_in(around, pid_file)
            &&& q.log_file@ == log_file_path(opt_text(log_file), pid_file_in(around, pid_file))
        },
        ServerCommand::Kill { pid_file } => plan matches ServerPlan::Kill(p) && p@ == pid_file_in(
            around,
            pid_file,
        ),
    }
}

/// Finds the files that a command on the server is about.
pub fn plan_server(command: ServerCommand, around: Surroundings) -> (r: ServerPlan)
    ensures
        plan_fits(command, around, r),
{
    match command {
        ServerCommand::Start { address, foreground, pid_file, log_file } => {
            let pid_path = resolve_pid_file(
                pid_file,
                around.runtime_dir,
                around.home,
                around.temp_dir.as_str(),
            );
            let log_path = resolve_log_file(log_file, pid_path.as_str());
            ServerPlan::Start(
                StartRequest {
                    address,
                    foreground,
                    daemon_child: around.daemon_child,
                    pid_file: pid_path,
                    log_file: log_path,
                },
            )
        },
        ServerCommand::Kill { pid_file } => ServerPlan::Kill(
            resolve_pid_file(
                pid_file,
                around.runtime_dir,
                around.home,
                around.temp_dir.as_str(),
            ),
        ),
    }
}

/// What to do to start.
#[derive(Debug, PartialEq, Eq)]
pub enum StartState {
    /// Write this process's own number to the file.
    Claim,
    /// Serve.
    Serve,
    /// Remove the file, now that serving has ended like this.
    Unclaim(Result<(), String>),
    /// Look for a server that runs.
    CheckRunning,
    /// Open the log.
    OpenLog,
    /// Open it once more, for errors.
    DupLog,
    /// Find this program.
    FindProgram,
    /// Start it in the background, with the log as its output.
    Spawn,
    /// Write the number of the new process to the file.
    Record(u32),
}

/// The contents of a [`StartState`].
pub enum StartView {
    Claim,
    Serve,
    Unclaim(Result<(), Seq<char>>),
    CheckRunning,
    OpenLog,
    DupLog,
    FindProgram,
    Spawn,
    Record(u32),
}

impl View for StartState {
    type V = StartView;

    open spec fn view(&self) -> StartView {
        match self {
            StartState::Claim => StartView::Claim,
            StartState::Serve => StartView::Serve,
            StartState::Unclaim(Ok(_)) => StartView::Unclaim(Ok(())),
            StartState::Unclaim(Err(e)) => StartView::Unclaim(Err(e@)),
            StartState::CheckRunning => StartView::CheckRunning,
            StartState::OpenLog => StartView::OpenLog,
            StartState::DupLog => StartView::DupLog,
            StartState::FindProgram => StartView::FindProgram,
            StartState::Spawn => StartView::Spawn,
            StartState::Record(p) => StartView::Record(*p),
        }
    }
}

/// What follows.
#[derive(Debug, PartialEq, Eq)]
pub enum StartStep {
    /// Do this.
    Next(StartState),
    /// Nothing: this is the end, with a line for the log or without.
    Done(Result<Option<String>, String>),
}

/// The contents of a [`StartStep`].
pub enum StartStepView {
    Next(StartView),
    Done(Result<Option<Seq<char>>, Seq<char>>),
}

impl View for StartStep {
    type V = StartStepView;

    open spec fn view(&self) -> StartStepView {
        match self {
            StartStep::Next(s) => StartStepView::Next(s@),
            StartStep::Done(r) => StartStepView::Done(start_end_view(*r)),
        }
    }
}

/// The first thing to do. A process that serves itself does not look for a server that
/// runs: the one in the background would find itself.
pub open spec fn first_state(foreground: bool, daemon_child: bool) -> StartView {
    if daemon_child {
        StartView::Claim
    } else if foreground {
        StartView::Serve
    } else {
        StartView::CheckRunning
    }
}

/// The first thing to do.
pub fn begin_start(foreground: bool, daemon_child: bool) -> (r: StartState)
    ensures
        r@ == first_state(foreground, daemon_child),
{
    if daemon_child {
        StartState::Claim
    } else if foreground {
        StartState::Serve
    } else {
        StartState::CheckRunning
    }
}

/// What to do after an event.
pub open spec fn start_step(
    request: StartRequest,
    state: StartView,
    event: DaemonEventView,
) -> StartStepView {
    match (state, event) {
        (StartView::Claim, DaemonEventView::Did(Ok(_))) => StartStepView::Next(StartView::Serve),
        (StartView::Claim, DaemonEventView::Did(Err(e))) => StartStepView::Done(
            Err("cannot write pid file: "@ + e),
        ),
        (StartView::Serve, DaemonEventView::Did(r)) => StartStepView::Next(StartView::Unclaim(r)),
        (StartView::Unclaim(r), _) => StartStepView::Done(
            match r {
                Ok(_) => Ok(None),
                Err(e) => Err(e),
            },
        ),
        (StartView::CheckRunning, DaemonEventView::Running(Some(pid))) => StartStepView::Done(
            Ok(Some("adboost server already running (pid "@ + decimal(pid as nat) + ")"@)),
        ),
        (StartView::CheckRunning, DaemonEventView::Running(None)) => StartStepView::Next(
            StartView::OpenLog,
        ),
        (StartView::OpenLog, DaemonEventView::Did(Ok(_))) => StartStepView::Next(StartView::DupLog),
        (StartView::OpenLog, DaemonEventView::Did(Err(e))) => StartStepView::Done(
            Err("cannot open log file "@ + request.log_file@ + ": "@ + e),
        ),
        (StartView::DupLog, DaemonEventView::Did(Ok(_))) => StartStepView::Next(
            StartView::FindProgram,
        ),
        (StartView::DupLog, DaemonEventView::Did(Err(e))) => StartStepView::Done(
            Err("cannot dup log handle: "@ + e),
        ),
        (StartView::FindProgram, DaemonEventView::Did(Ok(_))) => StartStepView::Next(
            StartView::Spawn,
        ),
        (StartView::FindProgram, DaemonEventView::Did(Err(e))) => StartStepView::Done(
            Err("cannot resolve own exe: "@ + e),
        ),
        (StartView::Spawn, DaemonEventView::Spawned(Ok(Some(pid)))) => StartStepView::Next(
            StartView::Record(pid),
        ),
        (StartView::Spawn, DaemonEventView::Spawned(Ok(None))) => StartStepView::Done(
            Err("spawned daemon has no pid"@),
        ),
        (StartView::Spawn, DaemonEventView::Spawned(Err(e))) => StartStepView::Done(
            Err("cannot spawn daemon: "@ + e),
        ),
        (StartView::Record(pid), DaemonEventView::Did(Ok(_))) => StartStepView::Done(
            Ok(
                Some(
                    "adboost server started (pid "@ + decimal(pid as nat) + ") on "@
                        + request.address@ + "; logs at "@ + request.log_file@,
                ),
            ),
        ),
        (StartView::Record(pid), DaemonEventView::Did(Err(e))) => StartStepView::Done(
            Err("cannot write pid file: "@ + e),
        ),
        _ => StartStepView::Done(Err("unexpected event"@)),
    }
}

/// `head` and the text, as an error.
fn start_error(head: &str, e: &str) -> (r: StartStep)
    ensures
        r@ == StartStepView::Done(Err(head@ + e@)),
{
    StartStep::Done(Err(concat(head, e)))
}

/// Handles an event while the server is started.
pub fn start(request: &StartRequest, state: StartState, event: DaemonEvent) -> (r: StartStep)
    ensures
        r@ == start_step(*request, state@, event@),
{
    match (state, event) {
        (StartState::Claim, DaemonEvent::Did(Ok(_))) => StartStep::Next(StartState::Serve),
        (StartState::Claim, DaemonEvent::Did(Err(e))) => start_error(
            "cannot write pid file: ",
            e.as_str(),
        ),
        (StartState::Serve, DaemonEvent::Did(served)) => StartStep::Next(
            StartState::Unclaim(served),
        ),
        (StartState::Unclaim(served), _) => match served {
            Ok(_) => StartStep::Done(Ok(None)),
            Err(e) => StartStep::Done(Err(e)),
        },
        (StartState::CheckRunning, DaemonEvent::Running(Some(pid))) => StartStep::Done(
            Ok(
                Some(
                    concat3(
                        "adboost server already running (pid ",
                        decimal_string(pid as u64).as_str(),
                        ")",
                    ),
                ),
            ),
        ),
        (StartState::CheckRunning, DaemonEvent::Running(None)) => StartStep::Next(
            StartState::OpenLog,
        ),
        (StartState::OpenLog, DaemonEvent::Did(Ok(_))) => StartStep::Next(StartState::DupLog),
        (StartState::OpenLog, DaemonEvent::Did(Err(e))) => {
            let mut text = concat3("cannot open log file ", request.log_file.as_str(), ": ");
            text.append(e.as_str());
            StartStep::Done(Err(text))
        },
        (StartState::DupLog, DaemonEvent::Did(Ok(_))) => StartStep::Next(StartState::FindProgram),
        (StartState::DupLog, DaemonEvent::Did(Err(e))) => start_error(
            "cannot dup log handle: ",
            e.as_str(),
        ),
        (StartState::FindProgram, DaemonEvent::Did(Ok(_))) => StartStep::Next(StartState::Spawn),
        (StartState::FindProgram, DaemonEvent::Did(Err(e))) => start_error(
            "cannot resolve own exe: ",
            e.as_str(),
        ),
        (StartState::Spawn, DaemonEvent::Spawned(Ok(Some(pid)))) => StartStep::Next(
            StartState::Record(pid),
        ),
        (StartState::Spawn, DaemonEvent::Spawned(Ok(None))) => StartStep::Done(
            Err("spawned daemon has no pid".to_owned()),
        ),
        (StartState::Spawn, DaemonEvent::Spawned(Err(e))) => start_error(
            "cannot spawn daemon: ",
            e.as_str(),
        ),
        (StartState::Record(pid), DaemonEvent::Did(Ok(_))) => {
            let mut text = concat3(
                "adboost server started (pid ",
                decimal_string(pid as u64).as_str(),
                ") on ",
            );
            text.append(request.address.as_str());
            text.append("; logs at ");
            text.append(request.log_file.as_str());
            StartStep::Done(Ok(Some(text)))
        },
        (StartState::Record(pid), DaemonEvent::Did(Err(e))) => start_error(
            "cannot write pid file: ",
            e.as_str(),
        ),
        _ => StartStep::Done(Err("unexpected event".to_owned())),
    }
}

/// The arguments of the program in the background: the same command, with its address and
/// its file.
pub open spec fn background_args(address: Seq<char>, pid_file: Seq<char>) -> Seq<Seq<char>> {
    seq!["server"@, "start"@, "--address"@, address, "--pid-file"@, pid_file]
}

/// The arguments with which the program is started in the background.
pub fn daemon_args(request: &StartRequest) -> (r: Vec<String>)
    ensures
        texts(r@) == background_args(request.address@, request.pid_file@),
{
    let mut r: Vec<String> = Vec::new();
    r.push("server".to_owned());
    r.push("start".to_owned());
    r.push("--address".to_owned());
    r.push(request.address.clone());
    r.push("--pid-file".to_owned());
    r.push(request.pid_file.clone());
    assert(texts(r@) =~= background_args(request.address@, request.pid_file@));
    r
}

/// There is one server to a file: where one runs, the command ends at once and starts
/// none. The way to a new process leads through a look that found none, step by step,
/// and a process that serves itself does not look.
pub proof fn one_server_to_a_file(
    request: StartRequest,
    state: StartView,
    event: DaemonEventView,
    pid: u32,
)
    ensures
        start_step(
            request,
            StartView::CheckRunning,
            DaemonEventView::Running(Some(pid)),
        ) matches StartStepView::Done(Ok(_)),
        start_step(request, state, event) matches StartStepView::Next(next) ==> {
            &&& next is OpenLog ==> state is CheckRunning && event == DaemonEventView::Running(None)
            &&& next is DupLog ==> state is OpenLog
            &&& next is FindProgram ==> state is DupLog
            &&& next is Spawn ==> state is FindProgram
            &&& !(next is CheckRunning)
        },
        !(first_state(true, false) is CheckRunning),
        !(first_state(true, true) is CheckRunning),
        !(first_state(false, true) is CheckRunning),
        first_state(false, false) is CheckRunning,
{
}

/// A process that serves removes the file when it ends, however it ends.
pub proof fn serving_leaves_no_file(
    request: StartRequest,
    served: Result<(), Seq<char>>,
    event: DaemonEventView,
)
    ensures
        start_step(request, StartView::Serve, DaemonEventView::Did(served)) == StartStepView::Next(
            StartView::Unclaim(served),
        ),
        start_step(request, StartView::Unclaim(served), event) matches StartStepView::Done(r)
            && r is Ok == served is Ok,
{
}

// ---------------------------------------------------------------------------------
// Serving
// ---------------------------------------------------------------------------------

/// The line when serving begins.
pub open spec fn serving_text(address: Seq<char>, foreground: bool) -> Seq<char> {
    "adboost server "@ + (if foreground {
        "running (foreground)"@
    } else {
        "daemon serving"@
    }) + " on "@ + address
}

/// The line when serving begins.
pub fn serving_line(address: &str, foreground: bool) -> (r: String)
    ensures
        r@ == serving_text(address@, foreground),
{
    let how = if foreground {
        "running (foreground)"
    } else {
        "daemon serving"
    };
    let mut text = concat3("adboost server ", how, " on ");
    text.append(address);
    text
}

/// What ended the serving.
#[derive(Debug, PartialEq, Eq)]
pub enum ServeEnd {
    /// The signal could not be listened for.
    NoHandler(String),
    /// The listener ended, or failed.
    Served(Result<(), String>),
    /// The process was asked to end.
    Terminated,
    /// It was interrupted.
    Interrupted,
}

/// What is said when serving has ended.
pub open spec fn serving_ended(end: ServeEnd) -> Result<Option<Seq<char>>, Seq<char>> {
    match end {
        ServeEnd::NoHandler(e) => Err("cannot install SIGTERM handler: "@ + e@),
        ServeEnd::Served(Ok(_)) => Ok(None),
        ServeEnd::Served(Err(e)) => Err("server error: "@ + e@),
        ServeEnd::Terminated => Ok(Some("SIGTERM received; shutting down adb server"@)),
        ServeEnd::Interrupted => Ok(Some("interrupt received; shutting down adb server"@)),
    }
}

/// What is to be done when serving has ended: on success the connections to devices are
/// closed, with a line for the log where a signal was the cause.
pub fn run_server(end: &ServeEnd) -> (r: Result<Option<String>, String>)
    ensures
        start_end_view(r) == serving_ended(*end),
{
    match end {
        ServeEnd::NoHandler(e) => Err(concat("cannot install SIGTERM handler: ", e.as_str())),
        ServeEnd::Served(Ok(_)) => Ok(None),
        ServeEnd::Served(Err(e)) => Err(concat("server error: ", e.as_str())),
        ServeEnd::Terminated => Ok(Some("SIGTERM received; shutting down adb server".to_owned())),
        ServeEnd::Interrupted => Ok(
            Some("interrupt received; shutting down adb server".to_owned()),
        ),
    }
}

// ---------------------------------------------------------------------------------
// Stopping
// ---------------------------------------------------------------------------------

/// What to do to stop the server.
#[derive(Clone, Copy, Debug, PartialEq, Eq, Structural)]
pub enum KillState {
    /// Look for a server that runs.
    CheckRunning,
    /// Remove a file that outlived its server.
    RemoveStale,
    /// Ask the server to end.
    Terminate(u32),
    /// See whether it still runs; so many looks are left, with this one.
    Look(u32, u8),
    /// Pause; so many looks are left.
    Pause(u32, u8),
    /// See whether it still runs, for the last time.
    LastLook(u32),
    /// End it.
    Kill(u32),
    /// Remove the file.
    Remove(u32),
}

/// What follows.
#[derive(Debug, PartialEq, Eq)]
pub enum KillStep {
    /// Do this.
    Next(KillState),
    /// Nothing: this is the end.
    Done(Result<String, String>),
}

/// The contents of a [`KillStep`].
pub enum KillStepView {
    Next(KillState),
    Done(Result<Seq<char>, Seq<char>>),
}

impl View for KillStep {
    type V = KillStepView;

    open spec fn view(&self) -> KillStepView {
        match self {
            KillStep::Next(s) => KillStepView::Next(*s),
            KillStep::Done(r) => KillStepView::Done(end_view(*r)),
        }
    }
}

/// What to do after an event: the server is asked to end, is given time to, and is
/// ended only if it then still runs.
pub open spec fn kill_step(state: KillState, event: DaemonEventView) -> KillStepView {
    match (state, event) {
        (KillState::CheckRunning, DaemonEventView::Running(None)) => KillStepView::Next(
            KillState::RemoveStale,
        ),
        (KillState::CheckRunning, DaemonEventView::Running(Some(pid))) => if pid <= LARGEST_PID {
            KillStepView::Next(KillState::Terminate(pid))
        } else {
            KillStepView::Done(Err("pid "@ + decimal(pid as nat) + " out of range"@))
        },
        (KillState::RemoveStale, _) => KillStepView::Done(
            Ok("no running adboost server found (no live pid file)"@),
        ),
        (KillState::Terminate(pid), DaemonEventView::Did(Ok(_))) => KillStepView::Next(
            KillState::Look(pid, EXIT_LOOKS),
        ),
        (KillState::Terminate(pid), DaemonEventView::Did(Err(e))) => KillStepView::Done(
            Err("failed to signal pid "@ + decimal(pid as nat) + ": "@ + e),
        ),
        (KillState::Look(pid, left), DaemonEventView::Alive(alive)) => if alive && left > 0 {
            KillStepView::Next(KillState::Pause(pid, (left - 1) as u8))
        } else {
            KillStepView::Next(KillState::LastLook(pid))
        },
        (KillState::Pause(pid, left), _) => if left > 0 {
            KillStepView::Next(KillState::Look(pid, left))
        } else {
            KillStepView::Next(KillState::LastLook(pid))
        },
        (KillState::LastLook(pid), DaemonEventView::Alive(alive)) => if alive {
            KillStepView::Next(KillState::Kill(pid))
        } else {
            KillStepView::Next(KillState::Remove(pid))
        },
        (KillState::Kill(pid), _) => KillStepView::Next(KillState::Remove(pid)),
        (KillState::Remove(pid), _) => KillStepView::Done(
            Ok("stopped adboost server (pid "@ + decimal(pid as nat) + ")"@),
        ),
        _ => KillStepView::Done(Err("unexpected event"@)),
    }
}

/// Handles an event while the server is stopped.
pub fn kill(state: KillState, event: DaemonEvent) -> (r: KillStep)
    ensures
        r@ == kill_step(state, event@),
{
    match (state, event) {
        (KillState::CheckRunning, DaemonEvent::Running(None)) => KillStep::Next(
            KillState::RemoveStale,
        ),
        (KillState::CheckRunning, DaemonEvent::Running(Some(pid))) => match signed_pid(pid) {
            Some(_) => KillStep::Next(KillState::Terminate(pid)),
            None => KillStep::Done(
                Err(concat3("pid ", decimal_string(pid as u64).as_str(), " out of range")),
            ),
        },
        (KillState::RemoveStale, _) => KillStep::Done(
            Ok("no running adboost server found (no live pid file)".to_owned()),
        ),
        (KillState::Terminate(pid), DaemonEvent::Did(Ok(_))) => KillStep::Next(
            KillState::Look(pid, EXIT_LOOKS),
        ),
        (KillState::Terminate(pid), DaemonEvent::Did(Err(e))) => {
            let mut text = concat3(
                "failed to signal pid ",
                decimal_string(pid as u64).as_str(),
                ": ",
            );
            text.append(e.as_str());
            KillStep::Done(Err(text))
        },
        (KillState::Look(pid, left), DaemonEvent::Alive(alive)) => if alive && left > 0 {
            KillStep::Next(KillState::Pause(pid, left - 1))
        } else {
            KillStep::Next(KillState::LastLook(pid))
        },
        (KillState::Pause(pid, left), _) => if left > 0 {
            KillStep::Next(KillState::Look(pid, left))
        } else {
            KillStep::Next(KillState::LastLook(pid))
        },
        (KillState::LastLook(pid), DaemonEvent::Alive(alive)) => if alive {
            KillStep::Next(KillState::Kill(pid))
        } else {
            KillStep::Next(KillState::Remove(pid))
        },
        (KillState::Kill(pid), _) => KillStep::Next(KillState::Remove(pid)),
        (KillState::Remove(pid), _) => KillStep::Done(
            Ok(
                concat3(
                    "stopped adboost server (pid ",
                    decimal_string(pid as u64).as_str(),
                    ")",
                ),
            ),
        ),
        _ => KillStep::Done(Err("unexpected event".to_owned())),
    }
}

/// The line before the server is ended.
pub open spec fn escalation_text(pid: u32) -> Seq<char> {
    "pid "@ + decimal(pid as nat) + " did not exit on SIGTERM; sending SIGKILL"@
}

/// The line before the server is ended.
pub fn escalation_line(pid: u32) -> (r: String)
    ensures
        r@ == escalation_text(pid),
{
    concat3(
        "pid ",
        decimal_string(pid as u64).as_str(),
        " did not exit on SIGTERM; sending SIGKILL",
    )
}

/// The process that a state is about.
pub open spec fn kill_target(state: KillState) -> Option<u32> {
    match state {
        KillState::CheckRunning => None,
        KillState::RemoveStale => None,
        KillState::Terminate(pid) => Some(pid),
        KillState::Look(pid, _) => Some(pid),
        KillState::Pause(pid, _) => Some(pid),
        KillState::LastLook(pid) => Some(pid),
        KillState::Kill(pid) => Some(pid),
        KillState::Remove(pid) => Some(pid),
    }
}

/// The server is ended only where a last look still found it, and every state from the
/// request to end on is about the same process.
pub proof fn ended_only_if_alive(state: KillState, event: DaemonEventView)
    ensures
        kill_step(state, event) matches KillStepView::Next(next) ==> {
            &&& next is Kill ==> state is LastLook && event == DaemonEventView::Alive(true)
            &&& kill_target(state) is Some ==> kill_target(next) == kill_target(state)
        },
{
}

/// How many events a state is from the end, at most.
pub open spec fn kill_distance(state: KillState) -> nat {
    match state {
        KillState::CheckRunning => 1000,
        KillState::RemoveStale => 1,
        KillState::Terminate(_) => 999,
        KillState::Look(_, left) => (5 + 2 * left) as nat,
        KillState::Pause(_, left) => (6 + 2 * left) as nat,
        KillState::LastLook(_) => 3,
        KillState::Kill(_) => 2,
        KillState::Remove(_) => 1,
    }
}

/// Stopping comes to an end: every step that does not end it leads nearer.
pub proof fn stopping_ends(state: KillState, event: DaemonEventView)
    ensures
        kill_step(state, event) matches KillStepView::Next(next) ==> kill_distance(next)
            < kill_distance(state),
{
}

} // verus!
