//! What holds of starting and stopping the server as a whole.
use vstd::prelude::*;

use crate::daemon::{
    background_args, escalation_text, first_state, kill_step, log_file_path, pid_file_path,
    plan_fits, recorded, running, serving_ended, serving_text, signable, start_step, DaemonEventView,
    KillState, KillStepView, ServeEnd, ServerCommand, ServerPlan, StartRequest, StartStepView,
    StartView, Surroundings, EXIT_PAUSE_MS,
};
use crate::number::{decimal, decimal_reads_back, is_digit, parse_of_decimal};
use crate::path::{below, plain_name, renaming_stays_in_the_directory, shortened};
use crate::text::opt_text;
use crate::words::{all_white, is_white, trimming_takes_the_white_space_around};

verus! {

// ---------------------------------------------------------------------------------
// Files
// ---------------------------------------------------------------------------------

/// The file with the process number stands where it was asked for, whatever else is set.
/// Otherwise it stands in a directory of its own below the runtime directory; without one,
/// among the files of the tools in the home; without a home, among the temporary files.
pub proof fn the_file_stands_in_the_first_place_there_is(
    p: Seq<char>,
    runtime_dir: Option<Seq<char>>,
    home: Option<Seq<char>>,
    d: Seq<char>,
    h: Seq<char>,
    t: Seq<char>,
)
    requires
        d.len() > 0 && d.last() != '/',
        h.len() > 0 && h.last() != '/',
        t.len() > 0 && t.last() != '/',
    ensures
        pid_file_path(Some(p), runtime_dir, home, t) == p,
        pid_file_path(None, Some(d), home, t) == d + "/adboost/server.pid"@,
        pid_file_path(None, None, Some(h), t) == h + "/.android/adboost-server.pid"@,
        pid_file_path(None, Some(Seq::empty()), Some(h), t) == h
            + "/.android/adboost-server.pid"@,
        pid_file_path(None, None, None, t) == t + "/adboost-server.pid"@,
        pid_file_path(None, Some(Seq::empty()), None, t) == t + "/adboost-server.pid"@,
{
    reveal_strlit("/");
    reveal_strlit("adboost");
    reveal_strlit("server.pid");
    reveal_strlit(".android");
    reveal_strlit("adboost-server.pid");
    reveal_strlit("/adboost/server.pid");
    reveal_strlit("/.android/adboost-server.pid");
    reveal_strlit("/adboost-server.pid");
    assert(below(d, "adboost"@).last() == 't');
    assert(below(below(d, "adboost"@), "server.pid"@) =~= d + "/adboost/server.pid"@);
    assert(below(h, ".android"@).last() == 'd');
    assert(below(below(h, ".android"@), "adboost-server.pid"@) =~= h
        + "/.android/adboost-server.pid"@);
    assert(below(t, "adboost-server.pid"@) =~= t + "/adboost-server.pid"@);
}

/// The log stands where it was asked for, and otherwise in the directory of the file with
/// the process number, whatever that file is called.
pub proof fn the_log_stands_beside_the_file(p: Seq<char>, dir: Seq<char>, name: Seq<char>)
    requires
        shortened(dir) == dir,
        plain_name(name),
    ensures
        log_file_path(Some(p), below(dir, name)) == p,
        log_file_path(None, below(dir, name)) == below(dir, "server.log"@),
{
    renaming_stays_in_the_directory(dir, name, "server.log"@);
}

/// A server is stopped through the file that it was started with: both commands find the
/// same file in the same surroundings. The rest of the request is taken as it was given.
pub proof fn both_commands_find_the_same_file(
    around: Surroundings,
    address: String,
    foreground: bool,
    pid_file: Option<String>,
    log_file: Option<String>,
    started: ServerPlan,
    stopped: ServerPlan,
)
    requires
        plan_fits(
            ServerCommand::Start { address, foreground, pid_file, log_file },
            around,
            started,
        ),
        plan_fits(ServerCommand::Kill { pid_file }, around, stopped),
    ensures
        started is Start,
        stopped is Kill,
        started->Start_0.pid_file@ == stopped->Kill_0@,
        pid_file is Some ==> stopped->Kill_0@ == pid_file->Some_0@,
        pid_file is None ==> stopped->Kill_0@ == pid_file_path(
            None,
            opt_text(around.runtime_dir),
            opt_text(around.home),
            around.temp_dir@,
        ),
        started->Start_0.address@ == address@,
        started->Start_0.foreground == foreground,
        started->Start_0.daemon_child == around.daemon_child,
        log_file is Some ==> started->Start_0.log_file@ == log_file->Some_0@,
        log_file is None ==> started->Start_0.log_file@ == log_file_path(None, stopped->Kill_0@),
{
}

/// A process number that was written to a file is read back, with any white space around
/// it. It is the server's as long as that process is alive; without a file there is none.
pub proof fn written_numbers_are_read_back(a: Seq<char>, n: u32, b: Seq<char>)
    requires
        all_white(a),
        all_white(b),
    ensures
        recorded(Some(a + decimal(n as nat) + b)) == Some(n as nat),
        running(Some(a + decimal(n as nat) + b), true) == Some(n as nat),
        running(Some(a + decimal(n as nat) + b), false) == None::<nat>,
        running(None, true) == None::<nat>,
{
    let d = decimal(n as nat);
    decimal_reads_back(n as nat);
    assert(is_digit(d[0]));
    assert(is_digit(d[d.len() - 1]));
    trimming_takes_the_white_space_around(a, d, b);
    parse_of_decimal(n as nat, 0xffff_ffff);
}

/// What is no number is no process number.
pub proof fn other_texts_are_no_process_numbers(a: Seq<char>, m: Seq<char>, b: Seq<char>, i: int)
    requires
        all_white(a),
        all_white(b),
        m.len() > 0,
        !is_white(m[0]),
        !is_white(m.last()),
        0 <= i < m.len(),
        !is_digit(m[i]),
        i > 0 || m[0] != '+',
    ensures
        recorded(Some(a + m + b)) == None::<nat>,
        running(Some(a + m + b), true) == None::<nat>,
{
    trimming_takes_the_white_space_around(a, m, b);
    if m[0] == '+' {
        assert(m.skip(1)[i - 1] == m[i]);
    }
}

// ---------------------------------------------------------------------------------
// Starting
// ---------------------------------------------------------------------------------

/// To start in the background is to look for a server, to open the log for output and for
/// errors, to find the program, to start it and to write down its number. The line at the
/// end tells that number, the address and the log.
pub proof fn starting_in_the_background(request: StartRequest, pid: u32)
    ensures
        first_state(false, false) == StartView::CheckRunning,
        start_step(request, StartView::CheckRunning, DaemonEventView::Running(None))
            == StartStepView::Next(StartView::OpenLog),
        start_step(request, StartView::OpenLog, DaemonEventView::Did(Ok(())))
            == StartStepView::Next(StartView::DupLog),
        start_step(request, StartView::DupLog, DaemonEventView::Did(Ok(())))
            == StartStepView::Next(StartView::FindProgram),
        start_step(request, StartView::FindProgram, DaemonEventView::Did(Ok(())))
            == StartStepView::Next(StartView::Spawn),
        start_step(request, StartView::Spawn, DaemonEventView::Spawned(Ok(Some(pid))))
            == StartStepView::Next(StartView::Record(pid)),
        start_step(request, StartView::Record(pid), DaemonEventView::Did(Ok(())))
            == StartStepView::Done(
            Ok(
                Some(
                    "adboost server started (pid "@ + decimal(pid as nat) + ") on "@
                        + request.address@ + "; logs at "@ + request.log_file@,
                ),
            ),
        ),
{
}

/// Where a server runs already, its number is told and nothing is started.
pub proof fn a_running_server_is_told(request: StartRequest, pid: u32)
    ensures
        start_step(request, StartView::CheckRunning, DaemonEventView::Running(Some(pid)))
            == StartStepView::Done(
            Ok(Some("adboost server already running (pid "@ + decimal(pid as nat) + ")"@)),
        ),
{
}

/// The process in the background writes down its number, serves, and removes the file; one
/// in the foreground serves and removes the file. How serving ended is how the command
/// ends.
pub proof fn serving_in_this_process(
    request: StartRequest,
    foreground: bool,
    served: Result<(), Seq<char>>,
    event: DaemonEventView,
)
    ensures
        first_state(foreground, true) == StartView::Claim,
        first_state(true, false) == StartView::Serve,
        start_step(request, StartView::Claim, DaemonEventView::Did(Ok(()))) == StartStepView::Next(
            StartView::Serve,
        ),
        start_step(request, StartView::Serve, DaemonEventView::Did(served)) == StartStepView::Next(
            StartView::Unclaim(served),
        ),
        served is Ok ==> start_step(request, StartView::Unclaim(served), event)
            == StartStepView::Done(Ok(None)),
        served is Err ==> start_step(request, StartView::Unclaim(served), event)
            == StartStepView::Done(Err(served->Err_0)),
{
}

/// What goes wrong while the server is started ends the command, which says what it was
/// and why.
pub proof fn starting_fails_with_a_cause(request: StartRequest, pid: u32, e: Seq<char>)
    ensures
        ({
            let failed = DaemonEventView::Did(Err(e));
            &&& start_step(request, StartView::Claim, failed) == StartStepView::Done(
                Err("cannot write pid file: "@ + e),
            )
            &&& start_step(request, StartView::Record(pid), failed) == StartStepView::Done(
                Err("cannot write pid file: "@ + e),
            )
            &&& start_step(request, StartView::OpenLog, failed) == StartStepView::Done(
                Err("cannot open log file "@ + request.log_file@ + ": "@ + e),
            )
            &&& start_step(request, StartView::DupLog, failed) == StartStepView::Done(
                Err("cannot dup log handle: "@ + e),
            )
            &&& start_step(request, StartView::FindProgram, failed) == StartStepView::Done(
                Err("cannot resolve own exe: "@ + e),
            )
            &&& start_step(request, StartView::Spawn, DaemonEventView::Spawned(Err(e)))
                == StartStepView::Done(Err("cannot spawn daemon: "@ + e))
            &&& start_step(request, StartView::Spawn, DaemonEventView::Spawned(Ok(None)))
                == StartStepView::Done(Err("spawned daemon has no pid"@))
        }),
{
}

/// The process in the background is given the command again, with the address and the file
/// of the one that starts it.
pub proof fn the_background_serves_the_same(address: Seq<char>, pid_file: Seq<char>)
    ensures
        ({
            let args = background_args(address, pid_file);
            &&& args.len() == 6
            &&& args[0] == "server"@
            &&& args[1] == "start"@
            &&& args[2] == "--address"@
            &&& args[3] == address
            &&& args[4] == "--pid-file"@
            &&& args[5] == pid_file
        }),
{
}

/// The line when serving begins tells the address and how the server runs.
pub proof fn serving_is_announced(address: Seq<char>)
    ensures
        serving_text(address, true) == "adboost server running (foreground) on "@ + address,
        serving_text(address, false) == "adboost server daemon serving on "@ + address,
{
    reveal_strlit("adboost server ");
    reveal_strlit("running (foreground)");
    reveal_strlit("daemon serving");
    reveal_strlit(" on ");
    reveal_strlit("adboost server running (foreground) on ");
    reveal_strlit("adboost server daemon serving on ");
    assert(serving_text(address, true) =~= "adboost server running (foreground) on "@ + address);
    assert(serving_text(address, false) =~= "adboost server daemon serving on "@ + address);
}

/// A signal ends serving well and is told; a listener that ends is not told of; a failure
/// is an error with its cause.
pub proof fn the_end_of_serving_is_told(e: String)
    ensures
        serving_ended(ServeEnd::Served(Ok(()))) == Ok::<Option<Seq<char>>, Seq<char>>(None),
        serving_ended(ServeEnd::Served(Err(e))) == Err::<Option<Seq<char>>, Seq<char>>(
            "server error: "@ + e@,
        ),
        serving_ended(ServeEnd::NoHandler(e)) == Err::<Option<Seq<char>>, Seq<char>>(
            "cannot install SIGTERM handler: "@ + e@,
        ),
        serving_ended(ServeEnd::Terminated) == Ok::<Option<Seq<char>>, Seq<char>>(
            Some("SIGTERM received; shutting down adb server"@),
        ),
        serving_ended(ServeEnd::Interrupted) == Ok::<Option<Seq<char>>, Seq<char>>(
            Some("interrupt received; shutting down adb server"@),
        ),
{
}

// ---------------------------------------------------------------------------------
// Stopping
// ---------------------------------------------------------------------------------

/// The state after so many looks that each found the server alive, with the pauses
/// between them.
pub open spec fn looked(state: KillState, looks: nat) -> KillState
    decreases looks,
{
    if looks == 0 {
        state
    } else {
        match looked(state, (looks - 1) as nat) {
            KillState::Look(pid, left) => match kill_step(
                KillState::Look(pid, left),
                DaemonEventView::Alive(true),
            ) {
                KillStepView::Next(paused) => match kill_step(
                    paused,
                    DaemonEventView::Did(Ok(())),
                ) {
                    KillStepView::Next(next) => next,
                    KillStepView::Done(_) => state,
                },
                KillStepView::Done(_) => state,
            },
            other => other,
        }
    }
}

/// The server that is found is the one that is asked to end; it is then looked for. A
/// number that no process can have is refused.
pub proof fn the_server_is_asked_to_end(pid: u32, e: Seq<char>)
    ensures
        pid <= i32::MAX ==> signable(pid) == Some(pid as int),
        pid > i32::MAX ==> signable(pid) == None::<int>,
        pid <= i32::MAX ==> kill_step(
            KillState::CheckRunning,
            DaemonEventView::Running(Some(pid)),
        ) == KillStepView::Next(KillState::Terminate(pid)),
        pid > i32::MAX ==> kill_step(
            KillState::CheckRunning,
            DaemonEventView::Running(Some(pid)),
        ) == KillStepView::Done(Err("pid "@ + decimal(pid as nat) + " out of range"@)),
        kill_step(KillState::Terminate(pid), DaemonEventView::Did(Ok(())))
            matches KillStepView::Next(next) && next is Look && next->Look_0 == pid,
        kill_step(KillState::Terminate(pid), DaemonEventView::Did(Err(e))) == KillStepView::Done(
            Err("failed to signal pid "@ + decimal(pid as nat) + ": "@ + e),
        ),
{
}

/// The server is given a second to end: it is looked for every fifty milliseconds, and each
/// look that finds it alive leaves one look fewer.
pub proof fn the_server_is_given_time(pid: u32, looks: nat)
    requires
        looks <= 20,
    ensures
        kill_step(KillState::Terminate(pid), DaemonEventView::Did(Ok(())))
            == KillStepView::Next(KillState::Look(pid, 20)),
        looks < 20 ==> looked(KillState::Look(pid, 20), looks) == KillState::Look(
            pid,
            (20 - looks) as u8,
        ),
        looks == 20 ==> looked(KillState::Look(pid, 20), looks) == KillState::LastLook(pid),
        20 * EXIT_PAUSE_MS == 1000,
    decreases looks,
{
    if looks > 0 {
        the_server_is_given_time(pid, (looks - 1) as nat);
    }
}

/// A server that has ended is not waited for: whichever look finds it gone, the file is
/// removed and the number told. One that is there to the last is ended first.
pub proof fn the_server_is_gone_in_the_end(pid: u32, left: u8, event: DaemonEventView)
    ensures
        kill_step(KillState::Look(pid, left), DaemonEventView::Alive(false))
            == KillStepView::Next(KillState::LastLook(pid)),
        kill_step(KillState::LastLook(pid), DaemonEventView::Alive(false)) == KillStepView::Next(
            KillState::Remove(pid),
        ),
        kill_step(KillState::LastLook(pid), DaemonEventView::Alive(true)) == KillStepView::Next(
            KillState::Kill(pid),
        ),
        kill_step(KillState::Kill(pid), event) == KillStepView::Next(KillState::Remove(pid)),
        kill_step(KillState::Remove(pid), event) == KillStepView::Done(
            Ok("stopped adboost server (pid "@ + decimal(pid as nat) + ")"@),
        ),
        escalation_text(pid) == "pid "@ + decimal(pid as nat)
            + " did not exit on SIGTERM; sending SIGKILL"@,
{
}

/// Where no server runs, what is left of its file is removed, and that is no error.
pub proof fn stale_files_are_removed(event: DaemonEventView)
    ensures
        kill_step(KillState::CheckRunning, DaemonEventView::Running(None)) == KillStepView::Next(
            KillState::RemoveStale,
        ),
        kill_step(KillState::RemoveStale, event) == KillStepView::Done(
            Ok("no running adboost server found (no live pid file)"@),
        ),
{
}

} // verus!
