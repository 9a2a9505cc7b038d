use adboost::daemon::{
    begin_start, daemon_args, escalation_line, kill, plan_server, recorded_pid, resolve_log_file,
    resolve_pid_file, run_server, running_pid, serving_line, signed_pid, start, DaemonEvent,
    KillState, KillStep, ServeEnd, ServerCommand, ServerPlan, StartRequest, StartState, StartStep,
    Surroundings, EXIT_LOOKS,
};
use adboost::path::{join, with_file_name};

fn s(t: &str) -> String {
    t.to_string()
}

/// The paths of this library against those of the standard library.
#[test]
fn paths_are_those_of_the_system() {
    let dirs = [
        "", "/", "a", "a/", "/a", "/a/b", "a//b", "a/./b", ".", "..", "a/..", "a/.", "/.", "./a",
        "//", "///a//", "./.", "a/b/./", "/a/./b//", "../a", "a.", ".a", "a/.b", "/..", "a/../.",
    ];
    for dir in dirs {
        for name in ["x", "server.log"] {
            let expected = std::path::Path::new(dir).join(name);
            assert_eq!(join(dir, name), expected.to_str().unwrap(), "join of {dir:?}");
            let expected = std::path::Path::new(dir).with_file_name(name);
            assert_eq!(
                with_file_name(dir, name),
                expected.to_str().unwrap(),
                "file name of {dir:?}"
            );
        }
    }
    assert_eq!(join("a", "/b"), "/b");
}

#[test]
fn the_pid_file_is_looked_for_in_order() {
    assert_eq!(
        resolve_pid_file(Some(s("p")), Some(s("/run")), Some(s("/home/u")), "/tmp"),
        "p"
    );
    assert_eq!(
        resolve_pid_file(None, Some(s("/run/user/1")), Some(s("/home/u")), "/tmp"),
        "/run/user/1/adboost/server.pid"
    );
    assert_eq!(
        resolve_pid_file(None, Some(s("")), Some(s("/home/u")), "/tmp"),
        "/home/u/.android/adboost-server.pid"
    );
    assert_eq!(
        resolve_pid_file(None, None, Some(s("/home/u")), "/tmp"),
        "/home/u/.android/adboost-server.pid"
    );
    assert_eq!(resolve_pid_file(None, None, None, "/tmp"), "/tmp/adboost-server.pid");
}

#[test]
fn the_log_stands_beside_the_pid_file() {
    assert_eq!(
        resolve_log_file(None, "/run/user/1/adboost/server.pid"),
        "/run/user/1/adboost/server.log"
    );
    assert_eq!(resolve_log_file(Some(s("l")), "/run/server.pid"), "l");
}

#[test]
fn commands_on_the_server_find_their_files() {
    let around = || Surroundings {
        runtime_dir: Some(s("/run/u")),
        home: None,
        temp_dir: s("/tmp"),
        daemon_child: true,
    };
    let start = ServerCommand::Start {
        address: s("a:1"),
        foreground: false,
        pid_file: None,
        log_file: None,
    };
    assert_eq!(
        plan_server(start, around()),
        ServerPlan::Start(StartRequest {
            address: s("a:1"),
            foreground: false,
            daemon_child: true,
            pid_file: s("/run/u/adboost/server.pid"),
            log_file: s("/run/u/adboost/server.log"),
        })
    );
    assert_eq!(
        plan_server(ServerCommand::Kill { pid_file: Some(s("p")) }, around()),
        ServerPlan::Kill(s("p"))
    );
}

#[test]
fn a_server_runs_if_its_process_is_alive() {
    assert_eq!(recorded_pid(Some(" 42\n")), Some(42));
    assert_eq!(recorded_pid(Some("4294967296")), None);
    assert_eq!(recorded_pid(Some("x")), None);
    assert_eq!(recorded_pid(None), None);
    assert_eq!(running_pid(Some("42"), true), Some(42));
    assert_eq!(running_pid(Some("42"), false), None);
    assert_eq!(running_pid(None, true), None);
    assert_eq!(signed_pid(42), Some(42));
    assert_eq!(signed_pid(0x7fff_ffff), Some(i32::MAX));
    assert_eq!(signed_pid(0x8000_0000), None);
}

fn request(foreground: bool, daemon_child: bool) -> StartRequest {
    StartRequest {
        address: s("127.0.0.1:5037"),
        foreground,
        daemon_child,
        pid_file: s("/run/p"),
        log_file: s("/run/l"),
    }
}

#[test]
fn a_server_is_started_in_the_background() {
    let r = request(false, false);
    let mut state = begin_start(r.foreground, r.daemon_child);
    assert_eq!(state, StartState::CheckRunning);
    for event in [
        DaemonEvent::Running(None),
        DaemonEvent::Did(Ok(())),
        DaemonEvent::Did(Ok(())),
        DaemonEvent::Did(Ok(())),
        DaemonEvent::Spawned(Ok(Some(7))),
    ] {
        match start(&r, state, event) {
            StartStep::Next(next) => state = next,
            StartStep::Done(end) => panic!("ended early: {end:?}"),
        }
    }
    assert_eq!(state, StartState::Record(7));
    assert_eq!(
        start(&r, state, DaemonEvent::Did(Ok(()))),
        StartStep::Done(Ok(Some(s(
            "adboost server started (pid 7) on 127.0.0.1:5037; logs at /run/l"
        ))))
    );
    assert_eq!(
        daemon_args(&r),
        ["server", "start", "--address", "127.0.0.1:5037", "--pid-file", "/run/p"]
    );
}

#[test]
fn a_second_server_is_not_started() {
    let r = request(false, false);
    assert_eq!(
        start(&r, StartState::CheckRunning, DaemonEvent::Running(Some(9))),
        StartStep::Done(Ok(Some(s("adboost server already running (pid 9)"))))
    );
}

#[test]
fn failures_to_start_are_told() {
    let r = request(false, false);
    let fail = |state, event| match start(&r, state, event) {
        StartStep::Done(Err(e)) => e,
        other => panic!("unexpected step {other:?}"),
    };
    let e = || DaemonEvent::Did(Err(s("e")));
    assert_eq!(fail(StartState::Claim, e()), "cannot write pid file: e");
    assert_eq!(fail(StartState::OpenLog, e()), "cannot open log file /run/l: e");
    assert_eq!(fail(StartState::DupLog, e()), "cannot dup log handle: e");
    assert_eq!(fail(StartState::FindProgram, e()), "cannot resolve own exe: e");
    assert_eq!(
        fail(StartState::Spawn, DaemonEvent::Spawned(Err(s("e")))),
        "cannot spawn daemon: e"
    );
    assert_eq!(
        fail(StartState::Spawn, DaemonEvent::Spawned(Ok(None))),
        "spawned daemon has no pid"
    );
    assert_eq!(fail(StartState::Record(1), e()), "cannot write pid file: e");
    assert_eq!(fail(StartState::Spawn, DaemonEvent::Alive(true)), "unexpected event");
}

#[test]
fn a_process_that_serves_cleans_up() {
    assert_eq!(begin_start(true, false), StartState::Serve);
    assert_eq!(begin_start(false, true), StartState::Claim);
    let r = request(true, false);
    assert_eq!(
        start(&r, StartState::Serve, DaemonEvent::Did(Err(s("e")))),
        StartStep::Next(StartState::Unclaim(Err(s("e"))))
    );
    assert_eq!(
        start(&r, StartState::Unclaim(Err(s("e"))), DaemonEvent::Did(Ok(()))),
        StartStep::Done(Err(s("e")))
    );
    assert_eq!(
        start(&r, StartState::Unclaim(Ok(())), DaemonEvent::Did(Ok(()))),
        StartStep::Done(Ok(None))
    );
    assert_eq!(serving_line("a:1", true), "adboost server running (foreground) on a:1");
    assert_eq!(serving_line("a:1", false), "adboost server daemon serving on a:1");
}

#[test]
fn what_ends_the_serving() {
    assert_eq!(run_server(&ServeEnd::Served(Ok(()))), Ok(None));
    assert_eq!(run_server(&ServeEnd::Served(Err(s("e")))), Err(s("server error: e")));
    assert_eq!(
        run_server(&ServeEnd::NoHandler(s("e"))),
        Err(s("cannot install SIGTERM handler: e"))
    );
    assert_eq!(
        run_server(&ServeEnd::Terminated),
        Ok(Some(s("SIGTERM received; shutting down adb server")))
    );
    assert_eq!(
        run_server(&ServeEnd::Interrupted),
        Ok(Some(s("interrupt received; shutting down adb server")))
    );
}

/// Stops a server that goes away after so many looks; the states passed through.
fn stop(alive_for: u32) -> (Vec<KillState>, Result<String, String>) {
    let mut state = KillState::CheckRunning;
    let mut passed = vec![state];
    let mut looks = 0;
    loop {
        let event = match state {
            KillState::CheckRunning => DaemonEvent::Running(Some(7)),
            KillState::Look(_, _) | KillState::LastLook(_) => {
                looks += 1;
                DaemonEvent::Alive(looks <= alive_for)
            }
            _ => DaemonEvent::Did(Ok(())),
        };
        match kill(state, event) {
            KillStep::Next(next) => {
                state = next;
                passed.push(next);
            }
            KillStep::Done(end) => return (passed, end),
        }
    }
}

#[test]
fn a_server_is_asked_before_it_is_ended() {
    let (passed, end) = stop(3);
    assert_eq!(end, Ok(s("stopped adboost server (pid 7)")));
    assert!(passed.contains(&KillState::Terminate(7)));
    assert!(!passed.contains(&KillState::Kill(7)));
    let (passed, end) = stop(1000);
    assert_eq!(end, Ok(s("stopped adboost server (pid 7)")));
    assert!(passed.contains(&KillState::Kill(7)));
    let looks = passed.iter().filter(|p| matches!(p, KillState::Look(_, _))).count();
    assert_eq!(looks, usize::from(EXIT_LOOKS));
    assert_eq!(escalation_line(7), "pid 7 did not exit on SIGTERM; sending SIGKILL");
}

#[test]
fn failures_to_stop_are_told() {
    assert_eq!(
        kill(KillState::CheckRunning, DaemonEvent::Running(None)),
        KillStep::Next(KillState::RemoveStale)
    );
    assert_eq!(
        kill(KillState::RemoveStale, DaemonEvent::Did(Ok(()))),
        KillStep::Done(Ok(s("no running adboost server found (no live pid file)")))
    );
    assert_eq!(
        kill(KillState::CheckRunning, DaemonEvent::Running(Some(0xffff_ffff))),
        KillStep::Done(Err(s("pid 4294967295 out of range")))
    );
    assert_eq!(
        kill(KillState::Terminate(7), DaemonEvent::Did(Err(s("e")))),
        KillStep::Done(Err(s("failed to signal pid 7: e")))
    );
    assert_eq!(
        kill(KillState::LastLook(7), DaemonEvent::Running(None)),
        KillStep::Done(Err(s("unexpected event")))
    );
}
