//! Scripted whole-session runs: the session loop driven by a `FilePrompt`
//! and a scripted gateway standing in for the container runtime, replaying
//! the results a real runtime reports for these commands.

use dockershell::prompt::FilePrompt;
use dockershell::session::{pwd_probe, session_base, set_pwd, NameGen, Session};
use dockershell::state::State;
use dockershell::step::{complete_exec, parse_line, ExecResults, LineResult, ParsedLine, StepError};

fn s(x: &str) -> String {
    x.to_owned()
}

fn reply(state_change: bool, output: &str, container: &str) -> Option<ExecResults> {
    Some(ExecResults {
        state_change,
        output: s(output),
        container_name: s(container),
    })
}

/// Drive a whole session: the scripted prompt supplies the lines of
/// `initial` after its `FROM` line, and `replies` supplies what the
/// gateway reports, in order — first for the initial `pwd` probe, then
/// one per execution request. Builds always validate. Returns the session
/// as the loop left it and the outcome of every processed line.
fn run_session(
    initial: State,
    replies: Vec<Option<ExecResults>>,
) -> (Session, Vec<Result<LineResult, StepError>>) {
    let mut replies = replies.into_iter();
    let mut prompt = FilePrompt::from_state(&initial);
    let mut base = session_base(&initial).expect("the FROM line names an image");
    let probe = pwd_probe(&base);
    drop(probe);
    let probe_reply = replies
        .next()
        .expect("a reply for the pwd probe")
        .expect("the probe ran");
    set_pwd(&mut base, &probe_reply.output);
    let mut session = Session::new(base);
    let mut namegen = NameGen::new();
    let mut pending_tag: Option<String> = None;
    let mut results: Vec<Result<LineResult, StepError>> = Vec::new();
    loop {
        let line = match prompt.next_line() {
            Ok(l) => l,
            Err(_) => break,
        };
        if let Some(tag) = pending_tag.take() {
            session.resolve_build(tag, true);
        }
        let outcome = match parse_line(&line, session.current()) {
            ParsedLine::Meta(res) => Ok((res, false)),
            ParsedLine::Exec(req) => {
                let gw = replies.next().expect("a scripted gateway reply");
                complete_exec(req, gw)
            }
        };
        match outcome {
            Ok((res, sched)) => {
                results.push(Ok(res.clone()));
                if let LineResult::Exit = res {
                    break;
                }
                let df = session.apply(res, sched);
                if df.is_some() {
                    pending_tag = Some(namegen.fresh());
                }
            }
            Err(e) => {
                results.push(Err(e));
            }
        }
    }
    (session, results)
}

fn expected_state(lines: Vec<Vec<String>>, image_name: &str, pwd: &str) -> State {
    State {
        debug: true,
        tty: false,
        lines,
        image_name: s(image_name),
        pwd: s(pwd),
        shell: s("/bin/sh"),
    }
}

#[test]
fn state_change_cd_up() {
    let state = State {
        lines: vec![vec![s("FROM"), s("alpine:edge")], vec![s("cd ..")]],
        ..State::test()
    };
    let (_, results) = run_session(
        state,
        vec![reply(false, "/bin\n", "c0"), reply(true, "/\n", "c1")],
    );
    assert_eq!(
        results,
        vec![Ok(LineResult::State(
            expected_state(
                vec![vec![s("FROM"), s("alpine:edge")], vec![s("WORKDIR"), s("/")]],
                "Pending",
                "/",
            ),
            s("/\n"),
        ))],
    );
}

#[test]
fn state_change_cd_root() {
    let state = State {
        lines: vec![
            vec![s("FROM"), s("alpine:edge")],
            vec![s("cd /")],
            vec![s("mkdir temp")],
        ],
        ..State::test()
    };
    let (_, results) = run_session(
        state,
        vec![
            reply(false, "/bin\n", "c0"),
            reply(true, "/\n", "c1"),
            reply(true, "", "c2"),
        ],
    );
    assert_eq!(
        results,
        vec![
            Ok(LineResult::State(
                expected_state(
                    vec![vec![s("FROM"), s("alpine:edge")], vec![s("WORKDIR"), s("/")]],
                    "Pending",
                    "/",
                ),
                s("/\n"),
            )),
            Ok(LineResult::State(
                expected_state(
                    vec![
                        vec![s("FROM"), s("alpine:edge")],
                        vec![s("WORKDIR"), s("/")],
                        vec![s("RUN"), s("mkdir temp")],
                    ],
                    "Pending",
                    "/",
                ),
                s(""),
            )),
        ],
    );
}

#[test]
fn state_change_mk_dir() {
    let state = State {
        lines: vec![vec![s("FROM"), s("alpine:edge")], vec![s("mkdir /bin/foo")]],
        ..State::test()
    };
    let (_, results) = run_session(
        state,
        vec![reply(false, "/bin\n", "c0"), reply(true, "", "c1")],
    );
    assert_eq!(
        results,
        vec![Ok(LineResult::State(
            expected_state(
                vec![
                    vec![s("FROM"), s("alpine:edge")],
                    vec![s("RUN"), s("mkdir /bin/foo")],
                ],
                "Pending",
                "/bin",
            ),
            s(""),
        ))],
    );
}

#[test]
fn mk_and_rm_dir() {
    let state = State {
        lines: vec![
            vec![s("FROM"), s("alpine:edge")],
            vec![s("mkdir /bin/foo")],
            vec![s("rmdir /bin/foo")],
        ],
        ..State::test()
    };
    let (_, results) = run_session(
        state,
        vec![
            reply(false, "/bin\n", "c0"),
            reply(true, "", "c1"),
            reply(true, "", "c2"),
        ],
    );
    assert_eq!(
        results,
        vec![
            Ok(LineResult::State(
                expected_state(
                    vec![
                        vec![s("FROM"), s("alpine:edge")],
                        vec![s("RUN"), s("mkdir /bin/foo")],
                    ],
                    "Pending",
                    "/bin",
                ),
                s(""),
            )),
            Ok(LineResult::State(
                expected_state(
                    vec![
                        vec![s("FROM"), s("alpine:edge")],
                        vec![s("RUN"), s("mkdir /bin/foo")],
                        vec![s("RUN"), s("rmdir /bin/foo")],
                    ],
                    "Pending",
                    "/bin",
                ),
                s(""),
            )),
        ],
    );
}

#[test]
fn no_op_with_output_to_std_err() {
    let state = State {
        lines: vec![vec![s("FROM"), s("alpine:edge")], vec![s(">&2 echo Hello")]],
        ..State::test()
    };
    let (session, results) = run_session(
        state,
        vec![reply(false, "/bin\n", "c0"), reply(false, "Hello\n", "c1")],
    );
    assert_eq!(results, vec![Ok(LineResult::NoOp(s("Hello\n")))]);
    assert_eq!(
        session.current().lines,
        vec![vec![s("FROM"), s("alpine:edge")]],
    );
}

#[test]
fn change_to_bad_dir_should_not_panic() {
    let state = State {
        lines: vec![
            vec![s("FROM"), s("alpine:edge")],
            vec![s("cd ....")],
            vec![s("echo Hi")],
        ],
        ..State::test()
    };
    let (session, results) = run_session(
        state,
        vec![
            reply(false, "/bin\n", "c0"),
            // The failed change prints the shell's complaint and then the
            // unchanged directory: two lines, so the step is rejected.
            reply(true, "/bin/sh: cd: can't cd to ....\n/bin\n", "c1"),
            reply(false, "Hi\n", "c2"),
        ],
    );
    assert_eq!(
        results,
        vec![
            Err(StepError::AmbiguousOutput),
            Ok(LineResult::NoOp(s("Hi\n"))),
        ],
    );
    // The instruction log is unchanged after both lines.
    assert_eq!(session.current().lines.len(), 1);
}

#[test]
fn change_dir_should_go_up_a_dir() {
    let state = State {
        lines: vec![
            vec![s("FROM"), s("alpine:edge")],
            vec![s("cd ..")],
            vec![s("pwd")],
            vec![s("pwd")],
        ],
        ..State::test()
    };
    let (_, results) = run_session(
        state,
        vec![
            reply(false, "/bin\n", "c0"),
            reply(true, "/\n", "c1"),
            reply(false, "/\n", "c2"),
            reply(false, "/\n", "c3"),
        ],
    );
    assert_eq!(
        results,
        vec![
            Ok(LineResult::State(
                expected_state(
                    vec![vec![s("FROM"), s("alpine:edge")], vec![s("WORKDIR"), s("/")]],
                    "Pending",
                    "/",
                ),
                s("/\n"),
            )),
            Ok(LineResult::NoOp(s("/\n"))),
            Ok(LineResult::NoOp(s("/\n"))),
        ],
    );
}

#[test]
fn cd_then_mkdir_then_rmdir() {
    // Three accepted instructions in order, zero no-ops.
    let state = State {
        lines: vec![
            vec![s("FROM"), s("alpine:edge")],
            vec![s("cd ..")],
            vec![s("mkdir /bin/foo")],
            vec![s("rmdir /bin/foo")],
        ],
        ..State::test()
    };
    let (session, results) = run_session(
        state,
        vec![
            reply(false, "/bin\n", "c0"),
            reply(true, "/\n", "c1"),
            reply(true, "", "c2"),
            reply(true, "", "c3"),
        ],
    );
    assert_eq!(results.len(), 3);
    let expected_logs: Vec<Vec<Vec<String>>> = vec![
        vec![vec![s("FROM"), s("alpine:edge")], vec![s("WORKDIR"), s("/")]],
        vec![
            vec![s("FROM"), s("alpine:edge")],
            vec![s("WORKDIR"), s("/")],
            vec![s("RUN"), s("mkdir /bin/foo")],
        ],
        vec![
            vec![s("FROM"), s("alpine:edge")],
            vec![s("WORKDIR"), s("/")],
            vec![s("RUN"), s("mkdir /bin/foo")],
            vec![s("RUN"), s("rmdir /bin/foo")],
        ],
    ];
    for (result, expected_log) in results.iter().zip(expected_logs.iter()) {
        match result {
            Ok(LineResult::State(ns, _)) => assert_eq!(&ns.lines, expected_log),
            other => panic!("expected an accepted transition, got {:?}", other),
        }
    }
    assert_eq!(&session.current().lines, expected_logs.last().unwrap());
}

#[test]
fn grep_is_noop() {
    // A command with no filesystem effect yields exactly `NoOp("")` and
    // leaves the instruction log unchanged.
    let state = State {
        lines: vec![vec![s("FROM"), s("alpine:edge")], vec![s("grep")]],
        ..State::test()
    };
    let (session, results) = run_session(
        state,
        vec![reply(false, "/bin\n", "c0"), reply(false, "", "c1")],
    );
    assert_eq!(results, vec![Ok(LineResult::NoOp(s("")))]);
    assert_eq!(
        session.current().lines,
        vec![vec![s("FROM"), s("alpine:edge")]],
    );
}

#[test]
fn redundant_workdir_collapse() {
    // Two consecutive directory changes leave one trailing WORKDIR
    // instruction, not two.
    let state = State {
        lines: vec![
            vec![s("FROM"), s("alpine:edge")],
            vec![s("cd /")],
            vec![s("cd /")],
        ],
        ..State::test()
    };
    let (session, results) = run_session(
        state,
        vec![
            reply(false, "/bin\n", "c0"),
            reply(true, "/\n", "c1"),
            reply(true, "/\n", "c2"),
        ],
    );
    assert_eq!(results.len(), 2);
    assert_eq!(
        session.current().lines,
        vec![vec![s("FROM"), s("alpine:edge")], vec![s("WORKDIR"), s("/")]],
    );
}

#[test]
fn exit_ends_the_session() {
    let state = State {
        lines: vec![
            vec![s("FROM"), s("alpine:edge")],
            vec![s("exit")],
            vec![s("pwd")],
        ],
        ..State::test()
    };
    let (_, results) = run_session(state, vec![reply(false, "/bin\n", "c0")]);
    // The loop stops at `exit`; the later line is never processed.
    assert_eq!(results, vec![Ok(LineResult::Exit)]);
}
