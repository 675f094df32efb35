//! Interpreting one line of input: the session state machine's step.
//!
//! A line is first trimmed and matched against the meta-commands, which
//! never touch the execution gateway. Every other line becomes an
//! execution request: a tentative `RUN` instruction appended to a copy of
//! the current state. The caller runs that request in an ephemeral
//! container and hands the observed result to `complete_exec`, which
//! decides whether the instruction is retained (and a build scheduled),
//! dropped as a no-op, or rejected.

use vstd::prelude::*;

use crate::state::{State, StateV};
use crate::strutil::{single_line, trim_spec};

verus! {

/// The outcome of one processed line.
#[derive(Debug, Clone, PartialEq)]
pub enum LineResult {
    /// Terminal: the session is over.
    Exit,
    /// The line had no effect; its output is still shown.
    NoOp(String),
    /// The line was accepted: the new state, and the output shown.
    State(State, String),
}

/// Why a line could not be processed at all. Both cases leave the session
/// unchanged; neither is retried automatically.
#[derive(Debug, Clone, Copy, PartialEq, Eq)]
pub enum StepError {
    /// The gateway could not create, start or attach the container.
    Gateway,
    /// A directory change printed other than exactly one line.
    AmbiguousOutput,
}

/// What the execution gateway reports of one speculative run.
#[derive(Debug, Clone, PartialEq)]
pub struct ExecResults {
    /// Did the container's filesystem diverge from its image?
    pub state_change: bool,
    /// The command's combined output.
    pub output: String,
    /// The (now removed) container that produced the result.
    pub container_name: String,
}

/// A speculative run to hand to the execution gateway: a copy of the
/// current state with the tentative `RUN` instruction appended.
pub struct ExecRequest {
    pub state: State,
    /// Was the line a directory change? Decides how the result is read.
    pub is_cd: bool,
}

/// What `parse_line` decides about a line.
pub enum ParsedLine {
    /// Resolved without touching the gateway.
    Meta(LineResult),
    /// Must be run speculatively and completed with `complete_exec`.
    Exec(ExecRequest),
}

/// The placeholder image identifier a state carries while its build is in
/// flight.
pub open spec fn pending_name() -> Seq<char> {
    "Pending"@
}

/// Is the trimmed line a directory change?
pub open spec fn is_cd_line(t: Seq<char>) -> bool {
    t == "cd"@ || (t.len() >= 3 && t.subrange(0, 3) == "cd "@)
}

/// The shell command a directory change is run as: the change itself plus
/// `pwd`, so the new directory is captured by the same container run.
pub open spec fn cd_cmd(t: Seq<char>) -> Seq<char> {
    t + " ; pwd"@
}

/// The tentative instruction appended for the trimmed line `t`.
pub open spec fn tentative_instr(t: Seq<char>) -> Seq<Seq<char>> {
    if is_cd_line(t) {
        seq!["RUN"@, cd_cmd(t)]
    } else {
        seq!["RUN"@, t]
    }
}

/// The instruction log after `undo`: the last instruction is removed,
/// unless only the `FROM` line is left.
pub open spec fn undo_lines(ls: Seq<Seq<Seq<char>>>) -> Seq<Seq<Seq<char>>> {
    if ls.len() > 1 {
        ls.drop_last()
    } else {
        ls
    }
}

/// A trailing `WORKDIR` instruction is dropped before a new one is
/// appended, so adjacent directory changes collapse to one instruction.
pub open spec fn collapse_workdir(ls: Seq<Seq<Seq<char>>>) -> Seq<Seq<Seq<char>>> {
    if ls.len() > 0 && ls.last().len() > 0 && ls.last()[0] == "WORKDIR"@ {
        ls.drop_last()
    } else {
        ls
    }
}

/// The instruction log after an accepted directory change to `pwd`,
/// starting from the log without the tentative `RUN`.
pub open spec fn cd_new_lines(orig: Seq<Seq<Seq<char>>>, pwd: Seq<char>) -> Seq<Seq<Seq<char>>> {
    collapse_workdir(orig).push(seq!["WORKDIR"@, pwd])
}

/// What `parse_line` returns for the trimmed line `t` seen in state `s`.
pub open spec fn parse_line_post(t: Seq<char>, s: StateV, r: ParsedLine) -> bool {
    if t.len() == 0 {
        match r {
            ParsedLine::Meta(LineResult::NoOp(out)) => out@ == Seq::<char>::empty(),
            _ => false,
        }
    } else if t == "exit"@ {
        r == ParsedLine::Meta(LineResult::Exit)
    } else if t == "debug"@ {
        match r {
            ParsedLine::Meta(LineResult::State(ns, out)) => {
                &&& ns@ == (StateV { debug: !s.debug, ..s })
                &&& out@ == Seq::<char>::empty()
            },
            _ => false,
        }
    } else if t == "undo"@ {
        match r {
            ParsedLine::Meta(LineResult::State(ns, out)) => {
                &&& ns@ == (StateV { lines: undo_lines(s.lines), ..s })
                &&& out@ == Seq::<char>::empty()
            },
            _ => false,
        }
    } else if t == "layers"@ || t == "image"@ {
        match r {
            ParsedLine::Meta(LineResult::NoOp(out)) => out@ == Seq::<char>::empty(),
            _ => false,
        }
    } else {
        match r {
            ParsedLine::Exec(req) => {
                &&& req.is_cd == is_cd_line(t)
                &&& req.state@ == (StateV { lines: s.lines.push(tentative_instr(t)), ..s })
            },
            _ => false,
        }
    }
}

/// What `complete_exec` returns, given the tentative state the request
/// carried, the kind of line, and what the gateway reported (`None` when
/// the gateway could not run the command at all).
pub open spec fn complete_exec_post(
    req_s: StateV,
    is_cd: bool,
    exec: Option<ExecResults>,
    r: Result<(LineResult, bool), StepError>,
) -> bool {
    match exec {
        None => r == Err::<(LineResult, bool), StepError>(StepError::Gateway),
        Some(e) => {
            if is_cd {
                let t = trim_spec(e.output@);
                if single_line(t) {
                    match r {
                        Ok((LineResult::State(ns, out), sched)) => {
                            &&& sched
                            &&& out@ == e.output@
                            &&& ns@ == (StateV {
                                lines: cd_new_lines(req_s.lines.drop_last(), t),
                                pwd: t,
                                image_name: pending_name(),
                                ..req_s
                            })
                        },
                        _ => false,
                    }
                } else {
                    r == Err::<(LineResult, bool), StepError>(StepError::AmbiguousOutput)
                }
            } else {
                if e.state_change {
                    match r {
                        Ok((LineResult::State(ns, out), sched)) => {
                            &&& sched
                            &&& out@ == e.output@
                            &&& ns@ == (StateV { image_name: pending_name(), ..req_s })
                        },
                        _ => false,
                    }
                } else {
                    match r {
                        Ok((LineResult::NoOp(out), sched)) => !sched && out@ == e.output@,
                        _ => false,
                    }
                }
            }
        },
    }
}

/// Interpret one line against the current state. Meta-commands are
/// resolved here; every other line comes back as an execution request.
pub fn parse_line(line: &str, state: &State) -> (r: ParsedLine)
    requires
        state@.wf(),
    ensures
        parse_line_post(trim_spec(line@), state@, r),
        (match r {
            ParsedLine::Exec(req) => {
                &&& req.state@.wf()
                &&& req.state@.lines.len() == state@.lines.len() + 1
            },
            _ => true,
        }),
{
    let t = crate::strutil::trim(line);
    if t.as_str().unicode_len() == 0 {
        return ParsedLine::Meta(LineResult::NoOp(String::new()));
    }
    if crate::strutil::str_eq(t.as_str(), "exit") {
        return ParsedLine::Meta(LineResult::Exit);
    }
    if crate::strutil::str_eq(t.as_str(), "debug") {
        let mut ns = state.clone();
        ns.debug = !ns.debug;
        proof {
            assert(ns@ =~~= (StateV { debug: !state@.debug, ..state@ }));
        }
        return ParsedLine::Meta(LineResult::State(ns, String::new()));
    }
    if crate::strutil::str_eq(t.as_str(), "undo") {
        let mut ns = state.clone();
        if ns.lines.len() > 1 {
            ns.lines.pop().unwrap();
        }
        proof {
            assert(ns@ =~~= (StateV { lines: undo_lines(state@.lines), ..state@ }));
        }
        return ParsedLine::Meta(LineResult::State(ns, String::new()));
    }
    if crate::strutil::str_eq(t.as_str(), "layers") {
        return ParsedLine::Meta(LineResult::NoOp(String::new()));
    }
    if crate::strutil::str_eq(t.as_str(), "image") {
        return ParsedLine::Meta(LineResult::NoOp(String::new()));
    }
    let is_cd = crate::strutil::str_eq(t.as_str(), "cd") || (t.as_str().unicode_len() >= 3
        && crate::strutil::str_eq(t.as_str().substring_char(0, 3), "cd "));
    let cmd: String = if is_cd {
        t.clone().concat(" ; pwd")
    } else {
        t.clone()
    };
    proof {
        if is_cd {
            assert(cmd@ == cd_cmd(t@));
        }
    }
    let mut instr: Vec<String> = Vec::new();
    instr.push(String::from_str("RUN"));
    instr.push(cmd);
    let mut ns = state.clone();
    ns.lines.push(instr);
    proof {
        assert(instr.deep_view() =~= tentative_instr(t@));
        assert(ns@.lines =~= state@.lines.push(tentative_instr(t@)));
        assert(ns@ =~~= (StateV { lines: state@.lines.push(tentative_instr(t@)), ..state@ }));
    }
    ParsedLine::Exec(ExecRequest { state: ns, is_cd })
}

/// Complete an execution request with what the gateway reported. Decides
/// retention: a directory change always schedules a build (after
/// collapsing a redundant trailing `WORKDIR`); any other command is kept
/// only if the filesystem changed; `None` means the gateway failed. The
/// returned flag says whether a build of the new state's instruction log
/// must be scheduled.
pub fn complete_exec(req: ExecRequest, exec: Option<ExecResults>) -> (r: Result<
    (LineResult, bool),
    StepError,
>)
    requires
        req.state@.wf(),
        req.state@.lines.len() >= 2,
    ensures
        complete_exec_post(req.state@, req.is_cd, exec, r),
        (match r {
            Ok((LineResult::State(ns, _), _)) => ns@.wf(),
            _ => true,
        }),
{
    let ghost req_s = req.state@;
    let e = match exec {
        None => {
            return Err(StepError::Gateway);
        },
        Some(e) => e,
    };
    let mut st = req.state;
    if req.is_cd {
        let trimmed = crate::strutil::trim(e.output.as_str());
        if !crate::strutil::is_single_line(trimmed.as_str()) {
            return Err(StepError::AmbiguousOutput);
        }
        st.lines.pop().unwrap();
        let ghost orig = req_s.lines.drop_last();
        proof {
            assert(st.lines.deep_view() =~= orig);
            reveal_strlit("FROM");
            reveal_strlit("WORKDIR");
            assert("FROM"@.len() == 4);
            assert("WORKDIR"@.len() == 7);
        }
        let last_idx = st.lines.len() - 1;
        if crate::strutil::str_eq(st.lines[last_idx][0].as_str(), "WORKDIR") {
            st.lines.pop().unwrap();
        }
        proof {
            assert(st.lines.deep_view() =~= collapse_workdir(orig));
        }
        let mut winstr: Vec<String> = Vec::new();
        winstr.push(String::from_str("WORKDIR"));
        winstr.push(trimmed.clone());
        st.lines.push(winstr);
        st.pwd = trimmed;
        st.image_name = String::from_str("Pending");
        proof {
            assert(winstr.deep_view() =~= seq!["WORKDIR"@, trim_spec(e.output@)]);
            assert(st.lines.deep_view() =~= cd_new_lines(orig, trim_spec(e.output@)));
            assert(st@ =~~= (StateV {
                lines: cd_new_lines(req_s.lines.drop_last(), trim_spec(e.output@)),
                pwd: trim_spec(e.output@),
                image_name: pending_name(),
                ..req_s
            }));
            assert(collapse_workdir(orig)[0] == req_s.lines[0]);
            assert(st@.wf());
        }
        Ok((LineResult::State(st, e.output), true))
    } else {
        if e.state_change {
            st.image_name = String::from_str("Pending");
            proof {
                assert(st@ =~~= (StateV { image_name: pending_name(), ..req_s }));
            }
            Ok((LineResult::State(st, e.output), true))
        } else {
            Ok((LineResult::NoOp(e.output), false))
        }
    }
}

/// A command whose speculative run reports no filesystem change is never
/// retained: its outcome is a `NoOp` carrying the run's output, and no
/// build is scheduled. Since `Session::apply` leaves the session
/// identical on a `NoOp`, repeating such a command any number of times
/// appends no instruction and never changes the current image.
pub proof fn lemma_noop_idempotence(
    req_s: StateV,
    e: ExecResults,
    r: Result<(LineResult, bool), StepError>,
)
    requires
        !e.state_change,
        complete_exec_post(req_s, false, Some(e), r),
    ensures
        (match r {
            Ok((LineResult::NoOp(out), sched)) => out@ == e.output@ && !sched,
            _ => false,
        }),
{
}

/// An accepted directory change on a log that does not already end in a
/// `WORKDIR` instruction appends exactly one `WORKDIR` record for the new
/// directory; nothing else of the log moves. (When the log does end in
/// one, that record is replaced: see `lemma_workdir_collapse`.)
pub proof fn lemma_cd_appends_workdir(orig: Seq<Seq<Seq<char>>>, pwd: Seq<char>)
    requires
        orig.len() > 0 ==> !(orig.last().len() > 0 && orig.last()[0] == "WORKDIR"@),
    ensures
        cd_new_lines(orig, pwd) == orig.push(seq!["WORKDIR"@, pwd]),
{
    assert(collapse_workdir(orig) == orig);
}

/// Adjacent directory changes collapse: a directory change accepted right
/// after another replaces the `WORKDIR` instruction the first appended,
/// instead of stacking a second one. The instruction log after the two is
/// the log a single change to the final directory would have produced.
pub proof fn lemma_workdir_collapse(orig: Seq<Seq<Seq<char>>>, p1: Seq<char>, p2: Seq<char>)
    ensures
        cd_new_lines(cd_new_lines(orig, p1), p2) == cd_new_lines(orig, p2),
{
    let first = cd_new_lines(orig, p1);
    assert(first.last() == seq!["WORKDIR"@, p1]);
    assert(first.last()[0] == "WORKDIR"@);
    assert(collapse_workdir(first) =~= collapse_workdir(orig));
    assert(cd_new_lines(first, p2) =~= cd_new_lines(orig, p2));
}

/// An observer notified once per processed line, after the fact; it never
/// influences control flow.
pub trait ExecListener {
    fn command_run(&mut self, line: &str, state: &State, line_result: Result<&LineResult, StepError>);
}

/// The listener that ignores every notification.
pub struct NoOpListener {}

impl ExecListener for NoOpListener {
    fn command_run(
        &mut self,
        _line: &str,
        _state: &State,
        _line_result: Result<&LineResult, StepError>,
    ) {
    }
}

} // verus!
