//! The session state: one snapshot of the interpreter's progress.
//!
//! A `State` carries the instruction log, the image the log currently
//! represents, the last observed working directory, the shell used to run
//! instruction arguments, and the debug / tty toggles. Snapshots are
//! copied on every transition and kept on the session's state stack.

use vstd::prelude::*;

use crate::instructions::lines_wf;

verus! {

/// The mathematical model of a `State`: the same fields, over sequences.
#[verifier::ext_equal]
pub ghost struct StateV {
    pub debug: bool,
    pub tty: bool,
    pub lines: Seq<Seq<Seq<char>>>,
    pub image_name: Seq<char>,
    pub pwd: Seq<char>,
    pub shell: Seq<char>,
}

impl StateV {
    /// A state is well formed when its instruction log is: non-empty and
    /// opened by a `FROM` line.
    pub open spec fn wf(self) -> bool {
        lines_wf(self.lines)
    }
}

/// One snapshot of the session.
#[derive(Debug, PartialEq)]
pub struct State {
    pub debug: bool,
    /// Enables raw terminal streaming for interactive runs; orthogonal to
    /// build semantics.
    pub tty: bool,
    /// The instruction log: each instruction as its ordered tokens.
    pub lines: Vec<Vec<String>>,
    /// The image the log currently represents, or the pending placeholder
    /// while a build is in flight.
    pub image_name: String,
    /// The last observed working directory, shown in the prompt and used
    /// to collapse redundant directory changes.
    pub pwd: String,
    /// The command interpreter run inside containers.
    pub shell: String,
}

impl View for State {
    type V = StateV;

    open spec fn view(&self) -> StateV {
        StateV {
            debug: self.debug,
            tty: self.tty,
            lines: self.lines.deep_view(),
            image_name: self.image_name@,
            pwd: self.pwd@,
            shell: self.shell@,
        }
    }
}

impl DeepView for State {
    type V = StateV;

    open spec fn deep_view(&self) -> StateV {
        self.view()
    }
}

/// Copy a vector of strings; the copy has the same contents.
pub fn clone_string_vec(v: &Vec<String>) -> (r: Vec<String>)
    ensures
        r@ == v@,
{
    let mut r: Vec<String> = Vec::new();
    let mut i: usize = 0;
    while i < v.len()
        invariant
            i <= v.len(),
            r@ =~= v@.take(i as int),
        decreases v.len() - i,
    {
        r.push(v[i].clone());
        i += 1;
    }
    proof {
        assert(v@.take(v.len() as int) =~= v@);
    }
    r
}

/// Copy an instruction log; the copy has the same instructions.
pub fn clone_lines(lines: &Vec<Vec<String>>) -> (r: Vec<Vec<String>>)
    ensures
        r.deep_view() == lines.deep_view(),
{
    let mut r: Vec<Vec<String>> = Vec::new();
    let mut i: usize = 0;
    while i < lines.len()
        invariant
            i <= lines.len(),
            r.deep_view() =~= lines.deep_view().take(i as int),
        decreases lines.len() - i,
    {
        let instr = clone_string_vec(&lines[i]);
        let ghost prev = r.deep_view();
        r.push(instr);
        proof {
            assert(instr.deep_view() == lines.deep_view()[i as int]);
            assert(r.deep_view() =~= prev.push(instr.deep_view()));
        }
        i += 1;
    }
    proof {
        assert(lines.deep_view().take(lines.len() as int) =~= lines.deep_view());
    }
    r
}

impl Clone for State {
    /// A copy of the snapshot, with the same model.
    fn clone(&self) -> (r: State)
        ensures
            r@ == self@,
    {
        let r = State {
            debug: self.debug,
            tty: self.tty,
            lines: clone_lines(&self.lines),
            image_name: self.image_name.clone(),
            pwd: self.pwd.clone(),
            shell: self.shell.clone(),
        };
        proof {
            assert(r@ =~~= self@);
        }
        r
    }
}

/// The model of the state every session starts from absent any
/// configuration: the default base image, an instruction log holding only
/// its `FROM` line, and an interactive terminal.
pub open spec fn initial_state_v() -> StateV {
    StateV {
        debug: false,
        tty: true,
        lines: seq![seq!["FROM"@, "alpine:edge"@]],
        image_name: "alpine:edge"@,
        pwd: Seq::empty(),
        shell: "/bin/sh"@,
    }
}

impl Default for State {
    /// The default starting state; well formed.
    fn default() -> (r: State)
        ensures
            r@ == initial_state_v(),
            r@.wf(),
    {
        let from_kind = String::from_str("FROM");
        let base = String::from_str("alpine:edge");
        let mut instr: Vec<String> = Vec::new();
        instr.push(from_kind);
        instr.push(base);
        let mut lines: Vec<Vec<String>> = Vec::new();
        lines.push(instr);
        let r = State {
            debug: false,
            tty: true,
            lines,
            image_name: String::from_str("alpine:edge"),
            pwd: String::new(),
            shell: String::from_str("/bin/sh"),
        };
        proof {
            assert(r@.lines =~~= seq![seq!["FROM"@, "alpine:edge"@]]);
            assert(r@ =~~= initial_state_v());
        }
        r
    }
}

impl State {
    /// The starting state used by scripted runs: debug on, terminal off,
    /// working directory `/bin`.
    pub fn test() -> (r: State)
        ensures
            r@ == (StateV { debug: true, tty: false, pwd: "/bin"@, ..initial_state_v() }),
            r@.wf(),
    {
        let mut r = State::default();
        r.tty = false;
        r.debug = true;
        r.pwd = String::from_str("/bin");
        proof {
            assert(r@ =~~= (StateV { debug: true, tty: false, pwd: "/bin"@, ..initial_state_v() }));
        }
        r
    }
}

/// What a pre-recorded instruction script must look like to start a
/// session: a well-formed log whose `FROM` line names a base image.
pub open spec fn script_ok(ls: Seq<Seq<Seq<char>>>) -> bool {
    &&& lines_wf(ls)
    &&& ls[0].len() >= 2
}

/// Build the starting state for a pre-recorded instruction script. The
/// base image is the second token of the script's `FROM` line. Returns
/// `None` when the script is not a well-formed instruction log.
pub fn state_from_script(lines: Vec<Vec<String>>) -> (r: Option<State>)
    ensures
        match r {
            Some(s) => {
                &&& script_ok(lines.deep_view())
                &&& s@ == (StateV {
                    lines: lines.deep_view(),
                    image_name: lines.deep_view()[0][1],
                    ..initial_state_v()
                })
                &&& s@.wf()
            },
            None => !script_ok(lines.deep_view()),
        },
{
    if lines.len() == 0 {
        return None;
    }
    if lines[0].len() < 2 {
        return None;
    }
    if !crate::strutil::str_eq(lines[0][0].as_str(), "FROM") {
        assert(lines.deep_view()[0][0] != "FROM"@);
        return None;
    }
    let mut i: usize = 0;
    while i < lines.len()
        invariant
            i <= lines.len(),
            forall|j: int| 0 <= j < i ==> lines.deep_view()[j].len() >= 1,
        decreases lines.len() - i,
    {
        if lines[i].len() == 0 {
            assert(lines.deep_view()[i as int].len() == 0);
            return None;
        }
        i += 1;
    }
    let image_name = lines[0][1].clone();
    let r = State {
        debug: false,
        tty: true,
        lines,
        image_name,
        pwd: String::new(),
        shell: String::from_str("/bin/sh"),
    };
    proof {
        assert(r@ =~~= (StateV {
            lines: r.lines.deep_view(),
            image_name: r.lines.deep_view()[0][1],
            ..initial_state_v()
        }));
    }
    Some(r)
}

} // verus!
